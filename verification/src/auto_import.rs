//! Importing what a file says about itself into the fields somebody mapped it to.
//!
//! A mapping names an embedded value and a field. Of several mappings that feed one field the first that
//! matches wins, a value already held is left alone unless the mapping overwrites, and what the field will not
//! accept is reported rather than dropped.

use crate::commands::{as_text, Command, Given, Value};
use crate::fields::{FieldDef, FieldKind, Rejection};
use crate::json::{Document, Json, JsonView};
use crate::text::{
    after_first, ascii_lowercase, ascii_lowered, before_first, cut, first_place, int_reading,
    lemma_first_place, read_int, same, trim, trimmed, uuid_chars, uuid_text,
};
use crate::Uuid;
use vstd::prelude::*;

verus! {

/// Why a mapping was refused.
#[derive(Debug, Clone, PartialEq, Eq)]
pub enum MappingRefusal {
    UnknownField(String),
    MalformedSource(String),
    ReadOnlyTarget(String),
    Duplicate { from: String, field_key: String },
    UnknownMapping(Uuid),
}

impl MappingRefusal {
    /// The text of this refusal.
    pub open spec fn message_chars(self) -> Seq<char> {
        match self {
            MappingRefusal::UnknownField(given) => "no field is defined with the key `"@ + given@ + "`"@,
            MappingRefusal::MalformedSource(given) => "`"@ + given@ + "` is not a usable source: a source is `namespace.name`, lower-case, like `exif.artist`"@,
            MappingRefusal::ReadOnlyTarget(given) => "`"@ + given@ + "` is read-only: it describes the file, so an import must not write it"@,
            MappingRefusal::Duplicate { from, field_key } => "`"@ + from@ + "` already maps to `"@ + field_key@ + "`"@,
            MappingRefusal::UnknownMapping(given) => "no mapping "@ + uuid_chars(given) + " exists"@,
        }
    }

    /// The sentence whoever was refused reads.
    pub fn message(&self) -> (out: String)
        ensures
            out@ == self.message_chars(),
    {
        match self {
            MappingRefusal::UnknownField(given) => {
                let mut out = "no field is defined with the key `".to_owned();
                out.append(given.as_str());
                out.append("`");
                out
            },
            MappingRefusal::MalformedSource(given) => {
                let mut out = "`".to_owned();
                out.append(given.as_str());
                out.append("` is not a usable source: a source is `namespace.name`, lower-case, like `exif.artist`");
                out
            },
            MappingRefusal::ReadOnlyTarget(given) => {
                let mut out = "`".to_owned();
                out.append(given.as_str());
                out.append("` is read-only: it describes the file, so an import must not write it");
                out
            },
            MappingRefusal::Duplicate { from, field_key } => {
                let mut out = "`".to_owned();
                out.append(from.as_str());
                out.append("` already maps to `");
                out.append(field_key.as_str());
                out.append("`");
                out
            },
            MappingRefusal::UnknownMapping(given) => {
                let mut out = "no mapping ".to_owned();
                out.append(uuid_text(*given).as_str());
                out.append(" exists");
                out
            },
        }
    }
}

/// A mapping to create.
#[derive(Debug, Clone, PartialEq, Eq)]
pub struct NewMapping {
    /// The embedded name.
    pub source: String,
    pub field_key: String,
    /// Lower fires first when several sources feed one field.
    pub priority: i32,
    pub overwrite: bool,
    pub enabled: bool,
}

/// A mapping as stored.
#[derive(Debug, Clone, PartialEq, Eq)]
pub struct Mapping {
    pub id: Uuid,
    pub source: String,
    pub field_key: String,
    pub priority: i32,
    pub overwrite: bool,
    pub enabled: bool,
}

/// One side of a source name: a lower-case ASCII letter, then lower-case letters, digits and underscores.
pub open spec fn part_shaped(part: Seq<char>) -> bool {
    &&& part.len() > 0
    &&& 'a' <= part[0] <= 'z'
    &&& forall|i: int|
        0 <= i < part.len() ==> ('a' <= #[trigger] part[i] <= 'z' || '0' <= part[i] <= '9'
            || part[i] == '_')
}

/// A source name an extractor could produce: two parts with a dot between them.
pub open spec fn source_shaped(source: Seq<char>) -> bool {
    exists|dot: int|
        {
            &&& 0 <= dot < source.len()
            &&& #[trigger] source[dot] == '.'
            &&& part_shaped(source.take(dot))
            &&& part_shaped(source.skip(dot + 1))
        }
}

fn part_is_shaped(part: &str) -> (shaped: bool)
    ensures
        shaped == part_shaped(part@),
{
    if part.is_empty() {
        return false;
    }
    let first = part.get_char(0);
    if !('a' <= first && first <= 'z') {
        return false;
    }
    for c in chars: part.chars()
        invariant
            chars.seq() == part@,
            forall|i: int|
                0 <= i < chars.index() ==> ('a' <= #[trigger] part@[i] <= 'z' || '0' <= part@[i]
                    <= '9' || part@[i] == '_'),
    {
        if !(('a' <= c && c <= 'z') || ('0' <= c && c <= '9') || c == '_') {
            proof {
                assert(part@[chars.index()] == c);
            }
            return false;
        }
    }
    true
}

/// Whether a source name is shaped like one an extractor could produce.
///
/// A mapping whose left-hand side can never be produced looks correct on the screen and silently never fires.
pub fn source_is_shaped(source: &str) -> (shaped: bool)
    ensures
        shaped == source_shaped(source@),
{
    proof {
        lemma_first_place(source@, '.');
        if source_shaped(source@) {
            let dot = choose|dot: int|
                {
                    &&& 0 <= dot < source@.len()
                    &&& #[trigger] source@[dot] == '.'
                    &&& part_shaped(source@.take(dot))
                    &&& part_shaped(source@.skip(dot + 1))
                };
            let place = first_place(source@, '.');
            if place < dot {
                assert(source@.take(dot)[place] == '.');
            }
        }
    }
    match cut(source, '.') {
        Some((namespace, name)) => {
            proof {
                let place = first_place(source@, '.');
                assert(source@[place] == '.');
            }
            part_is_shaped(namespace) && part_is_shaped(name)
        },
        None => false,
    }
}

/// The mapping to store, or why it is refused. `target` is whether the field it names is read-only, where there
/// is such a field, and `clash` is whether the same source already maps to it.
pub fn create(
    spec: NewMapping,
    id: Uuid,
    target: Option<bool>,
    clash: bool,
) -> (created: Result<Mapping, MappingRefusal>)
    ensures
        match created {
            Ok(mapping) => {
                &&& source_shaped(spec.source@) && target == Some(false) && !clash
                &&& mapping == (Mapping {
                    id,
                    source: spec.source,
                    field_key: spec.field_key,
                    priority: spec.priority,
                    overwrite: spec.overwrite,
                    enabled: spec.enabled,
                })
            },
            Err(MappingRefusal::MalformedSource(given)) => !source_shaped(spec.source@) && given
                == spec.source,
            Err(MappingRefusal::UnknownField(given)) => source_shaped(spec.source@) && target is None
                && given == spec.field_key,
            Err(MappingRefusal::ReadOnlyTarget(given)) => source_shaped(spec.source@) && target
                == Some(true) && given == spec.field_key,
            Err(MappingRefusal::Duplicate { from, field_key }) => source_shaped(spec.source@)
                && target == Some(false) && clash && from == spec.source && field_key
                == spec.field_key,
            Err(MappingRefusal::UnknownMapping(_)) => false,
        },
{
    if !source_is_shaped(spec.source.as_str()) {
        return Err(MappingRefusal::MalformedSource(spec.source));
    }
    match target {
        None => return Err(MappingRefusal::UnknownField(spec.field_key)),
        Some(true) => return Err(MappingRefusal::ReadOnlyTarget(spec.field_key)),
        Some(false) => {},
    }
    if clash {
        return Err(MappingRefusal::Duplicate { from: spec.source, field_key: spec.field_key });
    }
    Ok(
        Mapping {
            id,
            source: spec.source,
            field_key: spec.field_key,
            priority: spec.priority,
            overwrite: spec.overwrite,
            enabled: spec.enabled,
        },
    )
}

/// Whether a change by identifier reached a mapping.
pub fn touched(rows: u64, id: Uuid) -> (outcome: Result<(), MappingRefusal>)
    ensures
        outcome == if rows == 0 {
            Err::<(), MappingRefusal>(MappingRefusal::UnknownMapping(id))
        } else {
            Ok(())
        },
{
    if rows == 0 {
        Err(MappingRefusal::UnknownMapping(id))
    } else {
        Ok(())
    }
}

// ----------------------------------------------------------------------------------------------------
// Candidates
// ----------------------------------------------------------------------------------------------------

/// The value one field would take.
#[derive(Debug, Clone, PartialEq, Eq)]
pub struct Candidate {
    pub field: String,
    pub value: String,
    pub overwrite: bool,
}

/// What a [`Candidate`] says, in characters.
pub struct CandidateView {
    pub field: Seq<char>,
    pub value: Seq<char>,
    pub overwrite: bool,
}

impl Candidate {
    /// What this candidate says, in characters.
    pub open spec fn view(&self) -> CandidateView {
        CandidateView { field: self.field@, value: self.value@, overwrite: self.overwrite }
    }
}

/// What each candidate of a list says.
pub open spec fn candidate_views(candidates: Seq<Candidate>) -> Seq<CandidateView> {
    Seq::new(candidates.len(), |i: int| candidates[i]@)
}

/// The embedded value named `source`.
pub open spec fn embedded_value(embedded: Seq<(String, String)>, source: Seq<char>) -> Option<Seq<char>>
    decreases embedded.len(),
{
    if embedded.len() == 0 {
        None
    } else if embedded[0].0@ == source {
        Some(embedded[0].1@)
    } else {
        embedded_value(embedded.drop_first(), source)
    }
}

/// Whether a candidate for `field` is among `candidates`.
pub open spec fn taken(candidates: Seq<CandidateView>, field: Seq<char>) -> bool {
    exists|i: int| 0 <= i < candidates.len() && (#[trigger] candidates[i]).field == field
}

/// The candidates of `mappings`, which come best first within each field: for each field, that of the first
/// enabled mapping whose source is among the embedded values.
pub open spec fn chosen(mappings: Seq<Mapping>, embedded: Seq<(String, String)>) -> Seq<CandidateView>
    decreases mappings.len(),
{
    if mappings.len() == 0 {
        Seq::empty()
    } else {
        let front = chosen(mappings.drop_last(), embedded);
        let mapping = mappings.last();
        if mapping.enabled && !taken(front, mapping.field_key@) {
            match embedded_value(embedded, mapping.source@) {
                Some(value) => front.push(
                    CandidateView {
                        field: mapping.field_key@,
                        value,
                        overwrite: mapping.overwrite,
                    },
                ),
                None => front,
            }
        } else {
            front
        }
    }
}

fn find_embedded(embedded: &Vec<(String, String)>, source: &str) -> (value: Option<String>)
    ensures
        match value {
            Some(text) => embedded_value(embedded@, source@) == Some(text@),
            None => embedded_value(embedded@, source@) is None,
        },
{
    let mut i: usize = 0;
    proof {
        assert(embedded@.skip(0) =~= embedded@);
    }
    while i < embedded.len()
        invariant
            i <= embedded@.len(),
            embedded_value(embedded@, source@) == embedded_value(embedded@.skip(i as int), source@),
        decreases embedded@.len() - i,
    {
        proof {
            let rest = embedded@.skip(i as int);
            assert(rest[0] == embedded@[i as int]);
            assert(rest.drop_first() =~= embedded@.skip(i + 1));
        }
        if same(embedded[i].0.as_str(), source) {
            return Some(embedded[i].1.clone());
        }
        i += 1;
    }
    None
}

fn is_taken(candidates: &Vec<Candidate>, field: &str) -> (yes: bool)
    ensures
        yes == taken(candidate_views(candidates@), field@),
{
    let ghost views = candidate_views(candidates@);
    let mut i: usize = 0;
    while i < candidates.len()
        invariant
            i <= candidates@.len(),
            views == candidate_views(candidates@),
            forall|j: int| 0 <= j < i ==> (#[trigger] views[j]).field != field@,
        decreases candidates@.len() - i,
    {
        proof {
            assert(views[i as int].field == candidates@[i as int].field@);
        }
        if same(candidates[i].field.as_str(), field) {
            return true;
        }
        i += 1;
    }
    false
}

/// One candidate for each field that some enabled mapping feeds from `embedded`.
pub fn candidates(
    mappings: &Vec<Mapping>,
    embedded: &Vec<(String, String)>,
) -> (candidates: Vec<Candidate>)
    ensures
        candidate_views(candidates@) == chosen(mappings@, embedded@),
{
    let mut candidates: Vec<Candidate> = Vec::new();
    let mut i: usize = 0;
    proof {
        assert(mappings@.take(0) =~= Seq::<Mapping>::empty());
        assert(candidate_views(candidates@) =~= Seq::<CandidateView>::empty());
    }
    while i < mappings.len()
        invariant
            i <= mappings@.len(),
            candidate_views(candidates@) == chosen(mappings@.take(i as int), embedded@),
        decreases mappings@.len() - i,
    {
        let mapping = &mappings[i];
        proof {
            assert(mappings@.take(i + 1).drop_last() =~= mappings@.take(i as int));
            assert(mappings@.take(i + 1).last() == mappings@[i as int]);
        }
        if mapping.enabled && !is_taken(&candidates, mapping.field_key.as_str()) {
            match find_embedded(embedded, mapping.source.as_str()) {
                Some(value) => {
                    let ghost before = candidates@;
                    let candidate = Candidate {
                        field: mapping.field_key.clone(),
                        value,
                        overwrite: mapping.overwrite,
                    };
                    let ghost said = candidate@;
                    candidates.push(candidate);
                    proof {
                        assert(candidate_views(candidates@) =~= candidate_views(before).push(said));
                    }
                },
                None => {},
            }
        }
        i += 1;
    }
    proof {
        assert(mappings@.take(i as int) =~= mappings@);
    }
    candidates
}

/// One field, one candidate: whatever the mappings, no two candidates are for the same field.
pub proof fn a_field_has_one_candidate(
    mappings: Seq<Mapping>,
    embedded: Seq<(String, String)>,
    i: int,
    j: int,
)
    requires
        0 <= i < j < chosen(mappings, embedded).len(),
    ensures
        chosen(mappings, embedded)[i].field != chosen(mappings, embedded)[j].field,
    decreases mappings.len(),
{
    let front = chosen(mappings.drop_last(), embedded);
    if j < front.len() {
        a_field_has_one_candidate(mappings.drop_last(), embedded, i, j);
    } else {
        assert(!taken(front, chosen(mappings, embedded)[j].field));
        assert(front[i].field == chosen(mappings, embedded)[i].field);
    }
}

/// The first mapping that applies wins: an enabled mapping whose source is embedded gives its field the
/// candidate, when no enabled mapping before it that feeds the same field has an embedded source.
pub proof fn the_first_applicable_mapping_wins(
    mappings: Seq<Mapping>,
    embedded: Seq<(String, String)>,
    winner: int,
)
    requires
        0 <= winner < mappings.len(),
        mappings[winner].enabled,
        embedded_value(embedded, mappings[winner].source@) is Some,
        forall|i: int|
            0 <= i < winner && (#[trigger] mappings[i]).enabled && mappings[i].field_key@
                == mappings[winner].field_key@ ==> embedded_value(embedded, mappings[i].source@) is None,
    ensures
        exists|k: int|
            0 <= k < chosen(mappings, embedded).len() && (#[trigger] chosen(mappings, embedded)[k])
                == (CandidateView {
                field: mappings[winner].field_key@,
                value: embedded_value(embedded, mappings[winner].source@)->0,
                overwrite: mappings[winner].overwrite,
            }),
    decreases mappings.len(),
{
    let front_mappings = mappings.drop_last();
    let front = chosen(front_mappings, embedded);
    let all = chosen(mappings, embedded);
    let expected = CandidateView {
        field: mappings[winner].field_key@,
        value: embedded_value(embedded, mappings[winner].source@)->0,
        overwrite: mappings[winner].overwrite,
    };
    if winner < front_mappings.len() {
        assert(front_mappings[winner] == mappings[winner]);
        assert forall|i: int|
            0 <= i < winner && (#[trigger] front_mappings[i]).enabled && front_mappings[i].field_key@
                == front_mappings[winner].field_key@ implies embedded_value(
            embedded,
            front_mappings[i].source@,
        ) is None by {
            assert(mappings[i] == front_mappings[i]);
        }
        the_first_applicable_mapping_wins(front_mappings, embedded, winner);
        let k = choose|k: int| 0 <= k < front.len() && (#[trigger] front[k]) == expected;
        assert(all[k] == expected);
    } else {
        lemma_untaken(front_mappings, embedded, mappings[winner].field_key@);
        assert(all[front.len() as int] == expected);
    }
}

proof fn lemma_untaken(mappings: Seq<Mapping>, embedded: Seq<(String, String)>, field: Seq<char>)
    requires
        forall|i: int|
            0 <= i < mappings.len() && (#[trigger] mappings[i]).enabled && mappings[i].field_key@
                == field ==> embedded_value(embedded, mappings[i].source@) is None,
    ensures
        !taken(chosen(mappings, embedded), field),
    decreases mappings.len(),
{
    if mappings.len() > 0 {
        let front_mappings = mappings.drop_last();
        assert forall|i: int|
            0 <= i < front_mappings.len() && (#[trigger] front_mappings[i]).enabled
                && front_mappings[i].field_key@ == field implies embedded_value(
            embedded,
            front_mappings[i].source@,
        ) is None by {
            assert(mappings[i] == front_mappings[i]);
        }
        lemma_untaken(front_mappings, embedded, field);
        let front = chosen(front_mappings, embedded);
        let all = chosen(mappings, embedded);
        let last = mappings[mappings.len() - 1];
        assert forall|k: int| 0 <= k < all.len() implies (#[trigger] all[k]).field != field by {
            if k < front.len() {
                assert(front[k].field != field);
            }
        }
    }
}

// ----------------------------------------------------------------------------------------------------
// Coercion
// ----------------------------------------------------------------------------------------------------

/// What a floating-point reader makes of a text.
#[derive(Debug, Clone, PartialEq, Eq)]
pub enum Float {
    /// It is not a finite number: no number at all, an infinity or not-a-number.
    Unreadable,
    /// It is a number, written as JSON writes it.
    Finite(String),
}

/// What a floating-point reader makes of the texts [`float_texts`] asks for, in their order.
#[derive(Debug, Clone, PartialEq, Eq)]
pub struct Reading {
    pub first: Float,
    pub second: Float,
}

/// The texts a value has to be read as numbers for: a decimal's own, and a coordinate's latitude and longitude.
pub open spec fn wanted_floats(value: Seq<char>, kind: Option<FieldKind>) -> Seq<Seq<char>> {
    let text = trimmed(value);
    match kind {
        Some(FieldKind::Decimal) => seq![text],
        Some(FieldKind::Geo) => if first_place(text, ',') < text.len() {
            seq![trimmed(before_first(text, ',')), trimmed(after_first(text, ','))]
        } else {
            Seq::empty()
        },
        _ => Seq::empty(),
    }
}

/// The texts to read as floating-point numbers before a value of this kind can be coerced.
pub fn float_texts(value: &str, kind: Option<FieldKind>) -> (texts: Vec<String>)
    ensures
        crate::text::all_chars(texts@) == wanted_floats(value@, kind),
{
    let mut texts: Vec<String> = Vec::new();
    match kind {
        Some(FieldKind::Decimal) => {
            texts.push(trim(value).to_owned());
        },
        Some(FieldKind::Geo) => match cut(trim(value), ',') {
            Some((lat, lon)) => {
                texts.push(trim(lat).to_owned());
                texts.push(trim(lon).to_owned());
            },
            None => {},
        },
        _ => {},
    }
    proof {
        assert(crate::text::all_chars(texts@) =~= wanted_floats(value@, kind));
    }
    texts
}

/// A text value as the shape its field takes. One that does not convert stays text, so that validation refuses
/// it and the refusal is reported.
pub open spec fn coerced(value: Seq<char>, kind: Option<FieldKind>, read: Reading) -> JsonView {
    let text = trimmed(value);
    match kind {
        Some(FieldKind::Int) => match int_reading(text) {
            Some(number) => JsonView::Int(number),
            None => JsonView::Text(value),
        },
        Some(FieldKind::Decimal) => match read.first {
            Float::Finite(number) => JsonView::Number(number@),
            _ => JsonView::Text(value),
        },
        Some(FieldKind::Bool) => {
            let word = ascii_lowered(text);
            if word == "true"@ || word == "yes"@ || word == "1"@ {
                JsonView::Bool(true)
            } else if word == "false"@ || word == "no"@ || word == "0"@ {
                JsonView::Bool(false)
            } else {
                JsonView::Text(value)
            }
        },
        Some(FieldKind::Geo) => match (read.first, read.second) {
            (Float::Finite(lat), Float::Finite(lon)) => if first_place(text, ',') < text.len() {
                JsonView::Object(
                    seq![("lat"@, JsonView::Number(lat@)), ("lon"@, JsonView::Number(lon@))],
                )
            } else {
                JsonView::Text(value)
            },
            _ => JsonView::Text(value),
        },
        Some(FieldKind::Date) => JsonView::Text(before_first(text, 'T')),
        _ => JsonView::Text(value),
    }
}

/// A text value as the shape its field takes.
///
/// Informed rather than guessed: the kind comes from the field's own definition. A timestamp names a day, so a
/// date field takes the part before its `T`; an unrecognised boolean stays text rather than being read as
/// `false`, which would turn it into a claim.
pub fn coerce(value: &str, kind: Option<FieldKind>, read: &Reading) -> (json: Json)
    ensures
        json@ == coerced(value@, kind, *read),
{
    match kind {
        Some(FieldKind::Int) => match read_int(trim(value)) {
            Some(number) => Json::Int(number),
            None => Json::Text(value.to_owned()),
        },
        Some(FieldKind::Decimal) => match &read.first {
            Float::Finite(number) => Json::Number(number.clone()),
            _ => Json::Text(value.to_owned()),
        },
        Some(FieldKind::Bool) => {
            let word = ascii_lowercase(trim(value));
            let word = word.as_str();
            if same(word, "true") || same(word, "yes") || same(word, "1") {
                Json::Bool(true)
            } else if same(word, "false") || same(word, "no") || same(word, "0") {
                Json::Bool(false)
            } else {
                Json::Text(value.to_owned())
            }
        },
        Some(FieldKind::Geo) => match (&read.first, &read.second) {
            (Float::Finite(lat), Float::Finite(lon)) => match cut(trim(value), ',') {
                Some(_) => {
                    let mut members: Vec<(String, Json)> = Vec::new();
                    let north = Json::Number(lat.clone());
                    let east = Json::Number(lon.clone());
                    let ghost parts = (north@, east@);
                    members.push(("lat".to_owned(), north));
                    members.push(("lon".to_owned(), east));
                    let json = Json::Object(members);
                    proof {
                        assert(parts == (JsonView::Number(lat@), JsonView::Number(lon@)));
                        assert(json@->Object_0 =~= seq![
                            ("lat"@, JsonView::Number(lat@)),
                            ("lon"@, JsonView::Number(lon@)),
                        ]);
                    }
                    json
                },
                None => Json::Text(value.to_owned()),
            },
            _ => Json::Text(value.to_owned()),
        },
        Some(FieldKind::Date) => match cut(trim(value), 'T') {
            Some((day, _)) => Json::Text(day.to_owned()),
            None => Json::Text(trim(value).to_owned()),
        },
        _ => Json::Text(value.to_owned()),
    }
}

/// The kind of the field `key`, by the first definition that has it.
pub open spec fn kind_of(defs: Seq<FieldDef>, key: Seq<char>) -> Option<FieldKind>
    decreases defs.len(),
{
    if defs.len() == 0 {
        None
    } else if defs[0].key@ == key {
        Some(defs[0].kind)
    } else {
        kind_of(defs.drop_first(), key)
    }
}

/// The kind of the field `key`.
pub fn field_kind(defs: &Vec<FieldDef>, key: &str) -> (kind: Option<FieldKind>)
    ensures
        kind == kind_of(defs@, key@),
{
    let mut i: usize = 0;
    proof {
        assert(defs@.skip(0) =~= defs@);
    }
    while i < defs.len()
        invariant
            i <= defs@.len(),
            kind_of(defs@, key@) == kind_of(defs@.skip(i as int), key@),
        decreases defs@.len() - i,
    {
        proof {
            let rest = defs@.skip(i as int);
            assert(rest[0] == defs@[i as int]);
            assert(rest.drop_first() =~= defs@.skip(i + 1));
        }
        if same(defs[i].key.as_str(), key) {
            return Some(defs[i].kind);
        }
        i += 1;
    }
    None
}

// ----------------------------------------------------------------------------------------------------
// The plan
// ----------------------------------------------------------------------------------------------------

/// Whether the asset holds a value under `field`. A cleared field is not a value: refusing to import into one
/// would make it permanently unfillable.
pub open spec fn held(existing: Map<Seq<char>, Json>, field: Seq<char>) -> bool {
    existing.dom().contains(field) && !(existing[field] is Null)
}

/// Whether a candidate is left out because the asset already holds a value.
pub open spec fn respected(existing: Map<Seq<char>, Json>, candidate: CandidateView) -> bool {
    held(existing, candidate.field) && !candidate.overwrite
}

/// The fields left alone, in the candidates' order.
pub open spec fn skipped_fields(
    candidates: Seq<CandidateView>,
    existing: Map<Seq<char>, Json>,
) -> Seq<Seq<char>>
    decreases candidates.len(),
{
    if candidates.len() == 0 {
        Seq::empty()
    } else {
        let front = skipped_fields(candidates.drop_last(), existing);
        if respected(existing, candidates.last()) {
            front.push(candidates.last().field)
        } else {
            front
        }
    }
}

/// The values to propose, under the fields they are for.
pub open spec fn proposed_values(
    candidates: Seq<CandidateView>,
    existing: Map<Seq<char>, Json>,
    defs: Seq<FieldDef>,
    readings: Seq<Reading>,
) -> Map<Seq<char>, JsonView>
    decreases candidates.len(),
{
    if candidates.len() == 0 {
        Map::empty()
    } else {
        let front = proposed_values(candidates.drop_last(), existing, defs, readings);
        let last = candidates.last();
        if respected(existing, last) {
            front
        } else {
            front.insert(
                last.field,
                coerced(last.value, kind_of(defs, last.field), readings[candidates.len() - 1]),
            )
        }
    }
}

/// The values of a document, in characters.
pub open spec fn value_views(values: Map<Seq<char>, Json>) -> Map<Seq<char>, JsonView> {
    values.map_values(|value: Json| value@)
}

/// What an import would try to write, and what it leaves alone.
#[derive(Debug)]
pub struct Proposal {
    pub values: Document,
    pub skipped: Vec<String>,
}

/// What an import of `candidates` would try to do to an asset that holds `existing`. `readings` is what a
/// floating-point reader made of each candidate's [`float_texts`].
pub fn propose(
    candidates: &Vec<Candidate>,
    existing: &Document,
    defs: &Vec<FieldDef>,
    readings: &Vec<Reading>,
) -> (proposal: Proposal)
    requires
        existing.wf(),
        readings@.len() == candidates@.len(),
    ensures
        proposal.values.wf(),
        value_views(proposal.values@) == proposed_values(
            candidate_views(candidates@),
            existing@,
            defs@,
            readings@,
        ),
        crate::text::all_chars(proposal.skipped@) == skipped_fields(
            candidate_views(candidates@),
            existing@,
        ),
{
    let ghost views = candidate_views(candidates@);
    let mut values = Document::new();
    let mut skipped: Vec<String> = Vec::new();
    let mut i: usize = 0;
    proof {
        assert(views.take(0) =~= Seq::<CandidateView>::empty());
        assert(value_views(values@) =~= Map::<Seq<char>, JsonView>::empty());
        assert(crate::text::all_chars(skipped@) =~= Seq::<Seq<char>>::empty());
    }
    while i < candidates.len()
        invariant
            i <= candidates@.len(),
            existing.wf(),
            values.wf(),
            readings@.len() == candidates@.len(),
            views == candidate_views(candidates@),
            value_views(values@) == proposed_values(
                views.take(i as int),
                existing@,
                defs@,
                readings@,
            ),
            crate::text::all_chars(skipped@) == skipped_fields(views.take(i as int), existing@),
        decreases candidates@.len() - i,
    {
        let candidate = &candidates[i];
        let field = candidate.field.as_str();
        proof {
            assert(views.take(i + 1).drop_last() =~= views.take(i as int));
            assert(views.take(i + 1).last() == candidate@);
        }
        let present = match existing.get(field) {
            Some(value) => !value.is_null(),
            None => false,
        };
        if present && !candidate.overwrite {
            let ghost before = skipped@;
            skipped.push(candidate.field.clone());
            proof {
                assert(crate::text::all_chars(skipped@) =~= crate::text::all_chars(before).push(
                    field@,
                ));
            }
        } else {
            let value = coerce(
                candidate.value.as_str(),
                field_kind(defs, field),
                &readings[i],
            );
            let ghost before = values@;
            let ghost view = value@;
            values.insert(candidate.field.clone(), value);
            proof {
                assert(value_views(values@) =~= value_views(before).insert(field@, view));
            }
        }
        i += 1;
    }
    proof {
        assert(views.take(i as int) =~= views);
    }
    Proposal { values, skipped }
}

/// What an import would do, without doing it.
#[derive(Debug, Clone, Default, PartialEq, Eq)]
pub struct Plan {
    /// Values to write, validated and normalised.
    pub values: Document,
    /// Fields left alone because they already hold a value and the mapping does not overwrite.
    pub skipped: Vec<String>,
    /// Sources that matched but whose value the field would not accept.
    pub rejected: Vec<Rejection>,
}

/// What the tenant's validator answered.
#[derive(Debug)]
pub enum Validated {
    Accepted(Document),
    Rejected(Vec<Rejection>),
}

/// What to do with the validator's answer to a proposal.
#[derive(Debug)]
pub enum Next {
    /// The plan is complete.
    Done(Plan),
    /// The rest of the values are to be validated on their own, and the answer given to [`settle`].
    Retry { survivors: Document, skipped: Vec<String>, rejected: Vec<Rejection> },
}

/// The values whose keys were not rejected.
pub open spec fn surviving(
    values: Map<Seq<char>, Json>,
    rejected: Seq<Rejection>,
) -> Map<Seq<char>, Json> {
    Map::new(
        |key: Seq<char>| values.dom().contains(key) && !names_key(rejected, key),
        |key: Seq<char>| values[key],
    )
}

/// Whether some rejection is about `key`.
pub open spec fn names_key(rejected: Seq<Rejection>, key: Seq<char>) -> bool {
    exists|i: int| 0 <= i < rejected.len() && (#[trigger] rejected[i]).key@ == key
}

fn survivors(values: Document, rejected: &Vec<Rejection>) -> (kept: Document)
    requires
        values.wf(),
    ensures
        kept.wf(),
        kept@ == surviving(values@, rejected@),
{
    let ghost given = values@;
    let mut kept = values;
    let mut i: usize = 0;
    proof {
        assert(kept@ =~= surviving(given, rejected@.take(0)));
    }
    while i < rejected.len()
        invariant
            i <= rejected@.len(),
            kept.wf(),
            kept@ == surviving(given, rejected@.take(i as int)),
        decreases rejected@.len() - i,
    {
        let ghost before = kept@;
        kept.remove(rejected[i].key.as_str());
        proof {
            let done = rejected@.take(i as int);
            let next = rejected@.take(i + 1);
            assert forall|key: Seq<char>|
                names_key(next, key) <==> names_key(done, key) || key == rejected@[i as int].key@ by {
                if names_key(done, key) {
                    let j = choose|j: int| 0 <= j < done.len() && (#[trigger] done[j]).key@ == key;
                    assert(next[j].key@ == key);
                }
                if key == rejected@[i as int].key@ {
                    assert(next[i as int].key@ == key);
                }
                if names_key(next, key) {
                    let j = choose|j: int| 0 <= j < next.len() && (#[trigger] next[j]).key@ == key;
                    if j < i {
                        assert(done[j].key@ == key);
                    }
                }
            }
            assert(kept@ =~= surviving(given, next));
        }
        i += 1;
    }
    proof {
        assert(rejected@.take(i as int) =~= rejected@);
    }
    kept
}

/// What follows from the validator's answer to a proposal.
///
/// Per field rather than all or nothing: one value a field will not take must not stop the others. Rejected keys
/// are reported, and the rest are tried once more on their own.
pub fn review(proposal: Proposal, answer: Validated) -> (next: Next)
    requires
        proposal.values.wf(),
    ensures
        match answer {
            Validated::Accepted(values) => next matches Next::Done(plan) && plan.values == values
                && plan.skipped == proposal.skipped && plan.rejected@.len() == 0,
            Validated::Rejected(rejections) => {
                let rest = surviving(proposal.values@, rejections@);
                if rest == Map::<Seq<char>, Json>::empty() {
                    next matches Next::Done(plan) && plan.values@ == Map::<
                        Seq<char>,
                        Json,
                    >::empty() && plan.skipped == proposal.skipped && plan.rejected == rejections
                } else {
                    &&& next matches Next::Retry { survivors, skipped, rejected }
                    &&& survivors.wf()
                    &&& survivors@ == rest
                    &&& skipped == proposal.skipped
                    &&& rejected == rejections
                }
            },
        },
{
    match answer {
        Validated::Accepted(values) => Next::Done(
            Plan { values, skipped: proposal.skipped, rejected: Vec::new() },
        ),
        Validated::Rejected(rejections) => {
            let rest = survivors(proposal.values, &rejections);
            if rest.is_empty() {
                Next::Done(
                    Plan {
                        values: Document::new(),
                        skipped: proposal.skipped,
                        rejected: rejections,
                    },
                )
            } else {
                Next::Retry {
                    survivors: rest,
                    skipped: proposal.skipped,
                    rejected: rejections,
                }
            }
        },
    }
}

/// The plan, once the survivors have been validated on their own. A second refusal is reported and not tried
/// again.
pub fn settle(
    skipped: Vec<String>,
    rejected: Vec<Rejection>,
    answer: Validated,
) -> (plan: Plan)
    ensures
        plan.skipped == skipped,
        match answer {
            Validated::Accepted(values) => plan.values == values && plan.rejected == rejected,
            Validated::Rejected(more) => plan.values@ == Map::<Seq<char>, Json>::empty()
                && plan.rejected@ == rejected@ + more@,
        },
{
    match answer {
        Validated::Accepted(values) => Plan { values, skipped, rejected },
        Validated::Rejected(more) => {
            let mut rejected = rejected;
            let mut more = more;
            rejected.append(&mut more);
            Plan { values: Document::new(), skipped, rejected }
        },
    }
}

/// The plan of an import with nothing to write: no embedded value, no candidate, or every candidate skipped.
pub fn nothing(skipped: Vec<String>) -> (plan: Plan)
    ensures
        plan.values@ == Map::<Seq<char>, Json>::empty(),
        plan.skipped == skipped,
        plan.rejected@.len() == 0,
{
    Plan { values: Document::new(), skipped, rejected: Vec::new() }
}

/// A value that is held survives an import that does not overwrite: such a candidate's field is reported as
/// skipped and nothing is proposed for it.
pub proof fn a_held_value_is_respected(
    candidates: Seq<CandidateView>,
    existing: Map<Seq<char>, Json>,
    defs: Seq<FieldDef>,
    readings: Seq<Reading>,
    at: int,
)
    requires
        0 <= at < candidates.len(),
        respected(existing, candidates[at]),
        forall|i: int, j: int|
            0 <= i < j < candidates.len() ==> (#[trigger] candidates[i]).field != (
            #[trigger] candidates[j]).field,
    ensures
        skipped_fields(candidates, existing).contains(candidates[at].field),
        !proposed_values(candidates, existing, defs, readings).dom().contains(candidates[at].field),
    decreases candidates.len(),
{
    let front = candidates.drop_last();
    let field = candidates[at].field;
    if at < front.len() {
        assert(front[at] == candidates[at]);
        assert forall|i: int, j: int| 0 <= i < j < front.len() implies (#[trigger] front[i]).field != (
        #[trigger] front[j]).field by {
            assert(candidates[i].field != candidates[j].field);
        }
        a_held_value_is_respected(front, existing, defs, readings, at);
        assert(candidates[at].field != candidates[candidates.len() - 1].field);
        let list = skipped_fields(front, existing);
        crate::lists::lemma_push_contains(list, candidates.last().field, field);
    } else {
        let list = skipped_fields(front, existing);
        crate::lists::lemma_push_contains(list, field, field);
        lemma_unproposed(front, existing, defs, readings, field);
    }
}

proof fn lemma_unproposed(
    candidates: Seq<CandidateView>,
    existing: Map<Seq<char>, Json>,
    defs: Seq<FieldDef>,
    readings: Seq<Reading>,
    field: Seq<char>,
)
    requires
        forall|i: int| 0 <= i < candidates.len() ==> (#[trigger] candidates[i]).field != field,
    ensures
        !proposed_values(candidates, existing, defs, readings).dom().contains(field),
    decreases candidates.len(),
{
    if candidates.len() > 0 {
        let front = candidates.drop_last();
        assert forall|i: int| 0 <= i < front.len() implies (#[trigger] front[i]).field != field by {
            assert(candidates[i].field != field);
        }
        lemma_unproposed(front, existing, defs, readings, field);
        assert(candidates[candidates.len() - 1].field != field);
    }
}

/// A candidate comes from a mapping that is enabled, carries what the file holds under that mapping's source, for that
/// mapping's field, and overwrites only where the mapping says so.
pub proof fn a_candidate_comes_from_its_mapping(
    mappings: Seq<Mapping>,
    embedded: Seq<(String, String)>,
    k: int,
)
    requires
        0 <= k < chosen(mappings, embedded).len(),
    ensures
        exists|i: int|
            0 <= i < mappings.len() && (#[trigger] mappings[i]).enabled && mappings[i].field_key@ == chosen(
                mappings,
                embedded,
            )[k].field && mappings[i].overwrite == chosen(mappings, embedded)[k].overwrite && embedded_value(
                embedded,
                mappings[i].source@,
            ) == Some(chosen(mappings, embedded)[k].value),
    decreases mappings.len(),
{
    let front = chosen(mappings.drop_last(), embedded);
    if k < front.len() {
        a_candidate_comes_from_its_mapping(mappings.drop_last(), embedded, k);
        let i = choose|i: int|
            0 <= i < mappings.drop_last().len() && (#[trigger] mappings.drop_last()[i]).enabled
                && mappings.drop_last()[i].field_key@ == front[k].field && mappings.drop_last()[i].overwrite
                == front[k].overwrite && embedded_value(embedded, mappings.drop_last()[i].source@) == Some(
                front[k].value,
            );
        assert(mappings[i] == mappings.drop_last()[i]);
    } else {
        assert(mappings[mappings.len() - 1] == mappings.last());
    }
}

/// What a file holds under a name is its first value of that name, and nothing where it has none.
pub proof fn a_file_holds_its_first_value(embedded: Seq<(String, String)>, source: Seq<char>, place: int)
    ensures
        (forall|i: int| 0 <= i < embedded.len() ==> (#[trigger] embedded[i]).0@ != source) ==> embedded_value(
            embedded,
            source,
        ) is None,
        0 <= place < embedded.len() && embedded[place].0@ == source && (forall|i: int|
            0 <= i < place ==> (#[trigger] embedded[i]).0@ != source) ==> embedded_value(embedded, source) == Some(
            embedded[place].1@,
        ),
    decreases embedded.len(),
{
    if embedded.len() > 0 && embedded[0].0@ != source {
        let rest = embedded.drop_first();
        a_file_holds_its_first_value(rest, source, place - 1);
        assert forall|i: int| 0 <= i < rest.len() implies #[trigger] rest[i] == embedded[i + 1] by {}
        if forall|i: int| 0 <= i < embedded.len() ==> (#[trigger] embedded[i]).0@ != source {
            assert forall|i: int| 0 <= i < rest.len() implies (#[trigger] rest[i]).0@ != source by {
                assert(embedded[i + 1].0@ != source);
            }
        }
        if 0 < place < embedded.len() && forall|i: int| 0 <= i < place ==> (#[trigger] embedded[i]).0@ != source {
            assert forall|i: int| 0 <= i < place - 1 implies (#[trigger] rest[i]).0@ != source by {
                assert(embedded[i + 1].0@ != source);
            }
        }
    }
}

/// What is not held, or may be overwritten, is proposed, read as its field's kind; and nothing is skipped that is not held
/// against being overwritten.
pub proof fn what_is_not_respected_is_proposed(
    candidates: Seq<CandidateView>,
    existing: Map<Seq<char>, Json>,
    defs: Seq<FieldDef>,
    readings: Seq<Reading>,
    at: int,
)
    requires
        0 <= at < candidates.len(),
        !existing.dom().contains(candidates[at].field) || existing[candidates[at].field] is Null
            || candidates[at].overwrite,
        forall|i: int, j: int|
            0 <= i < j < candidates.len() ==> (#[trigger] candidates[i]).field != (
            #[trigger] candidates[j]).field,
    ensures
        !skipped_fields(candidates, existing).contains(candidates[at].field),
        proposed_values(candidates, existing, defs, readings).dom().contains(candidates[at].field),
        proposed_values(candidates, existing, defs, readings)[candidates[at].field] == coerced(
            candidates[at].value,
            kind_of(defs, candidates[at].field),
            readings[at],
        ),
    decreases candidates.len(),
{
    broadcast use vstd::map::group_map_axioms;

    let front = candidates.drop_last();
    let last = candidates.last();
    assert forall|i: int, j: int| 0 <= i < j < front.len() implies (#[trigger] front[i]).field != (
    #[trigger] front[j]).field by {
        assert(front[i] == candidates[i] && front[j] == candidates[j]);
    }
    assert(candidates[candidates.len() - 1] == last);
    if at < front.len() {
        assert(front[at] == candidates[at]);
        what_is_not_respected_is_proposed(front, existing, defs, readings, at);
        crate::lists::lemma_push_contains(skipped_fields(front, existing), last.field, candidates[at].field);
    } else {
        lemma_skipped_were_candidates(front, existing, last.field);
    }
}

proof fn lemma_skipped_were_candidates(
    candidates: Seq<CandidateView>,
    existing: Map<Seq<char>, Json>,
    field: Seq<char>,
)
    ensures
        skipped_fields(candidates, existing).contains(field) ==> exists|i: int|
            0 <= i < candidates.len() && (#[trigger] candidates[i]).field == field,
    decreases candidates.len(),
{
    if candidates.len() > 0 {
        let front = candidates.drop_last();
        lemma_skipped_were_candidates(front, existing, field);
        crate::lists::lemma_push_contains(skipped_fields(front, existing), candidates.last().field, field);
        if skipped_fields(front, existing).contains(field) {
            let i = choose|i: int| 0 <= i < front.len() && (#[trigger] front[i]).field == field;
            assert(candidates[i].field == field);
        } else {
            assert(candidates[candidates.len() - 1] == candidates.last());
        }
    }
}

/// A value is read as its field's kind has it: a whole number where it is one, a yes or a no by the six words for them, a
/// place by its two numbers with the latitude first, a day by what stands before the time. What cannot be read so, and
/// whatever has no kind, stays the text it was.
pub proof fn a_value_is_read_as_its_kind(value: Seq<char>, read: Reading)
    ensures
        coerced(value, None, read) == JsonView::Text(value),
        coerced(value, Some(FieldKind::Int), read) == (match int_reading(trimmed(value)) {
            Some(number) => JsonView::Int(number),
            None => JsonView::Text(value),
        }),
        ({
            let word = ascii_lowered(trimmed(value));
            let answer = coerced(value, Some(FieldKind::Bool), read);
            &&& answer == JsonView::Bool(true) ==> word == "true"@ || word == "yes"@ || word == "1"@
            &&& answer == JsonView::Bool(false) ==> word == "false"@ || word == "no"@ || word == "0"@
            &&& answer is Bool || answer == JsonView::Text(value)
            &&& word == "true"@ || word == "yes"@ || word == "1"@ || word == "false"@ || word == "no"@ || word == "0"@
                ==> answer is Bool
        }),
        coerced(value, Some(FieldKind::Date), read) == JsonView::Text(before_first(trimmed(value), 'T')),
        read.first matches Float::Finite(lat) ==> read.second matches Float::Finite(lon) ==> first_place(
            trimmed(value),
            ',',
        ) < trimmed(value).len() ==> coerced(value, Some(FieldKind::Geo), read) == JsonView::Object(
            seq![("lat"@, JsonView::Number(lat@)), ("lon"@, JsonView::Number(lon@))],
        ),
        read.first matches Float::Finite(number) ==> coerced(value, Some(FieldKind::Decimal), read) == JsonView::Number(
            number@,
        ),
        read.first is Unreadable ==> coerced(value, Some(FieldKind::Decimal), read) == JsonView::Text(value) && coerced(
            value,
            Some(FieldKind::Geo),
            read,
        ) == JsonView::Text(value),
{
}

/// What survives a rejection is what was proposed and not rejected, as it was proposed.
pub proof fn what_was_not_rejected_survives(values: Map<Seq<char>, Json>, rejected: Seq<Rejection>, key: Seq<char>)
    ensures
        surviving(values, rejected).dom().contains(key) <==> values.dom().contains(key) && forall|i: int|
            0 <= i < rejected.len() ==> (#[trigger] rejected[i]).key@ != key,
        surviving(values, rejected).dom().contains(key) ==> surviving(values, rejected)[key] == values[key],
{
}

/// A source is two plain words with a dot between them. A text without a dot, and one with two, is none.
pub proof fn a_source_is_two_words(first: Seq<char>, second: Seq<char>)
    ensures
        part_shaped(first) && part_shaped(second) ==> source_shaped(first + seq!['.'] + second),
        source_shaped(first) ==> first.contains('.'),
        part_shaped(first) ==> first.len() > 0 && 'a' <= first[0] <= 'z' && !first.contains('.') && !first.contains(
            ' ',
        ) && !first.contains('-'),
        first.len() == 1 && 'a' <= first[0] <= 'z' ==> part_shaped(first),
{
    let source = first + seq!['.'] + second;
    if part_shaped(first) && part_shaped(second) {
        let dot = first.len() as int;
        assert(source[dot] == '.');
        assert(source.take(dot) =~= first);
        assert(source.skip(dot + 1) =~= second);
    }
    if source_shaped(first) {
        let dot = choose|dot: int|
            {
                &&& 0 <= dot < first.len()
                &&& #[trigger] first[dot] == '.'
                &&& part_shaped(first.take(dot))
                &&& part_shaped(first.skip(dot + 1))
            };
        assert(first.contains(first[dot]));
    }
}

/// Only a decimal and a place are read as floating point: the decimal as the one text it is, the place as the texts on
/// both sides of its comma.
pub proof fn only_decimals_and_places_are_floats(value: Seq<char>, kind: Option<FieldKind>)
    ensures
        wanted_floats(value, Some(FieldKind::Decimal)) == seq![trimmed(value)],
        first_place(trimmed(value), ',') < trimmed(value).len() ==> wanted_floats(value, Some(FieldKind::Geo)) == seq![
            trimmed(before_first(trimmed(value), ',')),
            trimmed(after_first(trimmed(value), ',')),
        ],
        first_place(trimmed(value), ',') >= trimmed(value).len() ==> wanted_floats(value, Some(FieldKind::Geo)).len() == 0,
        kind != Some(FieldKind::Decimal) && kind != Some(FieldKind::Geo) ==> wanted_floats(value, kind).len() == 0,
{
}

/// A field has the kind of its first definition, and none where it has no definition.
pub proof fn a_field_has_its_definitions_kind(defs: Seq<FieldDef>, key: Seq<char>)
    ensures
        kind_of(defs, key) == (match crate::facets::definition(defs, key) {
            Some(def) => Some(def.kind),
            None => None,
        }),
    decreases defs.len(),
{
    if defs.len() > 0 && defs[0].key@ != key {
        a_field_has_its_definitions_kind(defs.drop_first(), key);
    }
}

/// What is skipped is what is respected, in the order of the candidates.
pub proof fn what_is_respected_is_skipped(candidates: Seq<CandidateView>, existing: Map<Seq<char>, Json>)
    ensures
        skipped_fields(candidates, existing) == candidates.filter(
            |one: CandidateView|
                existing.dom().contains(one.field) && !(existing[one.field] is Null) && !one.overwrite,
        ).map_values(|one: CandidateView| one.field),
    decreases candidates.len(),
{
    reveal(Seq::filter);
    let kept = |one: CandidateView|
        existing.dom().contains(one.field) && !(existing[one.field] is Null) && !one.overwrite;
    let name = |one: CandidateView| one.field;
    if candidates.len() > 0 {
        what_is_respected_is_skipped(candidates.drop_last(), existing);
    }
    assert(skipped_fields(candidates, existing) =~= candidates.filter(kept).map_values(name));
}

// ----------------------------------------------------------------------------------------------------
// Commands
// ----------------------------------------------------------------------------------------------------

pub const TARGET: &'static str = "SELECT read_only FROM field_defs WHERE key = $1";

/// Whether a field takes values at all.
pub fn target(field_key: &str) -> (command: Command)
    ensures
        command.says("SELECT read_only FROM field_defs WHERE key = $1"@, seq![Given::Text(field_key@)]),
{
    Command::new(TARGET, vec![as_text(field_key)])
}

pub const CLASH: &'static str = "SELECT 1 FROM auto_import_mappings WHERE source = $1 AND field_key = $2";

/// Whether a source already feeds a field.
pub fn clash(source: &str, field_key: &str) -> (command: Command)
    ensures
        command.says(
            "SELECT 1 FROM auto_import_mappings WHERE source = $1 AND field_key = $2"@,
            seq![Given::Text(source@), Given::Text(field_key@)],
        ),
{
    Command::new(CLASH, vec![as_text(source), as_text(field_key)])
}

pub const INSERT: &'static str =
    "INSERT INTO auto_import_mappings (id, source, field_key, priority, overwrite, enabled) VALUES ($1, $2, \
     $3, $4, $5, $6)";

/// A new mapping.
pub fn insert(mapping: &Mapping) -> (command: Command)
    ensures
        command.says(
            "INSERT INTO auto_import_mappings (id, source, field_key, priority, overwrite, enabled) VALUES ($1, $2, \
             $3, $4, $5, $6)"@,
            seq![
                Given::Id(mapping.id), Given::Text(mapping.source@), Given::Text(mapping.field_key@),
                Given::Whole(mapping.priority), Given::Flag(mapping.overwrite),
                Given::Flag(mapping.enabled),
            ],
        ),
{
    Command::new(
        INSERT,
        vec![
            Value::Id(mapping.id), as_text(mapping.source.as_str()),
            as_text(mapping.field_key.as_str()), Value::Whole(mapping.priority),
            Value::Flag(mapping.overwrite), Value::Flag(mapping.enabled),
        ],
    )
}

pub const LIST: &'static str =
    "SELECT id, source, field_key, priority, overwrite, enabled FROM auto_import_mappings ORDER BY \
     field_key, priority, source";

/// Every mapping, best first within each field.
pub fn list() -> (command: Command)
    ensures
        command.says(
            "SELECT id, source, field_key, priority, overwrite, enabled FROM auto_import_mappings ORDER BY \
             field_key, priority, source"@,
            Seq::empty(),
        ),
{
    Command::new(LIST, Vec::new())
}

pub const MAPPING: &'static str =
    "SELECT id, source, field_key, priority, overwrite, enabled FROM auto_import_mappings WHERE id = $1";

/// One mapping.
pub fn mapping(id: Uuid) -> (command: Command)
    ensures
        command.says(
            "SELECT id, source, field_key, priority, overwrite, enabled FROM auto_import_mappings WHERE id = $1"@,
            seq![Given::Id(id)],
        ),
{
    Command::new(MAPPING, vec![Value::Id(id)])
}

pub const SET_ENABLED: &'static str =
    "UPDATE auto_import_mappings SET enabled = $2, updated_at = now() WHERE id = $1";

/// A mapping, on or off.
pub fn set_enabled(id: Uuid, enabled: bool) -> (command: Command)
    ensures
        command.says(
            "UPDATE auto_import_mappings SET enabled = $2, updated_at = now() WHERE id = $1"@,
            seq![Given::Id(id), Given::Flag(enabled)],
        ),
{
    Command::new(SET_ENABLED, vec![Value::Id(id), Value::Flag(enabled)])
}

pub const SET_OVERWRITE: &'static str =
    "UPDATE auto_import_mappings SET overwrite = $2, updated_at = now() WHERE id = $1";

/// Whether a mapping may replace a value the asset already has.
pub fn set_overwrite(id: Uuid, overwrite: bool) -> (command: Command)
    ensures
        command.says(
            "UPDATE auto_import_mappings SET overwrite = $2, updated_at = now() WHERE id = $1"@,
            seq![Given::Id(id), Given::Flag(overwrite)],
        ),
{
    Command::new(SET_OVERWRITE, vec![Value::Id(id), Value::Flag(overwrite)])
}

pub const REMOVE: &'static str = "DELETE FROM auto_import_mappings WHERE id = $1";

/// A mapping, gone.
pub fn remove(id: Uuid) -> (command: Command)
    ensures
        command.says("DELETE FROM auto_import_mappings WHERE id = $1"@, seq![Given::Id(id)]),
{
    Command::new(REMOVE, vec![Value::Id(id)])
}

} // verus!
