//! Writing what a model said, in a way somebody can undo.
//!
//! A value written without its provenance is indistinguishable from something a person typed, so the two are
//! merged together: a key that has a value and no provenance is a person's, and a model never overwrites it. A
//! tag is a suggestion until a person says otherwise, and a term a person decided about is left alone.

use crate::access::{push_asset_filter, AccessPredicate};
use crate::commands::{as_ids, as_maybe_str, as_maybe_text, as_text, Command, Given, Value};
use crate::json::{Document, Json, JsonView};
use crate::lists::{lemma_filter_ends, lemma_filter_step};
use crate::sql::{push, push_bind_int, query, Bind, Query, Statement, MAX_INSTANT, MIN_INSTANT};
use crate::text::{
    all_chars, contains, holds, int_chars, int_text, nat_chars, nat_text, opt_chars, opt_str_chars,
    padded_chars, padded_text, same, trim, trimmed, uuid_chars, uuid_text,
};
use crate::versions::LIBRARY_ROWS;
use crate::{Instant, Uuid};
use vstd::prelude::*;

verus! {

/// Where a value came from. The strings are the vocabulary the disclosure surface reads.
#[derive(Debug, Clone, Copy, PartialEq, Eq, Structural)]
pub enum Source {
    /// A hosted model.
    Llm,
    /// A local model.
    Local,
    /// Extracted from the file itself.
    Embedded,
}

impl Source {
    /// The column's spelling.
    pub open spec fn chars(self) -> Seq<char> {
        match self {
            Source::Llm => "llm"@,
            Source::Local => "local"@,
            Source::Embedded => "embedded"@,
        }
    }

    /// The column's spelling.
    pub fn as_str(self) -> (text: &'static str)
        ensures
            text@ == self.chars(),
            text@ == match self {
                Source::Llm => "llm"@,
                Source::Local => "local"@,
                Source::Embedded => "embedded"@,
            },
    {
        match self {
            Source::Llm => "llm",
            Source::Local => "local",
            Source::Embedded => "embedded",
        }
    }
}

/// Two values with one spelling are one value, so a spelling that is written reads back as what was written.
pub proof fn source_spellings_are_distinct(a: Source, b: Source)
    requires
        a.chars() == b.chars(),
    ensures
        a == b,
{
    reveal_strlit("llm");
    reveal_strlit("local");
    reveal_strlit("embedded");
    assert("llm"@.len() == 3);
    assert("local"@.len() == 5);
    assert("embedded"@.len() == 8);
}

// ----------------------------------------------------------------------------------------------------
// Values
// ----------------------------------------------------------------------------------------------------

/// An instant as RFC 3339 writes it, in UTC, with as many decimals of a second as it needs.
pub uninterp spec fn rfc3339_chars(at: int) -> Seq<char>;

/// `chrono::DateTime::to_rfc3339` of the instant, in UTC. The text is not stated, only named.
#[verifier::external_body]
fn rfc3339(at: Instant) -> (text: String)
    requires
        MIN_INSTANT <= at <= MAX_INSTANT,
    ensures
        text@ == rfc3339_chars(at as int),
{
    chrono::DateTime::<chrono::Utc>::from_timestamp_micros(at).unwrap().to_rfc3339()
}

/// What to record about one machine-written value.
#[derive(Debug, Clone, PartialEq, Eq)]
pub struct Attribution {
    pub source: Source,
    /// The model that answered, not the one that was asked for.
    pub model: String,
    /// The pipeline version, so that what an old prompt touched can be found again.
    pub model_version: String,
    /// As claimed by the model, in the text of a JSON number. Recorded, not trusted.
    pub confidence: String,
}

/// Whether a value is the marking of what `attribution` wrote at `at`. `reviewed_by` is there and null: whoever asks
/// if somebody has looked gets an answer rather than a missing key.
pub open spec fn marking_of(marking: Json, attribution: Attribution, at: Instant) -> bool {
    &&& marking matches Json::Object(members)
    &&& members@.len() == 6
    &&& members@[0].0@ == "source"@ && members@[0].1@ == JsonView::Text(attribution.source.chars())
    &&& members@[1].0@ == "model"@ && members@[1].1@ == JsonView::Text(attribution.model@)
    &&& members@[2].0@ == "model_version"@ && members@[2].1@ == JsonView::Text(attribution.model_version@)
    &&& members@[3].0@ == "confidence"@ && members@[3].1@ == JsonView::Number(attribution.confidence@)
    &&& members@[4].0@ == "at"@ && members@[4].1@ == JsonView::Text(rfc3339_chars(at as int))
    &&& members@[5].0@ == "reviewed_by"@ && members@[5].1@ == JsonView::Null
}

impl Attribution {
    /// The marking to record beside a value written at `at`.
    pub fn to_json(&self, at: Instant) -> (marking: Json)
        requires
            MIN_INSTANT <= at <= MAX_INSTANT,
        ensures
            marking_of(marking, *self, at),
    {
        let mut members: Vec<(String, Json)> = Vec::new();
        members.push(("source".to_owned(), Json::Text(self.source.as_str().to_owned())));
        members.push(("model".to_owned(), Json::Text(self.model.clone())));
        members.push(("model_version".to_owned(), Json::Text(self.model_version.clone())));
        members.push(("confidence".to_owned(), Json::Number(self.confidence.clone())));
        members.push(("at".to_owned(), Json::Text(rfc3339(at))));
        members.push(("reviewed_by".to_owned(), Json::Null));
        Json::Object(members)
    }
}

/// Whether `produced` is `values`, each with the marking of what `attribution` wrote at `at`.
pub open spec fn marked_as(
    produced: Seq<MachineValue>,
    values: Seq<(String, Json)>,
    attribution: Attribution,
    at: Instant,
) -> bool {
    &&& produced.len() == values.len()
    &&& forall|i: int|
        0 <= i < values.len() ==> (#[trigger] produced[i]).key == values[i].0 && produced[i].value == values[i].1
            && marking_of(produced[i].marking, attribution, at)
}

/// The values a model produced, each with its marking.
pub fn marked(
    values: Vec<(String, Json)>,
    attribution: &Attribution,
    at: Instant,
) -> (produced: Vec<MachineValue>)
    requires
        MIN_INSTANT <= at <= MAX_INSTANT,
    ensures
        marked_as(produced@, values@, *attribution, at),
{
    let ghost given = values@;
    let mut produced: Vec<MachineValue> = Vec::new();
    for entry in each: values
        invariant
            each.seq() == given,
            MIN_INSTANT <= at <= MAX_INSTANT,
            marked_as(produced@, given.take(each.index()), *attribution, at),
    {
        let (key, value) = entry;
        produced.push(MachineValue { key, value, marking: attribution.to_json(at) });
    }
    proof {
        assert(given.take(given.len() as int) =~= given);
    }
    produced
}

/// What a metadata write actually did.
#[derive(Debug, Clone, PartialEq, Eq)]
pub struct Written {
    /// Keys that landed.
    pub written: Vec<String>,
    /// Keys the tenant does not allow a model to write, or does not define at all.
    pub refused: Vec<String>,
    /// Keys skipped because a person had already written them.
    pub kept_human: Vec<String>,
}

/// An asset's metadata: the values, and for each key a machine wrote the marking that says so.
#[derive(Debug)]
pub struct Marked {
    pub values: Document,
    pub provenance: Document,
}

/// What becomes of one value a model produced.
#[derive(Debug, Clone, Copy, PartialEq, Eq, Structural)]
pub enum Fate {
    Written,
    Refused,
    KeptHuman,
}

/// Whether a person wrote the value under `key`: it is there, and nothing says a machine wrote it.
pub open spec fn human(
    values: Map<Seq<char>, Json>,
    provenance: Map<Seq<char>, Json>,
    key: Seq<char>,
) -> bool {
    values.dom().contains(key) && !provenance.dom().contains(key)
}

/// What becomes of a value for `key`.
pub open spec fn fate(
    writable: Seq<String>,
    values: Map<Seq<char>, Json>,
    provenance: Map<Seq<char>, Json>,
    key: Seq<char>,
) -> Fate {
    if !holds(writable, key) {
        Fate::Refused
    } else if human(values, provenance, key) {
        Fate::KeptHuman
    } else {
        Fate::Written
    }
}

/// One value a model produced, with the marking to record beside it.
#[derive(Debug)]
pub struct MachineValue {
    pub key: String,
    pub value: Json,
    pub marking: Json,
}

/// Metadata after the values of `produced` have been merged in, one after another.
pub open spec fn merged(
    writable: Seq<String>,
    values: Map<Seq<char>, Json>,
    provenance: Map<Seq<char>, Json>,
    produced: Seq<MachineValue>,
) -> (Map<Seq<char>, Json>, Map<Seq<char>, Json>)
    decreases produced.len(),
{
    if produced.len() == 0 {
        (values, provenance)
    } else {
        let (v, p) = merged(writable, values, provenance, produced.drop_last());
        let last = produced.last();
        if fate(writable, v, p, last.key@) == Fate::Written {
            (v.insert(last.key@, last.value), p.insert(last.key@, last.marking))
        } else {
            (v, p)
        }
    }
}

/// The keys of `produced` that met `wanted`, in their order.
pub open spec fn keys_with_fate(
    writable: Seq<String>,
    values: Map<Seq<char>, Json>,
    provenance: Map<Seq<char>, Json>,
    produced: Seq<MachineValue>,
    wanted: Fate,
) -> Seq<Seq<char>>
    decreases produced.len(),
{
    if produced.len() == 0 {
        Seq::empty()
    } else {
        let front = keys_with_fate(writable, values, provenance, produced.drop_last(), wanted);
        let (v, p) = merged(writable, values, provenance, produced.drop_last());
        let last = produced.last();
        if fate(writable, v, p, last.key@) == wanted {
            front.push(last.key@)
        } else {
            front
        }
    }
}

/// Merges machine-produced values into an asset's metadata, with their provenance.
///
/// `writable` is the keys the tenant lets a model write. A key absent from it is refused, a key a person wrote is
/// kept, and every other key takes the value and its marking. There is something to store when something was
/// written.
pub fn write_values(
    writable: &Vec<String>,
    existing: Marked,
    produced: Vec<MachineValue>,
) -> (outcome: (Marked, Written))
    requires
        existing.values.wf(),
        existing.provenance.wf(),
    ensures
        ({
            let (v, p) = merged(
                writable@,
                existing.values@,
                existing.provenance@,
                produced@,
            );
            &&& outcome.0.values.wf()
            &&& outcome.0.provenance.wf()
            &&& outcome.0.values@ == v
            &&& outcome.0.provenance@ == p
        }),
        all_chars(outcome.1.written@) == keys_with_fate(
            writable@,
            existing.values@,
            existing.provenance@,
            produced@,
            Fate::Written,
        ),
        all_chars(outcome.1.refused@) == keys_with_fate(
            writable@,
            existing.values@,
            existing.provenance@,
            produced@,
            Fate::Refused,
        ),
        all_chars(outcome.1.kept_human@) == keys_with_fate(
            writable@,
            existing.values@,
            existing.provenance@,
            produced@,
            Fate::KeptHuman,
        ),
{
    let ghost all = produced@;
    let ghost v0 = existing.values@;
    let ghost p0 = existing.provenance@;
    let Marked { mut values, mut provenance } = existing;
    let mut written: Vec<String> = Vec::new();
    let mut refused: Vec<String> = Vec::new();
    let mut kept_human: Vec<String> = Vec::new();
    proof {
        assert(all.take(0) =~= Seq::<MachineValue>::empty());
        assert(all_chars(written@) =~= Seq::<Seq<char>>::empty());
        assert(all_chars(refused@) =~= Seq::<Seq<char>>::empty());
        assert(all_chars(kept_human@) =~= Seq::<Seq<char>>::empty());
    }
    for item in each: produced
        invariant
            each.seq() == all,
            values.wf(),
            provenance.wf(),
            (values@, provenance@) == merged(writable@, v0, p0, all.take(each.index())),
            all_chars(written@) == keys_with_fate(
                writable@,
                v0,
                p0,
                all.take(each.index()),
                Fate::Written,
            ),
            all_chars(refused@) == keys_with_fate(
                writable@,
                v0,
                p0,
                all.take(each.index()),
                Fate::Refused,
            ),
            all_chars(kept_human@) == keys_with_fate(
                writable@,
                v0,
                p0,
                all.take(each.index()),
                Fate::KeptHuman,
            ),
    {
        let ghost i = each.index();
        let ghost (w, r, k) = (written@, refused@, kept_human@);
        proof {
            assert(all.take(i + 1).drop_last() =~= all.take(i));
            assert(all.take(i + 1).last() == item);
        }
        let MachineValue { key, value, marking } = item;
        let ghost name = key@;
        if !contains(writable, key.as_str()) {
            refused.push(key);
            proof {
                assert(all_chars(refused@) =~= all_chars(r).push(name));
            }
        } else if values.contains_key(key.as_str()) && !provenance.contains_key(key.as_str()) {
            kept_human.push(key);
            proof {
                assert(all_chars(kept_human@) =~= all_chars(k).push(name));
            }
        } else {
            values.insert(key.clone(), value);
            provenance.insert(key.clone(), marking);
            written.push(key);
            proof {
                assert(all_chars(written@) =~= all_chars(w).push(name));
            }
        }
    }
    proof {
        assert(all.take(all.len() as int) =~= all);
    }
    (Marked { values, provenance }, Written { written, refused, kept_human })
}

/// Whether a write left anything to store.
pub fn wrote_anything(written: &Written) -> (yes: bool)
    ensures
        yes == (written.written@.len() > 0),
{
    written.written.len() > 0
}

/// A model never overwrites a person: a key that had a value and no marking before a write has the same value
/// and still no marking after it, whatever was produced.
pub proof fn a_human_value_survives(
    writable: Seq<String>,
    values: Map<Seq<char>, Json>,
    provenance: Map<Seq<char>, Json>,
    produced: Seq<MachineValue>,
    key: Seq<char>,
)
    requires
        human(values, provenance, key),
    ensures
        ({
            let (v, p) = merged(writable, values, provenance, produced);
            human(v, p, key) && v[key] == values[key]
        }),
    decreases produced.len(),
{
    if produced.len() > 0 {
        a_human_value_survives(writable, values, provenance, produced.drop_last(), key);
    }
}

/// Only fields the tenant opened are touched: a key that is not writable keeps its value and its marking, or
/// their absence.
pub proof fn an_unwritable_key_is_untouched(
    writable: Seq<String>,
    values: Map<Seq<char>, Json>,
    provenance: Map<Seq<char>, Json>,
    produced: Seq<MachineValue>,
    key: Seq<char>,
)
    requires
        !holds(writable, key),
    ensures
        ({
            let (v, p) = merged(writable, values, provenance, produced);
            &&& v.dom().contains(key) == values.dom().contains(key)
            &&& p.dom().contains(key) == provenance.dom().contains(key)
            &&& values.dom().contains(key) ==> v[key] == values[key]
            &&& provenance.dom().contains(key) ==> p[key] == provenance[key]
        }),
    decreases produced.len(),
{
    if produced.len() > 0 {
        an_unwritable_key_is_untouched(writable, values, provenance, produced.drop_last(), key);
    }
}

/// Nothing is written unmarked: a key that had no value before a write and has one after it is marked as
/// machine-written.
pub proof fn a_machine_value_is_marked(
    writable: Seq<String>,
    values: Map<Seq<char>, Json>,
    provenance: Map<Seq<char>, Json>,
    produced: Seq<MachineValue>,
    key: Seq<char>,
)
    requires
        !values.dom().contains(key),
        merged(writable, values, provenance, produced).0.dom().contains(key),
    ensures
        merged(writable, values, provenance, produced).1.dom().contains(key),
    decreases produced.len(),
{
    if produced.len() > 0 {
        let (v, p) = merged(writable, values, provenance, produced.drop_last());
        if v.dom().contains(key) {
            a_machine_value_is_marked(writable, values, provenance, produced.drop_last(), key);
        }
    }
}

/// Provenance without the markings of `keys`.
pub open spec fn forgotten(provenance: Map<Seq<char>, Json>, keys: Seq<Seq<char>>) -> Map<Seq<char>, Json>
    decreases keys.len(),
{
    if keys.len() == 0 {
        provenance
    } else {
        forgotten(provenance, keys.drop_last()).remove(keys.last())
    }
}

/// Drops the markings of keys a person has just written. Without this a field a model wrote would stay marked as
/// machine output after somebody rewrote it.
pub fn forget_provenance(provenance: Document, keys: &Vec<String>) -> (left: Document)
    requires
        provenance.wf(),
    ensures
        left.wf(),
        left@ == forgotten(provenance@, all_chars(keys@)),
{
    let ghost before = provenance@;
    let mut left = provenance;
    let mut i: usize = 0;
    proof {
        assert(all_chars(keys@).take(0) =~= Seq::<Seq<char>>::empty());
    }
    while i < keys.len()
        invariant
            i <= keys@.len(),
            left.wf(),
            left@ == forgotten(before, all_chars(keys@).take(i as int)),
        decreases keys@.len() - i,
    {
        proof {
            let next = all_chars(keys@).take(i + 1);
            assert(next.drop_last() =~= all_chars(keys@).take(i as int));
            assert(next.last() == keys@[i as int]@);
        }
        left.remove(keys[i].as_str());
        i += 1;
    }
    proof {
        assert(all_chars(keys@).take(i as int) =~= all_chars(keys@));
    }
    left
}

/// What a person rewrites is a person's: a key that is forgotten has no marking, so that its value counts as
/// human, and every other key keeps its marking.
pub proof fn a_rewritten_value_is_human(
    values: Map<Seq<char>, Json>,
    provenance: Map<Seq<char>, Json>,
    keys: Seq<Seq<char>>,
    key: Seq<char>,
)
    ensures
        keys.contains(key) && values.dom().contains(key) ==> human(values, forgotten(provenance, keys), key),
        !keys.contains(key) ==> {
            &&& forgotten(provenance, keys).dom().contains(key) == provenance.dom().contains(key)
            &&& provenance.dom().contains(key) ==> forgotten(provenance, keys)[key] == provenance[key]
        },
    decreases keys.len(),
{
    if keys.len() > 0 {
        let front = keys.drop_last();
        a_rewritten_value_is_human(values, provenance, front, key);
        if keys.contains(key) && key != keys.last() {
            let i = choose|i: int| 0 <= i < keys.len() && keys[i] == key;
            assert(front[i] == key);
        }
        if !keys.contains(key) {
            assert(keys[keys.len() - 1] != key);
            assert forall|i: int| 0 <= i < front.len() implies front[i] != key by {
                assert(front[i] == keys[i]);
            }
        }
    }
}

// ----------------------------------------------------------------------------------------------------
// Tags
// ----------------------------------------------------------------------------------------------------

/// What a tag write did.
#[derive(Debug, Clone, Default, PartialEq, Eq)]
pub struct Tagged {
    /// Terms now suggested on the asset.
    pub suggested: Vec<Uuid>,
    /// Terms another generator had already proposed; their vote count went up instead.
    pub seconded: Vec<Uuid>,
    /// Terms left alone because a person had already decided about them.
    pub decided: Vec<Uuid>,
    /// Slugs that are not terms in this tenant.
    pub unknown: Vec<String>,
}

/// What to do about one proposed tag.
#[derive(Debug, Clone, Copy, PartialEq, Eq, Structural)]
pub enum TagStep {
    /// There is no such term.
    Unknown,
    /// A person decided about it; nothing is written.
    Leave(Uuid),
    /// Another generator proposed it; its votes go up.
    Second(Uuid),
    /// It is new; it is written as a suggestion.
    Suggest(Uuid),
}

/// What to do about a proposed tag whose term is `term` and whose state on the asset is `state`. Re-proposing a
/// rejected term would put it back in the queue somebody cleared, and re-proposing a confirmed one would demote
/// it.
pub open spec fn tag_rule(term: Option<Uuid>, state: Option<Seq<char>>) -> TagStep {
    match term {
        None => TagStep::Unknown,
        Some(id) => match state {
            None => TagStep::Suggest(id),
            Some(word) => if word == "rejected"@ || word == "confirmed"@ {
                TagStep::Leave(id)
            } else {
                TagStep::Second(id)
            },
        },
    }
}

/// What to do about a proposed tag.
pub fn tag_step(term: Option<Uuid>, state: &Option<String>) -> (step: TagStep)
    ensures
        step == tag_rule(term, opt_chars(*state)),
        step == TagStep::Unknown <==> term is None,
        step matches TagStep::Suggest(id) ==> term == Some(id) && *state is None,
        step matches TagStep::Leave(id) ==> term == Some(id) && *state is Some && (state->0@ == "rejected"@ || state->0@
            == "confirmed"@),
        step matches TagStep::Second(id) ==> term == Some(id) && *state is Some && state->0@ != "rejected"@ && state->0@
            != "confirmed"@,
{
    match term {
        None => TagStep::Unknown,
        Some(id) => match state {
            None => TagStep::Suggest(id),
            Some(word) => if same(word.as_str(), "rejected") || same(word.as_str(), "confirmed") {
                TagStep::Leave(id)
            } else {
                TagStep::Second(id)
            },
        },
    }
}

impl Tagged {
    /// A tag write that has done nothing.
    pub fn new() -> (tagged: Tagged)
        ensures
            tagged.suggested@.len() == 0,
            tagged.seconded@.len() == 0,
            tagged.decided@.len() == 0,
            tagged.unknown@.len() == 0,
    {
        Tagged {
            suggested: Vec::new(),
            seconded: Vec::new(),
            decided: Vec::new(),
            unknown: Vec::new(),
        }
    }

    /// Notes what was done about `slug`.
    pub fn note(&mut self, slug: &String, step: TagStep)
        ensures
            final(self).suggested@ == (if let TagStep::Suggest(id) = step {
                old(self).suggested@.push(id)
            } else {
                old(self).suggested@
            }),
            final(self).seconded@ == (if let TagStep::Second(id) = step {
                old(self).seconded@.push(id)
            } else {
                old(self).seconded@
            }),
            final(self).decided@ == (if let TagStep::Leave(id) = step {
                old(self).decided@.push(id)
            } else {
                old(self).decided@
            }),
            final(self).unknown@ == (if step == TagStep::Unknown {
                old(self).unknown@.push(*slug)
            } else {
                old(self).unknown@
            }),
    {
        match step {
            TagStep::Unknown => self.unknown.push(slug.clone()),
            TagStep::Leave(id) => self.decided.push(id),
            TagStep::Second(id) => self.seconded.push(id),
            TagStep::Suggest(id) => self.suggested.push(id),
        }
    }
}

/// A decision a person made stands: a term that is rejected or confirmed on an asset is never written.
pub proof fn a_decided_term_is_left_alone(term: Option<Uuid>, state: Seq<char>)
    requires
        state == "rejected"@ || state == "confirmed"@,
    ensures
        !(tag_rule(term, Some(state)) is Second),
        !(tag_rule(term, Some(state)) is Suggest),
{
}

/// What a person decided about a suggested tag.
#[derive(Debug, Clone, Copy, PartialEq, Eq, Structural)]
pub enum Verdict {
    Accept,
    Reject,
}

impl Verdict {
    /// The state the tag takes.
    pub open spec fn state_chars(self) -> Seq<char> {
        match self {
            Verdict::Accept => "confirmed"@,
            Verdict::Reject => "rejected"@,
        }
    }

    /// The word the feedback row holds.
    pub open spec fn feedback_chars(self) -> Seq<char> {
        match self {
            Verdict::Accept => "accept"@,
            Verdict::Reject => "reject"@,
        }
    }

    /// The state the tag takes.
    pub fn state(self) -> (text: &'static str)
        ensures
            text@ == self.state_chars(),
            self == Verdict::Accept ==> text@ == "confirmed"@,
            self == Verdict::Reject ==> text@ == "rejected"@,
    {
        match self {
            Verdict::Accept => "confirmed",
            Verdict::Reject => "rejected",
        }
    }

    /// The word the feedback row holds. That table is the training set, so rejections are kept too.
    pub fn feedback(self) -> (text: &'static str)
        ensures
            text@ == self.feedback_chars(),
            self == Verdict::Accept ==> text@ == "accept"@,
            self == Verdict::Reject ==> text@ == "reject"@,
    {
        match self {
            Verdict::Accept => "accept",
            Verdict::Reject => "reject",
        }
    }
}

/// Which generator proposed a tag, from the tag's source. A tag a person added by hand has no proposer rather
/// than a lie about which model suggested it.
pub fn proposed_by(source: &str) -> (generator: Option<&'static str>)
    ensures
        match generator {
            Some(text) => text@ == source@ && (source@ == "zero_shot"@ || source@ == "probe"@
                || source@ == "llm"@),
            None => source@ != "zero_shot"@ && source@ != "probe"@ && source@ != "llm"@,
        },
{
    if same(source, "zero_shot") {
        Some("zero_shot")
    } else if same(source, "probe") {
        Some("probe")
    } else if same(source, "llm") {
        Some("llm")
    } else {
        None
    }
}

// ----------------------------------------------------------------------------------------------------
// Runs
// ----------------------------------------------------------------------------------------------------

/// How a run ended.
#[derive(Debug, Clone, Copy, PartialEq, Eq, Structural)]
pub enum Outcome {
    Succeeded,
    /// Something was written and something was not.
    Partial,
    Failed,
    /// Deliberately not attempted.
    Skipped,
}

impl Outcome {
    /// The column's spelling.
    pub open spec fn chars(self) -> Seq<char> {
        match self {
            Outcome::Succeeded => "succeeded"@,
            Outcome::Partial => "partial"@,
            Outcome::Failed => "failed"@,
            Outcome::Skipped => "skipped"@,
        }
    }

    /// The column's spelling.
    pub fn as_str(self) -> (text: &'static str)
        ensures
            text@ == self.chars(),
            text@ == match self {
                Outcome::Succeeded => "succeeded"@,
                Outcome::Partial => "partial"@,
                Outcome::Failed => "failed"@,
                Outcome::Skipped => "skipped"@,
            },
    {
        match self {
            Outcome::Succeeded => "succeeded",
            Outcome::Partial => "partial",
            Outcome::Failed => "failed",
            Outcome::Skipped => "skipped",
        }
    }
}

/// Two values with one spelling are one value, so a spelling that is written reads back as what was written.
pub proof fn outcome_spellings_are_distinct(a: Outcome, b: Outcome)
    requires
        a.chars() == b.chars(),
    ensures
        a == b,
{
    reveal_strlit("succeeded");
    reveal_strlit("partial");
    reveal_strlit("failed");
    reveal_strlit("skipped");
    assert("succeeded"@.len() == 9);
    assert("partial"@.len() == 7);
    assert("failed"@.len() == 6);
    assert("skipped"@.len() == 7);
    assert("partial"@[0] != "skipped"@[0]);
}

/// What a call used, as the provider reported it.
#[derive(Debug, Clone, Copy, Default, PartialEq, Eq, Structural)]
pub struct Cost {
    pub input_tokens: i64,
    pub output_tokens: i64,
    pub cached_tokens: i64,
    /// Micro-cents, the unit quotas are charged in.
    pub micro_cents: i64,
}

/// The magnitude of a number of micro-cents in ten-thousandths of a cent, rounded half up.
pub open spec fn ten_thousandths(micro: int) -> nat {
    let magnitude = if micro < 0 {
        -micro
    } else {
        micro
    };
    (magnitude / 100 + if magnitude % 100 >= 50 {
        1int
    } else {
        0int
    }) as nat
}

/// Micro-cents as cents with four decimal places.
pub open spec fn cents_chars(micro: int) -> Seq<char> {
    (if micro < 0 {
        "-"@
    } else {
        ""@
    }) + nat_chars(ten_thousandths(micro) / 10_000) + "."@ + padded_chars(
        ten_thousandths(micro) % 10_000,
        4,
    )
}

/// Micro-cents as a decimal string for a column with four decimal places.
///
/// Integer arithmetic and a string: a float on the way in is how a cost ledger acquires rounding nobody can
/// explain.
pub fn cents(micro: i64) -> (text: String)
    ensures
        text@ == cents_chars(micro as int),
{
    let negative = micro < 0;
    let magnitude: i128 = if negative {
        -(micro as i128)
    } else {
        micro as i128
    };
    let carried: i128 = if magnitude % 100 >= 50 {
        1
    } else {
        0
    };
    let units: u128 = (magnitude / 100 + carried) as u128;
    let mut text = if negative {
        "-".to_owned()
    } else {
        "".to_owned()
    };
    text.append(nat_text(units / 10_000).as_str());
    text.append(".");
    text.append(padded_text(units % 10_000, 4).as_str());
    text
}

/// Rounding loses at most half of the last place: the ten-thousandths written are within 50 micro-cents of the
/// amount.
pub proof fn rounding_is_within_half_a_place(micro: int)
    ensures
        ({
            let magnitude = if micro < 0 {
                -micro
            } else {
                micro
            };
            -50 < ten_thousandths(micro) * 100 - magnitude <= 50
        }),
{
}

// ----------------------------------------------------------------------------------------------------
// Settings
// ----------------------------------------------------------------------------------------------------

/// What a tenant wants the enrichment pipeline to do.
#[derive(Debug, Clone, PartialEq, Eq)]
pub struct Settings {
    /// False until somebody turns it on: this pipeline bills per asset.
    pub is_enabled: bool,
    /// The tenant's own instructions.
    pub guidance: String,
    pub language: String,
    /// Overrides the credential's default model for this pipeline.
    pub model: Option<String>,
    /// Where the alt text lands, or `None` to write none.
    pub alt_text_field: Option<String>,
    pub description_field: Option<String>,
    pub suggest_tags: bool,
    /// Whether a question in the search box may be turned into a query by a model.
    pub natural_language_search: bool,
}

impl Settings {
    /// Whether these are the settings a tenant gets before anybody configures anything: nothing runs.
    pub open spec fn is_default(self) -> bool {
        &&& !self.is_enabled
        &&& self.guidance@ == Seq::<char>::empty()
        &&& self.language@ == "English"@
        &&& self.model is None
        &&& opt_chars(self.alt_text_field) == Some("alt_text"@)
        &&& opt_chars(self.description_field) == Some("description"@)
        &&& self.suggest_tags
        &&& !self.natural_language_search
    }
}

impl Default for Settings {
    /// What a tenant gets before anybody configures anything: nothing runs.
    fn default() -> (settings: Settings)
        ensures
            settings.is_default(),
            !settings.is_enabled,
            !settings.natural_language_search,
            settings.suggest_tags,
            settings.language@ == "English"@,
            settings.guidance@.len() == 0,
            settings.model is None,
            settings.alt_text_field is Some && settings.alt_text_field->0@ == "alt_text"@,
            settings.description_field is Some && settings.description_field->0@ == "description"@,
    {
        Settings {
            is_enabled: false,
            guidance: String::new(),
            language: "English".to_owned(),
            model: None,
            alt_text_field: Some("alt_text".to_owned()),
            description_field: Some("description".to_owned()),
            suggest_tags: true,
            natural_language_search: false,
        }
    }
}

/// The settings that apply: the stored ones, or the defaults where no row is stored. Failing closed is the only
/// default that cannot cost money.
pub fn settings(row: Option<Settings>) -> (settings: Settings)
    ensures
        match row {
            Some(stored) => settings == stored,
            None => settings.is_default(),
        },
{
    match row {
        Some(stored) => stored,
        None => Settings::default(),
    }
}

/// An optional text without the white space around it.
pub open spec fn opt_trimmed(text: Option<Seq<char>>) -> Option<Seq<char>> {
    match text {
        Some(inner) => Some(trimmed(inner)),
        None => None,
    }
}

fn trim_opt(text: &Option<String>) -> (out: Option<String>)
    ensures
        opt_chars(out) == opt_trimmed(opt_chars(*text)),
{
    match text {
        Some(inner) => Some(trim(inner.as_str()).to_owned()),
        None => None,
    }
}

/// The settings as they are stored: the language, the model and the field names trimmed.
pub fn save_settings(wanted: &Settings) -> (stored: Settings)
    ensures
        stored.is_enabled == wanted.is_enabled,
        stored.guidance == wanted.guidance,
        stored.language@ == trimmed(wanted.language@),
        opt_chars(stored.model) == opt_trimmed(opt_chars(wanted.model)),
        opt_chars(stored.alt_text_field) == opt_trimmed(opt_chars(wanted.alt_text_field)),
        opt_chars(stored.description_field) == opt_trimmed(opt_chars(wanted.description_field)),
        stored.suggest_tags == wanted.suggest_tags,
        stored.natural_language_search == wanted.natural_language_search,
{
    Settings {
        is_enabled: wanted.is_enabled,
        guidance: wanted.guidance.clone(),
        language: trim(wanted.language.as_str()).to_owned(),
        model: trim_opt(&wanted.model),
        alt_text_field: trim_opt(&wanted.alt_text_field),
        description_field: trim_opt(&wanted.description_field),
        suggest_tags: wanted.suggest_tags,
        natural_language_search: wanted.natural_language_search,
    }
}

// ----------------------------------------------------------------------------------------------------
// Review
// ----------------------------------------------------------------------------------------------------

pub const QUEUE_SELECT: &'static str =
    "SELECT assets.id, assets.filename, assets.mime, \
            COALESCE(max(asset_tags.generator_votes), 0)::smallint AS votes, \
            COALESCE(max(asset_tags.confidence), 0)::real AS confidence \
       FROM assets \
       LEFT JOIN asset_tags ON asset_tags.asset_id = assets.id AND asset_tags.state = 'suggested' \
       LEFT JOIN asset_metadata ON asset_metadata.asset_id = assets.id \
      WHERE ";

pub const QUEUE_PENDING: &'static str =
    " AND (asset_tags.term_id IS NOT NULL OR EXISTS (SELECT 1 FROM \
     jsonb_each(asset_metadata.provenance) AS entry(key, value) \
     WHERE entry.value ->> 'reviewed_by' IS NULL)) ";

pub const QUEUE_GROUP: &'static str = " GROUP BY assets.id, assets.filename, assets.mime ";

pub const QUEUE_ORDER: &'static str =
    " ORDER BY votes DESC, confidence DESC, assets.created_at DESC LIMIT ";

/// The statement that lists assets a model has touched and a person has not, strongest evidence first, under the
/// caller's predicate. There is something to look at: an undecided tag, or a machine-written field that nobody has
/// reviewed.
pub fn review_queue(predicate: &AccessPredicate, limit: i64) -> (statement: Statement)
    requires
        predicate.fits(),
    ensures
        query(statement) == predicate.after(Query::new(
            "SELECT assets.id, assets.filename, assets.mime, \
             COALESCE(max(asset_tags.generator_votes), 0)::smallint AS votes, \
             COALESCE(max(asset_tags.confidence), 0)::real AS confidence \
             FROM assets \
             LEFT JOIN asset_tags ON asset_tags.asset_id = assets.id AND asset_tags.state = 'suggested' \
             LEFT JOIN asset_metadata ON asset_metadata.asset_id = assets.id \
             WHERE "@,
        )).push(LIBRARY_ROWS@).push(
            " AND (asset_tags.term_id IS NOT NULL OR EXISTS (SELECT 1 FROM \
             jsonb_each(asset_metadata.provenance) AS entry(key, value) \
             WHERE entry.value ->> 'reviewed_by' IS NULL)) "@,
        ).push(
            " GROUP BY assets.id, assets.filename, assets.mime "@,
        ).push(" ORDER BY votes DESC, confidence DESC, assets.created_at DESC LIMIT "@).bind(Bind::Int(limit)),
{
    let mut statement = Statement::new(QUEUE_SELECT);
    push_asset_filter(&mut statement, predicate);
    push(&mut statement, LIBRARY_ROWS);
    push(&mut statement, QUEUE_PENDING);
    push(&mut statement, QUEUE_GROUP);
    push(&mut statement, QUEUE_ORDER);
    push_bind_int(&mut statement, limit);
    statement
}

/// A machine-written value awaiting a look.
#[derive(Debug, Clone, PartialEq, Eq)]
pub struct MachineField {
    pub key: String,
    pub value: Json,
    pub model: String,
    /// The number the model claimed, in its text.
    pub confidence: Option<String>,
    /// Whether anybody has recorded a look at it yet.
    pub reviewed: bool,
}

/// The member `key` of an object: the first entry that has it.
pub open spec fn member(value: Json, key: Seq<char>) -> Option<Json> {
    match value {
        Json::Object(entries) => first_member(entries@, key),
        _ => None,
    }
}

/// The first entry with the key `key`.
pub open spec fn first_member(entries: Seq<(String, Json)>, key: Seq<char>) -> Option<Json>
    decreases entries.len(),
{
    if entries.len() == 0 {
        None
    } else if entries[0].0@ == key {
        Some(entries[0].1)
    } else {
        first_member(entries.drop_first(), key)
    }
}

#[verifier::loop_isolation(false)]
fn member_of<'a>(value: &'a Json, key: &str) -> (found: Option<&'a Json>)
    ensures
        match found {
            Some(inner) => member(*value, key@) == Some(*inner),
            None => member(*value, key@) is None,
        },
{
    match value {
        Json::Object(entries) => {
            let mut i: usize = 0;
            proof {
                assert(entries@.skip(0) =~= entries@);
            }
            while i < entries.len()
                invariant
                    i <= entries@.len(),
                    first_member(entries@, key@) == first_member(entries@.skip(i as int), key@),
                decreases entries@.len() - i,
            {
                proof {
                    let rest = entries@.skip(i as int);
                    assert(rest[0] == entries@[i as int]);
                    assert(rest.drop_first() =~= entries@.skip(i + 1));
                }
                if same(entries[i].0.as_str(), key) {
                    return Some(&entries[i].1);
                }
                i += 1;
            }
            None
        },
        _ => None,
    }
}

/// The model a marking names, or `unknown`.
pub open spec fn marked_model(marking: Json) -> Seq<char> {
    match member(marking, "model"@) {
        Some(Json::Text(model)) => model@,
        _ => "unknown"@,
    }
}

/// The confidence a marking claims: its text where it is a number.
pub open spec fn marked_confidence(marking: Json) -> Option<Seq<char>> {
    match member(marking, "confidence"@) {
        Some(Json::Number(text)) => Some(text@),
        Some(Json::Int(whole)) => Some(int_chars(whole as int)),
        _ => None,
    }
}

/// Whether a marking says somebody has looked: `reviewed_by` is there and not `null`.
pub open spec fn marked_reviewed(marking: Json) -> bool {
    member(marking, "reviewed_by"@) matches Some(value) && !(value is Null)
}

/// A machine-written value, from the key, the value as it stands and its marking.
pub fn machine_field(key: String, value: Json, marking: &Json) -> (field: MachineField)
    ensures
        field.key == key,
        field.value == value,
        field.model@ == marked_model(*marking),
        opt_chars(field.confidence) == marked_confidence(*marking),
        field.reviewed == marked_reviewed(*marking),
{
    let model = match member_of(marking, "model") {
        Some(found) => match found {
            Json::Text(model) => model.clone(),
            _ => "unknown".to_owned(),
        },
        None => "unknown".to_owned(),
    };
    let confidence = match member_of(marking, "confidence") {
        Some(found) => match found {
            Json::Number(text) => Some(text.clone()),
            Json::Int(whole) => Some(int_text(*whole as i128)),
            _ => None,
        },
        None => None,
    };
    let reviewed = match member_of(marking, "reviewed_by") {
        Some(found) => !found.is_null(),
        None => false,
    };
    MachineField { key, value, model, confidence, reviewed }
}

/// A machine-written value as it was read: its key, the value as it stands, and its marking.
#[derive(Debug)]
pub struct MarkedRow {
    pub key: String,
    pub value: Json,
    pub marking: Json,
}

/// Whether a field is what a row says of it.
pub open spec fn reads_marked(field: MachineField, row: MarkedRow) -> bool {
    &&& field.key == row.key
    &&& field.value == row.value
    &&& field.model@ == marked_model(row.marking)
    &&& opt_chars(field.confidence) == marked_confidence(row.marking)
    &&& field.reviewed == marked_reviewed(row.marking)
}

/// The rows that nobody has reviewed, in their order.
pub open spec fn unreviewed(rows: Seq<MarkedRow>) -> Seq<MarkedRow> {
    rows.filter(|row: MarkedRow| !marked_reviewed(row.marking))
}

/// The machine-written fields of an asset in the review queue: those that nobody has reviewed.
pub fn fields_to_review(rows: Vec<MarkedRow>) -> (fields: Vec<MachineField>)
    ensures
        fields@.len() == unreviewed(rows@).len(),
        forall|i: int|
            0 <= i < fields@.len() ==> reads_marked(#[trigger] fields@[i], unreviewed(rows@)[i]),
        forall|i: int| 0 <= i < fields@.len() ==> !(#[trigger] fields@[i]).reviewed,
{
    let ghost all = rows@;
    let ghost keep = |row: MarkedRow| !marked_reviewed(row.marking);
    let mut fields: Vec<MachineField> = Vec::new();
    proof {
        lemma_filter_ends(all, keep);
    }
    for row in each: rows
        invariant
            each.seq() == all,
            keep == (|row: MarkedRow| !marked_reviewed(row.marking)),
            fields@.len() == all.take(each.index()).filter(keep).len(),
            forall|i: int|
                0 <= i < fields@.len() ==> reads_marked(
                    #[trigger] fields@[i],
                    all.take(each.index()).filter(keep)[i],
                ),
            forall|i: int| 0 <= i < fields@.len() ==> !(#[trigger] fields@[i]).reviewed,
    {
        proof {
            lemma_filter_step(all, keep, each.index());
        }
        let field = machine_field(row.key, row.value, &row.marking);
        if !field.reviewed {
            fields.push(field);
        }
    }
    proof {
        assert(all.take(all.len() as int) =~= all);
    }
    fields
}

/// One asset a backfill could describe.
#[derive(Debug, Clone, PartialEq, Eq)]
pub struct Candidate {
    pub asset_id: Uuid,
    pub filename: String,
    /// The proxy's object key and mime: the bytes a description reads, never the original.
    pub object_key: String,
    pub proxy_mime: String,
}

/// How many assets a backfill still has to do, and how many it has done.
#[derive(Debug, Clone, Copy, PartialEq, Eq, Structural)]
pub struct BackfillProgress {
    pub outstanding: i64,
    pub described: i64,
    /// Runs waiting on a batch that has not ended.
    pub in_flight: i64,
}

/// What a machine wrote is told from what a person wrote, and each value has one fate: it is refused where the field is
/// not open to machines, kept where a person's value stands there, and otherwise written.
pub proof fn a_value_has_one_fate(
    writable: Seq<String>,
    values: Map<Seq<char>, Json>,
    provenance: Map<Seq<char>, Json>,
    key: Seq<char>,
)
    ensures
        fate(writable, values, provenance, key) == Fate::Refused <==> !holds(writable, key),
        fate(writable, values, provenance, key) == Fate::KeptHuman <==> holds(writable, key) && values.dom().contains(key)
            && !provenance.dom().contains(key),
        fate(writable, values, provenance, key) == Fate::Written <==> holds(writable, key) && (!values.dom().contains(key)
            || provenance.dom().contains(key)),
{
}

/// A value that is written arrives with its own marking: after one more value, a field that is open and holds nothing of
/// a person's holds that value, marked as that value was.
pub proof fn a_written_value_arrives_marked(
    writable: Seq<String>,
    values: Map<Seq<char>, Json>,
    provenance: Map<Seq<char>, Json>,
    produced: Seq<MachineValue>,
    one: MachineValue,
)
    requires
        holds(writable, one.key@),
        !values.dom().contains(one.key@) || provenance.dom().contains(one.key@),
    ensures
        ({
            let (v, p) = merged(writable, values, provenance, produced.push(one));
            &&& v.dom().contains(one.key@) && v[one.key@] == one.value
            &&& p.dom().contains(one.key@) && p[one.key@] == one.marking
        }),
{
    broadcast use vstd::map::group_map_axioms;

    assert(produced.push(one).drop_last() =~= produced);
    lemma_a_machine_field_stays_open(writable, values, provenance, produced, one.key@);
}

proof fn lemma_a_machine_field_stays_open(
    writable: Seq<String>,
    values: Map<Seq<char>, Json>,
    provenance: Map<Seq<char>, Json>,
    produced: Seq<MachineValue>,
    key: Seq<char>,
)
    requires
        !human(values, provenance, key),
    ensures
        ({
            let (v, p) = merged(writable, values, provenance, produced);
            !human(v, p, key)
        }),
    decreases produced.len(),
{
    broadcast use vstd::map::group_map_axioms;

    if produced.len() > 0 {
        lemma_a_machine_field_stays_open(writable, values, provenance, produced.drop_last(), key);
    }
}

/// Every value that was produced is reported once: as written, as refused or as kept from.
pub proof fn every_value_is_reported_once(
    writable: Seq<String>,
    values: Map<Seq<char>, Json>,
    provenance: Map<Seq<char>, Json>,
    produced: Seq<MachineValue>,
)
    ensures
        keys_with_fate(writable, values, provenance, produced, Fate::Written).len() + keys_with_fate(
            writable,
            values,
            provenance,
            produced,
            Fate::Refused,
        ).len() + keys_with_fate(writable, values, provenance, produced, Fate::KeptHuman).len() == produced.len(),
    decreases produced.len(),
{
    if produced.len() > 0 {
        every_value_is_reported_once(writable, values, provenance, produced.drop_last());
    }
}

/// What was written of a value's making is read back of it: the model and its confidence as they were given, and that
/// nobody has looked at it yet.
pub proof fn a_marking_reads_back(marking: Json, attribution: Attribution, at: Instant)
    requires
        marking_of(marking, attribution, at),
    ensures
        marked_model(marking) == attribution.model@,
        marked_confidence(marking) == Some(attribution.confidence@),
        !marked_reviewed(marking),
        member(marking, "source"@) is Some && member(marking, "source"@)->0@ == JsonView::Text(attribution.source.chars()),
        member(marking, "model_version"@) is Some && member(marking, "model_version"@)->0@ == JsonView::Text(
            attribution.model_version@,
        ),
        member(marking, "at"@) is Some && member(marking, "at"@)->0@ == JsonView::Text(rfc3339_chars(at as int)),
{
    reveal_with_fuel(first_member, 7);
    reveal_strlit("source");
    reveal_strlit("model");
    reveal_strlit("model_version");
    reveal_strlit("confidence");
    reveal_strlit("at");
    reveal_strlit("reviewed_by");
    assert("source"@.len() == 6 && "model"@.len() == 5 && "model_version"@.len() == 13 && "confidence"@.len() == 10
        && "at"@.len() == 2 && "reviewed_by"@.len() == 11);
    if let Json::Object(members) = marking {
        let s = members@;
        assert(s.drop_first()[0] == s[1]);
        assert(s.drop_first().drop_first()[0] == s[2]);
        assert(s.drop_first().drop_first().drop_first()[0] == s[3]);
        assert(s.drop_first().drop_first().drop_first().drop_first()[0] == s[4]);
        assert(s.drop_first().drop_first().drop_first().drop_first().drop_first()[0] == s[5]);
    }
}

/// A term that nobody has decided on is suggested the first time and seconded after that; one that is not in the
/// vocabulary is neither. And what a person decides is left alone from then on.
pub proof fn a_term_is_suggested_and_seconded(id: Uuid, state: Seq<char>, verdict: Verdict)
    ensures
        tag_rule(None, None) == TagStep::Unknown,
        tag_rule(None, Some(state)) == TagStep::Unknown,
        tag_rule(Some(id), None) == TagStep::Suggest(id),
        state != "rejected"@ && state != "confirmed"@ ==> tag_rule(Some(id), Some(state)) == TagStep::Second(id),
        tag_rule(Some(id), Some(verdict.state_chars())) == TagStep::Leave(id),
        Verdict::Accept.state_chars() == "confirmed"@,
        Verdict::Reject.state_chars() == "rejected"@,
        Verdict::Accept.feedback_chars() == "accept"@,
        Verdict::Reject.feedback_chars() == "reject"@,
{
}

/// An amount is rounded to the nearest ten-thousandth: a hundred more of the smallest unit is one more of them, and an
/// amount and its negative are rounded alike.
pub proof fn amounts_are_counted_in_ten_thousandths(micro: int)
    ensures
        micro >= 0 ==> ten_thousandths(micro + 100) == ten_thousandths(micro) + 1,
        ten_thousandths(0) == 0,
        ten_thousandths(50) == 1 && ten_thousandths(49) == 0,
        ten_thousandths(-micro) == ten_thousandths(micro),
{
}

/// A field is shown for review as its row says; a value whose marking names no model is of an unknown one, and it is
/// reviewed exactly where somebody is named.
pub proof fn a_field_reads_as_its_marking(field: MachineField, row: MarkedRow)
    ensures
        reads_marked(field, row) ==> field.key == row.key && field.value == row.value,
        member(row.marking, "model"@) is None ==> marked_model(row.marking) == "unknown"@,
        member(row.marking, "confidence"@) is None ==> marked_confidence(row.marking) is None,
        member(row.marking, "reviewed_by"@) is None ==> !marked_reviewed(row.marking),
        member(row.marking, "reviewed_by"@) matches Some(value) ==> (marked_reviewed(row.marking) <==> !(value is Null)),
{
}

/// A text that is there is kept without the white space around it, one that is not stays away.
pub proof fn a_setting_is_kept_trimmed(text: Seq<char>)
    ensures
        opt_trimmed(None) is None,
        opt_trimmed(Some(text)) == Some(trimmed(text)),
{
}

/// What a marking says under a name is its first value of that name, and nothing where it has none.
pub proof fn a_marking_says_its_first_value(entries: Seq<(String, Json)>, key: Seq<char>, place: int)
    ensures
        (forall|i: int| 0 <= i < entries.len() ==> (#[trigger] entries[i]).0@ != key) ==> first_member(entries, key)
            is None,
        0 <= place < entries.len() && entries[place].0@ == key && (forall|i: int|
            0 <= i < place ==> (#[trigger] entries[i]).0@ != key) ==> first_member(entries, key) == Some(entries[place].1),
    decreases entries.len(),
{
    if entries.len() > 0 && entries[0].0@ != key {
        let rest = entries.drop_first();
        a_marking_says_its_first_value(rest, key, place - 1);
        assert forall|i: int| 0 <= i < rest.len() implies #[trigger] rest[i] == entries[i + 1] by {}
        if forall|i: int| 0 <= i < entries.len() ==> (#[trigger] entries[i]).0@ != key {
            assert forall|i: int| 0 <= i < rest.len() implies (#[trigger] rest[i]).0@ != key by {
                assert(entries[i + 1].0@ != key);
            }
        }
        if 0 < place < entries.len() && forall|i: int| 0 <= i < place ==> (#[trigger] entries[i]).0@ != key {
            assert forall|i: int| 0 <= i < place - 1 implies (#[trigger] rest[i]).0@ != key by {
                assert(entries[i + 1].0@ != key);
            }
        }
    }
}

/// Each value that a machine produced is marked with how it was made, under its own key and with its own value.
pub proof fn every_value_is_marked_with_its_making(
    produced: Seq<MachineValue>,
    values: Seq<(String, Json)>,
    attribution: Attribution,
    at: Instant,
    i: int,
)
    requires
        marked_as(produced, values, attribution, at),
        0 <= i < values.len(),
    ensures
        produced.len() == values.len(),
        produced[i].key == values[i].0,
        produced[i].value == values[i].1,
        marked_model(produced[i].marking) == attribution.model@,
        marked_confidence(produced[i].marking) == Some(attribution.confidence@),
        !marked_reviewed(produced[i].marking),
{
    assert(produced[i].key == values[i].0);
    a_marking_reads_back(produced[i].marking, attribution, at);
}

/// An amount is written with its sign, its whole cents, a point and four digits.
pub proof fn an_amount_has_four_places(micro: int)
    ensures
        cents_chars(micro).len() >= 6,
        cents_chars(micro)[cents_chars(micro).len() - 5] == '.',
        cents_chars(micro)[0] == '-' <==> micro < 0,
        cents_chars(micro).skip(cents_chars(micro).len() - 4) == padded_chars(ten_thousandths(micro) % 10_000, 4),
{
    let tail = padded_chars(ten_thousandths(micro) % 10_000, 4);
    let whole = nat_chars(ten_thousandths(micro) / 10_000);
    reveal_strlit("-");
    reveal_strlit(".");
    reveal_strlit("");
    assert("-"@.len() == 1 && "."@.len() == 1 && ""@.len() == 0);
    crate::text::lemma_padded_length(ten_thousandths(micro) % 10_000, 4);
    crate::text::lemma_nat_chars_digits(ten_thousandths(micro) / 10_000);
    assert('0' <= whole[0] <= '9');
    assert(cents_chars(micro).skip(cents_chars(micro).len() - 4) =~= tail);
}

// ----------------------------------------------------------------------------------------------------
// Commands
// ----------------------------------------------------------------------------------------------------

pub const WRITABLE: &'static str = "SELECT key FROM field_defs WHERE ai_writable AND NOT read_only";

/// The fields a model may write.
pub fn writable() -> (command: Command)
    ensures
        command.says("SELECT key FROM field_defs WHERE ai_writable AND NOT read_only"@, Seq::empty()),
{
    Command::new(WRITABLE, Vec::new())
}

pub const HELD: &'static str = "SELECT values, provenance FROM asset_metadata WHERE asset_id = $1";

/// An asset's values and what wrote them.
pub fn held(asset_id: Uuid) -> (command: Command)
    ensures
        command.says("SELECT values, provenance FROM asset_metadata WHERE asset_id = $1"@, seq![Given::Id(asset_id)]),
{
    Command::new(HELD, vec![Value::Id(asset_id)])
}

pub const WRITE_MARKED: &'static str =
    "INSERT INTO asset_metadata (asset_id, values, provenance) VALUES ($1, $2, $3) ON CONFLICT (asset_id) \
     DO UPDATE SET values = excluded.values, provenance = excluded.provenance, updated_at = now()";

/// An asset's values and their provenance, together.
pub fn write_marked(asset_id: Uuid, after: Marked) -> (command: Command)
    ensures
        command.says(
            "INSERT INTO asset_metadata (asset_id, values, provenance) VALUES ($1, $2, $3) ON CONFLICT (asset_id) \
             DO UPDATE SET values = excluded.values, provenance = excluded.provenance, updated_at = now()"@,
            seq![
                Given::Id(asset_id), Given::Object(after.values.listed()),
                Given::Object(after.provenance.listed()),
            ],
        ),
{
    Command::new(
        WRITE_MARKED,
        vec![
            Value::Id(asset_id), Value::Object(after.values.into_entries()),
            Value::Object(after.provenance.into_entries()),
        ],
    )
}

pub const HELD_PROVENANCE: &'static str =
    "SELECT provenance FROM asset_metadata WHERE asset_id = $1 FOR UPDATE";

/// What wrote an asset's values, held until the transaction ends.
pub fn held_provenance(asset_id: Uuid) -> (command: Command)
    ensures
        command.says(
            "SELECT provenance FROM asset_metadata WHERE asset_id = $1 FOR UPDATE"@,
            seq![Given::Id(asset_id)],
        ),
{
    Command::new(HELD_PROVENANCE, vec![Value::Id(asset_id)])
}

pub const WRITE_PROVENANCE: &'static str =
    "UPDATE asset_metadata SET provenance = $2, updated_at = now() WHERE asset_id = $1";

/// What wrote an asset's values.
pub fn write_provenance(asset_id: Uuid, left: Document) -> (command: Command)
    ensures
        command.says(
            "UPDATE asset_metadata SET provenance = $2, updated_at = now() WHERE asset_id = $1"@,
            seq![Given::Id(asset_id), Given::Object(left.listed())],
        ),
{
    Command::new(WRITE_PROVENANCE, vec![Value::Id(asset_id), Value::Object(left.into_entries())])
}

pub const MACHINE_WRITTEN: &'static str =
    "SELECT key, value FROM asset_metadata, jsonb_each(provenance) AS entry(key, value) WHERE asset_id = $1 \
     ORDER BY key";

/// The keys on one asset that a machine wrote, with what wrote them, by key.
pub fn machine_written(asset_id: Uuid) -> (command: Command)
    ensures
        command.says(
            "SELECT key, value FROM asset_metadata, jsonb_each(provenance) AS entry(key, value) WHERE asset_id = $1 \
             ORDER BY key"@,
            seq![Given::Id(asset_id)],
        ),
{
    Command::new(MACHINE_WRITTEN, vec![Value::Id(asset_id)])
}

pub const TERM_OF: &'static str = "SELECT id FROM taxonomy_terms WHERE slug = $1";

/// The term with a slug.
pub fn term_of(slug: &str) -> (command: Command)
    ensures
        command.says("SELECT id FROM taxonomy_terms WHERE slug = $1"@, seq![Given::Text(slug@)]),
{
    Command::new(TERM_OF, vec![as_text(slug)])
}

pub const TAG_STATE: &'static str = "SELECT state FROM asset_tags WHERE asset_id = $1 AND term_id = $2";

/// How a term stands on an asset.
pub fn tag_state(asset_id: Uuid, term_id: Option<Uuid>) -> (command: Command)
    ensures
        command.says(
            "SELECT state FROM asset_tags WHERE asset_id = $1 AND term_id = $2"@,
            seq![Given::Id(asset_id), Given::MaybeId(term_id)],
        ),
{
    Command::new(TAG_STATE, vec![Value::Id(asset_id), Value::MaybeId(term_id)])
}

pub const REGISTER_MODEL: &'static str =
    "INSERT INTO ai_models (id, key, version, kind, runtime, config) VALUES ($1, $2, $3, $4, $5, $6) ON \
     CONFLICT (key, version) DO UPDATE SET active = true RETURNING id";

/// A model, by key and version. One that is registered already is active again.
pub fn register_model(
    id: Uuid,
    key: &str,
    version: &str,
    kind: &str,
    runtime: &str,
    config: Json,
) -> (command: Command)
    ensures
        command.says(
            "INSERT INTO ai_models (id, key, version, kind, runtime, config) VALUES ($1, $2, $3, $4, $5, $6) ON \
             CONFLICT (key, version) DO UPDATE SET active = true RETURNING id"@,
            seq![
                Given::Id(id), Given::Text(key@), Given::Text(version@), Given::Text(kind@),
                Given::Text(runtime@), Given::Json(config),
            ],
        ),
{
    Command::new(
        REGISTER_MODEL,
        vec![
            Value::Id(id), as_text(key), as_text(version), as_text(kind), as_text(runtime),
            Value::Json(config),
        ],
    )
}

pub const START_RUN: &'static str =
    "INSERT INTO enrichment_runs (id, asset_id, pipeline, pipeline_version) VALUES ($1, $2, $3, $4)";

/// A run that begins.
pub fn start_run(
    id: Uuid,
    asset_id: Uuid,
    pipeline: &str,
    pipeline_version: i32,
) -> (command: Command)
    ensures
        command.says(
            "INSERT INTO enrichment_runs (id, asset_id, pipeline, pipeline_version) VALUES ($1, $2, $3, $4)"@,
            seq![
                Given::Id(id), Given::Id(asset_id), Given::Text(pipeline@),
                Given::Whole(pipeline_version),
            ],
        ),
{
    Command::new(
        START_RUN,
        vec![
            Value::Id(id), Value::Id(asset_id), as_text(pipeline), Value::Whole(pipeline_version),
        ],
    )
}

pub const FINISH_RUN: &'static str =
    "UPDATE enrichment_runs SET state = $2, stages = $3, failed_stage = $4, used_original = $5, \
     input_tokens = $6, output_tokens = $7, cached_tokens = $8, est_cost_cents = CAST($9 AS numeric), \
     finished_at = now(), duration_ms = (EXTRACT(EPOCH FROM (now() - started_at)) * 1000)::int WHERE id = \
     $1";

/// A run that has ended, with what it cost to a hundredth of a cent.
pub fn finish_run(
    id: Uuid,
    outcome: Outcome,
    cost: Cost,
    stages: Json,
    failed_stage: Option<&str>,
    used_original: bool,
) -> (command: Command)
    ensures
        command.says(
            "UPDATE enrichment_runs SET state = $2, stages = $3, failed_stage = $4, used_original = $5, \
             input_tokens = $6, output_tokens = $7, cached_tokens = $8, est_cost_cents = CAST($9 AS numeric), \
             finished_at = now(), duration_ms = (EXTRACT(EPOCH FROM (now() - started_at)) * 1000)::int WHERE id = \
             $1"@,
            seq![
                Given::Id(id), Given::Text(outcome.chars()), Given::Json(stages),
                Given::MaybeText(opt_str_chars(failed_stage)), Given::Flag(used_original),
                Given::Int(cost.input_tokens), Given::Int(cost.output_tokens),
                Given::Int(cost.cached_tokens), Given::Text(cents_chars(cost.micro_cents as int)),
            ],
        ),
{
    Command::new(
        FINISH_RUN,
        vec![
            Value::Id(id), as_text(outcome.as_str()), Value::Json(stages), as_maybe_str(failed_stage),
            Value::Flag(used_original), Value::Int(cost.input_tokens), Value::Int(cost.output_tokens),
            Value::Int(cost.cached_tokens), as_text(cents(cost.micro_cents).as_str()),
        ],
    )
}

pub const STORED_SETTINGS: &'static str =
    "SELECT is_enabled, guidance, language, model, alt_text_field, description_field, suggest_tags, \
     natural_language_search FROM enrichment_settings WHERE id";

/// The settings, where any were saved.
pub fn stored_settings() -> (command: Command)
    ensures
        command.says(
            "SELECT is_enabled, guidance, language, model, alt_text_field, description_field, suggest_tags, \
             natural_language_search FROM enrichment_settings WHERE id"@,
            Seq::empty(),
        ),
{
    Command::new(STORED_SETTINGS, Vec::new())
}

pub const WRITE_SETTINGS: &'static str =
    "INSERT INTO enrichment_settings (id, is_enabled, guidance, language, model, alt_text_field, \
     description_field, suggest_tags, natural_language_search, updated_at) VALUES (true, $1, $2, $3, $4, \
     $5, $6, $7, $8, now()) ON CONFLICT (id) DO UPDATE SET is_enabled = excluded.is_enabled, guidance = \
     excluded.guidance, language = excluded.language, model = excluded.model, alt_text_field = \
     excluded.alt_text_field, description_field = excluded.description_field, suggest_tags = \
     excluded.suggest_tags, natural_language_search = excluded.natural_language_search, updated_at = now()";

/// The settings, in place of what was saved before.
pub fn write_settings(row: &Settings) -> (command: Command)
    ensures
        command.says(
            "INSERT INTO enrichment_settings (id, is_enabled, guidance, language, model, alt_text_field, \
             description_field, suggest_tags, natural_language_search, updated_at) VALUES (true, $1, $2, $3, $4, \
             $5, $6, $7, $8, now()) ON CONFLICT (id) DO UPDATE SET is_enabled = excluded.is_enabled, guidance = \
             excluded.guidance, language = excluded.language, model = excluded.model, alt_text_field = \
             excluded.alt_text_field, description_field = excluded.description_field, suggest_tags = \
             excluded.suggest_tags, natural_language_search = excluded.natural_language_search, updated_at = now()"@,
            seq![
                Given::Flag(row.is_enabled), Given::Text(row.guidance@), Given::Text(row.language@),
                Given::MaybeText(opt_chars(row.model)), Given::MaybeText(opt_chars(row.alt_text_field)),
                Given::MaybeText(opt_chars(row.description_field)), Given::Flag(row.suggest_tags),
                Given::Flag(row.natural_language_search),
            ],
        ),
{
    Command::new(
        WRITE_SETTINGS,
        vec![
            Value::Flag(row.is_enabled), as_text(row.guidance.as_str()), as_text(row.language.as_str()),
            as_maybe_text(&row.model), as_maybe_text(&row.alt_text_field),
            as_maybe_text(&row.description_field), Value::Flag(row.suggest_tags),
            Value::Flag(row.natural_language_search),
        ],
    )
}

pub const VOCABULARY_SIZE: &'static str =
    "SELECT count(*) FROM taxonomy_terms WHERE deprecated_at IS NULL";

/// How many terms there are to offer.
pub fn vocabulary_size() -> (command: Command)
    ensures
        command.says("SELECT count(*) FROM taxonomy_terms WHERE deprecated_at IS NULL"@, Seq::empty()),
{
    Command::new(VOCABULARY_SIZE, Vec::new())
}

pub const VOCABULARY: &'static str =
    "SELECT slug, label, synonyms FROM taxonomy_terms WHERE deprecated_at IS NULL ORDER BY slug, id LIMIT $1";

/// The vocabulary to offer a model, by slug. Two trees may use one slug, so the order does not end there: the same
/// vocabulary always reads the same.
pub fn vocabulary(limit: i64) -> (command: Command)
    ensures
        command.says(
            "SELECT slug, label, synonyms FROM taxonomy_terms WHERE deprecated_at IS NULL ORDER BY slug, id LIMIT $1"@,
            seq![Given::Int(limit)],
        ),
{
    Command::new(VOCABULARY, vec![Value::Int(limit)])
}

pub const CLEAR_DISCLOSURE: &'static str =
    "DELETE FROM ai_disclosures WHERE asset_id = $1 AND field_key = $2";

/// A field's disclosure, gone to make room for another.
pub fn clear_disclosure(asset_id: Uuid, field_key: &str) -> (command: Command)
    ensures
        command.says(
            "DELETE FROM ai_disclosures WHERE asset_id = $1 AND field_key = $2"@,
            seq![Given::Id(asset_id), Given::Text(field_key@)],
        ),
{
    Command::new(CLEAR_DISCLOSURE, vec![Value::Id(asset_id), as_text(field_key)])
}

pub const DISCLOSE: &'static str =
    "INSERT INTO ai_disclosures (id, asset_id, field_key, disclosure_kind, model_id, model_name, \
     prompt_digest, human_oversight, human_visible) VALUES ($1, $2, $3, 'metadata_only', $4, $5, $6, \
     'none', false)";

/// That a machine wrote a field, which nobody has looked at yet.
pub fn disclose(
    id: Uuid,
    asset_id: Uuid,
    field_key: &str,
    model_id: Uuid,
    model_name: &str,
    prompt_digest: &str,
) -> (command: Command)
    ensures
        command.says(
            "INSERT INTO ai_disclosures (id, asset_id, field_key, disclosure_kind, model_id, model_name, \
             prompt_digest, human_oversight, human_visible) VALUES ($1, $2, $3, 'metadata_only', $4, $5, $6, \
             'none', false)"@,
            seq![
                Given::Id(id), Given::Id(asset_id), Given::Text(field_key@), Given::Id(model_id),
                Given::Text(model_name@), Given::Text(prompt_digest@),
            ],
        ),
{
    Command::new(
        DISCLOSE,
        vec![
            Value::Id(id), Value::Id(asset_id), as_text(field_key), Value::Id(model_id),
            as_text(model_name), as_text(prompt_digest),
        ],
    )
}

pub const WRITE_OVERSIGHT: &'static str =
    "UPDATE ai_disclosures SET human_oversight = $3, reviewed_by = $4, reviewed_at = now() WHERE asset_id = \
     $1 AND field_key = $2";

/// That a person looked at a machine-written field, in its disclosure.
pub fn write_oversight(
    asset_id: Uuid,
    field_key: &str,
    oversight: &str,
    actor: Option<Uuid>,
) -> (command: Command)
    ensures
        command.says(
            "UPDATE ai_disclosures SET human_oversight = $3, reviewed_by = $4, reviewed_at = now() WHERE asset_id = \
             $1 AND field_key = $2"@,
            seq![
                Given::Id(asset_id), Given::Text(field_key@), Given::Text(oversight@),
                Given::MaybeId(actor),
            ],
        ),
{
    Command::new(
        WRITE_OVERSIGHT,
        vec![
            Value::Id(asset_id), as_text(field_key), as_text(oversight), Value::MaybeId(actor),
        ],
    )
}

pub const WRITE_REVIEWED: &'static str =
    "UPDATE asset_metadata SET provenance = jsonb_set(provenance, ARRAY[$2], COALESCE(provenance -> $2, \
     '{}'::jsonb) || jsonb_build_object('reviewed_by', $3::text)), updated_at = now() WHERE asset_id = $1 AND \
     provenance ? $2";

/// That a person looked at a machine-written field, in its provenance.
pub fn write_reviewed(asset_id: Uuid, field_key: &str, actor: Option<Uuid>) -> (command: Command)
    ensures
        command.says(
            "UPDATE asset_metadata SET provenance = jsonb_set(provenance, ARRAY[$2], COALESCE(provenance -> $2, \
             '{}'::jsonb) || jsonb_build_object('reviewed_by', $3::text)), updated_at = now() WHERE asset_id = $1 AND \
             provenance ? $2"@,
            seq![
                Given::Id(asset_id), Given::Text(field_key@),
                Given::MaybeText(
                    match actor {
                        Some(id) => Some(uuid_chars(id)),
                        None => None,
                    },
                ),
            ],
        ),
{
    let named = match actor {
        Some(id) => Value::MaybeText(Some(uuid_text(id))),
        None => Value::MaybeText(None),
    };
    Command::new(WRITE_REVIEWED, vec![Value::Id(asset_id), as_text(field_key), named])
}

pub const SUGGESTED_ON: &'static str =
    "SELECT t.id, t.slug, t.label, a.confidence, a.generator_votes, a.source FROM asset_tags a JOIN \
     taxonomy_terms t ON t.id = a.term_id WHERE a.asset_id = $1 AND a.state = 'suggested' ORDER BY \
     a.generator_votes DESC, a.confidence DESC NULLS LAST, t.slug";

/// The tags on an asset that await a decision, strongest evidence first.
pub fn suggested_on(asset_id: Uuid) -> (command: Command)
    ensures
        command.says(
            "SELECT t.id, t.slug, t.label, a.confidence, a.generator_votes, a.source FROM asset_tags a JOIN \
             taxonomy_terms t ON t.id = a.term_id WHERE a.asset_id = $1 AND a.state = 'suggested' ORDER BY \
             a.generator_votes DESC, a.confidence DESC NULLS LAST, t.slug"@,
            seq![Given::Id(asset_id)],
        ),
{
    Command::new(SUGGESTED_ON, vec![Value::Id(asset_id)])
}

pub const MARKED_ON: &'static str =
    "SELECT entry.key, COALESCE(values -> entry.key, 'null'::jsonb), entry.value FROM asset_metadata, \
     jsonb_each(provenance) AS entry(key, value) WHERE asset_id = $1 AND entry.value ->> 'reviewed_by' IS \
     NULL ORDER BY entry.key";

/// The values on an asset that a machine wrote and nobody has reviewed, with their markings.
pub fn marked_on(asset_id: Uuid) -> (command: Command)
    ensures
        command.says(
            "SELECT entry.key, COALESCE(values -> entry.key, 'null'::jsonb), entry.value FROM asset_metadata, \
             jsonb_each(provenance) AS entry(key, value) WHERE asset_id = $1 AND entry.value ->> 'reviewed_by' IS \
             NULL ORDER BY entry.key"@,
            seq![Given::Id(asset_id)],
        ),
{
    Command::new(MARKED_ON, vec![Value::Id(asset_id)])
}

pub const SUGGESTION: &'static str =
    "SELECT source, model_id, confidence FROM asset_tags WHERE asset_id = $1 AND term_id = $2 AND state = \
     'suggested'";

/// A tag that awaits a decision.
pub fn suggestion(asset_id: Uuid, term_id: Uuid) -> (command: Command)
    ensures
        command.says(
            "SELECT source, model_id, confidence FROM asset_tags WHERE asset_id = $1 AND term_id = $2 AND state = \
             'suggested'"@,
            seq![Given::Id(asset_id), Given::Id(term_id)],
        ),
{
    Command::new(SUGGESTION, vec![Value::Id(asset_id), Value::Id(term_id)])
}

pub const DECIDE_TAG: &'static str =
    "UPDATE asset_tags SET state = $3, reviewed_by = $4, reviewed_at = now() WHERE asset_id = $1 AND \
     term_id = $2";

/// A decision about a tag.
pub fn decide_tag(
    asset_id: Uuid,
    term_id: Uuid,
    verdict: Verdict,
    actor: Option<Uuid>,
) -> (command: Command)
    ensures
        command.says(
            "UPDATE asset_tags SET state = $3, reviewed_by = $4, reviewed_at = now() WHERE asset_id = $1 AND \
             term_id = $2"@,
            seq![
                Given::Id(asset_id), Given::Id(term_id), Given::Text(verdict.state_chars()),
                Given::MaybeId(actor),
            ],
        ),
{
    Command::new(
        DECIDE_TAG,
        vec![
            Value::Id(asset_id), Value::Id(term_id), as_text(verdict.state()), Value::MaybeId(actor),
        ],
    )
}

pub const NEEDING_DESCRIPTION: &'static str =
    "SELECT assets.id, assets.filename, d.object_key, d.mime FROM assets JOIN derivatives d ON d.asset_id = \
     assets.id AND d.role = 'proxy' WHERE assets.deleted_at IS NULL AND assets.is_current AND \
     assets.attached_to IS NULL AND NOT EXISTS (SELECT 1 FROM enrichment_runs r WHERE r.asset_id = \
     assets.id AND r.pipeline = $1 AND r.pipeline_version = $2 AND r.state IN ('succeeded', 'partial', \
     'running')) ORDER BY assets.created_at LIMIT $3";

/// Assets with a proxy that no run of this pipeline version has reached. A failed or skipped run has not.
pub fn needing_description(pipeline: &str, pipeline_version: i32, limit: i64) -> (command: Command)
    ensures
        command.says(
            "SELECT assets.id, assets.filename, d.object_key, d.mime FROM assets JOIN derivatives d ON d.asset_id = \
             assets.id AND d.role = 'proxy' WHERE assets.deleted_at IS NULL AND assets.is_current AND \
             assets.attached_to IS NULL AND NOT EXISTS (SELECT 1 FROM enrichment_runs r WHERE r.asset_id = \
             assets.id AND r.pipeline = $1 AND r.pipeline_version = $2 AND r.state IN ('succeeded', 'partial', \
             'running')) ORDER BY assets.created_at LIMIT $3"@,
            seq![
                Given::Text(pipeline@), Given::Whole(pipeline_version), Given::Int(limit),
            ],
        ),
{
    Command::new(
        NEEDING_DESCRIPTION,
        vec![
            as_text(pipeline), Value::Whole(pipeline_version), Value::Int(limit),
        ],
    )
}

pub const BACKFILL_PROGRESS: &'static str =
    "SELECT (SELECT count(*) FROM assets JOIN derivatives d ON d.asset_id = assets.id AND d.role = 'proxy' \
     WHERE assets.deleted_at IS NULL AND assets.is_current AND assets.attached_to IS NULL AND NOT EXISTS \
     (SELECT 1 FROM enrichment_runs r WHERE r.asset_id = assets.id AND r.pipeline = $1 AND \
     r.pipeline_version = $2 AND r.state IN ('succeeded', 'partial', 'running'))), (SELECT count(DISTINCT \
     asset_id) FROM enrichment_runs WHERE pipeline = $1 AND pipeline_version = $2 AND state IN \
     ('succeeded', 'partial')), (SELECT count(*) FROM enrichment_runs WHERE pipeline = $1 AND \
     pipeline_version = $2 AND state = 'running' AND llm_batch_id IS NOT NULL)";

/// The counts a progress display needs, in one statement.
pub fn backfill_progress(pipeline: &str, pipeline_version: i32) -> (command: Command)
    ensures
        command.says(
            "SELECT (SELECT count(*) FROM assets JOIN derivatives d ON d.asset_id = assets.id AND d.role = 'proxy' \
             WHERE assets.deleted_at IS NULL AND assets.is_current AND assets.attached_to IS NULL AND NOT EXISTS \
             (SELECT 1 FROM enrichment_runs r WHERE r.asset_id = assets.id AND r.pipeline = $1 AND \
             r.pipeline_version = $2 AND r.state IN ('succeeded', 'partial', 'running'))), (SELECT count(DISTINCT \
             asset_id) FROM enrichment_runs WHERE pipeline = $1 AND pipeline_version = $2 AND state IN \
             ('succeeded', 'partial')), (SELECT count(*) FROM enrichment_runs WHERE pipeline = $1 AND \
             pipeline_version = $2 AND state = 'running' AND llm_batch_id IS NOT NULL)"@,
            seq![
                Given::Text(pipeline@), Given::Whole(pipeline_version),
            ],
        ),
{
    Command::new(BACKFILL_PROGRESS, vec![as_text(pipeline), Value::Whole(pipeline_version)])
}

pub const MARK_BATCHED: &'static str = "UPDATE enrichment_runs SET llm_custom_id = $2 WHERE id = $1";

/// That a run is submitted as part of a batch, before it is.
pub fn mark_batched(run_id: Uuid, custom_id: &str) -> (command: Command)
    ensures
        command.says(
            "UPDATE enrichment_runs SET llm_custom_id = $2 WHERE id = $1"@,
            seq![Given::Id(run_id), Given::Text(custom_id@)],
        ),
{
    Command::new(MARK_BATCHED, vec![Value::Id(run_id), as_text(custom_id)])
}

pub const ATTACH_BATCH: &'static str = "UPDATE enrichment_runs SET llm_batch_id = $2 WHERE id = ANY($1)";

/// The provider's batch, on every run in it.
pub fn attach_batch(run_ids: &Vec<Uuid>, batch_id: &str) -> (command: Command)
    ensures
        command.says(
            "UPDATE enrichment_runs SET llm_batch_id = $2 WHERE id = ANY($1)"@,
            seq![Given::Ids(run_ids@), Given::Text(batch_id@)],
        ),
{
    Command::new(ATTACH_BATCH, vec![as_ids(run_ids), as_text(batch_id)])
}

pub const RUNS_IN_BATCH: &'static str =
    "SELECT id, asset_id, COALESCE(llm_custom_id, id::text) FROM enrichment_runs WHERE llm_batch_id = $1 \
     AND state = 'running'";

/// The runs of one batch that are still open.
pub fn runs_in_batch(batch_id: &str) -> (command: Command)
    ensures
        command.says(
            "SELECT id, asset_id, COALESCE(llm_custom_id, id::text) FROM enrichment_runs WHERE llm_batch_id = $1 \
             AND state = 'running'"@,
            seq![Given::Text(batch_id@)],
        ),
{
    Command::new(RUNS_IN_BATCH, vec![as_text(batch_id)])
}

} // verus!
