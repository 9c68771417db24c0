//! Metadata types: which of the tenant's fields apply to which kind of asset.
//!
//! A type is a selection and an order, never a second vocabulary. Resolution always ends somewhere: the asset's
//! own type, else the tenant's default, else the whole vocabulary. A list that came out empty would hide stored
//! values with nothing to alarm on.

use crate::commands::{as_text, as_texts, Command, Given, Value};
use crate::fields::FieldDef;
use crate::text::{
    after_first, before_first, contains, cut, first_place, holds, same, uuid_chars, uuid_text,
};
use crate::Uuid;
use vstd::prelude::*;

verus! {

/// Why a metadata-type edit was refused.
#[derive(Debug, Clone, PartialEq, Eq)]
pub enum TypeRefusal {
    DuplicateKey(String),
    UnknownField(String),
    UnknownType(Uuid),
}

impl TypeRefusal {
    /// The text of this refusal.
    pub open spec fn message_chars(self) -> Seq<char> {
        match self {
            TypeRefusal::DuplicateKey(given) => "a metadata type with the key `"@ + given@ + "` already exists"@,
            TypeRefusal::UnknownField(given) => "no field is defined with the key `"@ + given@ + "`"@,
            TypeRefusal::UnknownType(given) => "no metadata type "@ + uuid_chars(given) + " exists"@,
        }
    }

    /// The sentence whoever was refused reads.
    pub fn message(&self) -> (out: String)
        ensures
            out@ == self.message_chars(),
    {
        match self {
            TypeRefusal::DuplicateKey(given) => {
                let mut out = "a metadata type with the key `".to_owned();
                out.append(given.as_str());
                out.append("` already exists");
                out
            },
            TypeRefusal::UnknownField(given) => {
                let mut out = "no field is defined with the key `".to_owned();
                out.append(given.as_str());
                out.append("`");
                out
            },
            TypeRefusal::UnknownType(given) => {
                let mut out = "no metadata type ".to_owned();
                out.append(uuid_text(*given).as_str());
                out.append(" exists");
                out
            },
        }
    }
}

/// A metadata type to create.
#[derive(Debug, Clone, PartialEq, Eq)]
pub struct NewType {
    pub key: String,
    pub label: String,
    /// The media classes this type is the natural choice for. Empty means "only when named explicitly".
    pub applies_to: Vec<String>,
    pub is_default: bool,
    /// The fields this type holds, in the order they should appear.
    pub field_keys: Vec<String>,
}

/// A metadata type as stored.
#[derive(Debug, Clone, PartialEq, Eq)]
pub struct MetadataType {
    pub id: Uuid,
    pub key: String,
    pub label: String,
    pub applies_to: Vec<String>,
    pub is_default: bool,
    pub display_order: i32,
    /// The type's fields, in its own order.
    pub field_keys: Vec<String>,
}

/// What stands after a mime's slash: nothing where it has none.
pub open spec fn subtype(mime: Seq<char>) -> Seq<char> {
    if first_place(mime, '/') < mime.len() {
        after_first(mime, '/')
    } else {
        ""@
    }
}

/// Whether an application subtype is an archive.
pub open spec fn archive_subtype(sub: Seq<char>) -> bool {
    ||| sub == "zip"@
    ||| sub == "x-tar"@
    ||| sub == "gzip"@
    ||| sub == "x-7z-compressed"@
    ||| sub == "x-rar-compressed"@
}

/// The media class of a mime type. Coarse on purpose: finer than an administrator thinks in would make the choice
/// of a type unpredictable.
pub open spec fn class_chars(mime: Seq<char>) -> Seq<char> {
    let top = before_first(mime, '/');
    if top == "image"@ {
        "image"@
    } else if top == "video"@ {
        "video"@
    } else if top == "audio"@ {
        "audio"@
    } else if top == "application"@ && archive_subtype(subtype(mime)) {
        "archive"@
    } else {
        "document"@
    }
}

/// The media class a mime type belongs to, in the vocabulary `applies_to` uses.
pub fn media_class(mime: &str) -> (class: &'static str)
    ensures
        class@ == class_chars(mime@),
        before_first(mime@, '/') == "image"@ ==> class@ == "image"@,
        before_first(mime@, '/') == "video"@ ==> class@ == "video"@,
        before_first(mime@, '/') == "audio"@ ==> class@ == "audio"@,
        class@ == "image"@ || class@ == "video"@ || class@ == "audio"@ || class@ == "archive"@ || class@ == "document"@,
{
    let (top, sub) = match cut(mime, '/') {
        Some((top, sub)) => (top, sub),
        None => (mime, ""),
    };
    if same(top, "image") {
        "image"
    } else if same(top, "video") {
        "video"
    } else if same(top, "audio") {
        "audio"
    } else if same(top, "application") && (same(sub, "zip") || same(sub, "x-tar") || same(
        sub,
        "gzip",
    ) || same(sub, "x-7z-compressed") || same(sub, "x-rar-compressed")) {
        "archive"
    } else {
        "document"
    }
}

/// The first of `keys` that is not defined.
pub open spec fn first_undefined(keys: Seq<String>, defined: Seq<String>) -> Option<Seq<char>>
    decreases keys.len(),
{
    if keys.len() == 0 {
        None
    } else if !holds(defined, keys[0]@) {
        Some(keys[0]@)
    } else {
        first_undefined(keys.drop_first(), defined)
    }
}

/// Refuses a list of fields that names one that is not defined.
pub fn check_fields(keys: &Vec<String>, defined: &Vec<String>) -> (checked: Result<(), TypeRefusal>)
    ensures
        match checked {
            Ok(()) => first_undefined(keys@, defined@) is None,
            Err(refusal) => refusal matches TypeRefusal::UnknownField(key) && first_undefined(
                keys@,
                defined@,
            ) == Some(key@),
        },
        checked is Ok <==> forall|i: int| 0 <= i < keys@.len() ==> holds(defined@, (#[trigger] keys@[i])@),
{
    let mut i: usize = 0;
    proof {
        assert(keys@.skip(0) =~= keys@);
        an_undefined_field_is_the_one_refused(keys@, defined@);
    }
    while i < keys.len()
        invariant
            i <= keys@.len(),
            first_undefined(keys@, defined@) == first_undefined(keys@.skip(i as int), defined@),
        decreases keys@.len() - i,
    {
        proof {
            let rest = keys@.skip(i as int);
            assert(rest[0] == keys@[i as int]);
            assert(rest.drop_first() =~= keys@.skip(i + 1));
        }
        if !contains(defined, keys[i].as_str()) {
            return Err(TypeRefusal::UnknownField(keys[i].clone()));
        }
        i += 1;
    }
    Ok(())
}

/// Whether a type may be defined. `clash` is whether another type has its key, and `defined` is the keys of the
/// fields that exist.
pub fn define(spec: &NewType, clash: bool, defined: &Vec<String>) -> (checked: Result<(), TypeRefusal>)
    ensures
        match checked {
            Ok(()) => !clash && first_undefined(spec.field_keys@, defined@) is None,
            Err(TypeRefusal::DuplicateKey(key)) => clash && key@ == spec.key@,
            Err(TypeRefusal::UnknownField(key)) => !clash && first_undefined(
                spec.field_keys@,
                defined@,
            ) == Some(key@),
            Err(_) => false,
        },
{
    if clash {
        return Err(TypeRefusal::DuplicateKey(spec.key.clone()));
    }
    check_fields(&spec.field_keys, defined)
}

/// Whether a type's field list may be replaced.
pub fn set_fields(
    id: Uuid,
    exists: bool,
    keys: &Vec<String>,
    defined: &Vec<String>,
) -> (checked: Result<(), TypeRefusal>)
    ensures
        match checked {
            Ok(()) => exists && first_undefined(keys@, defined@) is None,
            Err(TypeRefusal::UnknownType(given)) => !exists && given == id,
            Err(TypeRefusal::UnknownField(key)) => exists && first_undefined(keys@, defined@)
                == Some(key@),
            Err(_) => false,
        },
{
    if !exists {
        return Err(TypeRefusal::UnknownType(id));
    }
    check_fields(keys, defined)
}

/// Whether a change by identifier reached a type.
pub fn touched(rows: u64, id: Uuid) -> (outcome: Result<(), TypeRefusal>)
    ensures
        outcome == if rows == 0 {
            Err::<(), TypeRefusal>(TypeRefusal::UnknownType(id))
        } else {
            Ok(())
        },
{
    if rows == 0 {
        Err(TypeRefusal::UnknownType(id))
    } else {
        Ok(())
    }
}

/// The type that applies to an asset: its own, or the tenant's default. `None` means the whole vocabulary.
pub open spec fn resolved(assigned: Option<Option<Uuid>>, fallback: Option<Uuid>) -> Option<Uuid> {
    match assigned {
        Some(Some(own)) => Some(own),
        _ => fallback,
    }
}

/// The type that applies to an asset. `assigned` is the asset's own type, where the asset exists and has one.
pub fn resolve(assigned: Option<Option<Uuid>>, fallback: Option<Uuid>) -> (applies: Option<Uuid>)
    ensures
        applies == resolved(assigned, fallback),
        assigned matches Some(own) ==> own is Some ==> applies == own,
        assigned is None ==> applies == fallback,
{
    match assigned {
        Some(inner) => match inner {
            Some(own) => Some(own),
            None => fallback,
        },
        None => fallback,
    }
}

/// A type as far as the choice by mime looks at it.
#[derive(Debug, Clone, PartialEq, Eq)]
pub struct Contender {
    pub id: Uuid,
    pub applies_to: Vec<String>,
    pub is_default: bool,
}

/// The first type that claims `class`, among types in display order.
pub open spec fn first_claiming(types: Seq<Contender>, class: Seq<char>) -> Option<Uuid>
    decreases types.len(),
{
    if types.len() == 0 {
        None
    } else if holds(types[0].applies_to@, class) {
        Some(types[0].id)
    } else {
        first_claiming(types.drop_first(), class)
    }
}

/// The first type that is the default, among types in display order.
pub open spec fn first_default(types: Seq<Contender>) -> Option<Uuid>
    decreases types.len(),
{
    if types.len() == 0 {
        None
    } else if types[0].is_default {
        Some(types[0].id)
    } else {
        first_default(types.drop_first())
    }
}

/// The type an asset of a media class gets: the first that claims the class, else the default, else the first in
/// display order.
pub open spec fn chosen(types: Seq<Contender>, class: Seq<char>) -> Option<Uuid> {
    match first_claiming(types, class) {
        Some(id) => Some(id),
        None => match first_default(types) {
            Some(id) => Some(id),
            None => if types.len() == 0 {
                None
            } else {
                Some(types[0].id)
            },
        },
    }
}

/// The type an asset of this mime type should get, among the tenant's types in display order, or `None` when the
/// tenant has defined no types.
///
/// Prefers a type claiming the mime's media class, then the default. A media class nobody anticipated still lands
/// somewhere: where there is no default either, on the first type in display order.
pub fn for_mime(types: &Vec<Contender>, mime: &str) -> (chosen_id: Option<Uuid>)
    ensures
        chosen_id == chosen(types@, class_chars(mime@)),
{
    let class = media_class(mime);
    let mut fallback: Option<Uuid> = None;
    let mut i: usize = 0;
    proof {
        assert(types@.skip(0) =~= types@);
    }
    while i < types.len()
        invariant
            i <= types@.len(),
            class@ == class_chars(mime@),
            first_claiming(types@, class@) == first_claiming(types@.skip(i as int), class@),
            first_default(types@) == match fallback {
                Some(id) => Some(id),
                None => first_default(types@.skip(i as int)),
            },
        decreases types@.len() - i,
    {
        proof {
            let rest = types@.skip(i as int);
            assert(rest[0] == types@[i as int]);
            assert(rest.drop_first() =~= types@.skip(i + 1));
        }
        if contains(&types[i].applies_to, class) {
            return Some(types[i].id);
        }
        if fallback.is_none() && types[i].is_default {
            fallback = Some(types[i].id);
        }
        i += 1;
    }
    if fallback.is_none() && types.len() > 0 {
        return Some(types[0].id);
    }
    fallback
}

fn copied(def: &FieldDef) -> (copy: FieldDef)
    ensures
        copy == *def,
{
    FieldDef {
        key: def.key.clone(),
        kind: def.kind,
        taxonomy_id: def.taxonomy_id,
        multivalued: def.multivalued,
        required: def.required,
        read_only: def.read_only,
        ai_writable: def.ai_writable,
        facetable: def.facetable,
    }
}

/// The definitions a type selects, in the type's order. A key the vocabulary no longer defines is left out.
pub open spec fn selected(keys: Seq<String>, vocabulary: Seq<FieldDef>) -> Seq<FieldDef>
    decreases keys.len(),
{
    if keys.len() == 0 {
        Seq::empty()
    } else {
        let front = selected(keys.drop_last(), vocabulary);
        match crate::facets::definition(vocabulary, keys.last()@) {
            Some(def) => front.push(def),
            None => front,
        }
    }
}

fn find(vocabulary: &Vec<FieldDef>, key: &str) -> (def: Option<FieldDef>)
    ensures
        def == crate::facets::definition(vocabulary@, key@),
{
    let mut i: usize = 0;
    proof {
        assert(vocabulary@.skip(0) =~= vocabulary@);
    }
    while i < vocabulary.len()
        invariant
            i <= vocabulary@.len(),
            crate::facets::definition(vocabulary@, key@) == crate::facets::definition(
                vocabulary@.skip(i as int),
                key@,
            ),
        decreases vocabulary@.len() - i,
    {
        proof {
            let rest = vocabulary@.skip(i as int);
            assert(rest[0] == vocabulary@[i as int]);
            assert(rest.drop_first() =~= vocabulary@.skip(i + 1));
        }
        if same(vocabulary[i].key.as_str(), key) {
            return Some(copied(&vocabulary[i]));
        }
        i += 1;
    }
    None
}

/// The field definitions that apply to an asset whose type lists `keys`, in the type's order; the whole vocabulary
/// where no type applies.
pub fn fields_for(keys: &Option<Vec<String>>, vocabulary: Vec<FieldDef>) -> (defs: Vec<FieldDef>)
    ensures
        defs@ == match keys {
            Some(listed) => selected(listed@, vocabulary@),
            None => vocabulary@,
        },
{
    let listed = match keys {
        None => return vocabulary,
        Some(listed) => listed,
    };
    let mut defs: Vec<FieldDef> = Vec::new();
    let mut i: usize = 0;
    proof {
        assert(listed@.take(0) =~= Seq::<String>::empty());
    }
    while i < listed.len()
        invariant
            i <= listed@.len(),
            defs@ == selected(listed@.take(i as int), vocabulary@),
        decreases listed@.len() - i,
    {
        proof {
            assert(listed@.take(i + 1).drop_last() =~= listed@.take(i as int));
            assert(listed@.take(i + 1).last() == listed@[i as int]);
        }
        match find(&vocabulary, listed[i].as_str()) {
            Some(def) => defs.push(def),
            None => {},
        }
        i += 1;
    }
    proof {
        assert(listed@.take(i as int) =~= listed@);
    }
    defs
}

/// Resolution always ends somewhere: an asset's own type applies if it has one, the default otherwise, and where
/// there is neither every field applies.
pub proof fn resolution_always_ends(
    assigned: Option<Option<Uuid>>,
    fallback: Option<Uuid>,
)
    ensures
        assigned matches Some(Some(own)) ==> resolved(assigned, fallback) == Some(own),
        !(assigned matches Some(Some(_))) ==> resolved(assigned, fallback) == fallback,
{
}

/// A type cannot widen the vocabulary: everything it selects is a definition the tenant has, under a key the type
/// lists.
pub proof fn a_type_selects_from_the_vocabulary(
    keys: Seq<String>,
    vocabulary: Seq<FieldDef>,
    i: int,
)
    requires
        0 <= i < selected(keys, vocabulary).len(),
    ensures
        vocabulary.contains(selected(keys, vocabulary)[i]),
        holds(keys, selected(keys, vocabulary)[i].key@),
    decreases keys.len(),
{
    let front = selected(keys.drop_last(), vocabulary);
    if i < front.len() {
        a_type_selects_from_the_vocabulary(keys.drop_last(), vocabulary, i);
        let key = front[i].key@;
        let j = choose|j: int|
            0 <= j < keys.drop_last().len() && (#[trigger] keys.drop_last()[j])@ == key;
        assert(keys[j]@ == key);
    } else {
        lemma_definition(vocabulary, keys.last()@);
        assert(keys[keys.len() - 1]@ == keys.last()@);
    }
}

proof fn lemma_definition(vocabulary: Seq<FieldDef>, key: Seq<char>)
    ensures
        crate::facets::definition(vocabulary, key) matches Some(def) ==> vocabulary.contains(def)
            && def.key@ == key,
    decreases vocabulary.len(),
{
    if vocabulary.len() > 0 {
        if vocabulary[0].key@ == key {
            assert(vocabulary.contains(vocabulary[0]));
        } else {
            let rest = vocabulary.drop_first();
            lemma_definition(rest, key);
            if let Some(def) = crate::facets::definition(rest, key) {
                let j = choose|j: int| 0 <= j < rest.len() && rest[j] == def;
                assert(vocabulary[j + 1] == def);
            }
        }
    }
}

/// A media class nobody anticipated still lands somewhere: no type is chosen only where there are none. A type that
/// claims the class comes before the default, and the default before any other.
pub proof fn every_mime_finds_a_type(types: Seq<Contender>, class: Seq<char>)
    ensures
        chosen(types, class) is None <==> types.len() == 0,
        first_claiming(types, class) is Some ==> chosen(types, class) == first_claiming(types, class),
        first_claiming(types, class) is None && first_default(types) is Some ==> chosen(types, class)
            == first_default(types),
{
}

/// An archive is one of five formats, and only under `application`.
pub proof fn an_archive_is_one_of_five(mime: Seq<char>)
    ensures
        before_first(mime, '/') == "application"@ && (subtype(mime) == "zip"@ || subtype(mime) == "x-tar"@ || subtype(mime)
            == "gzip"@ || subtype(mime) == "x-7z-compressed"@ || subtype(mime) == "x-rar-compressed"@) ==> class_chars(
            mime,
        ) == "archive"@,
        before_first(mime, '/') == "application"@ && !(subtype(mime) == "zip"@ || subtype(mime) == "x-tar"@ || subtype(
            mime,
        ) == "gzip"@ || subtype(mime) == "x-7z-compressed"@ || subtype(mime) == "x-rar-compressed"@) ==> class_chars(
            mime,
        ) == "document"@,
        before_first(mime, '/') != "image"@ && before_first(mime, '/') != "video"@ && before_first(mime, '/') != "audio"@
            && before_first(mime, '/') != "application"@ ==> class_chars(mime) == "document"@,
{
    reveal_strlit("application");
    reveal_strlit("image");
    reveal_strlit("video");
    reveal_strlit("audio");
    assert("application"@.len() == 11 && "image"@.len() == 5 && "video"@.len() == 5 && "audio"@.len() == 5);
}

/// What is refused of a list of fields is the first that is not defined, and a list is refused only where one is not.
pub proof fn an_undefined_field_is_the_one_refused(keys: Seq<String>, defined: Seq<String>)
    ensures
        first_undefined(keys, defined) is None <==> forall|i: int|
            0 <= i < keys.len() ==> holds(defined, (#[trigger] keys[i])@),
        first_undefined(keys, defined) matches Some(key) ==> holds(keys, key) && !holds(defined, key),
    decreases keys.len(),
{
    if keys.len() > 0 {
        let rest = keys.drop_first();
        an_undefined_field_is_the_one_refused(rest, defined);
        assert(holds(keys, keys[0]@));
        if let Some(key) = first_undefined(rest, defined) {
            let i = choose|i: int| 0 <= i < rest.len() && (#[trigger] rest[i])@ == key;
            assert(keys[i + 1]@ == key);
            assert(!holds(defined, keys[i + 1]@));
        } else {
            assert forall|i: int| 0 <= i < keys.len() && holds(defined, keys[0]@) implies holds(
                defined,
                (#[trigger] keys[i])@,
            ) by {
                if i > 0 {
                    assert(holds(defined, rest[i - 1]@));
                }
            }
        }
    }
}

/// The type that is chosen is the first that claims the class; failing that the first that is the default; failing that
/// the first there is.
pub proof fn the_first_claim_wins(types: Seq<Contender>, class: Seq<char>, place: int)
    requires
        0 <= place < types.len(),
    ensures
        holds(types[place].applies_to@, class) && (forall|i: int|
            0 <= i < place ==> !holds((#[trigger] types[i]).applies_to@, class)) ==> chosen(types, class) == Some(
            types[place].id,
        ),
        (forall|i: int| 0 <= i < types.len() ==> !holds((#[trigger] types[i]).applies_to@, class))
            && types[place].is_default && (forall|i: int| 0 <= i < place ==> !(#[trigger] types[i]).is_default)
            ==> chosen(types, class) == Some(types[place].id),
        (forall|i: int|
            0 <= i < types.len() ==> !holds((#[trigger] types[i]).applies_to@, class) && !types[i].is_default)
            ==> chosen(types, class) == Some(types[0].id),
{
    lemma_first_claiming(types, class, place);
    lemma_first_default(types, place);
    lemma_first_claiming(types, class, 0);
    lemma_first_default(types, 0);
}

proof fn lemma_first_claiming(types: Seq<Contender>, class: Seq<char>, place: int)
    ensures
        0 <= place < types.len() && holds(types[place].applies_to@, class) && (forall|i: int|
            0 <= i < place ==> !holds((#[trigger] types[i]).applies_to@, class)) ==> first_claiming(types, class) == Some(
            types[place].id,
        ),
        (forall|i: int| 0 <= i < types.len() ==> !holds((#[trigger] types[i]).applies_to@, class)) ==> first_claiming(
            types,
            class,
        ) is None,
    decreases types.len(),
{
    if types.len() > 0 {
        let rest = types.drop_first();
        lemma_first_claiming(rest, class, place - 1);
        assert forall|i: int| 0 <= i < rest.len() implies #[trigger] rest[i] == types[i + 1] by {}
        if forall|i: int| 0 <= i < types.len() ==> !holds((#[trigger] types[i]).applies_to@, class) {
            assert forall|i: int| 0 <= i < rest.len() implies !holds((#[trigger] rest[i]).applies_to@, class) by {
                assert(!holds(types[i + 1].applies_to@, class));
            }
        }
        if 0 < place < types.len() && forall|i: int| 0 <= i < place ==> !holds((#[trigger] types[i]).applies_to@, class) {
            assert forall|i: int| 0 <= i < place - 1 implies !holds((#[trigger] rest[i]).applies_to@, class) by {
                assert(!holds(types[i + 1].applies_to@, class));
            }
        }
    }
}

proof fn lemma_first_default(types: Seq<Contender>, place: int)
    ensures
        0 <= place < types.len() && types[place].is_default && (forall|i: int|
            0 <= i < place ==> !(#[trigger] types[i]).is_default) ==> first_default(types) == Some(types[place].id),
        (forall|i: int| 0 <= i < types.len() ==> !(#[trigger] types[i]).is_default) ==> first_default(types) is None,
    decreases types.len(),
{
    if types.len() > 0 {
        let rest = types.drop_first();
        lemma_first_default(rest, place - 1);
        assert forall|i: int| 0 <= i < rest.len() implies #[trigger] rest[i] == types[i + 1] by {}
        if forall|i: int| 0 <= i < types.len() ==> !(#[trigger] types[i]).is_default {
            assert forall|i: int| 0 <= i < rest.len() implies !(#[trigger] rest[i]).is_default by {
                assert(!types[i + 1].is_default);
            }
        }
        if 0 < place < types.len() && forall|i: int| 0 <= i < place ==> !(#[trigger] types[i]).is_default {
            assert forall|i: int| 0 <= i < place - 1 implies !(#[trigger] rest[i]).is_default by {
                assert(!types[i + 1].is_default);
            }
        }
    }
}

/// A type's fields come in the order it lists them, each as the vocabulary defines it, and only a key that is not defined
/// is left out.
pub proof fn a_type_keeps_the_order_it_lists(keys: Seq<String>, vocabulary: Seq<FieldDef>)
    ensures
        selected(keys, vocabulary) == keys.filter(
            |key: String| crate::facets::definition(vocabulary, key@) is Some,
        ).map_values(|key: String| crate::facets::definition(vocabulary, key@)->0),
    decreases keys.len(),
{
    reveal(Seq::filter);
    let defined = |key: String| crate::facets::definition(vocabulary, key@) is Some;
    let meaning = |key: String| crate::facets::definition(vocabulary, key@)->0;
    if keys.len() > 0 {
        a_type_keeps_the_order_it_lists(keys.drop_last(), vocabulary);
    }
    assert(selected(keys, vocabulary) =~= keys.filter(defined).map_values(meaning));
}

// ----------------------------------------------------------------------------------------------------
// Commands
// ----------------------------------------------------------------------------------------------------

pub const DEFINED: &'static str = "SELECT key FROM field_defs";

/// Every defined field.
pub fn defined() -> (command: Command)
    ensures
        command.says("SELECT key FROM field_defs"@, Seq::empty()),
{
    Command::new(DEFINED, Vec::new())
}

pub const CLEAR_DEFAULT: &'static str =
    "UPDATE metadata_types SET is_default = false, updated_at = now() WHERE is_default";

/// No type the default any more.
pub fn clear_default() -> (command: Command)
    ensures
        command.says(
            "UPDATE metadata_types SET is_default = false, updated_at = now() WHERE is_default"@,
            Seq::empty(),
        ),
{
    Command::new(CLEAR_DEFAULT, Vec::new())
}

pub const INSERT_MEMBERS: &'static str =
    "INSERT INTO metadata_type_fields (metadata_type_id, field_key, display_order) SELECT $1, member.key, \
     member.ord - 1 FROM unnest($2::text[]) WITH ORDINALITY AS member(key, ord)";

/// The fields a type selects, in order.
pub fn insert_members(id: Uuid, field_keys: &Vec<String>) -> (command: Command)
    ensures
        command.says(
            "INSERT INTO metadata_type_fields (metadata_type_id, field_key, display_order) SELECT $1, member.key, \
             member.ord - 1 FROM unnest($2::text[]) WITH ORDINALITY AS member(key, ord)"@,
            seq![
                Given::Id(id), Given::Texts(crate::text::all_chars(field_keys@)),
            ],
        ),
{
    Command::new(INSERT_MEMBERS, vec![Value::Id(id), as_texts(field_keys)])
}

pub const KEY_TAKEN: &'static str = "SELECT 1 FROM metadata_types WHERE key = $1";

/// Whether a type has a key.
pub fn key_taken(key: &str) -> (command: Command)
    ensures
        command.says("SELECT 1 FROM metadata_types WHERE key = $1"@, seq![Given::Text(key@)]),
{
    Command::new(KEY_TAKEN, vec![as_text(key)])
}

pub const INSERT: &'static str =
    "INSERT INTO metadata_types (id, key, label, applies_to, is_default, display_order) VALUES ($1, $2, $3, \
     $4, $5, coalesce((SELECT max(display_order) + 1 FROM metadata_types), 0))";

/// A new type, after the others.
pub fn insert(id: Uuid, spec: &NewType) -> (command: Command)
    ensures
        command.says(
            "INSERT INTO metadata_types (id, key, label, applies_to, is_default, display_order) VALUES ($1, $2, $3, \
             $4, $5, coalesce((SELECT max(display_order) + 1 FROM metadata_types), 0))"@,
            seq![
                Given::Id(id), Given::Text(spec.key@), Given::Text(spec.label@),
                Given::Texts(crate::text::all_chars(spec.applies_to@)), Given::Flag(spec.is_default),
            ],
        ),
{
    Command::new(
        INSERT,
        vec![
            Value::Id(id), as_text(spec.key.as_str()), as_text(spec.label.as_str()),
            as_texts(&spec.applies_to), Value::Flag(spec.is_default),
        ],
    )
}

pub const KNOWN: &'static str = "SELECT 1 FROM metadata_types WHERE id = $1";

/// Whether there is such a type.
pub fn known(id: Uuid) -> (command: Command)
    ensures
        command.says("SELECT 1 FROM metadata_types WHERE id = $1"@, seq![Given::Id(id)]),
{
    Command::new(KNOWN, vec![Value::Id(id)])
}

pub const CLEAR_MEMBERS: &'static str = "DELETE FROM metadata_type_fields WHERE metadata_type_id = $1";

/// The fields a type selected, gone to make room for others.
pub fn clear_members(id: Uuid) -> (command: Command)
    ensures
        command.says("DELETE FROM metadata_type_fields WHERE metadata_type_id = $1"@, seq![Given::Id(id)]),
{
    Command::new(CLEAR_MEMBERS, vec![Value::Id(id)])
}

pub const SET_DEFAULT: &'static str =
    "UPDATE metadata_types SET is_default = true, updated_at = now() WHERE id = $1";

/// A type, the default.
pub fn set_default(id: Uuid) -> (command: Command)
    ensures
        command.says(
            "UPDATE metadata_types SET is_default = true, updated_at = now() WHERE id = $1"@,
            seq![Given::Id(id)],
        ),
{
    Command::new(SET_DEFAULT, vec![Value::Id(id)])
}

pub const REMOVE: &'static str = "DELETE FROM metadata_types WHERE id = $1";

/// A type, gone.
pub fn remove(id: Uuid) -> (command: Command)
    ensures
        command.says("DELETE FROM metadata_types WHERE id = $1"@, seq![Given::Id(id)]),
{
    Command::new(REMOVE, vec![Value::Id(id)])
}

pub const ASSIGN: &'static str =
    "UPDATE assets SET metadata_type_id = $2, updated_at = now() WHERE id = $1";

/// An asset's type, or none.
pub fn assign(asset_id: Uuid, metadata_type_id: Option<Uuid>) -> (command: Command)
    ensures
        command.says(
            "UPDATE assets SET metadata_type_id = $2, updated_at = now() WHERE id = $1"@,
            seq![Given::Id(asset_id), Given::MaybeId(metadata_type_id)],
        ),
{
    Command::new(ASSIGN, vec![Value::Id(asset_id), Value::MaybeId(metadata_type_id)])
}

pub const LIST: &'static str = "SELECT id FROM metadata_types ORDER BY display_order, key";

/// Every type, in order.
pub fn list() -> (command: Command)
    ensures
        command.says("SELECT id FROM metadata_types ORDER BY display_order, key"@, Seq::empty()),
{
    Command::new(LIST, Vec::new())
}

pub const BY_KEY: &'static str = "SELECT id FROM metadata_types WHERE key = $1";

/// A type by its key.
pub fn by_key(key: &str) -> (command: Command)
    ensures
        command.says("SELECT id FROM metadata_types WHERE key = $1"@, seq![Given::Text(key@)]),
{
    Command::new(BY_KEY, vec![as_text(key)])
}

pub const CONTENDERS: &'static str =
    "SELECT id, applies_to, is_default FROM metadata_types ORDER BY display_order, key";

/// What types apply to, in order.
pub fn contenders() -> (command: Command)
    ensures
        command.says(
            "SELECT id, applies_to, is_default FROM metadata_types ORDER BY display_order, key"@,
            Seq::empty(),
        ),
{
    Command::new(CONTENDERS, Vec::new())
}

pub const ASSIGNED: &'static str = "SELECT metadata_type_id FROM assets WHERE id = $1";

/// The type an asset was given.
pub fn assigned(asset_id: Uuid) -> (command: Command)
    ensures
        command.says("SELECT metadata_type_id FROM assets WHERE id = $1"@, seq![Given::Id(asset_id)]),
{
    Command::new(ASSIGNED, vec![Value::Id(asset_id)])
}

pub const FALLBACK: &'static str =
    "SELECT id FROM metadata_types WHERE is_default ORDER BY display_order, key LIMIT 1";

/// The default type.
pub fn fallback() -> (command: Command)
    ensures
        command.says(
            "SELECT id FROM metadata_types WHERE is_default ORDER BY display_order, key LIMIT 1"@,
            Seq::empty(),
        ),
{
    Command::new(FALLBACK, Vec::new())
}

pub const SELECTION: &'static str =
    "SELECT field_key FROM metadata_type_fields WHERE metadata_type_id = $1 ORDER BY display_order, \
     field_key";

/// The fields a type selects, in order.
pub fn selection(id: Uuid) -> (command: Command)
    ensures
        command.says(
            "SELECT field_key FROM metadata_type_fields WHERE metadata_type_id = $1 ORDER BY display_order, \
             field_key"@,
            seq![Given::Id(id)],
        ),
{
    Command::new(SELECTION, vec![Value::Id(id)])
}

pub const LOAD: &'static str =
    "SELECT id, key, label, applies_to, is_default, display_order FROM metadata_types WHERE id = $1";

/// One type.
pub fn load(id: Uuid) -> (command: Command)
    ensures
        command.says(
            "SELECT id, key, label, applies_to, is_default, display_order FROM metadata_types WHERE id = $1"@,
            seq![Given::Id(id)],
        ),
{
    Command::new(LOAD, vec![Value::Id(id)])
}

} // verus!
