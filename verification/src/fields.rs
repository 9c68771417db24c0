//! Field definitions: what may be defined, amended, removed and reordered, and which references hold.
//!
//! Editing a definition reaches every other subsystem, so the refusals are the interesting part. The rule they
//! all serve: an edit must never leave stored values and the definition describing them out of step, because
//! validation happens on write and nothing downstream can detect that state.

use crate::commands::{as_ids, as_maybe_str, as_maybe_text, as_text, as_texts, Command, Given, Value};
use crate::json::Json;
use crate::text::{
    all_chars, contains, holds, int_chars, int_text, opt_chars, opt_str_chars, same, uuid_chars,
    uuid_text, wrapped,
};
use crate::{Error, Uuid};
use vstd::prelude::*;

verus! {

/// The kinds of field that some rule here treats specially, and [`FieldKind::Other`] for every other kind.
#[derive(Debug, Clone, Copy, PartialEq, Eq, Structural)]
pub enum FieldKind {
    Int,
    Decimal,
    Bool,
    Date,
    Geo,
    TaxonomyRef,
    Other,
}

/// A field definition as validation reads it.
#[derive(Debug, Clone, PartialEq, Eq)]
pub struct FieldDef {
    pub key: String,
    pub kind: FieldKind,
    pub taxonomy_id: Option<Uuid>,
    pub multivalued: bool,
    pub required: bool,
    pub read_only: bool,
    pub ai_writable: bool,
    pub facetable: bool,
}

/// A field definition as an editor needs it.
#[derive(Debug, Clone, PartialEq, Eq)]
pub struct Catalogued {
    pub key: String,
    pub label: String,
    /// The database spelling, so that a client can pick an input type.
    pub kind: String,
    pub multivalued: bool,
    pub required: bool,
    pub read_only: bool,
    pub ai_writable: bool,
    pub facetable: bool,
    /// Whether the value joins the index at all.
    pub searchable: bool,
    pub search_alias: Option<String>,
    /// The validation object as stored.
    pub validation: Json,
    /// The taxonomy a term field is bound to, when it is one.
    pub taxonomy_id: Option<Uuid>,
}

/// Why a schema edit was refused.
/// 
/// Named refusals rather than a driver error: each reaches an administrator in a form, and each has a
/// different fix.
#[derive(Debug, Clone, PartialEq, Eq)]
pub enum SchemaRefusal {
    UnknownField(String),
    DuplicateKey(String),
    DuplicateAlias(String),
    BadKey { key: String, detail: &'static str },
    ReservedKey(String),
    UnknownKind(String),
    TaxonomyRequired,
    SelfDependency(String),
    UnknownParent(String),
    DependencyChain(String),
    UnknownTaxonomy(Uuid),
    /// The kind cannot change because assets already carry values validated under the old one.
    KindLockedByValues { key: String, assets: i64 },
    /// A reorder must name every field exactly once.
    IncompleteOrder { expected: usize, given: usize },
}

impl SchemaRefusal {
    /// The text of this refusal.
    pub open spec fn message_chars(self) -> Seq<char> {
        match self {
            SchemaRefusal::UnknownField(given) => "no field is defined with the key `"@ + given@ + "`"@,
            SchemaRefusal::DuplicateKey(given) => "a field with the key `"@ + given@ + "` is already defined"@,
            SchemaRefusal::DuplicateAlias(given) => "the search alias `"@ + given@ + "` already belongs to another field"@,
            SchemaRefusal::BadKey { key, detail } => "`"@ + key@ + "` is not usable as a field key: "@ + detail@,
            SchemaRefusal::ReservedKey(given) => "`"@ + given@ + "` is reserved and cannot be a field key"@,
            SchemaRefusal::UnknownKind(given) => "`"@ + given@ + "` is not a field kind this build knows"@,
            SchemaRefusal::TaxonomyRequired => "a taxonomy field needs the taxonomy it is bound to"@,
            SchemaRefusal::SelfDependency(given) => "`"@ + given@ + "` cannot depend on itself"@,
            SchemaRefusal::UnknownParent(given) => "no field `"@ + given@ + "` to depend on"@,
            SchemaRefusal::DependencyChain(given) => "`"@ + given@ + "` is itself dependent, and a dependency is one level: a chain needs cycle detection, an evaluation order, and an answer to what a field two hops from a cleared parent means"@,
            SchemaRefusal::UnknownTaxonomy(given) => "no taxonomy "@ + uuid_chars(given) + " exists"@,
            SchemaRefusal::KindLockedByValues { key, assets } => "`"@ + key@ + "` cannot change kind: "@ + int_chars(assets as int) + " asset(s) already carry a value stored under the current kind"@,
            SchemaRefusal::IncompleteOrder { expected, given } => "a reorder must list all "@ + int_chars(expected as int) + " fields exactly once; got "@ + int_chars(given as int),
        }
    }

    /// The sentence whoever was refused reads.
    pub fn message(&self) -> (out: String)
        ensures
            out@ == self.message_chars(),
    {
        match self {
            SchemaRefusal::UnknownField(given) => {
                let mut out = "no field is defined with the key `".to_owned();
                out.append(given.as_str());
                out.append("`");
                out
            },
            SchemaRefusal::DuplicateKey(given) => {
                let mut out = "a field with the key `".to_owned();
                out.append(given.as_str());
                out.append("` is already defined");
                out
            },
            SchemaRefusal::DuplicateAlias(given) => {
                let mut out = "the search alias `".to_owned();
                out.append(given.as_str());
                out.append("` already belongs to another field");
                out
            },
            SchemaRefusal::BadKey { key, detail } => {
                let mut out = "`".to_owned();
                out.append(key.as_str());
                out.append("` is not usable as a field key: ");
                out.append(*detail);
                out
            },
            SchemaRefusal::ReservedKey(given) => {
                let mut out = "`".to_owned();
                out.append(given.as_str());
                out.append("` is reserved and cannot be a field key");
                out
            },
            SchemaRefusal::UnknownKind(given) => {
                let mut out = "`".to_owned();
                out.append(given.as_str());
                out.append("` is not a field kind this build knows");
                out
            },
            SchemaRefusal::TaxonomyRequired => "a taxonomy field needs the taxonomy it is bound to".to_owned(),
            SchemaRefusal::SelfDependency(given) => {
                let mut out = "`".to_owned();
                out.append(given.as_str());
                out.append("` cannot depend on itself");
                out
            },
            SchemaRefusal::UnknownParent(given) => {
                let mut out = "no field `".to_owned();
                out.append(given.as_str());
                out.append("` to depend on");
                out
            },
            SchemaRefusal::DependencyChain(given) => {
                let mut out = "`".to_owned();
                out.append(given.as_str());
                out.append("` is itself dependent, and a dependency is one level: a chain needs cycle detection, an evaluation order, and an answer to what a field two hops from a cleared parent means");
                out
            },
            SchemaRefusal::UnknownTaxonomy(given) => {
                let mut out = "no taxonomy ".to_owned();
                out.append(uuid_text(*given).as_str());
                out.append(" exists");
                out
            },
            SchemaRefusal::KindLockedByValues { key, assets } => {
                let mut out = "`".to_owned();
                out.append(key.as_str());
                out.append("` cannot change kind: ");
                out.append(int_text(*assets as i128).as_str());
                out.append(" asset(s) already carry a value stored under the current kind");
                out
            },
            SchemaRefusal::IncompleteOrder { expected, given } => {
                let mut out = "a reorder must list all ".to_owned();
                out.append(int_text(*expected as i128).as_str());
                out.append(" fields exactly once; got ");
                out.append(int_text(*given as i128).as_str());
                out
            },
        }
    }

    /// What this refusal says, in characters.
    pub open spec fn view(&self) -> SchemaRefusalView {
        match *self {
            SchemaRefusal::UnknownField(f0) => SchemaRefusalView::UnknownField(f0@),
            SchemaRefusal::DuplicateKey(f0) => SchemaRefusalView::DuplicateKey(f0@),
            SchemaRefusal::DuplicateAlias(f0) => SchemaRefusalView::DuplicateAlias(f0@),
            SchemaRefusal::BadKey { key, detail } => SchemaRefusalView::BadKey { key: key@, detail: detail@ },
            SchemaRefusal::ReservedKey(f0) => SchemaRefusalView::ReservedKey(f0@),
            SchemaRefusal::UnknownKind(f0) => SchemaRefusalView::UnknownKind(f0@),
            SchemaRefusal::TaxonomyRequired => SchemaRefusalView::TaxonomyRequired,
            SchemaRefusal::SelfDependency(f0) => SchemaRefusalView::SelfDependency(f0@),
            SchemaRefusal::UnknownParent(f0) => SchemaRefusalView::UnknownParent(f0@),
            SchemaRefusal::DependencyChain(f0) => SchemaRefusalView::DependencyChain(f0@),
            SchemaRefusal::UnknownTaxonomy(f0) => SchemaRefusalView::UnknownTaxonomy(f0),
            SchemaRefusal::KindLockedByValues { key, assets } => SchemaRefusalView::KindLockedByValues { key: key@, assets },
            SchemaRefusal::IncompleteOrder { expected, given } => SchemaRefusalView::IncompleteOrder { expected, given },
        }
    }
}

/// What a [`SchemaRefusal`] says, in characters.
pub enum SchemaRefusalView {
    UnknownField(Seq<char>),
    DuplicateKey(Seq<char>),
    DuplicateAlias(Seq<char>),
    BadKey { key: Seq<char>, detail: Seq<char> },
    ReservedKey(Seq<char>),
    UnknownKind(Seq<char>),
    TaxonomyRequired,
    SelfDependency(Seq<char>),
    UnknownParent(Seq<char>),
    DependencyChain(Seq<char>),
    UnknownTaxonomy(Uuid),
    KindLockedByValues { key: Seq<char>, assets: i64 },
    IncompleteOrder { expected: usize, given: usize },
}

/// The longest a key may be.
pub const MAX_KEY_BYTES: usize = 63;

pub const KEY_EMPTY: &'static str = "a key cannot be empty";

pub const KEY_LONG: &'static str = "a key must be 63 bytes or fewer";

pub const KEY_START: &'static str = "a key must start with a lower-case ASCII letter";

pub const KEY_CHARACTERS: &'static str =
    "a key may contain only lower-case ASCII letters, digits and underscores";

/// Keys that already mean something: names the generated SQL and the index schema use, and the words of the
/// search shorthand.
pub open spec fn reserved(key: Seq<char>) -> bool {
    ||| key == "values"@
    ||| key == "asset_id"@
    ||| key == "group_ids"@
    ||| key == "deleted"@
    ||| key == "text"@
    ||| key == "metadata"@
    ||| key == "and"@
    ||| key == "or"@
    ||| key == "not"@
}

/// The characters a key is made of.
pub open spec fn key_char(c: char) -> bool {
    'a' <= c <= 'z' || '0' <= c <= '9' || c == '_'
}

/// What is wrong with a proposed key, if anything.
pub open spec fn key_refusal(key: Seq<char>) -> Option<SchemaRefusalView> {
    if key.len() == 0 {
        Some(SchemaRefusalView::BadKey { key, detail: "a key cannot be empty"@ })
    } else if vstd::utf8::encode_utf8(key).len() > MAX_KEY_BYTES {
        Some(SchemaRefusalView::BadKey { key, detail: "a key must be 63 bytes or fewer"@ })
    } else if !('a' <= key[0] <= 'z') {
        Some(SchemaRefusalView::BadKey { key, detail: "a key must start with a lower-case ASCII letter"@ })
    } else if exists|i: int| 0 <= i < key.len() && !key_char(#[trigger] key[i]) {
        Some(SchemaRefusalView::BadKey { key, detail: "a key may contain only lower-case ASCII letters, digits and underscores"@ })
    } else if reserved(key) {
        Some(SchemaRefusalView::ReservedKey(key))
    } else {
        None
    }
}

/// Whether a check's outcome is the refusal `expected`, or acceptance when there is none.
pub open spec fn concludes(
    outcome: Result<(), SchemaRefusal>,
    expected: Option<SchemaRefusalView>,
) -> bool {
    match outcome {
        Ok(()) => expected is None,
        Err(refusal) => expected == Some(refusal@),
    }
}

/// The first refusal of two checks made one after the other.
pub open spec fn first_of(
    first: Option<SchemaRefusalView>,
    second: Option<SchemaRefusalView>,
) -> Option<SchemaRefusalView> {
    if first is Some {
        first
    } else {
        second
    }
}

/// Checks a proposed key against every layer that will have to spell it.
///
/// A key is a JSONB member name, a token of the search shorthand and part of a generated SQL path. The permitted
/// shape is the intersection: lower-case ASCII, digits and underscores, starting with a letter.
pub fn check_key(key: &str) -> (checked: Result<(), SchemaRefusal>)
    ensures
        concludes(checked, key_refusal(key@)),
{
    if key.is_empty() {
        return Err(SchemaRefusal::BadKey { key: key.to_owned(), detail: KEY_EMPTY });
    }
    if key.as_bytes().len() > MAX_KEY_BYTES {
        return Err(SchemaRefusal::BadKey { key: key.to_owned(), detail: KEY_LONG });
    }
    let first = key.get_char(0);
    if !('a' <= first && first <= 'z') {
        return Err(SchemaRefusal::BadKey { key: key.to_owned(), detail: KEY_START });
    }
    for c in chars: key.chars()
        invariant
            chars.seq() == key@,
            key@.len() > 0,
            vstd::utf8::encode_utf8(key@).len() <= MAX_KEY_BYTES,
            'a' <= key@[0] <= 'z',
            forall|i: int| 0 <= i < chars.index() ==> key_char(#[trigger] key@[i]),
    {
        if !(('a' <= c && c <= 'z') || ('0' <= c && c <= '9') || c == '_') {
            proof {
                assert(!key_char(key@[chars.index()]));
            }
            return Err(SchemaRefusal::BadKey { key: key.to_owned(), detail: KEY_CHARACTERS });
        }
    }
    if is_reserved(key) {
        return Err(SchemaRefusal::ReservedKey(key.to_owned()));
    }
    Ok(())
}

fn is_reserved(key: &str) -> (yes: bool)
    ensures
        yes == reserved(key@),
{
    same(key, "values") || same(key, "asset_id") || same(key, "group_ids") || same(key, "deleted")
        || same(key, "text") || same(key, "metadata") || same(key, "and") || same(key, "or") || same(
        key,
        "not",
    )
}

/// What the store knows of a dependency: the field depended on, and of that field, if it exists, whether it is
/// itself dependent.
#[derive(Debug, Clone, PartialEq, Eq)]
pub struct Dependency {
    pub key: String,
    pub parent_depends: Option<bool>,
}

/// What is wrong with a dependency of the field `key`, if anything: it names itself, it names no field, or it
/// names a field that is itself dependent.
pub open spec fn dependency_refusal(
    key: Seq<char>,
    dependency: Option<Dependency>,
) -> Option<SchemaRefusalView> {
    match dependency {
        None => None,
        Some(inner) => if inner.key@ == key {
            Some(SchemaRefusalView::SelfDependency(key))
        } else {
            match inner.parent_depends {
                None => Some(SchemaRefusalView::UnknownParent(inner.key@)),
                Some(true) => Some(SchemaRefusalView::DependencyChain(inner.key@)),
                Some(false) => None,
            }
        },
    }
}

/// Refuses a dependency that cannot be evaluated.
///
/// A dependency is one level. A chain turns "is this field applicable" into a graph walk with cycles in it, and
/// the failure of a cycle is a form that renders nothing.
pub fn check_dependency(
    key: &str,
    dependency: &Option<Dependency>,
) -> (checked: Result<(), SchemaRefusal>)
    ensures
        concludes(checked, dependency_refusal(key@, *dependency)),
{
    match dependency {
        None => Ok(()),
        Some(inner) => if same(inner.key.as_str(), key) {
            Err(SchemaRefusal::SelfDependency(key.to_owned()))
        } else {
            match inner.parent_depends {
                None => Err(SchemaRefusal::UnknownParent(inner.key.clone())),
                Some(true) => Err(SchemaRefusal::DependencyChain(inner.key.clone())),
                Some(false) => Ok(()),
            }
        },
    }
}

/// What is wrong with the taxonomy of a field, if anything.
pub open spec fn taxonomy_refusal(
    kind: FieldKind,
    taxonomy_id: Option<Uuid>,
    exists: bool,
) -> Option<SchemaRefusalView> {
    if kind != FieldKind::TaxonomyRef {
        None
    } else {
        match taxonomy_id {
            None => Some(SchemaRefusalView::TaxonomyRequired),
            Some(id) => if exists {
                None
            } else {
                Some(SchemaRefusalView::UnknownTaxonomy(id))
            },
        }
    }
}

/// A taxonomy-bound kind needs a taxonomy, and it has to exist. Two refusals, because the fixes differ.
pub fn check_taxonomy(
    kind: FieldKind,
    taxonomy_id: Option<Uuid>,
    exists: bool,
) -> (checked: Result<(), SchemaRefusal>)
    ensures
        concludes(checked, taxonomy_refusal(kind, taxonomy_id, exists)),
{
    if kind != FieldKind::TaxonomyRef {
        return Ok(());
    }
    match taxonomy_id {
        None => Err(SchemaRefusal::TaxonomyRequired),
        Some(id) => if exists {
            Ok(())
        } else {
            Err(SchemaRefusal::UnknownTaxonomy(id))
        },
    }
}

/// A field to define.
///
/// Every flag is explicit: whether the field is searchable is not something to inherit silently.
#[derive(Debug, Clone, PartialEq, Eq)]
pub struct NewField {
    pub key: String,
    pub label: String,
    /// The database spelling.
    pub kind: String,
    pub taxonomy_id: Option<Uuid>,
    pub multivalued: bool,
    pub required: bool,
    pub read_only: bool,
    pub searchable: bool,
    pub facetable: bool,
    pub ai_writable: bool,
    pub search_alias: Option<String>,
    pub validation: Json,
}

/// What has to be known before a field can be defined.
#[derive(Debug, Clone, PartialEq, Eq)]
pub struct DefineFacts {
    /// The kind the spelling stands for, if it stands for one.
    pub kind: Option<FieldKind>,
    pub taxonomy_exists: bool,
    /// The dependency the validation object declares, if it declares one.
    pub dependency: Option<Dependency>,
    pub key_exists: bool,
    /// Whether the search alias belongs to another field.
    pub alias_taken: bool,
}

/// Why a field cannot be defined, if it cannot. The key comes first, then the kind, the taxonomy, the
/// dependency, and last what else has the key or the alias.
pub open spec fn definition_refusal(spec: NewField, facts: DefineFacts) -> Option<SchemaRefusalView> {
    if key_refusal(spec.key@) is Some {
        key_refusal(spec.key@)
    } else if facts.kind is None {
        Some(SchemaRefusalView::UnknownKind(spec.kind@))
    } else {
        first_of(
            taxonomy_refusal(facts.kind->0, spec.taxonomy_id, facts.taxonomy_exists),
            first_of(
                dependency_refusal(spec.key@, facts.dependency),
                if facts.key_exists {
                    Some(SchemaRefusalView::DuplicateKey(spec.key@))
                } else if spec.search_alias is Some && facts.alias_taken {
                    Some(SchemaRefusalView::DuplicateAlias(spec.search_alias->0@))
                } else {
                    None
                },
            ),
        )
    }
}

/// Whether a new field may be defined.
pub fn define(spec: &NewField, facts: &DefineFacts) -> (checked: Result<(), SchemaRefusal>)
    ensures
        concludes(checked, definition_refusal(*spec, *facts)),
{
    match check_key(spec.key.as_str()) {
        Err(refusal) => return Err(refusal),
        Ok(()) => {},
    }
    let kind = match facts.kind {
        None => return Err(SchemaRefusal::UnknownKind(spec.kind.clone())),
        Some(kind) => kind,
    };
    match check_taxonomy(kind, spec.taxonomy_id, facts.taxonomy_exists) {
        Err(refusal) => return Err(refusal),
        Ok(()) => {},
    }
    match check_dependency(spec.key.as_str(), &facts.dependency) {
        Err(refusal) => return Err(refusal),
        Ok(()) => {},
    }
    if facts.key_exists {
        return Err(SchemaRefusal::DuplicateKey(spec.key.clone()));
    }
    match &spec.search_alias {
        Some(alias) => if facts.alias_taken {
            Err(SchemaRefusal::DuplicateAlias(alias.clone()))
        } else {
            Ok(())
        },
        None => Ok(()),
    }
}

/// What may be amended, with `None` meaning "leave alone".
///
/// There is no `key`: a key is the member name every stored value already sits under.
#[derive(Debug, Clone, Default, PartialEq, Eq)]
pub struct Amendment {
    pub label: Option<String>,
    pub kind: Option<String>,
    /// The outer `None` leaves the taxonomy alone, the inner clears it.
    pub taxonomy_id: Option<Option<Uuid>>,
    pub multivalued: Option<bool>,
    pub required: Option<bool>,
    pub read_only: Option<bool>,
    pub searchable: Option<bool>,
    pub facetable: Option<bool>,
    pub ai_writable: Option<bool>,
    /// The outer `None` leaves the alias alone, the inner clears it.
    pub search_alias: Option<Option<String>>,
    pub validation: Option<Json>,
}

/// What has to be known before a field can be amended.
#[derive(Debug, Clone, PartialEq, Eq)]
pub struct AmendFacts {
    /// The kind the amendment's spelling stands for, if it names one and it stands for one.
    pub kind: Option<FieldKind>,
    /// The kind the stored spelling stands for, if it stands for one.
    pub stored_kind: Option<FieldKind>,
    /// How many assets carry a value under the key, soft-deleted ones included: a restore brings those values
    /// back.
    pub stored_values: i64,
    pub taxonomy_exists: bool,
    /// The dependency the amended validation object declares, if it declares one.
    pub dependency: Option<Dependency>,
    /// Whether the amended search alias belongs to another field.
    pub alias_taken: bool,
}

/// The taxonomy a field is bound to once it has been amended.
pub open spec fn amended_taxonomy(before: Catalogued, change: Amendment) -> Option<Uuid> {
    match change.taxonomy_id {
        Some(taxonomy_id) => taxonomy_id,
        None => before.taxonomy_id,
    }
}

/// Why a field cannot change its kind, if it cannot: the kind is unknown, or assets carry values that were
/// validated under the kind it has.
pub open spec fn kind_refusal(
    before: Catalogued,
    change: Amendment,
    facts: AmendFacts,
) -> Option<SchemaRefusalView> {
    match change.kind {
        None => None,
        Some(raw) => if facts.kind is None {
            Some(SchemaRefusalView::UnknownKind(raw@))
        } else if raw@ != before.kind@ && facts.stored_values > 0 {
            Some(
                SchemaRefusalView::KindLockedByValues {
                    key: before.key@,
                    assets: facts.stored_values,
                },
            )
        } else {
            None
        },
    }
}

/// The kind a field has once it has been amended.
pub open spec fn amended_kind(change: Amendment, facts: AmendFacts) -> Option<FieldKind> {
    if change.kind is Some {
        facts.kind
    } else {
        facts.stored_kind
    }
}

/// Why a field cannot be amended, if it cannot.
pub open spec fn amendment_refusal(
    before: Catalogued,
    change: Amendment,
    facts: AmendFacts,
) -> Option<SchemaRefusalView> {
    first_of(
        if change.validation is Some {
            dependency_refusal(before.key@, facts.dependency)
        } else {
            None
        },
        first_of(
            kind_refusal(before, change, facts),
            if facts.stored_kind is None {
                Some(SchemaRefusalView::UnknownKind(before.kind@))
            } else {
                first_of(
                    taxonomy_refusal(
                        amended_kind(change, facts)->0,
                        amended_taxonomy(before, change),
                        facts.taxonomy_exists,
                    ),
                    match change.search_alias {
                        Some(Some(alias)) => if facts.alias_taken {
                            Some(SchemaRefusalView::DuplicateAlias(alias@))
                        } else {
                            None
                        },
                        _ => None,
                    },
                )
            },
        ),
    )
}

/// Whether a field may be amended, and the taxonomy it is bound to afterwards.
pub fn amend(
    before: &Catalogued,
    change: &Amendment,
    facts: &AmendFacts,
) -> (checked: Result<Option<Uuid>, SchemaRefusal>)
    ensures
        match checked {
            Ok(taxonomy_id) => {
                &&& amendment_refusal(*before, *change, *facts) is None
                &&& taxonomy_id == amended_taxonomy(*before, *change)
            },
            Err(refusal) => amendment_refusal(*before, *change, *facts) == Some(refusal@),
        },
{
    if change.validation.is_some() {
        match check_dependency(before.key.as_str(), &facts.dependency) {
            Err(refusal) => return Err(refusal),
            Ok(()) => {},
        }
    }
    match &change.kind {
        None => {},
        Some(raw) => {
            if facts.kind.is_none() {
                return Err(SchemaRefusal::UnknownKind(raw.clone()));
            }
            if !same(raw.as_str(), before.kind.as_str()) && facts.stored_values > 0 {
                return Err(
                    SchemaRefusal::KindLockedByValues {
                        key: before.key.clone(),
                        assets: facts.stored_values,
                    },
                );
            }
        },
    }
    let stored_kind = match facts.stored_kind {
        None => return Err(SchemaRefusal::UnknownKind(before.kind.clone())),
        Some(kind) => kind,
    };
    let kind = match facts.kind {
        Some(kind) => if change.kind.is_some() {
            kind
        } else {
            stored_kind
        },
        None => stored_kind,
    };
    let taxonomy_id = match change.taxonomy_id {
        Some(taxonomy_id) => taxonomy_id,
        None => before.taxonomy_id,
    };
    match check_taxonomy(kind, taxonomy_id, facts.taxonomy_exists) {
        Err(refusal) => return Err(refusal),
        Ok(()) => {},
    }
    match &change.search_alias {
        Some(Some(alias)) => if facts.alias_taken {
            return Err(SchemaRefusal::DuplicateAlias(alias.clone()));
        },
        _ => {},
    }
    Ok(taxonomy_id)
}

/// The result of an amendment, with the consequences the caller cannot compute.
#[derive(Debug, Clone, PartialEq, Eq)]
pub struct Amended {
    pub field: Catalogued,
    /// Whether what the index holds has changed, so that search is stale until a rebuild.
    pub reindex_required: bool,
    /// How many assets would now fail a metadata write because they lack a newly required value.
    pub assets_now_incomplete: i64,
}

/// Whether the difference between two definitions changes what the index holds: whether the value is written at
/// all, and whether it joins the text.
pub open spec fn index_differs(before: Catalogued, after: Catalogued) -> bool {
    before.kind@ != after.kind@ || before.facetable != after.facetable || before.searchable
        != after.searchable
}

/// Whether the difference between two definitions changes what the index holds.
pub fn changes_the_index(before: &Catalogued, after: &Catalogued) -> (changes: bool)
    ensures
        changes == index_differs(*before, *after),
        !changes <==> before.kind@ == after.kind@ && before.facetable == after.facetable && before.searchable
            == after.searchable,
{
    !same(before.kind.as_str(), after.kind.as_str()) || before.facetable != after.facetable
        || before.searchable != after.searchable
}

/// Whether the amendment newly made the field required, so that it matters how many assets lack a value.
pub fn newly_required(before: &Catalogued, after: &Catalogued) -> (newly: bool)
    ensures
        newly == (after.required && !before.required),
{
    after.required && !before.required
}

/// What an amendment came to. `missing` is how many live assets have no value under the key; it is reported
/// only when the field is newly required, so that it never looks like a consequence of an unrelated edit.
pub fn amended(before: &Catalogued, after: Catalogued, missing: i64) -> (outcome: Amended)
    ensures
        outcome.field == after,
        outcome.reindex_required == index_differs(*before, after),
        outcome.assets_now_incomplete == if after.required && !before.required {
            missing
        } else {
            0
        },
        outcome.reindex_required <==> before.kind@ != after.kind@ || before.facetable != after.facetable
            || before.searchable != after.searchable,
{
    Amended {
        reindex_required: changes_the_index(before, &after),
        assets_now_incomplete: if newly_required(before, &after) {
            missing
        } else {
            0
        },
        field: after,
    }
}

/// The result of a removal.
#[derive(Debug, Clone, PartialEq, Eq)]
pub struct Removed {
    pub key: String,
    /// How many assets still carry a value under this key. The values are kept, so the removal is reversible.
    pub assets_with_values: i64,
    pub reindex_required: bool,
}

/// What a removal came to.
pub fn removed(before: Catalogued, assets_with_values: i64) -> (outcome: Removed)
    ensures
        outcome.key == before.key,
        outcome.assets_with_values == assets_with_values,
        outcome.reindex_required == (before.searchable || before.facetable),
{
    Removed {
        reindex_required: before.searchable || before.facetable,
        key: before.key,
        assets_with_values,
    }
}

/// The definition with the key `key`.
pub fn one(catalog: Vec<Catalogued>, key: &str) -> (found: Result<Catalogued, SchemaRefusal>)
    ensures
        match found {
            Ok(def) => exists|i: int|
                {
                    &&& 0 <= i < catalog@.len()
                    &&& #[trigger] catalog@[i] == def
                    &&& def.key@ == key@
                    &&& forall|j: int| 0 <= j < i ==> (#[trigger] catalog@[j]).key@ != key@
                },
            Err(refusal) => {
                &&& refusal matches SchemaRefusal::UnknownField(given)
                &&& given@ == key@
                &&& forall|j: int| 0 <= j < catalog@.len() ==> (#[trigger] catalog@[j]).key@ != key@
            },
        },
{
    let ghost all = catalog@;
    for def in defs: catalog
        invariant
            defs.seq() == all,
            forall|j: int| 0 <= j < defs.index() ==> (#[trigger] all[j]).key@ != key@,
    {
        if same(def.key.as_str(), key) {
            proof {
                assert(all[defs.index()] == def);
            }
            return Ok(def);
        }
    }
    Err(SchemaRefusal::UnknownField(key.to_owned()))
}

// ----------------------------------------------------------------------------------------------------
// Order
// ----------------------------------------------------------------------------------------------------

/// Whether some key occurs twice.
pub open spec fn repeats(keys: Seq<String>) -> bool {
    exists|i: int, j: int|
        0 <= i < j < keys.len() && (#[trigger] keys[i])@ == (#[trigger] keys[j])@
}

/// The first of `keys` that is not among `existing`.
pub open spec fn first_unknown(keys: Seq<String>, existing: Seq<String>) -> Option<Seq<char>>
    decreases keys.len(),
{
    if keys.len() == 0 {
        None
    } else if !holds(existing, keys[0]@) {
        Some(keys[0]@)
    } else {
        first_unknown(keys.drop_first(), existing)
    }
}

/// Why a display order is refused, if it is.
pub open spec fn order_refusal(existing: Seq<String>, keys: Seq<String>) -> Option<SchemaRefusalView> {
    if repeats(keys) || keys.len() != existing.len() {
        Some(
            SchemaRefusalView::IncompleteOrder {
                expected: existing.len() as usize,
                given: keys.len() as usize,
            },
        )
    } else {
        match first_unknown(keys, existing) {
            Some(key) => Some(SchemaRefusalView::UnknownField(key)),
            None => None,
        }
    }
}

/// Whether `keys` may become the order of the fields `existing`.
///
/// It must name every field exactly once. A partial list is refused: display order is a total order, so a
/// client sending half the schema has a stale copy of it.
pub fn reorder(existing: &Vec<String>, keys: &Vec<String>) -> (checked: Result<(), SchemaRefusal>)
    ensures
        concludes(checked, order_refusal(existing@, keys@)),
{
    if has_repeats(keys) || keys.len() != existing.len() {
        return Err(
            SchemaRefusal::IncompleteOrder { expected: existing.len(), given: keys.len() },
        );
    }
    let mut i: usize = 0;
    proof {
        assert(keys@.skip(0) =~= keys@);
    }
    while i < keys.len()
        invariant
            i <= keys@.len(),
            !repeats(keys@),
            keys@.len() == existing@.len(),
            first_unknown(keys@, existing@) == first_unknown(keys@.skip(i as int), existing@),
        decreases keys@.len() - i,
    {
        proof {
            let rest = keys@.skip(i as int);
            assert(rest[0] == keys@[i as int]);
            assert(rest.drop_first() =~= keys@.skip(i + 1));
        }
        if !contains(existing, keys[i].as_str()) {
            return Err(SchemaRefusal::UnknownField(keys[i].clone()));
        }
        i += 1;
    }
    Ok(())
}

fn has_repeats(keys: &Vec<String>) -> (yes: bool)
    ensures
        yes == repeats(keys@),
{
    let mut i: usize = 0;
    while i < keys.len()
        invariant
            i <= keys@.len(),
            forall|a: int, b: int|
                0 <= a < i && a < b < keys@.len() ==> (#[trigger] keys@[a])@ != (#[trigger] keys@[b])@,
        decreases keys@.len() - i,
    {
        let mut j: usize = i + 1;
        while j < keys.len()
            invariant
                i < j <= keys@.len(),
                forall|b: int| i < b < j ==> keys@[i as int]@ != (#[trigger] keys@[b])@,
            decreases keys@.len() - j,
        {
            if same(keys[i].as_str(), keys[j].as_str()) {
                proof {
                    assert(keys@[i as int]@ == keys@[j as int]@);
                }
                return true;
            }
            j += 1;
        }
        i += 1;
    }
    false
}

proof fn lemma_first_unknown(keys: Seq<String>, existing: Seq<String>)
    ensures
        first_unknown(keys, existing) is None <==> forall|i: int|
            0 <= i < keys.len() ==> holds(existing, (#[trigger] keys[i])@),
        first_unknown(keys, existing) matches Some(key) ==> holds(keys, key) && !holds(existing, key),
    decreases keys.len(),
{
    if keys.len() > 0 {
        let rest = keys.drop_first();
        lemma_first_unknown(rest, existing);
        assert(forall|i: int| 0 <= i < rest.len() ==> #[trigger] rest[i] == keys[i + 1]);
        if first_unknown(keys, existing) is None {
            assert forall|i: int| 0 <= i < keys.len() implies holds(
                existing,
                (#[trigger] keys[i])@,
            ) by {
                if i > 0 {
                    assert(rest[i - 1] == keys[i]);
                }
            }
        }
        if forall|i: int| 0 <= i < keys.len() ==> holds(existing, (#[trigger] keys[i])@) {
            assert(holds(existing, keys[0]@));
            assert forall|i: int| 0 <= i < rest.len() implies holds(
                existing,
                (#[trigger] rest[i])@,
            ) by {
                assert(rest[i] == keys[i + 1]);
            }
        }
    }
}

/// A refusal names a field only where that field was sent and is not defined.
pub proof fn an_unknown_field_was_sent(existing: Seq<String>, keys: Seq<String>, key: Seq<char>)
    requires
        order_refusal(existing, keys) == Some(SchemaRefusalView::UnknownField(key)),
    ensures
        holds(keys, key),
        !holds(existing, key),
{
    lemma_first_unknown(keys, existing);
}

proof fn lemma_chars_set(keys: Seq<String>)
    requires
        !repeats(keys),
    ensures
        all_chars(keys).no_duplicates(),
        all_chars(keys).to_set().len() == keys.len(),
        all_chars(keys).to_set().finite(),
{
    let texts = all_chars(keys);
    assert forall|i: int, j: int| 0 <= i < texts.len() && 0 <= j < texts.len() && i != j implies texts[i]
        != texts[j] by {
        if i < j {
            assert(keys[i]@ != keys[j]@);
        } else {
            assert(keys[j]@ != keys[i]@);
        }
    }
    texts.unique_seq_to_set();
}

/// An order that is accepted is a permutation: where no two fields share a key, it names every field exactly
/// once and nothing else.
pub proof fn an_accepted_order_is_a_permutation(existing: Seq<String>, keys: Seq<String>)
    requires
        !repeats(existing),
    ensures
        order_refusal(existing, keys) is None <==> {
            &&& !repeats(keys)
            &&& forall|key: Seq<char>| holds(keys, key) <==> holds(existing, key)
        },
{
    let named = all_chars(keys).to_set();
    let all = all_chars(existing).to_set();
    assert forall|key: Seq<char>| named.contains(key) <==> holds(keys, key) by {
        lemma_set_holds(keys, key);
    }
    assert forall|key: Seq<char>| all.contains(key) <==> holds(existing, key) by {
        lemma_set_holds(existing, key);
    }
    lemma_first_unknown(keys, existing);
    lemma_chars_set(existing);
    if !repeats(keys) {
        lemma_chars_set(keys);
    }
    if order_refusal(existing, keys) is None {
        assert(named.subset_of(all)) by {
            assert forall|key: Seq<char>| named.contains(key) implies all.contains(key) by {
                let i = choose|i: int| 0 <= i < keys.len() && (#[trigger] keys[i])@ == key;
                assert(holds(existing, keys[i]@));
            }
        }
        vstd::set_lib::lemma_subset_equality(named, all);
        assert forall|key: Seq<char>| holds(keys, key) <==> holds(existing, key) by {
            assert(named.contains(key) <==> all.contains(key));
        }
    }
    if !repeats(keys) && (forall|key: Seq<char>| holds(keys, key) <==> holds(existing, key)) {
        assert(named =~= all);
        assert forall|i: int| 0 <= i < keys.len() implies holds(
            existing,
            (#[trigger] keys[i])@,
        ) by {
            assert(holds(keys, keys[i]@));
        }
    }
}

proof fn lemma_set_holds(keys: Seq<String>, key: Seq<char>)
    ensures
        all_chars(keys).to_set().contains(key) <==> holds(keys, key),
{
    let texts = all_chars(keys);
    if holds(keys, key) {
        let i = choose|i: int| 0 <= i < keys.len() && (#[trigger] keys[i])@ == key;
        assert(texts[i] == key);
        assert(texts.contains(key));
    }
    if texts.to_set().contains(key) {
        let i = choose|i: int| 0 <= i < texts.len() && texts[i] == key;
        assert(keys[i]@ == key);
    }
}

// ----------------------------------------------------------------------------------------------------
// References
// ----------------------------------------------------------------------------------------------------

/// One reason a payload was refused.
#[derive(Debug, Clone, PartialEq, Eq)]
pub struct Rejection {
    pub key: String,
    pub code: &'static str,
    pub detail: String,
}

/// What a [`Rejection`] says, in characters.
pub struct RejectionView {
    pub key: Seq<char>,
    pub code: Seq<char>,
    pub detail: Seq<char>,
}

impl Rejection {
    /// What this rejection says, in characters.
    pub open spec fn view(&self) -> RejectionView {
        RejectionView { key: self.key@, code: self.code@, detail: self.detail@ }
    }
}

/// What each rejection of a list says.
pub open spec fn rejection_views(rejections: Seq<Rejection>) -> Seq<RejectionView> {
    Seq::new(rejections.len(), |i: int| rejections[i]@)
}

/// A reference from a field to a term of the taxonomy the field is bound to.
#[derive(Debug, Clone, PartialEq, Eq)]
pub struct TaxonomyRef {
    pub key: String,
    pub term_id: Uuid,
    pub taxonomy_id: Uuid,
}

/// The taxonomy of the term `id`, among `found`, each a term and its taxonomy.
pub open spec fn taxonomy_of(found: Seq<(Uuid, Uuid)>, id: Uuid) -> Option<Uuid>
    decreases found.len(),
{
    if found.len() == 0 {
        None
    } else if found.last().0 == id {
        Some(found.last().1)
    } else {
        taxonomy_of(found.drop_last(), id)
    }
}

/// What is wrong with a reference, if anything: the term does not exist, or belongs to another taxonomy.
pub open spec fn reference_rejection(
    reference: TaxonomyRef,
    found: Seq<(Uuid, Uuid)>,
) -> Option<RejectionView> {
    match taxonomy_of(found, reference.term_id) {
        None => Some(
            RejectionView {
                key: reference.key@,
                code: "term_not_found"@,
                detail: "no taxonomy term "@ + uuid_chars(reference.term_id),
            },
        ),
        Some(actual) => if actual == reference.taxonomy_id {
            None
        } else {
            Some(
                RejectionView {
                    key: reference.key@,
                    code: "wrong_taxonomy"@,
                    detail: "term "@ + uuid_chars(reference.term_id) + " belongs to taxonomy "@
                        + uuid_chars(actual) + ", but this field is bound to "@ + uuid_chars(
                        reference.taxonomy_id,
                    ),
                },
            )
        },
    }
}

/// What is wrong with a list of references, in their order.
pub open spec fn reference_rejections(
    refs: Seq<TaxonomyRef>,
    found: Seq<(Uuid, Uuid)>,
) -> Seq<RejectionView>
    decreases refs.len(),
{
    if refs.len() == 0 {
        Seq::empty()
    } else {
        let front = reference_rejections(refs.drop_last(), found);
        match reference_rejection(refs.last(), found) {
            Some(rejection) => front.push(rejection),
            None => front,
        }
    }
}

/// Which references name a term that does not exist or that belongs to another taxonomy than their field's.
///
/// A term from another taxonomy would index and facet under the wrong vocabulary.
pub fn check_taxonomy_refs(
    refs: &Vec<TaxonomyRef>,
    found: &Vec<(Uuid, Uuid)>,
) -> (rejections: Vec<Rejection>)
    ensures
        rejection_views(rejections@) == reference_rejections(refs@, found@),
{
    let mut rejections: Vec<Rejection> = Vec::new();
    let mut i: usize = 0;
    proof {
        assert(refs@.take(0) =~= Seq::<TaxonomyRef>::empty());
        assert(rejection_views(rejections@) =~= Seq::<RejectionView>::empty());
    }
    while i < refs.len()
        invariant
            i <= refs@.len(),
            rejection_views(rejections@) == reference_rejections(refs@.take(i as int), found@),
        decreases refs@.len() - i,
    {
        proof {
            assert(refs@.take(i + 1).drop_last() =~= refs@.take(i as int));
            assert(refs@.take(i + 1).last() == refs@[i as int]);
        }
        let ghost before = rejections@;
        match rejection_of(&refs[i], found) {
            Some(rejection) => {
                let ghost said = rejection@;
                rejections.push(rejection);
                proof {
                    assert(rejection_views(rejections@) =~= rejection_views(before).push(said));
                }
            },
            None => {},
        }
        i += 1;
    }
    proof {
        assert(refs@.take(i as int) =~= refs@);
    }
    rejections
}

fn rejection_of(reference: &TaxonomyRef, found: &Vec<(Uuid, Uuid)>) -> (rejection: Option<Rejection>)
    ensures
        match rejection {
            Some(inner) => reference_rejection(*reference, found@) == Some(inner@),
            None => reference_rejection(*reference, found@) is None,
        },
{
    match lookup(found, reference.term_id) {
        None => {
            let mut detail = "no taxonomy term ".to_owned();
            detail.append(uuid_text(reference.term_id).as_str());
            Some(Rejection { key: reference.key.clone(), code: "term_not_found", detail })
        },
        Some(actual) => if actual == reference.taxonomy_id {
            None
        } else {
            let mut detail = wrapped(
                "term ",
                uuid_text(reference.term_id).as_str(),
                " belongs to taxonomy ",
            );
            detail.append(uuid_text(actual).as_str());
            detail.append(", but this field is bound to ");
            detail.append(uuid_text(reference.taxonomy_id).as_str());
            Some(Rejection { key: reference.key.clone(), code: "wrong_taxonomy", detail })
        },
    }
}

fn lookup(found: &Vec<(Uuid, Uuid)>, id: Uuid) -> (taxonomy: Option<Uuid>)
    ensures
        taxonomy == taxonomy_of(found@, id),
{
    let mut i: usize = found.len();
    proof {
        assert(found@.take(i as int) =~= found@);
    }
    while i > 0
        invariant
            i <= found@.len(),
            taxonomy_of(found@, id) == taxonomy_of(found@.take(i as int), id),
        decreases i,
    {
        proof {
            assert(found@.take(i as int).last() == found@[i - 1]);
            assert(found@.take(i as int).drop_last() =~= found@.take(i - 1));
        }
        if found[i - 1].0 == id {
            return Some(found[i - 1].1);
        }
        i -= 1;
    }
    None
}

/// The terms a list of references names, each once and ascending: one lookup for all of them.
pub fn wanted_terms(refs: &Vec<TaxonomyRef>) -> (terms: Vec<Uuid>)
    ensures
        forall|i: int, j: int| 0 <= i < j < terms@.len() ==> terms@[i] < terms@[j],
        forall|id: Uuid|
            terms@.contains(id) <==> exists|i: int|
                0 <= i < refs@.len() && (#[trigger] refs@[i]).term_id == id,
{
    let mut given: Vec<Uuid> = Vec::new();
    let mut i: usize = 0;
    while i < refs.len()
        invariant
            i <= refs@.len(),
            given@.len() == i,
            forall|j: int| 0 <= j < i ==> given@[j] == (#[trigger] refs@[j]).term_id,
        decreases refs@.len() - i,
    {
        given.push(refs[i].term_id);
        i += 1;
    }
    let terms = crate::sorted_once(&given);
    proof {
        assert forall|id: Uuid|
            terms@.contains(id) <==> exists|j: int|
                0 <= j < refs@.len() && (#[trigger] refs@[j]).term_id == id by {
            if terms@.contains(id) {
                let j = choose|j: int| 0 <= j < given@.len() && given@[j] == id;
                assert(refs@[j].term_id == id);
            }
            if exists|j: int| 0 <= j < refs@.len() && (#[trigger] refs@[j]).term_id == id {
                let j = choose|j: int| 0 <= j < refs@.len() && (#[trigger] refs@[j]).term_id == id;
                assert(given@[j] == id);
                assert(given@.contains(id));
            }
        }
    }
    terms
}

/// Either the payload was refused, or the check itself could not be completed.
///
/// Different answers to the caller: a rejection names what to fix, and a failure names nothing.
#[derive(Debug, Clone, PartialEq, Eq)]
pub enum ValidationOutcome {
    Rejected(Vec<Rejection>),
    Failed(Error),
}

/// Each rejection as `key=code`.
pub open spec fn rejection_summaries(rejections: Seq<Rejection>) -> Seq<Seq<char>> {
    Seq::new(rejections.len(), |i: int| rejections[i].key@ + "="@ + rejections[i].code@)
}

impl ValidationOutcome {
    /// The text of this outcome.
    pub open spec fn message_chars(self) -> Seq<char> {
        match self {
            ValidationOutcome::Rejected(rejections) => int_chars(rejections@.len() as int)
                + " field(s) refused: "@ + crate::text::joined(
                rejection_summaries(rejections@),
                ", "@,
            ),
            ValidationOutcome::Failed(error) => "validation could not be completed: "@
                + error.message_chars(),
        }
    }

    /// The sentence the caller reads.
    pub fn message(&self) -> (out: String)
        ensures
            out@ == self.message_chars(),
    {
        match self {
            ValidationOutcome::Rejected(rejections) => {
                let mut summaries: Vec<String> = Vec::new();
                let mut i: usize = 0;
                while i < rejections.len()
                    invariant
                        i <= rejections@.len(),
                        summaries@.len() == i,
                        forall|j: int|
                            0 <= j < i ==> (#[trigger] summaries@[j])@ == rejections@[j].key@
                                + "="@ + rejections@[j].code@,
                    decreases rejections@.len() - i,
                {
                    summaries.push(
                        wrapped(rejections[i].key.as_str(), "=", rejections[i].code),
                    );
                    i += 1;
                }
                proof {
                    assert(all_chars(summaries@) =~= rejection_summaries(rejections@));
                }
                let mut out = int_text(rejections.len() as i128);
                out.append(" field(s) refused: ");
                out.append(crate::text::join(&summaries, ", ").as_str());
                out
            },
            ValidationOutcome::Failed(error) => {
                let mut out = "validation could not be completed: ".to_owned();
                out.append(error.message().as_str());
                out
            },
        }
    }
}

/// A payload is accepted when nothing about its references was rejected.
pub fn conclude(rejections: Vec<Rejection>) -> (outcome: Result<(), ValidationOutcome>)
    ensures
        outcome is Ok <==> rejections@.len() == 0,
        outcome matches Err(refused) ==> refused == ValidationOutcome::Rejected(rejections),
{
    if rejections.len() == 0 {
        Ok(())
    } else {
        Err(ValidationOutcome::Rejected(rejections))
    }
}

// ----------------------------------------------------------------------------------------------------
// What the refusals protect
// ----------------------------------------------------------------------------------------------------

/// Stored values keep their kind: while any asset carries a value under a key, no amendment that is accepted
/// spells the field's kind differently.
pub proof fn a_kind_with_values_is_locked(before: Catalogued, change: Amendment, facts: AmendFacts)
    requires
        facts.stored_values > 0,
        amendment_refusal(before, change, facts) is None,
    ensures
        change.kind is None || change.kind->0@ == before.kind@,
{
}

/// Dependencies stay one level deep: a definition that is accepted depends on nothing, or on another field that
/// exists and depends on nothing.
pub proof fn dependencies_are_one_level(spec: NewField, facts: DefineFacts)
    requires
        definition_refusal(spec, facts) is None,
    ensures
        facts.dependency matches Some(inner) ==> inner.key@ != spec.key@ && inner.parent_depends
            == Some(false),
{
}

/// A key that is accepted is spelled with lower-case ASCII letters, digits and underscores only, starts with a
/// letter, and means nothing else already.
pub proof fn an_accepted_key_needs_no_escaping(key: Seq<char>)
    requires
        key_refusal(key) is None,
    ensures
        'a' <= key[0] <= 'z',
        forall|i: int| 0 <= i < key.len() ==> key_char(#[trigger] key[i]),
        !reserved(key),
{
}

/// A refusal is read under its own name, with what it carries.
pub proof fn a_refusal_is_read_as_it_is(refusal: SchemaRefusal)
    ensures
        match refusal {
            SchemaRefusal::UnknownField(given) => refusal@ == SchemaRefusalView::UnknownField(given@),
            SchemaRefusal::DuplicateKey(given) => refusal@ == SchemaRefusalView::DuplicateKey(given@),
            SchemaRefusal::DuplicateAlias(given) => refusal@ == SchemaRefusalView::DuplicateAlias(given@),
            SchemaRefusal::BadKey { key, detail } => refusal@ == (SchemaRefusalView::BadKey { key: key@, detail: detail@ }),
            SchemaRefusal::ReservedKey(given) => refusal@ == SchemaRefusalView::ReservedKey(given@),
            SchemaRefusal::UnknownKind(given) => refusal@ == SchemaRefusalView::UnknownKind(given@),
            SchemaRefusal::TaxonomyRequired => refusal@ is TaxonomyRequired,
            SchemaRefusal::SelfDependency(given) => refusal@ == SchemaRefusalView::SelfDependency(given@),
            SchemaRefusal::UnknownParent(given) => refusal@ == SchemaRefusalView::UnknownParent(given@),
            SchemaRefusal::DependencyChain(given) => refusal@ == SchemaRefusalView::DependencyChain(given@),
            SchemaRefusal::UnknownTaxonomy(id) => refusal@ == SchemaRefusalView::UnknownTaxonomy(id),
            SchemaRefusal::KindLockedByValues { key, assets } => refusal@ == (SchemaRefusalView::KindLockedByValues {
                key: key@,
                assets,
            }),
            SchemaRefusal::IncompleteOrder { expected, given } => refusal@ == (SchemaRefusalView::IncompleteOrder {
                expected,
                given,
            }),
        },
{
}

/// A key of one to 63 small letters, digits and underscores that starts with a letter is accepted, unless it is one of
/// the nine words that mean something else. So a key that is refused is empty, too long, starts or goes on with
/// something else, or is one of those words.
pub proof fn a_plain_key_is_accepted(key: Seq<char>)
    requires
        1 <= key.len() <= 63,
        'a' <= key[0] <= 'z',
        forall|i: int|
            0 <= i < key.len() ==> ('a' <= #[trigger] key[i] <= 'z' || '0' <= key[i] <= '9' || key[i] == '_'),
    ensures
        key != "values"@ && key != "asset_id"@ && key != "group_ids"@ && key != "deleted"@ && key != "text"@ && key
            != "metadata"@ && key != "and"@ && key != "or"@ && key != "not"@ ==> key_refusal(key) is None,
        key == "values"@ || key == "asset_id"@ || key == "group_ids"@ || key == "deleted"@ || key == "text"@ || key
            == "metadata"@ || key == "and"@ || key == "or"@ || key == "not"@ ==> key_refusal(key) == Some(
            SchemaRefusalView::ReservedKey(key),
        ),
{
    assert(vstd::utf8::is_ascii_chars(key)) by {
        assert forall|i: int| 0 <= i < key.len() implies 0 <= #[trigger] key[i] as u32 <= 127 by {}
    }
    vstd::utf8::is_ascii_chars_encode_utf8(key);
    assert(vstd::utf8::encode_utf8(key).len() == key.len());
}

/// A field depends on nothing, or on another field that is there and depends on nothing itself.
pub proof fn a_dependency_is_refused_for_a_reason(key: Seq<char>, dependency: Option<Dependency>)
    ensures
        dependency_refusal(key, dependency) is None <==> dependency is None || dependency->0.key@ != key
            && dependency->0.parent_depends == Some(false),
        dependency_refusal(key, dependency) matches Some(refusal) ==> match refusal {
            SchemaRefusalView::SelfDependency(given) => given == key && dependency->0.key@ == key,
            SchemaRefusalView::UnknownParent(given) => given == dependency->0.key@ && dependency->0.parent_depends is None,
            SchemaRefusalView::DependencyChain(given) => given == dependency->0.key@ && dependency->0.parent_depends
                == Some(true),
            _ => false,
        },
{
}

/// A field of terms names a taxonomy that is there; any other field needs none.
pub proof fn a_field_of_terms_needs_its_taxonomy(kind: FieldKind, taxonomy_id: Option<Uuid>, exists: bool)
    ensures
        taxonomy_refusal(kind, taxonomy_id, exists) is None <==> kind != FieldKind::TaxonomyRef || taxonomy_id is Some
            && exists,
        kind == FieldKind::TaxonomyRef && taxonomy_id is None ==> taxonomy_refusal(kind, taxonomy_id, exists) == Some(
            SchemaRefusalView::TaxonomyRequired,
        ),
        taxonomy_id matches Some(id) ==> kind == FieldKind::TaxonomyRef && !exists ==> taxonomy_refusal(
            kind,
            taxonomy_id,
            exists,
        ) == Some(SchemaRefusalView::UnknownTaxonomy(id)),
{
}

/// A field is defined exactly when its key is a good one that nobody has, its kind is known, its taxonomy and its
/// dependency are in order, and its alias, if it has one, is free.
pub proof fn a_field_is_defined_when_all_is_well(spec: NewField, facts: DefineFacts)
    ensures
        definition_refusal(spec, facts) is None <==> {
            &&& key_refusal(spec.key@) is None
            &&& facts.kind is Some
            &&& facts.kind != Some(FieldKind::TaxonomyRef) || spec.taxonomy_id is Some && facts.taxonomy_exists
            &&& facts.dependency is None || facts.dependency->0.key@ != spec.key@ && facts.dependency->0.parent_depends
                == Some(false)
            &&& !facts.key_exists
            &&& spec.search_alias is None || !facts.alias_taken
        },
        definition_refusal(spec, facts) == Some(SchemaRefusalView::DuplicateKey(spec.key@)) ==> facts.key_exists,
        definition_refusal(spec, facts) matches Some(refusal) ==> refusal is DuplicateAlias ==> spec.search_alias is Some
            && facts.alias_taken && refusal == SchemaRefusalView::DuplicateAlias(spec.search_alias->0@),
{
}

/// A change of a field is allowed exactly when what it changes is in order: a new kind is known and locked by nothing
/// stored, the taxonomy that applies then is there, the dependency that a new rule names is in order, and a new alias
/// is free. What it does not change it is not held against.
pub proof fn a_change_is_allowed_when_all_is_well(before: Catalogued, change: Amendment, facts: AmendFacts)
    ensures
        amendment_refusal(before, change, facts) is None <==> {
            &&& change.validation is None || facts.dependency is None || facts.dependency->0.key@ != before.key@
                && facts.dependency->0.parent_depends == Some(false)
            &&& change.kind is None || facts.kind is Some && (change.kind->0@ == before.kind@ || facts.stored_values <= 0)
            &&& facts.stored_kind is Some
            &&& {
                let kind = if change.kind is Some {
                    facts.kind
                } else {
                    facts.stored_kind
                };
                let taxonomy = if change.taxonomy_id is Some {
                    change.taxonomy_id->0
                } else {
                    before.taxonomy_id
                };
                kind != Some(FieldKind::TaxonomyRef) || taxonomy is Some && facts.taxonomy_exists
            }
            &&& change.search_alias is None || change.search_alias->0 is None || !facts.alias_taken
        },
        change.taxonomy_id is None ==> amended_taxonomy(before, change) == before.taxonomy_id,
        change.taxonomy_id is Some ==> amended_taxonomy(before, change) == change.taxonomy_id->0,
{
}

/// The index holds a field's kind, whether it is searched and whether it is counted, and nothing else of it: it is built
/// anew exactly where one of the three changed, whichever way.
pub proof fn the_index_follows_three_columns(before: Catalogued, after: Catalogued)
    ensures
        index_differs(before, after) == index_differs(after, before),
        !index_differs(before, after) <==> before.kind@ == after.kind@ && before.facetable == after.facetable
            && before.searchable == after.searchable,
        !index_differs(before, before),
{
}

/// A reference is good exactly where its term is there and belongs to the taxonomy of its field; otherwise it is refused
/// under its own key, as not found or as belonging elsewhere.
pub proof fn a_reference_belongs_to_its_fields_taxonomy(reference: TaxonomyRef, found: Seq<(Uuid, Uuid)>)
    ensures
        reference_rejection(reference, found) is None <==> taxonomy_of(found, reference.term_id) == Some(
            reference.taxonomy_id,
        ),
        reference_rejection(reference, found) matches Some(rejection) ==> {
            &&& rejection.key == reference.key@
            &&& taxonomy_of(found, reference.term_id) is None ==> rejection.code == "term_not_found"@
            &&& taxonomy_of(found, reference.term_id) is Some ==> rejection.code == "wrong_taxonomy"@
        },
{
}

/// A term is in the taxonomy that its last row names, and in none where it has no row.
pub proof fn a_term_is_where_its_row_says(found: Seq<(Uuid, Uuid)>, id: Uuid, place: int)
    ensures
        (forall|i: int| 0 <= i < found.len() ==> (#[trigger] found[i]).0 != id) ==> taxonomy_of(found, id) is None,
        0 <= place < found.len() && found[place].0 == id && (forall|i: int|
            place < i < found.len() ==> (#[trigger] found[i]).0 != id) ==> taxonomy_of(found, id) == Some(found[place].1),
    decreases found.len(),
{
    if found.len() > 0 && found.last().0 != id {
        let front = found.drop_last();
        a_term_is_where_its_row_says(front, id, place);
        assert forall|i: int| 0 <= i < front.len() implies #[trigger] front[i] == found[i] by {}
        if forall|i: int| 0 <= i < found.len() ==> (#[trigger] found[i]).0 != id {
            assert forall|i: int| 0 <= i < front.len() implies (#[trigger] front[i]).0 != id by {
                assert(found[i].0 != id);
            }
        }
        if 0 <= place < front.len() && forall|i: int| place < i < found.len() ==> (#[trigger] found[i]).0 != id {
            assert forall|i: int| place < i < front.len() implies (#[trigger] front[i]).0 != id by {
                assert(found[i].0 != id);
            }
        }
    } else if found.len() > 0 {
        assert(found[found.len() - 1] == found.last());
    }
}

/// Every reference that is not good is refused, in the order they came in, and no other.
pub proof fn every_bad_reference_is_refused(refs: Seq<TaxonomyRef>, found: Seq<(Uuid, Uuid)>)
    ensures
        reference_rejections(refs, found) == refs.filter(
            |one: TaxonomyRef| reference_rejection(one, found) is Some,
        ).map_values(|one: TaxonomyRef| reference_rejection(one, found)->0),
    decreases refs.len(),
{
    reveal(Seq::filter);
    let bad = |one: TaxonomyRef| reference_rejection(one, found) is Some;
    let why = |one: TaxonomyRef| reference_rejection(one, found)->0;
    if refs.len() > 0 {
        every_bad_reference_is_refused(refs.drop_last(), found);
    }
    assert(reference_rejections(refs, found) =~= refs.filter(bad).map_values(why));
}

/// A check that finds nothing is passed, and one that finds something is refused for just that.
pub proof fn a_check_concludes_what_it_found(
    outcome: Result<(), SchemaRefusal>,
    expected: Option<SchemaRefusalView>,
)
    ensures
        concludes(outcome, expected) ==> (outcome is Ok <==> expected is None),
        concludes(outcome, expected) && outcome is Err ==> expected == Some(outcome->Err_0@),
        concludes(outcome, expected) <== outcome is Err && expected == Some(outcome->Err_0@),
        concludes(outcome, None) <== outcome is Ok,
{
}

/// An alias that a change sets is the one it names; a change that clears it, or leaves it, sets none.
pub proof fn an_alias_is_set_by_naming_it(change: Amendment)
    ensures
        alias_set(change) is Some <==> change.search_alias is Some && change.search_alias->0 is Some,
        alias_set(change) matches Some(alias) ==> alias == change.search_alias->0->0@,
{
}

/// The first thing that is wrong with a key is what it is refused for: that it is empty, then its length, then what it
/// starts with, then what it holds, and last that it is a word with a meaning.
pub proof fn a_key_is_refused_for_the_first_reason(key: Seq<char>)
    ensures
        key.len() == 0 ==> key_refusal(key) == Some(SchemaRefusalView::BadKey { key, detail: KEY_EMPTY@ }),
        key.len() > 0 && vstd::utf8::encode_utf8(key).len() > 63 ==> key_refusal(key) == Some(
            SchemaRefusalView::BadKey { key, detail: KEY_LONG@ },
        ),
        key.len() > 0 && vstd::utf8::encode_utf8(key).len() <= 63 && !('a' <= key[0] <= 'z') ==> key_refusal(key) == Some(
            SchemaRefusalView::BadKey { key, detail: KEY_START@ },
        ),
        key.len() > 0 && vstd::utf8::encode_utf8(key).len() <= 63 && 'a' <= key[0] <= 'z' && (exists|i: int|
            0 <= i < key.len() && !key_char(#[trigger] key[i])) ==> key_refusal(key) == Some(
            SchemaRefusalView::BadKey { key, detail: KEY_CHARACTERS@ },
        ),
{
}

/// The first thing that is wrong with a definition is what it is refused for: its key, its kind, its taxonomy, its
/// dependency, that its key is taken, and last that its alias is.
pub proof fn a_definition_is_refused_for_the_first_reason(spec: NewField, facts: DefineFacts)
    ensures
        key_refusal(spec.key@) is Some ==> definition_refusal(spec, facts) == key_refusal(spec.key@),
        key_refusal(spec.key@) is None && facts.kind is None ==> definition_refusal(spec, facts) == Some(
            SchemaRefusalView::UnknownKind(spec.kind@),
        ),
        key_refusal(spec.key@) is None && facts.kind is Some ==> {
            let taxonomy = taxonomy_refusal(facts.kind->0, spec.taxonomy_id, facts.taxonomy_exists);
            let dependency = dependency_refusal(spec.key@, facts.dependency);
            &&& taxonomy is Some ==> definition_refusal(spec, facts) == taxonomy
            &&& taxonomy is None && dependency is Some ==> definition_refusal(spec, facts) == dependency
            &&& taxonomy is None && dependency is None && facts.key_exists ==> definition_refusal(spec, facts) == Some(
                SchemaRefusalView::DuplicateKey(spec.key@),
            )
        },
{
}

/// The first thing that is wrong with a change is what it is refused for: the dependency of a new rule, then the new kind,
/// then the taxonomy, and last the alias.
pub proof fn a_change_is_refused_for_the_first_reason(before: Catalogued, change: Amendment, facts: AmendFacts)
    ensures
        change.validation is Some && dependency_refusal(before.key@, facts.dependency) is Some ==> amendment_refusal(
            before,
            change,
            facts,
        ) == dependency_refusal(before.key@, facts.dependency),
        change.validation is None && change.kind is Some && facts.kind is None ==> amendment_refusal(before, change, facts)
            == Some(SchemaRefusalView::UnknownKind(change.kind->0@)),
        change.validation is None && change.kind is Some && facts.kind is Some && change.kind->0@ != before.kind@
            && facts.stored_values > 0 ==> amendment_refusal(before, change, facts) == Some(
            SchemaRefusalView::KindLockedByValues { key: before.key@, assets: facts.stored_values },
        ),
        change.validation is None && change.kind is None && facts.stored_kind is None ==> amendment_refusal(
            before,
            change,
            facts,
        ) == Some(SchemaRefusalView::UnknownKind(before.kind@)),
{
}

// ----------------------------------------------------------------------------------------------------
// Commands
// ----------------------------------------------------------------------------------------------------

pub const LOAD: &'static str =
    "SELECT key, kind, taxonomy_id, multivalued, required, read_only, ai_writable, facetable, validation \
     FROM field_defs ORDER BY display_order, key";

/// The vocabulary, in the form's order.
pub fn load() -> (command: Command)
    ensures
        command.says(
            "SELECT key, kind, taxonomy_id, multivalued, required, read_only, ai_writable, facetable, validation \
             FROM field_defs ORDER BY display_order, key"@,
            Seq::empty(),
        ),
{
    Command::new(LOAD, Vec::new())
}

pub const CATALOG: &'static str =
    "SELECT key, label, kind, multivalued, required, read_only, ai_writable, facetable, searchable, \
     search_alias, taxonomy_id, validation FROM field_defs ORDER BY display_order, key";

/// Every definition, in the form's order.
pub fn catalog() -> (command: Command)
    ensures
        command.says(
            "SELECT key, label, kind, multivalued, required, read_only, ai_writable, facetable, searchable, \
             search_alias, taxonomy_id, validation FROM field_defs ORDER BY display_order, key"@,
            Seq::empty(),
        ),
{
    Command::new(CATALOG, Vec::new())
}

pub const ALIASES: &'static str =
    "SELECT search_alias, key FROM field_defs WHERE search_alias IS NOT NULL";

/// The search aliases, with the fields they stand for.
pub fn aliases() -> (command: Command)
    ensures
        command.says("SELECT search_alias, key FROM field_defs WHERE search_alias IS NOT NULL"@, Seq::empty()),
{
    Command::new(ALIASES, Vec::new())
}

pub const CATEGORY_PATHS: &'static str =
    "SELECT lower(t.path::text), t.id FROM taxonomy_terms t JOIN taxonomies x ON x.id = t.taxonomy_id AND \
     x.kind = 'category' WHERE t.deprecated_at IS NULL";

/// The categories a search can name, by lower-case path.
pub fn category_paths() -> (command: Command)
    ensures
        command.says(
            "SELECT lower(t.path::text), t.id FROM taxonomy_terms t JOIN taxonomies x ON x.id = t.taxonomy_id AND \
             x.kind = 'category' WHERE t.deprecated_at IS NULL"@,
            Seq::empty(),
        ),
{
    Command::new(CATEGORY_PATHS, Vec::new())
}

pub const STORED_VALUES: &'static str =
    "SELECT coalesce(values, '{}'::jsonb) FROM asset_metadata WHERE asset_id = $1";

/// What an asset holds.
pub fn stored_values(asset_id: Uuid) -> (command: Command)
    ensures
        command.says(
            "SELECT coalesce(values, '{}'::jsonb) FROM asset_metadata WHERE asset_id = $1"@,
            seq![Given::Id(asset_id)],
        ),
{
    Command::new(STORED_VALUES, vec![Value::Id(asset_id)])
}

pub const VOCABULARIES_OF: &'static str = "SELECT id, taxonomy_id FROM taxonomy_terms WHERE id = ANY($1)";

/// Which vocabulary these terms are of.
pub fn vocabularies_of(terms: &Vec<Uuid>) -> (command: Command)
    ensures
        command.says("SELECT id, taxonomy_id FROM taxonomy_terms WHERE id = ANY($1)"@, seq![Given::Ids(terms@)]),
{
    Command::new(VOCABULARIES_OF, vec![as_ids(terms)])
}

pub const ALIAS_TAKEN: &'static str =
    "SELECT 1 FROM field_defs WHERE search_alias = $1 AND ($2::text IS NULL OR key <> $2)";

/// Whether another field has a search alias.
pub fn alias_taken(alias: Option<&str>, excluding: Option<&str>) -> (command: Command)
    ensures
        command.says(
            "SELECT 1 FROM field_defs WHERE search_alias = $1 AND ($2::text IS NULL OR key <> $2)"@,
            seq![
                Given::MaybeText(opt_str_chars(alias)), Given::MaybeText(opt_str_chars(excluding)),
            ],
        ),
{
    Command::new(ALIAS_TAKEN, vec![as_maybe_str(alias), as_maybe_str(excluding)])
}

pub const TAXONOMY_EXISTS: &'static str = "SELECT 1 FROM taxonomies WHERE id = $1";

/// Whether there is such a vocabulary.
pub fn taxonomy_exists(id: Option<Uuid>) -> (command: Command)
    ensures
        command.says("SELECT 1 FROM taxonomies WHERE id = $1"@, seq![Given::MaybeId(id)]),
{
    Command::new(TAXONOMY_EXISTS, vec![Value::MaybeId(id)])
}

pub const VALIDATION_OF: &'static str = "SELECT validation FROM field_defs WHERE key = $1";

/// A field's validation.
pub fn validation_of(key: &str) -> (command: Command)
    ensures
        command.says("SELECT validation FROM field_defs WHERE key = $1"@, seq![Given::Text(key@)]),
{
    Command::new(VALIDATION_OF, vec![as_text(key)])
}

pub const KEY_EXISTS: &'static str = "SELECT 1 FROM field_defs WHERE key = $1";

/// Whether there is such a field.
pub fn key_exists(key: &str) -> (command: Command)
    ensures
        command.says("SELECT 1 FROM field_defs WHERE key = $1"@, seq![Given::Text(key@)]),
{
    Command::new(KEY_EXISTS, vec![as_text(key)])
}

pub const INSERT: &'static str =
    "INSERT INTO field_defs (id, key, label, kind, taxonomy_id, multivalued, required, read_only, \
     searchable, facetable, ai_writable, search_alias, validation, display_order) VALUES \
     (gen_random_uuid(), $1, $2, $3, $4, $5, $6, $7, $8, $9, $10, $11, $12, coalesce((SELECT \
     max(display_order) + 1 FROM field_defs), 0))";

/// A new definition, at the end of the form.
pub fn insert(spec: NewField) -> (command: Command)
    ensures
        command.says(
            "INSERT INTO field_defs (id, key, label, kind, taxonomy_id, multivalued, required, read_only, \
             searchable, facetable, ai_writable, search_alias, validation, display_order) VALUES \
             (gen_random_uuid(), $1, $2, $3, $4, $5, $6, $7, $8, $9, $10, $11, $12, coalesce((SELECT \
             max(display_order) + 1 FROM field_defs), 0))"@,
            seq![
                Given::Text(spec.key@), Given::Text(spec.label@), Given::Text(spec.kind@),
                Given::MaybeId(spec.taxonomy_id), Given::Flag(spec.multivalued),
                Given::Flag(spec.required), Given::Flag(spec.read_only), Given::Flag(spec.searchable),
                Given::Flag(spec.facetable), Given::Flag(spec.ai_writable),
                Given::MaybeText(opt_chars(spec.search_alias)), Given::Json(spec.validation),
            ],
        ),
{
    Command::new(
        INSERT,
        vec![
            as_text(spec.key.as_str()), as_text(spec.label.as_str()), as_text(spec.kind.as_str()),
            Value::MaybeId(spec.taxonomy_id), Value::Flag(spec.multivalued), Value::Flag(spec.required),
            Value::Flag(spec.read_only), Value::Flag(spec.searchable), Value::Flag(spec.facetable),
            Value::Flag(spec.ai_writable), as_maybe_text(&spec.search_alias),
            Value::Json(spec.validation),
        ],
    )
}

pub const VALUES_UNDER: &'static str =
    "SELECT count(*) FROM asset_metadata WHERE values ? $1 AND values -> $1 <> 'null'::jsonb";

/// How many assets hold a value under a key, deleted ones among them.
pub fn values_under(key: &str) -> (command: Command)
    ensures
        command.says(
            "SELECT count(*) FROM asset_metadata WHERE values ? $1 AND values -> $1 <> 'null'::jsonb"@,
            seq![Given::Text(key@)],
        ),
{
    Command::new(VALUES_UNDER, vec![as_text(key)])
}

pub const WRITE_AMENDED: &'static str =
    "UPDATE field_defs SET label = coalesce($2, label), kind = coalesce($3, kind), taxonomy_id = $4, multivalued \
     = coalesce($5, multivalued), required = coalesce($6, required), read_only = coalesce($7, read_only), \
     searchable = coalesce($8, searchable), facetable = coalesce($9, facetable), ai_writable = coalesce($10, \
     ai_writable), search_alias = CASE WHEN $11 THEN $12 ELSE search_alias END, validation = coalesce($13, \
     validation), updated_at = now() WHERE key = $1";

/// The alias an amendment sets, where it sets one.
pub open spec fn alias_set(change: Amendment) -> Option<Seq<char>> {
    match change.search_alias {
        Some(alias) => opt_chars(alias),
        None => None,
    }
}

/// A definition as amended. What the amendment leaves out stays as it is; an alias can be cleared, and the vocabulary
/// is the one that was settled on.
pub fn write_amended(key: &str, change: Amendment, taxonomy_id: Option<Uuid>) -> (command: Command)
    ensures
        command.says(
            "UPDATE field_defs SET label = coalesce($2, label), kind = coalesce($3, kind), taxonomy_id = $4, multivalued \
             = coalesce($5, multivalued), required = coalesce($6, required), read_only = coalesce($7, read_only), \
             searchable = coalesce($8, searchable), facetable = coalesce($9, facetable), ai_writable = coalesce($10, \
             ai_writable), search_alias = CASE WHEN $11 THEN $12 ELSE search_alias END, validation = coalesce($13, \
             validation), updated_at = now() WHERE key = $1"@,
            seq![
                Given::Text(key@), Given::MaybeText(opt_chars(change.label)),
                Given::MaybeText(opt_chars(change.kind)), Given::MaybeId(taxonomy_id),
                Given::MaybeFlag(change.multivalued), Given::MaybeFlag(change.required),
                Given::MaybeFlag(change.read_only), Given::MaybeFlag(change.searchable),
                Given::MaybeFlag(change.facetable), Given::MaybeFlag(change.ai_writable),
                Given::Flag(change.search_alias is Some), Given::MaybeText(alias_set(change)),
                Given::MaybeJson(change.validation),
            ],
        ),
{
    let sets_alias = change.search_alias.is_some();
    let alias = match &change.search_alias {
        Some(alias) => as_maybe_text(alias),
        None => Value::MaybeText(None),
    };
    Command::new(
        WRITE_AMENDED,
        vec![
            as_text(key), as_maybe_text(&change.label), as_maybe_text(&change.kind),
            Value::MaybeId(taxonomy_id), Value::MaybeFlag(change.multivalued),
            Value::MaybeFlag(change.required), Value::MaybeFlag(change.read_only),
            Value::MaybeFlag(change.searchable), Value::MaybeFlag(change.facetable),
            Value::MaybeFlag(change.ai_writable), Value::Flag(sets_alias), alias,
            Value::MaybeJson(change.validation),
        ],
    )
}

pub const REMOVE: &'static str = "DELETE FROM field_defs WHERE key = $1";

/// A definition, gone. Every stored value stays exactly where it is.
pub fn remove(key: &str) -> (command: Command)
    ensures
        command.says("DELETE FROM field_defs WHERE key = $1"@, seq![Given::Text(key@)]),
{
    Command::new(REMOVE, vec![as_text(key)])
}

pub const KEYS: &'static str = "SELECT key FROM field_defs";

/// Every field's key.
pub fn keys() -> (command: Command)
    ensures
        command.says("SELECT key FROM field_defs"@, Seq::empty()),
{
    Command::new(KEYS, Vec::new())
}

pub const WRITE_ORDER: &'static str =
    "UPDATE field_defs SET display_order = position.ord - 1, updated_at = now() FROM unnest($1::text[]) \
     WITH ORDINALITY AS position(key, ord) WHERE field_defs.key = position.key";

/// The form's field order.
pub fn write_order(keys: &Vec<String>) -> (command: Command)
    ensures
        command.says(
            "UPDATE field_defs SET display_order = position.ord - 1, updated_at = now() FROM unnest($1::text[]) \
             WITH ORDINALITY AS position(key, ord) WHERE field_defs.key = position.key"@,
            seq![Given::Texts(crate::text::all_chars(keys@))],
        ),
{
    Command::new(WRITE_ORDER, vec![as_texts(keys)])
}

pub const USAGE: &'static str =
    "SELECT count(*) FROM asset_metadata m JOIN assets a ON a.id = m.asset_id AND a.deleted_at IS NULL \
     WHERE m.values ? $1 AND m.values -> $1 <> 'null'::jsonb";

/// How many live assets carry a value under a key.
pub fn usage(key: &str) -> (command: Command)
    ensures
        command.says(
            "SELECT count(*) FROM asset_metadata m JOIN assets a ON a.id = m.asset_id AND a.deleted_at IS NULL \
             WHERE m.values ? $1 AND m.values -> $1 <> 'null'::jsonb"@,
            seq![Given::Text(key@)],
        ),
{
    Command::new(USAGE, vec![as_text(key)])
}

pub const MISSING: &'static str =
    "SELECT count(*) FROM assets a LEFT JOIN asset_metadata m ON m.asset_id = a.id WHERE a.deleted_at IS \
     NULL AND (m.values IS NULL OR NOT (m.values ? $1) OR m.values -> $1 = 'null'::jsonb)";

/// How many live assets have no value under a key.
pub fn missing(key: &str) -> (command: Command)
    ensures
        command.says(
            "SELECT count(*) FROM assets a LEFT JOIN asset_metadata m ON m.asset_id = a.id WHERE a.deleted_at IS \
             NULL AND (m.values IS NULL OR NOT (m.values ? $1) OR m.values -> $1 = 'null'::jsonb)"@,
            seq![Given::Text(key@)],
        ),
{
    Command::new(MISSING, vec![as_text(key)])
}

} // verus!
