//! The two migration tracks, and the schema names they may be applied to.
//!
//! Global migrations apply once; tenant migrations apply to the template schema and to every tenant's own. A
//! schema name is interpolated into DDL, so it is validated here rather than trusted.

use crate::text::{quoted, quoted_chars, same, wrapped};
use crate::Error;
use vstd::prelude::*;

verus! {

/// The control-plane schema.
pub const GLOBAL_SCHEMA: &'static str = "dam_global";

/// Where the database extensions live.
pub const EXTENSIONS_SCHEMA: &'static str = "extensions";

/// Kept at head so that statements have a schema to be checked against.
pub const TEMPLATE_SCHEMA: &'static str = "tenant_template";

/// How many global migrations there are.
pub const GLOBAL_MIGRATIONS: usize = 3;

/// How many tenant migrations there are.
pub const TENANT_MIGRATIONS: usize = 29;

/// The longest slug.
pub const MAX_SLUG: usize = 38;

/// Number of tenant migrations. Used to report whether a tenant is behind head.
pub fn tenant_migration_count() -> (count: usize)
    ensures
        count == TENANT_MIGRATIONS,
        count == 29,
{
    TENANT_MIGRATIONS
}

/// Number of global migrations.
pub fn global_migration_count() -> (count: usize)
    ensures
        count == GLOBAL_MIGRATIONS,
        count == 3,
{
    GLOBAL_MIGRATIONS
}

/// The characters a slug is made of.
pub open spec fn slug_char(c: char) -> bool {
    'a' <= c <= 'z' || '0' <= c <= '9' || c == '_'
}

/// A slug: a lower-case letter, then lower-case letters, digits and underscores, 38 characters at most.
pub open spec fn slug_shaped(slug: Seq<char>) -> bool {
    &&& 1 <= slug.len() <= MAX_SLUG
    &&& 'a' <= slug[0] <= 'z'
    &&& forall|i: int| 0 <= i < slug.len() ==> slug_char(#[trigger] slug[i])
}

/// Whether `text` starts with `t_`.
pub open spec fn tenant_prefixed(text: Seq<char>) -> bool {
    text.len() >= 2 && text[0] == 't' && text[1] == '_'
}

/// The schema names tenant migrations may be applied to.
pub open spec fn schema_accepted(schema: Seq<char>) -> bool {
    schema == "tenant_template"@ || (tenant_prefixed(schema) && slug_shaped(schema.skip(2)))
}

/// Whether `slug` is a slug.
pub fn slug_is_shaped(slug: &str) -> (shaped: bool)
    ensures
        shaped == slug_shaped(slug@),
{
    let len: usize = slug.unicode_len();
    if len < 1 || len > MAX_SLUG {
        return false;
    }
    let first = slug.get_char(0);
    if !('a' <= first && first <= 'z') {
        return false;
    }
    for c in chars: slug.chars()
        invariant
            chars.seq() == slug@,
            forall|i: int| 0 <= i < chars.index() ==> slug_char(#[trigger] slug@[i]),
    {
        if !(('a' <= c && c <= 'z') || ('0' <= c && c <= '9') || c == '_') {
            proof {
                assert(!slug_char(slug@[chars.index()]));
            }
            return false;
        }
    }
    true
}

pub const NAME_PREFIX: &'static str = "invalid tenant schema name ";

pub const NOT_A_TENANT: &'static str = ": must be `tenant_template` or start with `t_`";

pub const NOT_A_SLUG: &'static str = ": slug must match ^[a-z][a-z0-9_]{1,38}$";

/// What a refused schema name is told.
pub open spec fn name_refusal(schema: Seq<char>) -> Seq<char> {
    "invalid tenant schema name "@ + quoted_chars(schema) + if tenant_prefixed(schema) {
        ": slug must match ^[a-z][a-z0-9_]{1,38}$"@
    } else {
        ": must be `tenant_template` or start with `t_`"@
    }
}

/// Accepts `tenant_template`, or `t_` and a slug.
pub fn validate_schema_name(schema: &str) -> (checked: Result<(), Error>)
    ensures
        checked is Ok <==> schema_accepted(schema@),
        checked matches Err(error) ==> error matches Error::Migrate(detail) && detail@ == name_refusal(
            schema@,
        ),
{
    if same(schema, TEMPLATE_SCHEMA) {
        return Ok(());
    }
    let len: usize = schema.unicode_len();
    if len < 2 || schema.get_char(0) != 't' || schema.get_char(1) != '_' {
        return Err(Error::Migrate(wrapped(NAME_PREFIX, quoted(schema).as_str(), NOT_A_TENANT)));
    }
    let slug = schema.substring_char(2, len);
    proof {
        assert(slug@ =~= schema@.skip(2));
    }
    if !slug_is_shaped(slug) {
        return Err(Error::Migrate(wrapped(NAME_PREFIX, quoted(schema).as_str(), NOT_A_SLUG)));
    }
    Ok(())
}

/// The statement that creates a tenant's schema.
pub fn create_schema(schema: &str) -> (statement: Result<String, Error>)
    ensures
        statement is Ok <==> schema_accepted(schema@),
        statement matches Ok(sql) ==> sql@ == "CREATE SCHEMA IF NOT EXISTS \""@ + schema@ + "\""@,
        statement matches Err(error) ==> error matches Error::Migrate(detail) && detail@
            == name_refusal(schema@),
{
    match validate_schema_name(schema) {
        Ok(()) => Ok(wrapped("CREATE SCHEMA IF NOT EXISTS \"", schema, "\"")),
        Err(error) => Err(error),
    }
}

/// The `search_path` of a connection that migrates `first`. It is a property of the connection, because a
/// `SET LOCAL` outside a transaction is a silent no-op.
pub fn search_path(first: &str) -> (path: String)
    ensures
        path@ == "\""@ + first@ + "\","@ + "extensions"@ + ",public"@,
{
    let mut path = wrapped("\"", first, "\",");
    path.append(EXTENSIONS_SCHEMA);
    path.append(",public");
    path
}

/// A name that is accepted holds nothing but lower-case letters, digits and underscores, so quoting it in DDL
/// cannot end the quotation early.
pub proof fn an_accepted_name_needs_no_escaping(schema: Seq<char>)
    requires
        schema_accepted(schema),
    ensures
        forall|i: int| 0 <= i < schema.len() ==> slug_char(#[trigger] schema[i]),
{
    reveal_strlit("tenant_template");
    if schema != TEMPLATE_SCHEMA@ {
        assert forall|i: int| 0 <= i < schema.len() implies slug_char(#[trigger] schema[i]) by {
            if i >= 2 {
                assert(schema.skip(2)[i - 2] == schema[i]);
            }
        }
    }
}

/// A tenant's slug: what its schema is named after.
#[derive(Debug, PartialEq, Eq)]
pub struct TenantSlug {
    text: String,
}

impl Clone for TenantSlug {
    fn clone(&self) -> (copy: TenantSlug)
        ensures
            copy@ == self@,
    {
        proof {
            use_type_invariant(self);
        }
        TenantSlug { text: self.text.clone() }
    }
}

impl TenantSlug {
    /// The slug's characters.
    pub closed spec fn view(&self) -> Seq<char> {
        self.text@
    }

    /// Every slug is shaped like one.
    #[verifier::type_invariant]
    spec fn shaped(self) -> bool {
        slug_shaped(self.text@)
    }

    /// The slug `text` is, if it is one.
    pub fn new(text: &str) -> (slug: Result<TenantSlug, Error>)
        ensures
            slug is Ok <==> slug_shaped(text@),
            slug matches Ok(inner) ==> inner@ == text@,
            slug matches Err(error) ==> error matches Error::InvalidSlug(given) && given@ == text@,
    {
        if slug_is_shaped(text) {
            Ok(TenantSlug { text: text.to_owned() })
        } else {
            Err(Error::InvalidSlug(text.to_owned()))
        }
    }

    /// The slug's text.
    pub fn as_str(&self) -> (text: &str)
        ensures
            text@ == self@,
    {
        self.text.as_str()
    }

    /// The tenant's schema.
    pub fn schema_name(&self) -> (schema: String)
        ensures
            schema@ == "t_"@ + self@,
            schema_accepted(schema@),
    {
        proof {
            use_type_invariant(self);
            reveal_strlit("t_");
            assert(("t_"@ + self@).skip(2) =~= self@);
        }
        let mut schema = "t_".to_owned();
        schema.append(self.text.as_str());
        schema
    }
}

/// A slug is one to 38 small letters, digits and underscores, and starts with a letter. So it holds nothing that would
/// have to be escaped in a name.
pub proof fn a_slug_is_a_plain_word(slug: Seq<char>, i: int)
    ensures
        slug_shaped(slug) ==> 1 <= slug.len() <= 38 && 'a' <= slug[0] <= 'z',
        slug_shaped(slug) && 0 <= i < slug.len() ==> slug[i] != '"' && slug[i] != '-' && slug[i] != ' ' && slug[i]
            != '.' && !('A' <= slug[i] <= 'Z'),
        slug.len() == 1 && 'a' <= slug[0] <= 'z' ==> slug_shaped(slug),
{
}

/// A slug made longer by one plain character is a slug while there is room.
pub proof fn a_slug_grows_by_plain_characters(slug: Seq<char>, c: char)
    requires
        slug_shaped(slug),
        slug.len() < 38,
    ensures
        slug_shaped(slug.push(c)) <==> 'a' <= c <= 'z' || '0' <= c <= '9' || c == '_',
{
    let longer = slug.push(c);
    assert(longer[0] == slug[0]);
    if slug_char(c) {
        assert forall|i: int| 0 <= i < longer.len() implies slug_char(#[trigger] longer[i]) by {
            if i < slug.len() {
                assert(longer[i] == slug[i]);
            }
        }
    } else {
        assert(!slug_char(longer[slug.len() as int]));
    }
}

/// A schema is accepted when it is the template's or a tenant's: `t_` and a slug.
pub proof fn a_schema_is_a_tenants_or_the_template(slug: Seq<char>)
    ensures
        schema_accepted(TEMPLATE_SCHEMA@),
        slug_shaped(slug) ==> schema_accepted(seq!['t', '_'] + slug),
        schema_accepted(slug) && slug != TEMPLATE_SCHEMA@ ==> slug.len() >= 3 && slug[0] == 't' && slug[1] == '_'
            && slug_shaped(slug.skip(2)),
{
    assert((seq!['t', '_'] + slug).skip(2) =~= slug);
}

} // verus!
