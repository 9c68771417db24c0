//! Statements assembled from text and bound values.
//!
//! A [`Statement`] is a `sqlx::QueryBuilder`. What it holds is two sequences, the text so far and the values
//! bound so far, and [`Query`] is the pair of them: every renderer in this library says which [`Query`] it
//! makes of the one it was given. A value that is bound leaves only its placeholder in the text.

use crate::{Instant, Uuid};
use sqlx::postgres::PgArguments;
use sqlx::{Execute, Postgres, QueryBuilder};
use vstd::prelude::*;

use crate::text::nat_chars;

verus! {

/// One bound value.
#[verifier::ext_equal]
pub enum Bind {
    Id(Uuid),
    Ids(Seq<Uuid>),
    Int(i64),
    Text(Seq<char>),
    Texts(Seq<Seq<char>>),
    At(Instant),
}

/// A statement's text and the values bound to its placeholders, in order.
#[verifier::ext_equal]
pub struct Query {
    pub sql: Seq<char>,
    pub binds: Seq<Bind>,
}

/// The placeholder of the bound value with this number.
pub open spec fn placeholder(number: nat) -> Seq<char> {
    seq!['$'] + nat_chars(number)
}

impl Query {
    /// A statement that has only its first fragment.
    pub open spec fn new(text: Seq<char>) -> Query {
        Query { sql: text, binds: Seq::empty() }
    }

    /// This statement with `text` after it.
    pub open spec fn push(self, text: Seq<char>) -> Query {
        Query { sql: self.sql + text, binds: self.binds }
    }

    /// This statement with a placeholder after it, and `value` bound to that placeholder.
    pub open spec fn bind(self, value: Bind) -> Query {
        Query {
            sql: self.sql + placeholder(self.binds.len() + 1),
            binds: self.binds.push(value),
        }
    }

    /// Whether this statement starts with another: its text, and its values.
    pub open spec fn extends(self, start: Query) -> bool {
        &&& self.sql.len() >= start.sql.len()
        &&& self.sql.take(start.sql.len() as int) == start.sql
        &&& self.binds.len() >= start.binds.len()
        &&& self.binds.take(start.binds.len() as int) == start.binds
    }
}

/// A statement starts with itself.
pub proof fn lemma_extends_itself(query: Query)
    ensures
        query.extends(query),
{
    assert(query.sql.take(query.sql.len() as int) =~= query.sql);
    assert(query.binds.take(query.binds.len() as int) =~= query.binds);
}

/// What a statement starts with, it still starts with after more text or another value is appended.
pub proof fn lemma_appending_extends(start: Query, query: Query, text: Seq<char>, value: Bind)
    requires
        query.extends(start),
    ensures
        query.push(text).extends(start),
        query.bind(value).extends(start),
{
    assert(query.push(text).sql.take(start.sql.len() as int) =~= query.sql.take(
        start.sql.len() as int,
    ));
    assert(query.bind(value).sql.take(start.sql.len() as int) =~= query.sql.take(
        start.sql.len() as int,
    ));
    assert(query.bind(value).binds.take(start.binds.len() as int) =~= query.binds.take(
        start.binds.len() as int,
    ));
}

/// A bound value leaves only its placeholder: the text of a statement does not depend on what is bound to it, and
/// the placeholder's number is the value's place among the bound values.
pub proof fn a_bound_value_leaves_only_its_placeholder(query: Query, a: Bind, b: Bind)
    ensures
        query.bind(a).sql == query.bind(b).sql,
        query.bind(a).sql == query.sql + placeholder(query.bind(a).binds.len()),
        query.bind(a).binds.last() == a,
{
}

/// A statement being assembled.
#[verifier::external_body]
pub struct Statement {
    builder: QueryBuilder<Postgres>,
}

/// The values that go with a finished statement's text.
#[verifier::external_type_specification]
#[verifier::external_body]
pub struct ExPgArguments(sqlx::postgres::PgArguments);

/// The text a statement holds so far.
pub uninterp spec fn sql_text(statement: Statement) -> Seq<char>;

/// The values a statement has bound so far.
pub uninterp spec fn bound_values(statement: Statement) -> Seq<Bind>;

/// The values a finished statement's arguments hold.
pub uninterp spec fn argument_values(arguments: PgArguments) -> Seq<Bind>;

/// What a statement holds.
pub open spec fn query(statement: Statement) -> Query {
    Query { sql: sql_text(statement), binds: bound_values(statement) }
}

/// The most identifiers one bound array may hold: its encoding is a 20-byte header and 20 bytes for each, and
/// Postgres counts an argument's bytes in a signed 32-bit integer.
pub const MAX_IDS: usize = 107_374_181;

/// The most bytes one bound argument may take.
pub const MAX_BYTES: usize = 2_147_483_647;

/// Whether a bound text fits an argument.
pub open spec fn text_fits(text: Seq<char>) -> bool {
    vstd::utf8::encode_utf8(text).len() <= MAX_BYTES
}

/// The bytes an array of texts takes: a 20-byte header, and a 4-byte length before each text.
pub open spec fn texts_size(texts: Seq<Seq<char>>) -> int
    decreases texts.len(),
{
    if texts.len() == 0 {
        20
    } else {
        texts_size(texts.drop_last()) + 4 + vstd::utf8::encode_utf8(texts.last()).len()
    }
}

/// The first and last instants chrono can represent.
pub const MIN_INSTANT: Instant = -8_334_601_228_800_000_000;

pub const MAX_INSTANT: Instant = 8_210_266_876_799_999_999;

/// `QueryBuilder::new`: the text is the given fragment and nothing is bound.
#[verifier::external_body]
fn opened(text: &str) -> (statement: Statement)
    ensures
        query(statement) == Query::new(text@),
{
    Statement { builder: QueryBuilder::new(text) }
}

/// `QueryBuilder::push`: the fragment is appended to the text as it stands.
#[verifier::external_body]
pub(crate) fn push(statement: &mut Statement, text: &str)
    ensures
        query(*final(statement)) == query(*old(statement)).push(text@),
{
    statement.builder.push(text);
}

/// `QueryBuilder::push_bind` of an identifier: the next placeholder is appended and the value is bound to it.
#[verifier::external_body]
pub(crate) fn push_bind_id(statement: &mut Statement, id: Uuid)
    ensures
        query(*final(statement)) == query(*old(statement)).bind(Bind::Id(id)),
{
    statement.builder.push_bind(uuid::Uuid::from_u128(id));
}

/// `QueryBuilder::push_bind` of an array of identifiers. It panics when the encoded array is too large for an
/// argument, which `MAX_IDS` rules out.
#[verifier::external_body]
pub(crate) fn push_bind_ids(statement: &mut Statement, ids: &Vec<Uuid>)
    requires
        ids@.len() <= MAX_IDS,
    ensures
        query(*final(statement)) == query(*old(statement)).bind(Bind::Ids(ids@)),
{
    let ids: Vec<uuid::Uuid> = ids.iter().map(|id| uuid::Uuid::from_u128(*id)).collect();
    statement.builder.push_bind(ids);
}

/// `QueryBuilder::push_bind` of a 64-bit integer.
#[verifier::external_body]
pub(crate) fn push_bind_int(statement: &mut Statement, value: i64)
    ensures
        query(*final(statement)) == query(*old(statement)).bind(Bind::Int(value)),
{
    statement.builder.push_bind(value);
}

/// `QueryBuilder::push_bind` of a text. It panics on a text too large for an argument.
#[verifier::external_body]
pub(crate) fn push_bind_text(statement: &mut Statement, text: &str)
    requires
        text_fits(text@),
    ensures
        query(*final(statement)) == query(*old(statement)).bind(Bind::Text(text@)),
{
    statement.builder.push_bind(text.to_owned());
}

/// `QueryBuilder::push_bind` of an array of texts. It panics when the encoded array is too large.
#[verifier::external_body]
pub(crate) fn push_bind_texts(statement: &mut Statement, texts: &Vec<String>)
    requires
        texts_size(crate::text::all_chars(texts@)) <= MAX_BYTES,
    ensures
        query(*final(statement)) == query(*old(statement)).bind(
            Bind::Texts(crate::text::all_chars(texts@)),
        ),
{
    statement.builder.push_bind(texts.to_vec());
}

/// `QueryBuilder::push_bind` of an instant, as the `chrono::DateTime` it denotes.
#[verifier::external_body]
pub(crate) fn push_bind_instant(statement: &mut Statement, at: Instant)
    requires
        MIN_INSTANT <= at <= MAX_INSTANT,
    ensures
        query(*final(statement)) == query(*old(statement)).bind(Bind::At(at)),
{
    let at = chrono::DateTime::<chrono::Utc>::from_timestamp_micros(at).unwrap();
    statement.builder.push_bind(at);
}

/// `QueryBuilder::sql`: the text so far.
#[verifier::external_body]
fn text_of(statement: &Statement) -> (text: String)
    ensures
        text@ == sql_text(*statement),
{
    statement.builder.sql().as_str().to_owned()
}

/// `QueryBuilder::build` and `Execute::take_arguments`: the values bound so far.
#[verifier::external_body]
fn arguments_of(statement: Statement) -> (arguments: PgArguments)
    ensures
        argument_values(arguments) == bound_values(statement),
{
    let mut statement = statement;
    statement.builder.build().take_arguments().unwrap().unwrap()
}

impl Statement {
    /// A statement that starts with `text`.
    pub fn new(text: &str) -> (statement: Statement)
        ensures
            query(statement) == Query::new(text@),
    {
        opened(text)
    }

    /// The text so far.
    pub fn sql(&self) -> (text: String)
        ensures
            text@ == sql_text(*self),
    {
        text_of(self)
    }

    /// The finished text and the values for its placeholders.
    pub fn finish(self) -> (out: (String, PgArguments))
        ensures
            out.0@ == sql_text(self),
            argument_values(out.1) == bound_values(self),
    {
        let text = text_of(&self);
        let arguments = arguments_of(self);
        (text, arguments)
    }
}

} // verus!
