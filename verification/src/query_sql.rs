//! A planned query's condition, rendered.
//!
//! A plan is text and values in alternation. The text is the planner's; a caller's own words only ever stand
//! among the values, and those are bound.

use crate::sql::{push, push_bind_id, push_bind_ids, push_bind_instant, push_bind_int, push_bind_text};
use crate::sql::{push_bind_texts, query, text_fits, texts_size, Bind, Query, Statement};
use crate::sql::{MAX_BYTES, MAX_IDS, MAX_INSTANT, MIN_INSTANT};
use crate::text::all_chars;
use crate::{Instant, Uuid};
use vstd::prelude::*;

verus! {

/// One piece of a rendered condition.
#[derive(Debug, Clone, PartialEq, Eq)]
pub enum Part {
    Sql(String),
    Id(Uuid),
    Ids(Vec<Uuid>),
    Int(i64),
    Text(String),
    Texts(Vec<String>),
    At(Instant),
}

impl Part {
    /// The statement with this piece appended.
    pub open spec fn after(self, before: Query) -> Query {
        match self {
            Part::Sql(text) => before.push(text@),
            Part::Id(id) => before.bind(Bind::Id(id)),
            Part::Ids(ids) => before.bind(Bind::Ids(ids@)),
            Part::Int(value) => before.bind(Bind::Int(value)),
            Part::Text(text) => before.bind(Bind::Text(text@)),
            Part::Texts(texts) => before.bind(Bind::Texts(all_chars(texts@))),
            Part::At(at) => before.bind(Bind::At(at)),
        }
    }

    /// Whether an argument can carry this piece.
    pub open spec fn fits(self) -> bool {
        match self {
            Part::Sql(_) => true,
            Part::Id(_) => true,
            Part::Ids(ids) => ids@.len() <= MAX_IDS,
            Part::Int(_) => true,
            Part::Text(text) => text_fits(text@),
            Part::Texts(texts) => texts_size(all_chars(texts@)) <= MAX_BYTES,
            Part::At(at) => MIN_INSTANT <= at <= MAX_INSTANT,
        }
    }
}

/// A planned query's condition: what a caller may see, and what they asked for.
#[derive(Debug, Clone, PartialEq, Eq)]
pub struct Planned {
    pub condition: Vec<Part>,
}

/// The statement with `parts` appended one after another.
pub open spec fn spliced(before: Query, parts: Seq<Part>) -> Query
    decreases parts.len(),
{
    if parts.len() == 0 {
        before
    } else {
        parts.last().after(spliced(before, parts.drop_last()))
    }
}

impl Planned {
    /// Whether every piece can be carried by an argument.
    pub open spec fn fits(self) -> bool {
        forall|i: int| 0 <= i < self.condition@.len() ==> (#[trigger] self.condition@[i]).fits()
    }

    /// The statement with this condition appended.
    pub open spec fn after(self, before: Query) -> Query {
        spliced(before, self.condition@)
    }
}

/// Appends the condition of `planned`.
pub fn push_where(statement: &mut Statement, planned: &Planned)
    requires
        planned.fits(),
    ensures
        query(*final(statement)) == planned.after(query(*old(statement))),
{
    let ghost before = query(*statement);
    let parts = &planned.condition;
    let mut i: usize = 0;
    proof {
        assert(parts@.take(0) =~= Seq::<Part>::empty());
    }
    while i < parts.len()
        invariant
            i <= parts.len(),
            parts@ == planned.condition@,
            planned.fits(),
            query(*statement) == spliced(before, parts@.take(i as int)),
        decreases parts.len() - i,
    {
        proof {
            let next = parts@.take(i + 1);
            assert(next.drop_last() =~= parts@.take(i as int));
            assert(next.last() == parts@[i as int]);
            assert(planned.condition@[i as int].fits());
        }
        match &parts[i] {
            Part::Sql(text) => push(statement, text.as_str()),
            Part::Id(id) => push_bind_id(statement, *id),
            Part::Ids(ids) => push_bind_ids(statement, ids),
            Part::Int(value) => push_bind_int(statement, *value),
            Part::Text(text) => push_bind_text(statement, text.as_str()),
            Part::Texts(texts) => push_bind_texts(statement, texts),
            Part::At(at) => push_bind_instant(statement, *at),
        }
        i += 1;
    }
    proof {
        assert(parts@.take(i as int) =~= parts@);
    }
}

/// A part that is text goes into the text and binds nothing; any other part binds its own value and leaves only a
/// placeholder in the text.
pub proof fn a_part_is_text_or_a_value(before: Query, part: Part)
    ensures
        part matches Part::Sql(text) ==> part.after(before).sql == before.sql + text@ && part.after(before).binds
            == before.binds,
        !(part is Sql) ==> part.after(before).sql == before.sql + crate::sql::placeholder(before.binds.len() + 1)
            && part.after(before).binds.drop_last() == before.binds,
        part matches Part::Id(id) ==> part.after(before).binds.last() == Bind::Id(id),
        part matches Part::Ids(ids) ==> part.after(before).binds.last() == Bind::Ids(ids@),
        part matches Part::Int(value) ==> part.after(before).binds.last() == Bind::Int(value),
        part matches Part::Text(text) ==> part.after(before).binds.last() == Bind::Text(text@),
        part matches Part::Texts(texts) ==> part.after(before).binds.last() == Bind::Texts(all_chars(texts@)),
        part matches Part::At(at) ==> part.after(before).binds.last() == Bind::At(at),
{
    if !(part is Sql) {
        assert(part.after(before).binds.drop_last() =~= before.binds);
    }
}

/// A condition is its parts one after another: that of two lists of parts is that of the second behind that of the first.
pub proof fn a_condition_is_its_parts_in_order(before: Query, first: Seq<Part>, second: Seq<Part>)
    ensures
        spliced(before, first + second) == spliced(spliced(before, first), second),
        spliced(before, Seq::empty()) == before,
    decreases second.len(),
{
    if second.len() > 0 {
        a_condition_is_its_parts_in_order(before, first, second.drop_last());
        assert((first + second).drop_last() =~= first + second.drop_last());
    } else {
        assert(first + second =~= first);
    }
}

} // verus!
