//! Relevance judgements, for the search evaluation.

use crate::commands::{as_text, Command, Given, Value};
use crate::text::same;
use crate::Uuid;
use std::collections::HashMap;
use vstd::prelude::*;

verus! {

broadcast use vstd::std_specs::hash::group_hash_axioms;

/// One judged query: how relevant each asset is to it.
#[derive(Debug)]
pub struct Judgements {
    pub query_text: String,
    pub grades: HashMap<Uuid, u8>,
}

/// What a [`Judgements`] says.
pub struct JudgedView {
    pub query: Seq<char>,
    pub grades: Map<Uuid, u8>,
}

impl Judgements {
    /// What these judgements say.
    pub open spec fn view(&self) -> JudgedView {
        JudgedView { query: self.query_text@, grades: self.grades@ }
    }
}

/// One judgement as stored.
#[derive(Debug, Clone, PartialEq, Eq)]
pub struct JudgementRow {
    pub query_text: String,
    pub asset_id: Uuid,
    pub grade: i16,
}

/// A stored grade as a grade: a negative one is none at all, and so is one too large to be a grade.
pub open spec fn grade_of(stored: i16) -> u8 {
    if 0 <= stored <= 255 {
        stored as u8
    } else {
        0
    }
}

fn grade(stored: i16) -> (grade: u8)
    ensures
        grade == grade_of(stored),
{
    if stored < 0 || stored > 255 {
        0
    } else {
        stored as u8
    }
}

/// The judged queries of rows that come grouped by query: each run of rows with one query is one entry.
pub open spec fn grouped(rows: Seq<JudgementRow>) -> Seq<JudgedView>
    decreases rows.len(),
{
    if rows.len() == 0 {
        Seq::empty()
    } else {
        let front = grouped(rows.drop_last());
        let row = rows.last();
        if front.len() > 0 && front.last().query == row.query_text@ {
            front.drop_last().push(
                JudgedView {
                    query: front.last().query,
                    grades: front.last().grades.insert(row.asset_id, grade_of(row.grade)),
                },
            )
        } else {
            front.push(
                JudgedView {
                    query: row.query_text@,
                    grades: Map::empty().insert(row.asset_id, grade_of(row.grade)),
                },
            )
        }
    }
}

/// What each entry of a corpus says.
pub open spec fn corpus_view(corpus: Seq<Judgements>) -> Seq<JudgedView> {
    Seq::new(corpus.len(), |i: int| corpus[i]@)
}

/// Every judged query with its grades, from rows in the order of their query.
pub fn corpus(rows: Vec<JudgementRow>) -> (corpus: Vec<Judgements>)
    ensures
        corpus_view(corpus@) == grouped(rows@),
{
    let ghost all = rows@;
    let mut corpus: Vec<Judgements> = Vec::new();
    proof {
        assert(all.take(0) =~= Seq::<JudgementRow>::empty());
        assert(corpus_view(corpus@) =~= Seq::<JudgedView>::empty());
    }
    for row in each: rows
        invariant
            each.seq() == all,
            corpus_view(corpus@) == grouped(all.take(each.index())),
    {
        let ghost before = corpus@;
        proof {
            let i = each.index();
            assert(all.take(i + 1).drop_last() =~= all.take(i));
            assert(all.take(i + 1).last() == row);
            if before.len() > 0 {
                assert(corpus_view(before).last() == before.last()@);
            }
        }
        let value: u8 = grade(row.grade);
        let joins = corpus.len() > 0 && same(
            corpus[corpus.len() - 1].query_text.as_str(),
            row.query_text.as_str(),
        );
        let mut entry = match corpus.pop() {
            Some(last) => if joins {
                last
            } else {
                corpus.push(last);
                proof {
                    assert(corpus@ =~= before);
                }
                Judgements { query_text: row.query_text, grades: HashMap::new() }
            },
            None => Judgements { query_text: row.query_text, grades: HashMap::new() },
        };
        let ghost kept = corpus@;
        entry.grades.insert(row.asset_id, value);
        let ghost said = entry@;
        corpus.push(entry);
        proof {
            assert(corpus_view(corpus@) =~= corpus_view(kept).push(said));
            if joins {
                assert(corpus_view(kept) =~= corpus_view(before).drop_last());
            } else {
                assert(kept =~= before);
            }
        }
    }
    proof {
        assert(all.take(all.len() as int) =~= all);
    }
    corpus
}

/// The grades of rows about one query, later rows counting over earlier ones.
pub open spec fn grades_of(rows: Seq<(Uuid, i16)>) -> Map<Uuid, u8>
    decreases rows.len(),
{
    if rows.len() == 0 {
        Map::empty()
    } else {
        grades_of(rows.drop_last()).insert(rows.last().0, grade_of(rows.last().1))
    }
}

/// The judgements of one query. No rows is `None` and not an empty set, which would report every ranking as
/// perfect.
pub fn for_query(query_text: &str, rows: &Vec<(Uuid, i16)>) -> (judged: Option<Judgements>)
    ensures
        judged is None <==> rows@.len() == 0,
        judged matches Some(inner) ==> inner.query_text@ == query_text@ && inner.grades@
            == grades_of(rows@),
{
    if rows.len() == 0 {
        return None;
    }
    let mut grades: HashMap<Uuid, u8> = HashMap::new();
    let mut i: usize = 0;
    proof {
        assert(rows@.take(0) =~= Seq::<(Uuid, i16)>::empty());
    }
    while i < rows.len()
        invariant
            i <= rows@.len(),
            grades@ == grades_of(rows@.take(i as int)),
        decreases rows@.len() - i,
    {
        proof {
            assert(rows@.take(i + 1).drop_last() =~= rows@.take(i as int));
            assert(rows@.take(i + 1).last() == rows@[i as int]);
        }
        grades.insert(rows[i].0, grade(rows[i].1));
        i += 1;
    }
    proof {
        assert(rows@.take(i as int) =~= rows@);
    }
    Some(Judgements { query_text: query_text.to_owned(), grades })
}

// ----------------------------------------------------------------------------------------------------
// What a corpus holds
// ----------------------------------------------------------------------------------------------------

/// Whether the rows of each query stand together, as they do where rows come in the order of their query.
pub open spec fn together(rows: Seq<JudgementRow>) -> bool {
    forall|i: int, j: int, k: int|
        0 <= i < j < k < rows.len() && #[trigger] rows[i].query_text@ == #[trigger] rows[k].query_text@
            ==> #[trigger] rows[j].query_text@ == rows[i].query_text@
}

/// The rows about one query.
pub open spec fn about(rows: Seq<JudgementRow>, query: Seq<char>) -> Seq<(Uuid, i16)>
    decreases rows.len(),
{
    if rows.len() == 0 {
        Seq::empty()
    } else if rows.last().query_text@ == query {
        about(rows.drop_last(), query).push((rows.last().asset_id, rows.last().grade))
    } else {
        about(rows.drop_last(), query)
    }
}

/// Whether a corpus holds each query of some rows once, with the grades that asking for it alone would give.
pub open spec fn holds_each_once(corpus: Seq<JudgedView>, rows: Seq<JudgementRow>) -> bool {
    &&& forall|i: int, j: int|
        0 <= i < j < corpus.len() ==> (#[trigger] corpus[i]).query != (#[trigger] corpus[j]).query
    &&& forall|i: int|
        0 <= i < corpus.len() ==> (#[trigger] corpus[i]).grades == grades_of(
            about(rows, corpus[i].query),
        ) && about(rows, corpus[i].query).len() > 0
    &&& forall|k: int| 0 <= k < rows.len() ==> judged(corpus, (#[trigger] rows[k]).query_text@)
}

/// Whether a query is in a corpus.
pub open spec fn judged(corpus: Seq<JudgedView>, query: Seq<char>) -> bool {
    exists|i: int| 0 <= i < corpus.len() && (#[trigger] corpus[i]).query == query
}

/// A corpus holds every judged query once, none without a judgement, and each with the grades that asking for that
/// query alone gives.
pub proof fn a_corpus_holds_each_query_once(rows: Seq<JudgementRow>)
    requires
        together(rows),
    ensures
        holds_each_once(grouped(rows), rows),
{
    lemma_grouped(rows);
}

proof fn lemma_grouped(rows: Seq<JudgementRow>)
    requires
        together(rows),
    ensures
        holds_each_once(grouped(rows), rows),
        rows.len() > 0 ==> grouped(rows).len() > 0 && grouped(rows).last().query
            == rows.last().query_text@,
    decreases rows.len(),
{
    if rows.len() > 0 {
        let front_rows = rows.drop_last();
        let row = rows.last();
        let front = grouped(front_rows);
        let all = grouped(rows);
        assert(together(front_rows)) by {
            assert forall|i: int, j: int, k: int|
                0 <= i < j < k < front_rows.len() && #[trigger] front_rows[i].query_text@
                    == #[trigger] front_rows[k].query_text@ implies #[trigger] front_rows[j].query_text@
                == front_rows[i].query_text@ by {
                assert(rows[i].query_text@ == rows[k].query_text@);
                assert(rows[j].query_text@ == rows[i].query_text@);
            }
        }
        lemma_grouped(front_rows);
        let joins = front.len() > 0 && front.last().query == row.query_text@;
        if joins {
            assert(all.len() == front.len());
            assert forall|i: int| 0 <= i < all.len() implies (#[trigger] all[i]).query == front[i].query by {}
            assert(all.last().query == row.query_text@);
            assert(about(rows, row.query_text@).drop_last() =~= about(front_rows, row.query_text@));
            assert(front[front.len() - 1].grades == grades_of(about(front_rows, row.query_text@)));
        } else {
            assert(about(front_rows, row.query_text@).len() == 0) by {
                lemma_about_none(rows);
            }
            assert(about(rows, row.query_text@).drop_last() =~= about(front_rows, row.query_text@));
            assert(about(front_rows, row.query_text@) =~= Seq::<(Uuid, i16)>::empty());
            assert forall|i: int| 0 <= i < front.len() implies (#[trigger] front[i]).query
                != row.query_text@ by {
                assert(about(front_rows, front[i].query).len() > 0);
            }
        }
        assert forall|i: int, j: int| 0 <= i < j < all.len() implies (#[trigger] all[i]).query != (
        #[trigger] all[j]).query by {
            if j < front.len() {
                assert(front[i].query != front[j].query);
            } else {
                assert(front[i].query != row.query_text@);
            }
        }
        assert forall|i: int| 0 <= i < all.len() implies (#[trigger] all[i]).grades == grades_of(
            about(rows, all[i].query),
        ) && about(rows, all[i].query).len() > 0 by {
            if i < all.len() - 1 {
                assert(all[i].query != all[all.len() - 1].query);
                assert(all[i] == front[i]);
                assert(all[all.len() - 1].query == row.query_text@);
                assert(about(rows, all[i].query) == about(front_rows, front[i].query));
            } else {
                let mine = about(rows, row.query_text@);
                assert(mine == about(front_rows, row.query_text@).push((row.asset_id, row.grade)));
                assert(mine.drop_last() =~= about(front_rows, row.query_text@));
                assert(grades_of(mine) == grades_of(mine.drop_last()).insert(
                    row.asset_id,
                    grade_of(row.grade),
                ));
            }
        }
        assert forall|k: int| 0 <= k < rows.len() implies judged(all, (#[trigger] rows[k]).query_text@) by {
            if k < front_rows.len() {
                assert(judged(front, front_rows[k].query_text@));
                let i = choose|i: int|
                    0 <= i < front.len() && (#[trigger] front[i]).query == front_rows[k].query_text@;
                assert(all[i].query == rows[k].query_text@);
            } else {
                assert(all[all.len() - 1].query == row.query_text@);
            }
        }
    }
}

/// Where the last row begins a run, no row before it is about its query.
proof fn lemma_about_none(rows: Seq<JudgementRow>)
    requires
        rows.len() > 0,
        together(rows),
        rows.len() > 1 ==> rows[rows.len() - 2].query_text@ != rows.last().query_text@,
    ensures
        about(rows.drop_last(), rows.last().query_text@).len() == 0,
{
    let n = rows.len() - 1;
    assert forall|i: int| 0 <= i < n implies (#[trigger] rows[i]).query_text@ != rows[n].query_text@ by {
        if rows[i].query_text@ == rows[n].query_text@ && i < n - 1 {
            assert(rows[n - 1].query_text@ == rows[i].query_text@);
        }
    }
    lemma_about_none_upto(rows.drop_last(), rows.last().query_text@);
}

proof fn lemma_about_none_upto(rows: Seq<JudgementRow>, query: Seq<char>)
    requires
        forall|i: int| 0 <= i < rows.len() ==> (#[trigger] rows[i]).query_text@ != query,
    ensures
        about(rows, query).len() == 0,
    decreases rows.len(),
{
    if rows.len() > 0 {
        assert forall|i: int| 0 <= i < rows.drop_last().len() implies (#[trigger] rows.drop_last()[i]).query_text@
            != query by {
            assert(rows[i].query_text@ != query);
        }
        assert(rows[rows.len() - 1].query_text@ != query);
        lemma_about_none_upto(rows.drop_last(), query);
    }
}

/// A grade is what was stored, where it is one; a number that no grade has counts as none.
pub proof fn a_grade_is_what_was_stored(stored: i16)
    ensures
        0 <= stored < 256 ==> grade_of(stored) == stored,
        stored < 0 || stored >= 256 ==> grade_of(stored) == 0,
{
}

/// The last grade of an asset counts: whatever was graded has one, and it is the one that its last row gives.
pub proof fn the_last_grade_counts(rows: Seq<(Uuid, i16)>, place: int)
    requires
        0 <= place < rows.len(),
        forall|i: int| place < i < rows.len() ==> (#[trigger] rows[i]).0 != rows[place].0,
    ensures
        grades_of(rows).dom().contains(rows[place].0),
        grades_of(rows)[rows[place].0] == grade_of(rows[place].1),
    decreases rows.len(),
{
    broadcast use vstd::map::group_map_axioms;

    if place < rows.len() - 1 {
        let front = rows.drop_last();
        assert(rows[rows.len() - 1].0 != rows[place].0);
        assert forall|i: int| place < i < front.len() implies (#[trigger] front[i]).0 != front[place].0 by {
            assert(front[i] == rows[i]);
        }
        the_last_grade_counts(front, place);
        assert(front[place] == rows[place]);
    }
}

/// Nothing is graded that has no row.
pub proof fn only_what_was_judged_is_graded(rows: Seq<(Uuid, i16)>, id: Uuid)
    requires
        forall|i: int| 0 <= i < rows.len() ==> (#[trigger] rows[i]).0 != id,
    ensures
        !grades_of(rows).dom().contains(id),
    decreases rows.len(),
{
    broadcast use vstd::map::group_map_axioms;

    if rows.len() > 0 {
        let front = rows.drop_last();
        assert forall|i: int| 0 <= i < front.len() implies (#[trigger] front[i]).0 != id by {
            assert(front[i] == rows[i]);
        }
        only_what_was_judged_is_graded(front, id);
        assert(rows[rows.len() - 1].0 != id);
    }
}

// ----------------------------------------------------------------------------------------------------
// Commands
// ----------------------------------------------------------------------------------------------------

pub const RECORD: &'static str =
    "INSERT INTO relevance_judgements (id, query_text, asset_id, grade, judged_by) VALUES \
     (gen_random_uuid(), $1, $2, $3, $4) ON CONFLICT (query_text, asset_id) DO UPDATE SET grade = \
     excluded.grade, judged_by = excluded.judged_by, judged_at = now()";

/// A judgement, in place of an earlier one of the same asset for the same query: the second opinion is the one that
/// counts.
pub fn record(
    query_text: &str,
    asset_id: Uuid,
    grade: u8,
    judged_by: Option<Uuid>,
) -> (command: Command)
    ensures
        command.says(
            "INSERT INTO relevance_judgements (id, query_text, asset_id, grade, judged_by) VALUES \
             (gen_random_uuid(), $1, $2, $3, $4) ON CONFLICT (query_text, asset_id) DO UPDATE SET grade = \
             excluded.grade, judged_by = excluded.judged_by, judged_at = now()"@,
            seq![
                Given::Text(query_text@), Given::Id(asset_id), Given::Small(grade as i16),
                Given::MaybeId(judged_by),
            ],
        ),
{
    Command::new(
        RECORD,
        vec![
            as_text(query_text), Value::Id(asset_id), Value::Small(grade as i16),
            Value::MaybeId(judged_by),
        ],
    )
}

pub const ALL_JUDGED: &'static str =
    "SELECT j.query_text, j.asset_id, j.grade FROM relevance_judgements j JOIN assets a ON a.id = \
     j.asset_id WHERE a.deleted_at IS NULL ORDER BY j.query_text, j.asset_id";

/// Every judgement of an asset that is not deleted, in the order of its query.
pub fn all_judged() -> (command: Command)
    ensures
        command.says(
            "SELECT j.query_text, j.asset_id, j.grade FROM relevance_judgements j JOIN assets a ON a.id = \
             j.asset_id WHERE a.deleted_at IS NULL ORDER BY j.query_text, j.asset_id"@,
            Seq::empty(),
        ),
{
    Command::new(ALL_JUDGED, Vec::new())
}

pub const JUDGED_FOR: &'static str =
    "SELECT j.asset_id, j.grade FROM relevance_judgements j JOIN assets a ON a.id = j.asset_id WHERE \
     j.query_text = $1 AND a.deleted_at IS NULL";

/// The judgements of one query.
pub fn judged_for(query_text: &str) -> (command: Command)
    ensures
        command.says(
            "SELECT j.asset_id, j.grade FROM relevance_judgements j JOIN assets a ON a.id = j.asset_id WHERE \
             j.query_text = $1 AND a.deleted_at IS NULL"@,
            seq![Given::Text(query_text@)],
        ),
{
    Command::new(JUDGED_FOR, vec![as_text(query_text)])
}

pub const REMOVE: &'static str =
    "DELETE FROM relevance_judgements WHERE query_text = $1 AND asset_id = $2";

/// A judgement, gone.
pub fn remove(query_text: &str, asset_id: Uuid) -> (command: Command)
    ensures
        command.says(
            "DELETE FROM relevance_judgements WHERE query_text = $1 AND asset_id = $2"@,
            seq![Given::Text(query_text@), Given::Id(asset_id)],
        ),
{
    Command::new(REMOVE, vec![as_text(query_text), Value::Id(asset_id)])
}

} // verus!
