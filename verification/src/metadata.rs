//! Writing a person's metadata edit, in one place.
//!
//! A present `null` clears the field and an absent key is left alone: absent means "no opinion". The keys of an
//! edit are also the keys whose provenance goes, so that a value a person replaced is never still marked as a
//! model's.

use crate::Uuid;
use crate::commands::{Command, Given, Value};
use crate::json::{Document, Json};
use crate::text::all_chars;
use vstd::prelude::*;

verus! {

/// What a merge changed.
#[derive(Debug, Clone, PartialEq, Eq)]
pub struct Merged {
    /// The document as stored.
    pub values: Document,
    /// The keys the caller touched, in the order given. The keys, never the values.
    pub edited: Vec<String>,
}

/// The document after an edit: each key with a `null` removed, each other key given its value, one after another.
pub open spec fn patched(
    values: Map<Seq<char>, Json>,
    edit: Seq<(String, Json)>,
) -> Map<Seq<char>, Json>
    decreases edit.len(),
{
    if edit.len() == 0 {
        values
    } else {
        let front = patched(values, edit.drop_last());
        let (key, value) = edit.last();
        if value is Null {
            front.remove(key@)
        } else {
            front.insert(key@, value)
        }
    }
}

/// The keys of an edit, in its order.
pub open spec fn edit_keys(edit: Seq<(String, Json)>) -> Seq<Seq<char>> {
    Seq::new(edit.len(), |i: int| edit[i].0@)
}

/// Merges an edit into one asset's metadata. `stored` is the document as it is, or none yet.
pub fn merge(stored: Option<Document>, edit: Vec<(String, Json)>) -> (merged: Merged)
    requires
        stored matches Some(document) ==> document.wf(),
    ensures
        merged.values.wf(),
        merged.values@ == patched(
            match stored {
                Some(document) => document@,
                None => Map::empty(),
            },
            edit@,
        ),
        all_chars(merged.edited@) == edit_keys(edit@),
{
    let mut values = match stored {
        Some(document) => document,
        None => Document::new(),
    };
    let ghost before = values@;
    let ghost all = edit@;
    let mut edited: Vec<String> = Vec::new();
    proof {
        assert(all.take(0) =~= Seq::<(String, Json)>::empty());
    }
    for item in each: edit
        invariant
            each.seq() == all,
            values.wf(),
            values@ == patched(before, all.take(each.index())),
            edited@.len() == each.index(),
            forall|i: int| 0 <= i < each.index() ==> (#[trigger] edited@[i])@ == all[i].0@,
    {
        proof {
            let i = each.index();
            assert(all.take(i + 1).drop_last() =~= all.take(i));
            assert(all.take(i + 1).last() == item);
        }
        let (key, value) = item;
        edited.push(key.clone());
        if value.is_null() {
            values.remove(key.as_str());
        } else {
            values.insert(key, value);
        }
    }
    proof {
        assert(all.take(all.len() as int) =~= all);
        assert(all_chars(edited@) =~= edit_keys(all));
    }
    Merged { values, edited }
}

/// Whether an edit says something about `key`.
pub open spec fn touches(edit: Seq<(String, Json)>, key: Seq<char>) -> bool {
    exists|i: int| 0 <= i < edit.len() && (#[trigger] edit[i]).0@ == key
}

/// Absent means no opinion: a key an edit does not name is exactly as it was.
pub proof fn an_absent_key_is_left_alone(
    values: Map<Seq<char>, Json>,
    edit: Seq<(String, Json)>,
    key: Seq<char>,
)
    requires
        !touches(edit, key),
    ensures
        patched(values, edit).dom().contains(key) == values.dom().contains(key),
        values.dom().contains(key) ==> patched(values, edit)[key] == values[key],
    decreases edit.len(),
{
    if edit.len() > 0 {
        let front = edit.drop_last();
        assert(edit[edit.len() - 1].0@ != key);
        assert(!touches(front, key)) by {
            if touches(front, key) {
                let i = choose|i: int| 0 <= i < front.len() && (#[trigger] front[i]).0@ == key;
                assert(edit[i].0@ == key);
            }
        }
        an_absent_key_is_left_alone(values, front, key);
    }
}

/// The last word counts: where `at` is the last place an edit names its key, the key has no value afterwards if
/// that value is `null`, and that value otherwise.
pub proof fn a_null_clears_and_a_value_sets(
    values: Map<Seq<char>, Json>,
    edit: Seq<(String, Json)>,
    at: int,
)
    requires
        0 <= at < edit.len(),
        forall|i: int| at < i < edit.len() ==> (#[trigger] edit[i]).0@ != edit[at].0@,
    ensures
        edit[at].1 is Null ==> !patched(values, edit).dom().contains(edit[at].0@),
        !(edit[at].1 is Null) ==> patched(values, edit).dom().contains(edit[at].0@) && patched(
            values,
            edit,
        )[edit[at].0@] == edit[at].1,
    decreases edit.len(),
{
    if at < edit.len() - 1 {
        let front = edit.drop_last();
        assert(front[at] == edit[at]);
        assert(edit[edit.len() - 1].0@ != edit[at].0@);
        assert forall|i: int| at < i < front.len() implies (#[trigger] front[i]).0@ != front[at].0@ by {
            assert(edit[i].0@ != edit[at].0@);
        }
        a_null_clears_and_a_value_sets(values, front, at);
    }
}

// ----------------------------------------------------------------------------------------------------
// Commands
// ----------------------------------------------------------------------------------------------------

pub const STORED: &'static str = "SELECT values FROM asset_metadata WHERE asset_id = $1";

/// What an asset holds, where anything was ever stored for it.
pub fn stored(asset_id: Uuid) -> (command: Command)
    ensures
        command.says("SELECT values FROM asset_metadata WHERE asset_id = $1"@, seq![Given::Id(asset_id)]),
{
    Command::new(STORED, vec![Value::Id(asset_id)])
}

pub const WRITE_VALUES: &'static str =
    "INSERT INTO asset_metadata (asset_id, values) VALUES ($1, $2) ON CONFLICT (asset_id) DO UPDATE SET \
     values = excluded.values, updated_at = now()";

/// What an asset holds.
pub fn write_values(asset_id: Uuid, values: Document) -> (command: Command)
    ensures
        command.says(
            "INSERT INTO asset_metadata (asset_id, values) VALUES ($1, $2) ON CONFLICT (asset_id) DO UPDATE SET \
             values = excluded.values, updated_at = now()"@,
            seq![Given::Id(asset_id), Given::Object(values.listed())],
        ),
{
    Command::new(WRITE_VALUES, vec![Value::Id(asset_id), Value::Object(values.into_entries())])
}

} // verus!
