//! Documents: the values a `jsonb` column holds.

use crate::text::same;
use vstd::prelude::*;

verus! {

/// A JSON value.
///
/// An integer that fits 64 bits is an [`Json::Int`]; any other number is kept as the text it is written in.
#[derive(Debug, PartialEq, Eq)]
pub enum Json {
    Null,
    Bool(bool),
    Int(i64),
    Number(String),
    Text(String),
    List(Vec<Json>),
    Object(Vec<(String, Json)>),
}

/// A JSON value, in characters.
pub enum JsonView {
    Null,
    Bool(bool),
    Int(i64),
    Number(Seq<char>),
    Text(Seq<char>),
    List(Seq<JsonView>),
    Object(Seq<(Seq<char>, JsonView)>),
}

impl Json {
    /// This value, in characters.
    pub open spec fn view(&self) -> JsonView
        decreases self,
    {
        match *self {
            Json::Null => JsonView::Null,
            Json::Bool(value) => JsonView::Bool(value),
            Json::Int(value) => JsonView::Int(value),
            Json::Number(text) => JsonView::Number(text@),
            Json::Text(text) => JsonView::Text(text@),
            Json::List(items) => JsonView::List(
                Seq::new(
                    items@.len(),
                    |i: int|
                        if 0 <= i < items@.len() {
                            items[i].view()
                        } else {
                            JsonView::Null
                        },
                ),
            ),
            Json::Object(entries) => JsonView::Object(
                Seq::new(
                    entries@.len(),
                    |i: int|
                        if 0 <= i < entries@.len() {
                            (entries[i].0@, entries[i].1.view())
                        } else {
                            (Seq::empty(), JsonView::Null)
                        },
                ),
            ),
        }
    }

    /// Whether this is `null`.
    pub fn is_null(&self) -> (null: bool)
        ensures
            null == (*self is Null),
    {
        match self {
            Json::Null => true,
            _ => false,
        }
    }
}

impl Clone for Json {
    fn clone(&self) -> (copy: Json)
        ensures
            copy@ == self@,
    {
        copied(self)
    }
}

fn copied(json: &Json) -> (copy: Json)
    ensures
        copy@ == json@,
    decreases json,
{
    match json {
        Json::Null => Json::Null,
        Json::Bool(value) => Json::Bool(*value),
        Json::Int(value) => Json::Int(*value),
        Json::Number(text) => Json::Number(text.clone()),
        Json::Text(text) => Json::Text(text.clone()),
        Json::List(items) => {
            let mut copies: Vec<Json> = Vec::new();
            let mut i: usize = 0;
            while i < items.len()
                invariant
                    i <= items@.len(),
                    copies@.len() == i,
                    *json == Json::List(*items),
                    forall|j: int| 0 <= j < i ==> (#[trigger] copies@[j])@ == items@[j]@,
                decreases items@.len() - i,
            {
                proof {
                    assert(decreases_to!(*items => items[i as int]));
                    assert(decreases_to!(*json => json->List_0));
                }
                copies.push(copied(&items[i]));
                i += 1;
            }
            let copy = Json::List(copies);
            proof {
                assert(copy@->List_0 =~= json@->List_0);
            }
            copy
        },
        Json::Object(entries) => {
            let mut copies: Vec<(String, Json)> = Vec::new();
            let mut i: usize = 0;
            while i < entries.len()
                invariant
                    i <= entries@.len(),
                    copies@.len() == i,
                    *json == Json::Object(*entries),
                    forall|j: int|
                        0 <= j < i ==> (#[trigger] copies@[j]).0@ == entries@[j].0@ && copies@[j].1@
                            == entries@[j].1@,
                decreases entries@.len() - i,
            {
                proof {
                    assert(decreases_to!(*json => json->Object_0));
                    assert(decreases_to!(*entries => entries[i as int]));
                    assert(decreases_to!(entries[i as int] => entries[i as int].1));
                }
                copies.push((entries[i].0.clone(), copied(&entries[i].1)));
                i += 1;
            }
            let copy = Json::Object(copies);
            proof {
                assert(copy@->Object_0 =~= json@->Object_0);
            }
            copy
        },
    }
}

/// A JSON object, as a map from keys to values.
#[derive(Debug, Clone, PartialEq, Eq)]
pub struct Document {
    entries: Vec<(String, Json)>,
}

/// Whether the entry at `i` has the key `key`.
pub open spec fn keyed(entries: Seq<(String, Json)>, key: Seq<char>, i: int) -> bool {
    0 <= i < entries.len() && entries[i].0@ == key
}

/// Whether `entries` has an entry with the key `key`.
pub open spec fn has_key(entries: Seq<(String, Json)>, key: Seq<char>) -> bool {
    exists|i: int| keyed(entries, key, i)
}

/// The map that a list of entries denotes. Where a key occurs once, its value is that entry's.
pub open spec fn members(entries: Seq<(String, Json)>) -> Map<Seq<char>, Json> {
    Map::new(
        |key: Seq<char>| has_key(entries, key),
        |key: Seq<char>| entries[choose|i: int| keyed(entries, key, i)].1,
    )
}

/// Whether no key occurs twice.
pub open spec fn keys_distinct(entries: Seq<(String, Json)>) -> bool {
    forall|i: int, j: int|
        0 <= i < j < entries.len() ==> (#[trigger] entries[i]).0@ != (#[trigger] entries[j]).0@
}

impl Default for Document {
    fn default() -> (document: Document)
        ensures
            document.wf(),
            document@ == Map::<Seq<char>, Json>::empty(),
    {
        Document::new()
    }
}

impl Document {
    /// The entries in the order they are kept.
    pub closed spec fn listed(self) -> Seq<(String, Json)> {
        self.entries@
    }

    /// No key occurs twice.
    pub open spec fn wf(self) -> bool {
        keys_distinct(self.listed())
    }

    /// The map this document is.
    pub open spec fn view(&self) -> Map<Seq<char>, Json> {
        members(self.listed())
    }

    /// The empty document.
    pub fn new() -> (document: Document)
        ensures
            document.wf(),
            document@ == Map::<Seq<char>, Json>::empty(),
    {
        let document = Document { entries: Vec::new() };
        proof {
            assert(document@ =~= Map::<Seq<char>, Json>::empty());
        }
        document
    }

    /// Where `key` stands, if it does.
    fn position(&self, key: &str) -> (at: Option<usize>)
        ensures
            match at {
                Some(i) => keyed(self.entries@, key@, i as int),
                None => !has_key(self.entries@, key@),
            },
    {
        let mut i: usize = 0;
        while i < self.entries.len()
            invariant
                i <= self.entries@.len(),
                forall|j: int| 0 <= j < i ==> !keyed(self.entries@, key@, j),
            decreases self.entries@.len() - i,
        {
            if same(self.entries[i].0.as_str(), key) {
                return Some(i);
            }
            i += 1;
        }
        None
    }

    /// Whether `key` has a value.
    pub fn contains_key(&self, key: &str) -> (found: bool)
        ensures
            found == self@.dom().contains(key@),
    {
        self.position(key).is_some()
    }

    /// Whether there is no entry at all.
    pub fn is_empty(&self) -> (empty: bool)
        ensures
            empty == (self@ == Map::<Seq<char>, Json>::empty()),
    {
        proof {
            if self.entries@.len() > 0 {
                assert(keyed(self.entries@, self.entries@[0].0@, 0));
                assert(self@.dom().contains(self.entries@[0].0@));
            } else {
                assert(self@ =~= Map::<Seq<char>, Json>::empty());
            }
        }
        self.entries.len() == 0
    }

    /// The value of `key`.
    pub fn get(&self, key: &str) -> (value: Option<&Json>)
        requires
            self.wf(),
        ensures
            match value {
                Some(inner) => self@.dom().contains(key@) && self@[key@] == *inner,
                None => !self@.dom().contains(key@),
            },
    {
        match self.position(key) {
            Some(i) => {
                proof {
                    lemma_members(self.entries@, i as int);
                }
                Some(&self.entries[i].1)
            },
            None => None,
        }
    }

    /// Gives `key` the value `value`.
    pub fn insert(&mut self, key: String, value: Json)
        requires
            old(self).wf(),
        ensures
            final(self).wf(),
            final(self)@ == old(self)@.insert(key@, value),
    {
        let ghost before = self.entries@;
        match self.position(key.as_str()) {
            Some(i) => {
                let ghost entry = (key, value);
                self.entries.set(i, (key, value));
                proof {
                    let after = self.entries@;
                    assert(after == before.update(i as int, entry));
                    assert forall|k: Seq<char>| has_key(before, k) == has_key(after, k) by {
                        if has_key(before, k) {
                            let j = choose|j: int| keyed(before, k, j);
                            assert(keyed(after, k, j));
                        }
                        if has_key(after, k) {
                            let j = choose|j: int| keyed(after, k, j);
                            assert(keyed(before, k, j));
                        }
                    }
                    assert forall|k: Seq<char>| #[trigger] has_key(after, k) implies members(after)[k]
                        == members(before).insert(entry.0@, entry.1)[k] by {
                        let j = choose|j: int| keyed(after, k, j);
                        lemma_members(after, j);
                        if j != i {
                            lemma_members(before, j);
                            assert(before[i as int].0@ != before[j].0@);
                        }
                    }
                    assert(members(after) =~= members(before).insert(entry.0@, entry.1));
                }
            },
            None => {
                let ghost entry = (key, value);
                self.entries.push((key, value));
                proof {
                    let after = self.entries@;
                    assert(after == before.push(entry));
                    assert forall|i: int, j: int| 0 <= i < j < after.len() implies (
                    #[trigger] after[i]).0@ != (#[trigger] after[j]).0@ by {
                        if j == before.len() {
                            assert(!keyed(before, entry.0@, i));
                        }
                    }
                    assert forall|k: Seq<char>| has_key(after, k) == (has_key(before, k) || k
                        == entry.0@) by {
                        if has_key(before, k) {
                            let j = choose|j: int| keyed(before, k, j);
                            assert(keyed(after, k, j));
                        }
                        if k == entry.0@ {
                            assert(keyed(after, k, before.len() as int));
                        }
                        if has_key(after, k) && k != entry.0@ {
                            let j = choose|j: int| keyed(after, k, j);
                            assert(keyed(before, k, j));
                        }
                    }
                    assert forall|k: Seq<char>| #[trigger] has_key(after, k) implies members(after)[k]
                        == members(before).insert(entry.0@, entry.1)[k] by {
                        let j = choose|j: int| keyed(after, k, j);
                        lemma_members(after, j);
                        if j < before.len() {
                            lemma_members(before, j);
                            assert(!keyed(before, entry.0@, j));
                        }
                    }
                    assert(members(after) =~= members(before).insert(entry.0@, entry.1));
                }
            },
        }
    }

    /// Takes `key` and its value out.
    pub fn remove(&mut self, key: &str)
        requires
            old(self).wf(),
        ensures
            final(self).wf(),
            final(self)@ == old(self)@.remove(key@),
    {
        let ghost before = self.entries@;
        match self.position(key) {
            Some(i) => {
                self.entries.remove(i);
                proof {
                    let after = self.entries@;
                    assert(after == before.remove(i as int));
                    assert forall|k: Seq<char>| has_key(after, k) == (has_key(before, k) && k
                        != key@) by {
                        if has_key(after, k) {
                            let j = choose|j: int| keyed(after, k, j);
                            let was = if j < i {
                                j
                            } else {
                                j + 1
                            };
                            assert(after[j] == before[was]);
                            assert(keyed(before, k, was));
                            assert(before[was].0@ != before[i as int].0@);
                        }
                        if has_key(before, k) && k != key@ {
                            let j = choose|j: int| keyed(before, k, j);
                            let now = if j < i {
                                j
                            } else {
                                j - 1
                            };
                            assert(after[now] == before[j]);
                            assert(keyed(after, k, now));
                        }
                    }
                    assert forall|a: int, b: int| 0 <= a < b < after.len() implies (
                    #[trigger] after[a]).0@ != (#[trigger] after[b]).0@ by {
                        let x = if a < i {
                            a
                        } else {
                            a + 1
                        };
                        let y = if b < i {
                            b
                        } else {
                            b + 1
                        };
                        assert(after[a] == before[x] && after[b] == before[y]);
                    }
                    assert forall|k: Seq<char>| #[trigger] has_key(after, k) implies members(after)[k]
                        == members(before).remove(key@)[k] by {
                        let j = choose|j: int| keyed(after, k, j);
                        lemma_members(after, j);
                        let was = if j < i {
                            j
                        } else {
                            j + 1
                        };
                        assert(after[j] == before[was]);
                        lemma_members(before, was);
                    }
                    assert(members(after) =~= members(before).remove(key@));
                }
            },
            None => {
                proof {
                    assert(members(before) =~= members(before).remove(key@));
                }
            },
        }
    }

    /// The entries, for whoever reads them.
    pub fn entries(&self) -> (entries: &Vec<(String, Json)>)
        ensures
            entries@ == self.listed(),
    {
        &self.entries
    }

    /// The entries, for whoever stores them.
    pub fn into_entries(self) -> (entries: Vec<(String, Json)>)
        ensures
            entries@ == self.listed(),
    {
        self.entries
    }

    /// The document that a list of entries denotes; of two entries with one key, the later counts.
    pub fn from_entries(entries: Vec<(String, Json)>) -> (document: Document)
        ensures
            document.wf(),
            document@ == folded(entries@),
    {
        let mut document = Document::new();
        let ghost given = entries@;
        proof {
            assert(given.take(0) =~= Seq::<(String, Json)>::empty());
        }
        for entry in rest: entries
            invariant
                rest.seq() == given,
                document.wf(),
                document@ == folded(given.take(rest.index())),
        {
            proof {
                let done = rest.index();
                assert(given.take(done + 1).drop_last() =~= given.take(done));
                assert(given.take(done + 1).last() == given[done]);
            }
            document.insert(entry.0, entry.1);
        }
        proof {
            assert(given.take(given.len() as int) =~= given);
        }
        document
    }
}

/// The entries inserted one after another into an empty map.
pub open spec fn folded(entries: Seq<(String, Json)>) -> Map<Seq<char>, Json>
    decreases entries.len(),
{
    if entries.len() == 0 {
        Map::empty()
    } else {
        folded(entries.drop_last()).insert(entries.last().0@, entries.last().1)
    }
}

/// Where keys are distinct, the map gives each entry's key that entry's value.
pub proof fn lemma_members(entries: Seq<(String, Json)>, i: int)
    requires
        keys_distinct(entries),
        0 <= i < entries.len(),
    ensures
        members(entries).dom().contains(entries[i].0@),
        members(entries)[entries[i].0@] == entries[i].1,
{
    let key = entries[i].0@;
    assert(keyed(entries, key, i));
    let j = choose|j: int| keyed(entries, key, j);
    assert(keyed(entries, key, j));
    if i < j {
        assert(entries[i].0@ != entries[j].0@);
    } else if j < i {
        assert(entries[j].0@ != entries[i].0@);
    }
}

/// A document made of a list holds what the list holds, the last of two entries with one key.
pub proof fn the_last_entry_of_a_key_counts(entries: Seq<(String, Json)>, place: int)
    requires
        0 <= place < entries.len(),
        forall|i: int| place < i < entries.len() ==> (#[trigger] entries[i]).0@ != entries[place].0@,
    ensures
        folded(entries).dom().contains(entries[place].0@),
        folded(entries)[entries[place].0@] == entries[place].1,
    decreases entries.len(),
{
    broadcast use vstd::map::group_map_axioms;

    if place < entries.len() - 1 {
        let front = entries.drop_last();
        assert(entries[entries.len() - 1].0@ != entries[place].0@);
        assert forall|i: int| place < i < front.len() implies (#[trigger] front[i]).0@ != front[place].0@ by {
            assert(front[i] == entries[i]);
        }
        the_last_entry_of_a_key_counts(front, place);
        assert(front[place] == entries[place]);
    }
}

/// A value is read as it is: a truth as that truth, a number as that number, a text as that text, a list item by item and
/// an object member by member.
pub proof fn a_value_is_read_as_it_is(value: Json)
    ensures
        match value {
            Json::Null => value@ == JsonView::Null,
            Json::Bool(truth) => value@ == JsonView::Bool(truth),
            Json::Int(number) => value@ == JsonView::Int(number),
            Json::Number(text) => value@ == JsonView::Number(text@),
            Json::Text(text) => value@ == JsonView::Text(text@),
            Json::List(items) => value@ is List && value@->List_0.len() == items@.len() && forall|i: int|
                0 <= i < items@.len() ==> #[trigger] value@->List_0[i] == items@[i]@,
            Json::Object(members) => value@ is Object && value@->Object_0.len() == members@.len() && forall|i: int|
                0 <= i < members@.len() ==> (#[trigger] value@->Object_0[i]).0 == members@[i].0@
                    && value@->Object_0[i].1 == members@[i].1@,
        },
{
}

} // verus!
