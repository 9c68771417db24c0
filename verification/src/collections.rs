//! Collections: curated order, and the pin that membership puts on an asset.
//!
//! Positions are dense, `0..n` with no gap and no repeat, and every operation keeps them so. An asset is pinned
//! when any collection that holds it is `pin_hot`: leaving one pinned collection does not unpin an asset that
//! another still holds.

use crate::commands::{as_ids, as_maybe_str, as_text, Command, Given, Value};
use crate::text::{
    all_chars, int_chars, int_text, join, joined, opt_str_chars, quoted, quoted_chars, same,
    uuid_chars, uuid_text, wrapped,
};
use crate::{Error, ResourceKind, Uuid};
use vstd::prelude::*;

verus! {

/// An asset in a collection, in curated order.
#[derive(Debug, Clone, PartialEq, Eq)]
pub struct Item {
    pub asset_id: Uuid,
    pub position: i32,
    pub filename: String,
    pub mime: String,
}

/// Why an asset may not be tiered.
#[derive(Debug, Clone, PartialEq, Eq)]
pub struct Pin {
    pub asset_id: Uuid,
    /// Every `pin_hot` collection holding this asset, by key. All of them, not the first.
    pub collections: Vec<String>,
}

impl Pin {
    /// The reason a tiering plan gives for leaving the asset alone.
    pub fn reason(&self) -> (text: String)
        ensures
            text@ == "pin_hot collection(s): "@ + joined(all_chars(self.collections@), ", "@),
    {
        let mut text = "pin_hot collection(s): ".to_owned();
        text.append(join(&self.collections, ", ").as_str());
        text
    }
}

// ----------------------------------------------------------------------------------------------------
// Order
// ----------------------------------------------------------------------------------------------------

/// Which of the other rows move when one row does, and where.
#[derive(Debug, Clone, Copy, PartialEq, Eq, Structural)]
pub enum Shift {
    /// Positions from `from` up to but not including `before` become one greater.
    Later { from: i32, before: i32 },
    /// Positions after `after` up to and including `through` become one smaller.
    Earlier { after: i32, through: i32 },
}

impl Shift {
    /// Where the shift puts the row at `position`.
    pub open spec fn applied(self, position: int) -> int {
        match self {
            Shift::Later { from, before } => if from <= position < before {
                position + 1
            } else {
                position
            },
            Shift::Earlier { after, through } => if after < position <= through {
                position - 1
            } else {
                position
            },
        }
    }
}

/// One row moved to `target`, after `shift` has made room for it.
#[derive(Debug, Clone, Copy, PartialEq, Eq, Structural)]
pub struct Move {
    pub shift: Shift,
    pub target: i32,
}

impl Move {
    /// Where the move puts the row at `position`, when it is the row at `current` that is moved.
    pub open spec fn applied(self, current: int, position: int) -> int {
        if position == current {
            self.target as int
        } else {
            self.shift.applied(position)
        }
    }
}

/// The last position of a collection with `count` members.
pub open spec fn last_position(count: int) -> int {
    if count - 1 > i32::MAX {
        i32::MAX as int
    } else {
        count - 1
    }
}

/// Where a row asked for at `to_position` goes: clamped into the collection. A drop at "position 47 of 30" is a
/// rounding difference between two views of the list, and refusing it loses the user's action.
pub open spec fn destination(to_position: int, count: int) -> int {
    crate::clamped(to_position, 0, last_position(count))
}

/// How to move the asset that is at `current`, if it is in the collection, to `to_position`. `None` means it is
/// there already.
pub fn move_item(
    collection_id: Uuid,
    asset_id: Uuid,
    current: Option<i32>,
    count: i64,
    to_position: i32,
) -> (planned: Result<Option<Move>, Error>)
    requires
        current is Some ==> count >= 1,
    ensures
        match current {
            None => planned matches Err(Error::NotFound { kind, id }) && kind == ResourceKind::Asset
                && id@ == uuid_chars(asset_id) + " is not in collection "@ + uuid_chars(
                collection_id,
            ),
            Some(at) => {
                let target = destination(to_position as int, count as int);
                &&& planned is Ok
                &&& planned->Ok_0 is None <==> target == at
                &&& planned->Ok_0 matches Some(inner) ==> {
                    &&& inner.target == target
                    &&& inner.shift == if target < at {
                        Shift::Later { from: target as i32, before: at }
                    } else {
                        Shift::Earlier { after: at, through: target as i32 }
                    }
                }
            },
        },
{
    let current: i32 = match current {
        None => {
            let id = wrapped(
                uuid_text(asset_id).as_str(),
                " is not in collection ",
                uuid_text(collection_id).as_str(),
            );
            return Err(Error::NotFound { kind: ResourceKind::Asset, id });
        },
        Some(at) => at,
    };
    let last: i32 = if count - 1 > i32::MAX as i64 {
        i32::MAX
    } else {
        (count - 1) as i32
    };
    let target: i32 = if to_position < 0 {
        0
    } else if to_position > last {
        last
    } else {
        to_position
    };
    if target == current {
        Ok(None)
    } else if target < current {
        Ok(Some(Move { shift: Shift::Later { from: target, before: current }, target }))
    } else {
        Ok(Some(Move { shift: Shift::Earlier { after: current, through: target }, target }))
    }
}

/// The position an asset added behind `last` takes; `last` is the collection's greatest position, if it has one.
pub open spec fn next_position(last: Option<i32>) -> int {
    match last {
        Some(position) => position + 1,
        None => 0,
    }
}

/// Where to put an asset that is added to a collection: at the end of the curated order. `None` for an asset that is
/// there already, which keeps its position: a retried request must not reorder somebody's curation.
pub fn add(present: bool, last: Option<i32>) -> (position: Option<i32>)
    requires
        last matches Some(position) ==> position < i32::MAX,
    ensures
        match position {
            Some(place) => !present && place == next_position(last),
            None => present,
        },
{
    if present {
        return None;
    }
    match last {
        Some(position) => Some(position + 1),
        None => Some(0),
    }
}

/// The greatest of some positions, if there is one.
pub open spec fn is_last(positions: Seq<i32>, last: Option<i32>) -> bool {
    match last {
        Some(greatest) => positions.contains(greatest) && forall|i: int|
            0 <= i < positions.len() ==> #[trigger] positions[i] <= greatest,
        None => positions.len() == 0,
    }
}

/// Whether positions are dense: the row at each place of the curated order has that place as its position.
pub open spec fn dense(positions: Seq<i32>) -> bool {
    forall|i: int| 0 <= i < positions.len() ==> #[trigger] positions[i] == i
}

/// Adding keeps positions dense: an asset added to a dense collection takes the place behind its last.
pub proof fn adding_keeps_positions_dense(positions: Seq<i32>, last: Option<i32>)
    requires
        dense(positions),
        is_last(positions, last),
        positions.len() < i32::MAX,
    ensures
        next_position(last) == positions.len(),
        dense(positions.push(next_position(last) as i32)),
{
    if positions.len() > 0 {
        let greatest = last->0;
        let at = choose|i: int| 0 <= i < positions.len() && positions[i] == greatest;
        assert(positions[at] == at);
        assert(positions[positions.len() - 1] == positions.len() - 1);
    }
}

/// A move keeps positions dense: of `count` rows, the moved row lands where it was sent, every row lands inside
/// the collection, no two rows land in one place, and the rows that were not moved keep their order.
pub proof fn a_move_keeps_positions_dense(
    count: int,
    current: int,
    to_position: int,
    planned: Move,
    p: int,
    q: int,
)
    requires
        0 < count <= i32::MAX,
        0 <= current < count,
        planned.target == destination(to_position, count),
        planned.target != current,
        planned.shift == if planned.target < current {
            Shift::Later { from: planned.target, before: current as i32 }
        } else {
            Shift::Earlier { after: current as i32, through: planned.target }
        },
        0 <= p < count,
        0 <= q < count,
    ensures
        planned.applied(current, current) == destination(to_position, count),
        0 <= planned.applied(current, p) < count,
        p != q ==> planned.applied(current, p) != planned.applied(current, q),
        p < q && p != current && q != current ==> planned.applied(current, p) < planned.applied(
            current,
            q,
        ),
{
}

/// A move that is sent back is undone: moving the row from where it landed to where it was puts every row back.
pub proof fn a_move_is_undone_by_its_reverse(
    count: int,
    current: int,
    there: Move,
    back: Move,
    p: int,
)
    requires
        0 < count <= i32::MAX,
        0 <= current < count,
        0 <= there.target < count,
        there.target != current,
        there.shift == if there.target < current {
            Shift::Later { from: there.target, before: current as i32 }
        } else {
            Shift::Earlier { after: current as i32, through: there.target }
        },
        back.target == current,
        back.shift == if back.target < there.target {
            Shift::Later { from: back.target, before: there.target }
        } else {
            Shift::Earlier { after: there.target, through: back.target }
        },
        0 <= p < count,
    ensures
        back.applied(there.target as int, there.applied(current, p)) == p,
{
}

/// The rows whose position is not their rank, with the rank they should have.
pub open spec fn misplaced(rows: Seq<(Uuid, i32)>) -> Seq<(Uuid, i32)>
    decreases rows.len(),
{
    if rows.len() == 0 {
        Seq::empty()
    } else {
        let front = misplaced(rows.drop_last());
        let rank = rows.len() - 1;
        if rows.last().1 == rank {
            front
        } else {
            front.push((rows.last().0, rank as i32))
        }
    }
}

/// Which rows to rewrite so that positions are `0..n` in their current order. `rows` is the collection's rows by
/// position.
pub fn renumber(rows: &Vec<(Uuid, i32)>) -> (moves: Vec<(Uuid, i32)>)
    requires
        rows@.len() <= i32::MAX,
    ensures
        moves@ == misplaced(rows@),
{
    let mut moves: Vec<(Uuid, i32)> = Vec::new();
    let mut i: usize = 0;
    proof {
        assert(rows@.take(0) =~= Seq::<(Uuid, i32)>::empty());
    }
    while i < rows.len()
        invariant
            i <= rows@.len() <= i32::MAX,
            moves@ == misplaced(rows@.take(i as int)),
        decreases rows@.len() - i,
    {
        proof {
            assert(rows@.take(i + 1).drop_last() =~= rows@.take(i as int));
            assert(rows@.take(i + 1).last() == rows@[i as int]);
        }
        if rows[i].1 != i as i32 {
            moves.push((rows[i].0, i as i32));
        }
        i += 1;
    }
    proof {
        assert(rows@.take(i as int) =~= rows@);
    }
    moves
}

/// The position a row has once `moves` have been written: the move's, or the one it had.
pub open spec fn rewritten(moves: Seq<(Uuid, i32)>, row: (Uuid, i32)) -> i32
    decreases moves.len(),
{
    if moves.len() == 0 {
        row.1
    } else if moves.last().0 == row.0 {
        moves.last().1
    } else {
        rewritten(moves.drop_last(), row)
    }
}

proof fn lemma_misplaced_source(rows: Seq<(Uuid, i32)>, id: Uuid)
    requires
        forall|i: int| 0 <= i < rows.len() ==> (#[trigger] rows[i]).0 != id,
    ensures
        forall|k: int| 0 <= k < misplaced(rows).len() ==> (#[trigger] misplaced(rows)[k]).0 != id,
    decreases rows.len(),
{
    if rows.len() > 0 {
        assert forall|i: int| 0 <= i < rows.drop_last().len() implies (
        #[trigger] rows.drop_last()[i]).0 != id by {
            assert(rows[i].0 != id);
        }
        lemma_misplaced_source(rows.drop_last(), id);
        assert(rows.last().0 == rows[rows.len() - 1].0);
        let front = misplaced(rows.drop_last());
        assert forall|k: int| 0 <= k < misplaced(rows).len() implies (
        #[trigger] misplaced(rows)[k]).0 != id by {
            if k < front.len() {
                assert(front[k].0 != id);
            }
        }
    }
}

proof fn lemma_rewritten_absent(moves: Seq<(Uuid, i32)>, row: (Uuid, i32))
    requires
        forall|k: int| 0 <= k < moves.len() ==> (#[trigger] moves[k]).0 != row.0,
    ensures
        rewritten(moves, row) == row.1,
    decreases moves.len(),
{
    if moves.len() > 0 {
        assert(moves.last() == moves[moves.len() - 1]);
        assert forall|k: int| 0 <= k < moves.drop_last().len() implies (
        #[trigger] moves.drop_last()[k]).0 != row.0 by {
            assert(moves[k].0 != row.0);
        }
        lemma_rewritten_absent(moves.drop_last(), row);
    }
}

/// Renumbering makes positions dense: of rows for different assets, the row at each place ends with that place
/// as its position, whatever gap a removal left.
pub proof fn renumbering_makes_positions_dense(rows: Seq<(Uuid, i32)>, place: int)
    requires
        rows.len() <= i32::MAX,
        forall|i: int, j: int|
            0 <= i < j < rows.len() ==> (#[trigger] rows[i]).0 != (#[trigger] rows[j]).0,
        0 <= place < rows.len(),
    ensures
        rewritten(misplaced(rows), rows[place]) == place,
    decreases rows.len(),
{
    let front = rows.drop_last();
    let last = rows.last();
    assert forall|i: int| 0 <= i < front.len() implies (#[trigger] front[i]).0 != last.0 by {
        assert(rows[i].0 != rows[rows.len() - 1].0);
    }
    if place == rows.len() - 1 {
        lemma_misplaced_source(front, last.0);
        lemma_rewritten_absent(misplaced(front), last);
        if last.1 != place {
            assert(misplaced(rows).drop_last() =~= misplaced(front));
        }
    } else {
        assert forall|i: int, j: int| 0 <= i < j < front.len() implies (#[trigger] front[i]).0 != (
        #[trigger] front[j]).0 by {
            assert(rows[i].0 != rows[j].0);
        }
        renumbering_makes_positions_dense(front, place);
        assert(front[place] == rows[place]);
        if last.1 != rows.len() - 1 {
            assert(misplaced(rows).drop_last() =~= misplaced(front));
            assert(misplaced(rows).last().0 == last.0);
        }
    }
}

// ----------------------------------------------------------------------------------------------------
// Pins
// ----------------------------------------------------------------------------------------------------

/// The keys of the pinned collections that hold `asset`, in the order of `rows`, each an asset and a key.
pub open spec fn keys_of(rows: Seq<(Uuid, String)>, asset: Uuid) -> Seq<String>
    decreases rows.len(),
{
    if rows.len() == 0 {
        Seq::empty()
    } else {
        let front = keys_of(rows.drop_last(), asset);
        if rows.last().0 == asset {
            front.push(rows.last().1)
        } else {
            front
        }
    }
}

/// Whether `pins` holds one pin for each asset of `rows`, with all of its keys, and nothing else.
pub open spec fn pins_of(pins: Seq<Pin>, rows: Seq<(Uuid, String)>) -> bool {
    &&& forall|i: int, j: int|
        0 <= i < j < pins.len() ==> (#[trigger] pins[i]).asset_id != (#[trigger] pins[j]).asset_id
    &&& forall|i: int|
        0 <= i < pins.len() ==> {
            &&& (#[trigger] pins[i]).collections@ == keys_of(rows, pins[i].asset_id)
            &&& pins[i].collections@.len() > 0
        }
    &&& forall|asset: Uuid|
        #![trigger keys_of(rows, asset)]
        keys_of(rows, asset).len() > 0 ==> exists|i: int|
            0 <= i < pins.len() && (#[trigger] pins[i]).asset_id == asset
}

/// The assets that may not be tiered, and why. `rows` names each asset beside each pinned collection that holds
/// it.
pub fn pins(rows: Vec<(Uuid, String)>) -> (pins: Vec<Pin>)
    ensures
        pins_of(pins@, rows@),
{
    let ghost all = rows@;
    let mut pins: Vec<Pin> = Vec::new();
    proof {
        assert(all.take(0) =~= Seq::<(Uuid, String)>::empty());
    }
    for row in each: rows
        invariant
            each.seq() == all,
            pins_of(pins@, all.take(each.index())),
    {
        let ghost done = all.take(each.index());
        let ghost next = all.take(each.index() + 1);
        let ghost was = pins@;
        proof {
            assert(next.drop_last() =~= done);
            assert(next.last() == row);
        }
        let (asset_id, key) = row;
        let mut at: usize = 0;
        while at < pins.len() && pins[at].asset_id != asset_id
            invariant
                at <= pins@.len(),
                pins@ == was,
                forall|i: int| 0 <= i < at ==> (#[trigger] pins@[i]).asset_id != asset_id,
            decreases pins@.len() - at,
        {
            at += 1;
        }
        if at < pins.len() {
            let mut pin = pins.remove(at);
            pin.collections.push(key);
            let ghost grown = pin;
            pins.insert(at, pin);
            proof {
                assert(pins@ =~= was.update(at as int, grown));
                assert forall|asset: Uuid| #![trigger keys_of(next, asset)]
                    keys_of(next, asset).len() > 0 implies exists|i: int|
                    0 <= i < pins@.len() && (#[trigger] pins@[i]).asset_id == asset by {
                    if asset == asset_id {
                        assert(pins@[at as int].asset_id == asset);
                    } else {
                        assert(keys_of(done, asset).len() > 0);
                        let i = choose|i: int|
                            0 <= i < was.len() && (#[trigger] was[i]).asset_id == asset;
                        assert(pins@[i].asset_id == asset);
                    }
                }
            }
        } else {
            let mut collections: Vec<String> = Vec::new();
            collections.push(key);
            pins.push(Pin { asset_id, collections });
            proof {
                assert(keys_of(done, asset_id).len() == 0) by {
                    if keys_of(done, asset_id).len() > 0 {
                        let i = choose|i: int|
                            0 <= i < was.len() && (#[trigger] was[i]).asset_id == asset_id;
                        assert(was[i].asset_id != asset_id);
                    }
                }
                assert(keys_of(done, asset_id) =~= Seq::<String>::empty());
                assert(pins@[was.len() as int].collections@ =~= keys_of(next, asset_id));
                assert forall|asset: Uuid| #![trigger keys_of(next, asset)]
                    keys_of(next, asset).len() > 0 implies exists|i: int|
                    0 <= i < pins@.len() && (#[trigger] pins@[i]).asset_id == asset by {
                    if asset == asset_id {
                        assert(pins@[was.len() as int].asset_id == asset);
                    } else {
                        assert(keys_of(done, asset).len() > 0);
                        let i = choose|i: int|
                            0 <= i < was.len() && (#[trigger] was[i]).asset_id == asset;
                        assert(pins@[i].asset_id == asset);
                    }
                }
            }
        }
    }
    proof {
        assert(all.take(all.len() as int) =~= all);
    }
    pins
}

/// A pin is a union: an asset is pinned exactly when some row names it.
pub proof fn an_asset_is_pinned_by_any_collection(rows: Seq<(Uuid, String)>, asset: Uuid)
    ensures
        keys_of(rows, asset).len() > 0 <==> exists|i: int|
            0 <= i < rows.len() && (#[trigger] rows[i]).0 == asset,
    decreases rows.len(),
{
    if rows.len() > 0 {
        let front = rows.drop_last();
        an_asset_is_pinned_by_any_collection(front, asset);
        if exists|i: int| 0 <= i < front.len() && (#[trigger] front[i]).0 == asset {
            let i = choose|i: int| 0 <= i < front.len() && (#[trigger] front[i]).0 == asset;
            assert(rows[i].0 == asset);
        }
        if rows.last().0 == asset {
            assert(rows[rows.len() - 1].0 == asset);
        }
        if exists|i: int| 0 <= i < rows.len() && (#[trigger] rows[i]).0 == asset {
            let i = choose|i: int| 0 <= i < rows.len() && (#[trigger] rows[i]).0 == asset;
            if i < front.len() {
                assert(front[i].0 == asset);
            }
        }
    }
}

/// Leaving one pinned collection does not unpin an asset that another still holds.
pub proof fn leaving_one_collection_does_not_unpin(
    rows: Seq<(Uuid, String)>,
    left: int,
    other: int,
)
    requires
        0 <= left < rows.len(),
        0 <= other < rows.len(),
        left != other,
        rows[left].0 == rows[other].0,
    ensures
        keys_of(rows.remove(left), rows[other].0).len() > 0,
{
    let rest = rows.remove(left);
    let place = if other < left {
        other
    } else {
        other - 1
    };
    assert(rest[place] == rows[other]);
    an_asset_is_pinned_by_any_collection(rest, rows[other].0);
}

// ----------------------------------------------------------------------------------------------------
// The collections themselves
// ----------------------------------------------------------------------------------------------------

/// One collection, as an administrator sees it.
#[derive(Debug, Clone, PartialEq, Eq)]
pub struct Collection {
    pub id: Uuid,
    /// The stable name a portal references. Immutable after creation.
    pub key: String,
    pub label: String,
    pub description: Option<String>,
    pub visibility: String,
    /// Whether membership blocks tiering.
    pub pin_hot: bool,
    pub item_count: i64,
}

/// What a new collection needs.
#[derive(Debug, Clone, Copy)]
pub struct NewCollection<'a> {
    pub key: &'a str,
    pub label: &'a str,
    pub description: Option<&'a str>,
    pub visibility: &'a str,
    pub pin_hot: bool,
    pub owner_id: Option<Uuid>,
}

/// The words a collection's visibility may be.
pub open spec fn visibility_known(visibility: Seq<char>) -> bool {
    visibility == "private"@ || visibility == "shared"@ || visibility == "public"@
}

/// Whether this is what a word that is no visibility is told.
pub open spec fn unknown_visibility(error: Error, visibility: Seq<char>) -> bool {
    error matches Error::Unsupported(detail) && detail@ == quoted_chars(visibility)
        + " is not a collection visibility; use private, shared or public"@
}

/// Refuses a word that is not a visibility.
pub fn check_visibility(visibility: &str) -> (checked: Result<(), Error>)
    ensures
        checked is Ok <==> visibility_known(visibility@),
        checked matches Err(error) ==> unknown_visibility(error, visibility@),
        checked is Ok <==> visibility@ == "private"@ || visibility@ == "shared"@ || visibility@ == "public"@,
{
    if same(visibility, "private") || same(visibility, "shared") || same(visibility, "public") {
        Ok(())
    } else {
        let mut detail = quoted(visibility);
        detail.append(" is not a collection visibility; use private, shared or public");
        Err(Error::Unsupported(detail))
    }
}

/// What became of creating a collection: its identifier, or a refusal when nothing was inserted because the key
/// is taken. The person typing can fix a taken key.
pub fn created(inserted: Option<Uuid>, key: &str) -> (outcome: Result<Uuid, Error>)
    ensures
        match inserted {
            Some(id) => outcome == Ok::<Uuid, Error>(id),
            None => outcome matches Err(Error::Unsupported(detail)) && detail@
                == "a collection with the key "@ + quoted_chars(key@) + " already exists"@,
        },
{
    match inserted {
        Some(id) => Ok(id),
        None => Err(
            Error::Unsupported(
                wrapped("a collection with the key ", quoted(key).as_str(), " already exists"),
            ),
        ),
    }
}

/// Whether this is what a deletion is told while `portals` portals show the collection.
pub open spec fn still_shown(error: Error, portals: i64) -> bool {
    error matches Error::Unsupported(detail) && detail@ == int_chars(portals as int)
        + " portal(s) publish this collection; delete or repoint them first"@
}

/// Refuses to delete a collection that portals publish: a portal whose collection vanished serves nothing.
pub fn check_deletable(portals: i64) -> (checked: Result<(), Error>)
    ensures
        checked is Ok <==> portals <= 0,
        checked matches Err(error) ==> still_shown(error, portals),
{
    if portals > 0 {
        let mut detail = int_text(portals as i128);
        detail.append(" portal(s) publish this collection; delete or repoint them first");
        Err(Error::Unsupported(detail))
    } else {
        Ok(())
    }
}

/// The collection with the key `key`.
pub fn by_key(all: Vec<Collection>, key: &str) -> (found: Option<Collection>)
    ensures
        match found {
            Some(collection) => exists|i: int|
                {
                    &&& 0 <= i < all@.len()
                    &&& #[trigger] all@[i] == collection
                    &&& collection.key@ == key@
                    &&& forall|j: int| 0 <= j < i ==> (#[trigger] all@[j]).key@ != key@
                },
            None => forall|j: int| 0 <= j < all@.len() ==> (#[trigger] all@[j]).key@ != key@,
        },
{
    let ghost given = all@;
    for collection in each: all
        invariant
            each.seq() == given,
            forall|j: int| 0 <= j < each.index() ==> (#[trigger] given[j]).key@ != key@,
    {
        if same(collection.key.as_str(), key) {
            proof {
                assert(given[each.index()] == collection);
            }
            return Some(collection);
        }
    }
    None
}

/// An item goes where it is sent, as far as there are places: to the first where the place asked for lies before it, to
/// the last where it lies behind it.
pub proof fn an_item_goes_where_it_is_sent(to_position: int, count: int)
    requires
        0 < count <= i32::MAX,
    ensures
        0 <= destination(to_position, count) < count,
        0 <= to_position < count ==> destination(to_position, count) == to_position,
        to_position < 0 ==> destination(to_position, count) == 0,
        to_position >= count ==> destination(to_position, count) == count - 1,
{
}

/// Renumbering touches only what is out of place: each row it moves stood elsewhere than at its place, and is put there.
pub proof fn renumbering_moves_only_what_is_misplaced(rows: Seq<(Uuid, i32)>, moved: int)
    requires
        rows.len() <= i32::MAX,
        0 <= moved < misplaced(rows).len(),
    ensures
        exists|place: int|
            0 <= place < rows.len() && (#[trigger] rows[place]).0 == misplaced(rows)[moved].0 && rows[place].1 != place
                && misplaced(rows)[moved].1 == place,
    decreases rows.len(),
{
    let front = misplaced(rows.drop_last());
    if moved < front.len() {
        renumbering_moves_only_what_is_misplaced(rows.drop_last(), moved);
        let place = choose|place: int|
            0 <= place < rows.drop_last().len() && (#[trigger] rows.drop_last()[place]).0 == front[moved].0
                && rows.drop_last()[place].1 != place && front[moved].1 == place;
        assert(rows[place] == rows.drop_last()[place]);
    } else {
        assert(rows[rows.len() - 1] == rows.last());
    }
}

/// What pins an asset is every collection that its rows name, in their order, and no other's.
pub proof fn an_asset_is_pinned_by_its_own_collections(rows: Seq<(Uuid, String)>, asset: Uuid)
    ensures
        keys_of(rows, asset) == rows.filter(|row: (Uuid, String)| row.0 == asset).map_values(
            |row: (Uuid, String)| row.1,
        ),
    decreases rows.len(),
{
    reveal(Seq::filter);
    let own = |row: (Uuid, String)| row.0 == asset;
    let key = |row: (Uuid, String)| row.1;
    if rows.len() > 0 {
        an_asset_is_pinned_by_its_own_collections(rows.drop_last(), asset);
    }
    assert(keys_of(rows, asset) =~= rows.filter(own).map_values(key));
}

/// A move is carried out in three steps: the item steps aside, the items between its place and the new one close up by one
/// place, and the item takes the new place. No other collection's item is touched.
pub proof fn a_move_is_carried_out_in_three_steps(
    commands: Seq<Command>,
    collection_id: Uuid,
    asset_id: Uuid,
    planned: Move,
)
    requires
        carries_out(commands, collection_id, asset_id, planned),
    ensures
        commands.len() == 3,
        commands[0].says(
            "UPDATE collection_items SET position = $3 WHERE collection_id = $1 AND asset_id = $2"@,
            seq![Given::Id(collection_id), Given::Id(asset_id), Given::Whole(-1i32)],
        ),
        planned.shift matches Shift::Later { from, before } ==> commands[1].says(
            "UPDATE collection_items SET position = position + 1 WHERE collection_id = $1 AND position >= $2 AND \
             position < $3"@,
            seq![Given::Id(collection_id), Given::Whole(from), Given::Whole(before)],
        ),
        planned.shift matches Shift::Earlier { after, through } ==> commands[1].says(
            "UPDATE collection_items SET position = position - 1 WHERE collection_id = $1 AND position > $2 AND \
             position <= $3"@,
            seq![Given::Id(collection_id), Given::Whole(after), Given::Whole(through)],
        ),
        commands[2].says(
            "UPDATE collection_items SET position = $3 WHERE collection_id = $1 AND asset_id = $2"@,
            seq![Given::Id(collection_id), Given::Id(asset_id), Given::Whole(planned.target)],
        ),
{
}

// ----------------------------------------------------------------------------------------------------
// Commands
// ----------------------------------------------------------------------------------------------------

pub const HOLD: &'static str = "SELECT id FROM collections WHERE id = $1 FOR UPDATE";

/// A collection, held until the transaction ends: two additions take two slots.
pub fn hold(collection_id: Uuid) -> (command: Command)
    ensures
        command.says("SELECT id FROM collections WHERE id = $1 FOR UPDATE"@, seq![Given::Id(collection_id)]),
{
    Command::new(HOLD, vec![Value::Id(collection_id)])
}

pub const MEMBERSHIP: &'static str =
    "SELECT coalesce(bool_or(asset_id = $2), false), max(position) FROM collection_items WHERE \
     collection_id = $1";

/// Whether an asset is in a collection, and the collection's last position.
pub fn membership(collection_id: Uuid, asset_id: Uuid) -> (command: Command)
    ensures
        command.says(
            "SELECT coalesce(bool_or(asset_id = $2), false), max(position) FROM collection_items WHERE \
             collection_id = $1"@,
            seq![Given::Id(collection_id), Given::Id(asset_id)],
        ),
{
    Command::new(MEMBERSHIP, vec![Value::Id(collection_id), Value::Id(asset_id)])
}

pub const POSITION_OF: &'static str =
    "SELECT position FROM collection_items WHERE collection_id = $1 AND asset_id = $2";

/// Where an asset stands in a collection.
pub fn position_of(collection_id: Uuid, asset_id: Uuid) -> (command: Command)
    ensures
        command.says(
            "SELECT position FROM collection_items WHERE collection_id = $1 AND asset_id = $2"@,
            seq![Given::Id(collection_id), Given::Id(asset_id)],
        ),
{
    Command::new(POSITION_OF, vec![Value::Id(collection_id), Value::Id(asset_id)])
}

pub const SIZE_OF: &'static str = "SELECT count(*) FROM collection_items WHERE collection_id = $1";

/// How many assets a collection holds.
pub fn size_of(collection_id: Uuid) -> (command: Command)
    ensures
        command.says("SELECT count(*) FROM collection_items WHERE collection_id = $1"@, seq![Given::Id(collection_id)]),
{
    Command::new(SIZE_OF, vec![Value::Id(collection_id)])
}

pub const HELD_POSITIONS: &'static str =
    "SELECT asset_id, position FROM collection_items WHERE collection_id = $1 ORDER BY position, asset_id \
     FOR UPDATE";

/// A collection's positions, held until the transaction ends.
pub fn held_positions(collection_id: Uuid) -> (command: Command)
    ensures
        command.says(
            "SELECT asset_id, position FROM collection_items WHERE collection_id = $1 ORDER BY position, asset_id \
             FOR UPDATE"@,
            seq![Given::Id(collection_id)],
        ),
{
    Command::new(HELD_POSITIONS, vec![Value::Id(collection_id)])
}

pub const PORTALS_SHOWING: &'static str =
    "SELECT count(*) FROM portals WHERE collection_id = $1 AND retired_at IS NULL";

/// How many portals show a collection.
pub fn portals_showing(id: Uuid) -> (command: Command)
    ensures
        command.says(
            "SELECT count(*) FROM portals WHERE collection_id = $1 AND retired_at IS NULL"@,
            seq![Given::Id(id)],
        ),
{
    Command::new(PORTALS_SHOWING, vec![Value::Id(id)])
}

pub const INSERT_ITEM: &'static str =
    "INSERT INTO collection_items (collection_id, asset_id, position, added_by) VALUES ($1, $2, $3, $4) ON \
     CONFLICT (collection_id, asset_id) DO NOTHING";

/// An asset at a position of a collection, where it is not there yet.
pub fn insert_item(
    collection_id: Uuid,
    asset_id: Uuid,
    position: i32,
    added_by: Option<Uuid>,
) -> (command: Command)
    ensures
        command.says(
            "INSERT INTO collection_items (collection_id, asset_id, position, added_by) VALUES ($1, $2, $3, $4) ON \
             CONFLICT (collection_id, asset_id) DO NOTHING"@,
            seq![
                Given::Id(collection_id), Given::Id(asset_id), Given::Whole(position),
                Given::MaybeId(added_by),
            ],
        ),
{
    Command::new(
        INSERT_ITEM,
        vec![
            Value::Id(collection_id), Value::Id(asset_id), Value::Whole(position),
            Value::MaybeId(added_by),
        ],
    )
}

pub const REMOVE: &'static str = "DELETE FROM collection_items WHERE collection_id = $1 AND asset_id = $2";

/// An asset, out of a collection.
pub fn remove(collection_id: Uuid, asset_id: Uuid) -> (command: Command)
    ensures
        command.says(
            "DELETE FROM collection_items WHERE collection_id = $1 AND asset_id = $2"@,
            seq![Given::Id(collection_id), Given::Id(asset_id)],
        ),
{
    Command::new(REMOVE, vec![Value::Id(collection_id), Value::Id(asset_id)])
}

pub const WRITE_POSITION: &'static str =
    "UPDATE collection_items SET position = $3 WHERE collection_id = $1 AND asset_id = $2";

/// An asset's position in a collection.
pub fn write_position(collection_id: Uuid, asset_id: Uuid, position: i32) -> (command: Command)
    ensures
        command.says(
            "UPDATE collection_items SET position = $3 WHERE collection_id = $1 AND asset_id = $2"@,
            seq![
                Given::Id(collection_id), Given::Id(asset_id), Given::Whole(position),
            ],
        ),
{
    Command::new(
        WRITE_POSITION,
        vec![
            Value::Id(collection_id), Value::Id(asset_id), Value::Whole(position),
        ],
    )
}

pub const SHIFT_LATER: &'static str =
    "UPDATE collection_items SET position = position + 1 WHERE collection_id = $1 AND position >= $2 AND \
     position < $3";

pub const SHIFT_EARLIER: &'static str =
    "UPDATE collection_items SET position = position - 1 WHERE collection_id = $1 AND position > $2 AND \
     position <= $3";

/// The others' step aside in a move.
pub fn write_shift(collection_id: Uuid, shift: Shift) -> (command: Command)
    ensures
        match shift {
            Shift::Later { from, before } => command.says(
                "UPDATE collection_items SET position = position + 1 WHERE collection_id = $1 AND position >= $2 AND \
                 position < $3"@,
                seq![Given::Id(collection_id), Given::Whole(from), Given::Whole(before)],
            ),
            Shift::Earlier { after, through } => command.says(
                "UPDATE collection_items SET position = position - 1 WHERE collection_id = $1 AND position > $2 AND \
                 position <= $3"@,
                seq![Given::Id(collection_id), Given::Whole(after), Given::Whole(through)],
            ),
        },
{
    match shift {
        Shift::Later { from, before } => Command::new(
            SHIFT_LATER,
            vec![Value::Id(collection_id), Value::Whole(from), Value::Whole(before)],
        ),
        Shift::Earlier { after, through } => Command::new(
            SHIFT_EARLIER,
            vec![Value::Id(collection_id), Value::Whole(after), Value::Whole(through)],
        ),
    }
}

/// Whether these commands carry out a move: the asset is parked outside the positions, the others step aside, and it
/// takes its place. Parked first, so that no step meets a position that is taken.
pub open spec fn carries_out(
    commands: Seq<Command>,
    collection_id: Uuid,
    asset_id: Uuid,
    planned: Move,
) -> bool {
    &&& commands.len() == 3
    &&& commands[0].says(
        WRITE_POSITION@,
        seq![Given::Id(collection_id), Given::Id(asset_id), Given::Whole(-1i32)],
    )
    &&& match planned.shift {
        Shift::Later { from, before } => commands[1].says(
            "UPDATE collection_items SET position = position + 1 WHERE collection_id = $1 AND position >= $2 AND \
             position < $3"@,
            seq![Given::Id(collection_id), Given::Whole(from), Given::Whole(before)],
        ),
        Shift::Earlier { after, through } => commands[1].says(
            "UPDATE collection_items SET position = position - 1 WHERE collection_id = $1 AND position > $2 AND \
             position <= $3"@,
            seq![Given::Id(collection_id), Given::Whole(after), Given::Whole(through)],
        ),
    }
    &&& commands[2].says(
        WRITE_POSITION@,
        seq![Given::Id(collection_id), Given::Id(asset_id), Given::Whole(planned.target)],
    )
}

/// What a move writes, in order.
pub fn moving(collection_id: Uuid, asset_id: Uuid, planned: Move) -> (commands: Vec<Command>)
    ensures
        carries_out(commands@, collection_id, asset_id, planned),
{
    vec![
        write_position(collection_id, asset_id, -1),
        write_shift(collection_id, planned.shift),
        write_position(collection_id, asset_id, planned.target),
    ]
}

pub const WRITE_POSITIONS: &'static str =
    "UPDATE collection_items ci SET position = moved.position FROM unnest($2::uuid[], $3::int[]) AS moved \
     (asset_id, position) WHERE ci.collection_id = $1 AND ci.asset_id = moved.asset_id";

/// Several assets' positions in a collection, in one statement.
pub fn write_positions(
    collection_id: Uuid,
    assets: &Vec<Uuid>,
    positions: Vec<i32>,
) -> (command: Command)
    ensures
        command.says(
            "UPDATE collection_items ci SET position = moved.position FROM unnest($2::uuid[], $3::int[]) AS moved \
             (asset_id, position) WHERE ci.collection_id = $1 AND ci.asset_id = moved.asset_id"@,
            seq![
                Given::Id(collection_id), Given::Ids(assets@), Given::Wholes(positions@),
            ],
        ),
{
    Command::new(
        WRITE_POSITIONS,
        vec![
            Value::Id(collection_id), as_ids(assets), Value::Wholes(positions),
        ],
    )
}

pub const ITEMS: &'static str =
    "SELECT i.asset_id, i.position, a.filename, a.mime FROM collection_items i JOIN assets a ON a.id = \
     i.asset_id WHERE i.collection_id = $1 AND a.status <> 'deleted' ORDER BY i.position, i.asset_id";

/// A collection's assets in curated order.
pub fn items(collection_id: Uuid) -> (command: Command)
    ensures
        command.says(
            "SELECT i.asset_id, i.position, a.filename, a.mime FROM collection_items i JOIN assets a ON a.id = \
             i.asset_id WHERE i.collection_id = $1 AND a.status <> 'deleted' ORDER BY i.position, i.asset_id"@,
            seq![Given::Id(collection_id)],
        ),
{
    Command::new(ITEMS, vec![Value::Id(collection_id)])
}

pub const PINNED: &'static str =
    "SELECT ci.asset_id, c.key FROM collection_items ci JOIN collections c ON c.id = ci.collection_id JOIN \
     assets a ON a.id = ci.asset_id WHERE ci.asset_id = ANY($1) AND c.pin_hot AND a.deleted_at IS NULL \
     ORDER BY ci.asset_id, c.key";

/// The collections that keep these assets from being tiered.
pub fn pinned(asset_ids: &Vec<Uuid>) -> (command: Command)
    ensures
        command.says(
            "SELECT ci.asset_id, c.key FROM collection_items ci JOIN collections c ON c.id = ci.collection_id JOIN \
             assets a ON a.id = ci.asset_id WHERE ci.asset_id = ANY($1) AND c.pin_hot AND a.deleted_at IS NULL \
             ORDER BY ci.asset_id, c.key"@,
            seq![Given::Ids(asset_ids@)],
        ),
{
    Command::new(PINNED, vec![as_ids(asset_ids)])
}

pub const ALL: &'static str =
    "SELECT c.id, c.key, c.label, c.description, c.visibility, c.pin_hot, coalesce(n.count, 0) FROM \
     collections c LEFT JOIN LATERAL ( SELECT count(*) AS count FROM collection_items ci WHERE \
     ci.collection_id = c.id ) n ON true ORDER BY c.label";

/// Every collection, with its size. A collection with no members still appears.
pub fn all() -> (command: Command)
    ensures
        command.says(
            "SELECT c.id, c.key, c.label, c.description, c.visibility, c.pin_hot, coalesce(n.count, 0) FROM \
             collections c LEFT JOIN LATERAL ( SELECT count(*) AS count FROM collection_items ci WHERE \
             ci.collection_id = c.id ) n ON true ORDER BY c.label"@,
            Seq::empty(),
        ),
{
    Command::new(ALL, Vec::new())
}

pub const CREATE: &'static str =
    "INSERT INTO collections (id, key, label, description, visibility, pin_hot, owner_id) VALUES ($1, $2, $3, \
     $4, $5, $6, $7) ON CONFLICT (key) DO NOTHING RETURNING id";

/// A new collection, unless its key is taken.
pub fn create(id: Uuid, new: &NewCollection) -> (created: Result<Command, Error>)
    ensures
        created is Ok <==> visibility_known(new.visibility@),
        created matches Ok(command) ==> command.says(
            "INSERT INTO collections (id, key, label, description, visibility, pin_hot, owner_id) VALUES ($1, $2, $3, \
             $4, $5, $6, $7) ON CONFLICT (key) DO NOTHING RETURNING id"@,
            seq![
                Given::Id(id), Given::Text(new.key@), Given::Text(new.label@),
                Given::MaybeText(opt_str_chars(new.description)), Given::Text(new.visibility@),
                Given::Flag(new.pin_hot), Given::MaybeId(new.owner_id),
            ],
        ),
        created matches Err(error) ==> unknown_visibility(error, new.visibility@),
{
    match check_visibility(new.visibility) {
        Err(error) => Err(error),
        Ok(()) => Ok(
            Command::new(
                CREATE,
                vec![
                    Value::Id(id), as_text(new.key), as_text(new.label), as_maybe_str(new.description),
                    as_text(new.visibility), Value::Flag(new.pin_hot), Value::MaybeId(new.owner_id),
                ],
            ),
        ),
    }
}

pub const RENAME: &'static str =
    "UPDATE collections SET label = $2, description = $3, visibility = $4, pin_hot = $5, updated_at = now() \
     WHERE id = $1";

/// A collection's label, description, visibility and pinning. Not its key: portals reference it.
pub fn rename(
    id: Uuid,
    label: &str,
    description: Option<&str>,
    visibility: &str,
    pin_hot: bool,
) -> (renamed: Result<Command, Error>)
    ensures
        renamed is Ok <==> visibility_known(visibility@),
        renamed matches Ok(command) ==> command.says(
            "UPDATE collections SET label = $2, description = $3, visibility = $4, pin_hot = $5, updated_at = now() \
             WHERE id = $1"@,
            seq![
                Given::Id(id), Given::Text(label@), Given::MaybeText(opt_str_chars(description)),
                Given::Text(visibility@), Given::Flag(pin_hot),
            ],
        ),
        renamed matches Err(error) ==> unknown_visibility(error, visibility@),
{
    match check_visibility(visibility) {
        Err(error) => Err(error),
        Ok(()) => Ok(
            Command::new(
                RENAME,
                vec![
                    Value::Id(id), as_text(label), as_maybe_str(description), as_text(visibility),
                    Value::Flag(pin_hot),
                ],
            ),
        ),
    }
}

pub const DELETE: &'static str = "DELETE FROM collections WHERE id = $1";

/// A collection, gone, where no portal still shows it: `portals` is how many do. Membership goes with it by cascade;
/// the assets do not.
pub fn delete(id: Uuid, portals: i64) -> (deleted: Result<Command, Error>)
    ensures
        deleted is Ok <==> portals <= 0,
        deleted matches Ok(command) ==> command.says("DELETE FROM collections WHERE id = $1"@, seq![Given::Id(id)]),
        deleted matches Err(error) ==> still_shown(error, portals),
{
    match check_deletable(portals) {
        Err(error) => Err(error),
        Ok(()) => Ok(Command::new(DELETE, vec![Value::Id(id)])),
    }
}

} // verus!
