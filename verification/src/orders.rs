//! Orders: a request for assets, and somebody else's authorisation.
//!
//! An order grants nothing by itself: what hands over bytes is a share link created at fulfilment. Nobody can
//! order what they cannot see, nor approve what they cannot see. Expiry is not a state: it is a timestamp
//! passing, derived when somebody asks.

use crate::commands::{as_ids, as_maybe_str, as_maybe_text, as_text, as_texts, Command, Given, Value};
use crate::lists::{lemma_filter_ends, lemma_filter_keeps, lemma_filter_step};
use crate::sql::{push, push_bind_id, push_bind_int, query, Bind, Query, Statement};
use crate::text::{
    int_chars, int_text, opt_chars, opt_str_chars, same, trim, trimmed, uuid_chars, uuid_text,
};
use crate::{among, clamp, clamped, Instant, Uuid};
use vstd::prelude::*;

verus! {

/// Why an order operation was refused.
#[derive(Debug, Clone, PartialEq, Eq)]
pub enum OrderRefusal {
    /// No such order, or not one this caller may see.
    Unknown(Uuid),
    /// The order is not in a state where this makes sense. Carries its reference and its state.
    WrongState(String, String, &'static str),
    /// An order with nothing in it.
    Empty,
    /// Every asset asked for is outside the requester's scope.
    NothingVisible,
    /// The approver cannot see some of what they are being asked to approve.
    Unjudgeable(usize),
    /// Somebody other than the requester tried to withdraw it.
    NotYours,
}

impl OrderRefusal {
    /// The text of this refusal.
    pub open spec fn message_chars(self) -> Seq<char> {
        match self {
            OrderRefusal::Unknown(given) => "no order "@ + uuid_chars(given),
            OrderRefusal::WrongState(f0, f1, f2) => "order "@ + f0@ + " is "@ + f1@ + ", so it cannot be "@ + f2@,
            OrderRefusal::Empty => "an order needs at least one asset"@,
            OrderRefusal::NothingVisible => "none of those assets exist for this caller"@,
            OrderRefusal::Unjudgeable(given) => int_chars(given as int) + " of the assets in this order are outside your scope, so you cannot judge it"@,
            OrderRefusal::NotYours => "only the person who asked for an order may cancel it"@,
        }
    }

    /// The sentence whoever was refused reads.
    pub fn message(&self) -> (out: String)
        ensures
            out@ == self.message_chars(),
    {
        match self {
            OrderRefusal::Unknown(given) => {
                let mut out = "no order ".to_owned();
                out.append(uuid_text(*given).as_str());
                out
            },
            OrderRefusal::WrongState(f0, f1, f2) => {
                let mut out = "order ".to_owned();
                out.append(f0.as_str());
                out.append(" is ");
                out.append(f1.as_str());
                out.append(", so it cannot be ");
                out.append(*f2);
                out
            },
            OrderRefusal::Empty => "an order needs at least one asset".to_owned(),
            OrderRefusal::NothingVisible => "none of those assets exist for this caller".to_owned(),
            OrderRefusal::Unjudgeable(given) => {
                let mut out = int_text(*given as i128).as_str().to_owned();
                out.append(" of the assets in this order are outside your scope, so you cannot judge it");
                out
            },
            OrderRefusal::NotYours => "only the person who asked for an order may cancel it".to_owned(),
        }
    }
}

/// One asset in an order.
#[derive(Debug, Clone, PartialEq, Eq)]
pub struct Item {
    pub asset_id: Uuid,
    /// The name as asked for, so that an order reads sensibly after a rename or a deletion.
    pub filename: String,
}

/// One order.
#[derive(Debug, Clone, PartialEq, Eq)]
pub struct Order {
    pub id: Uuid,
    /// Human-quotable, per tenant: `ORD-000123`.
    pub reference: String,
    pub requested_by: Uuid,
    pub purpose: String,
    pub channel: Option<String>,
    pub territory: Option<String>,
    pub conversion_key: Option<String>,
    pub include_metadata: bool,
    pub recipients: Vec<String>,
    pub state: String,
    pub decided_by: Option<Uuid>,
    pub decided_at: Option<Instant>,
    pub decision_note: Option<String>,
    pub expires_at: Option<Instant>,
    pub share_link_id: Option<Uuid>,
    pub created_at: Instant,
    /// The assets asked for, in the order they were asked for where the order has just been placed. An order that is
    /// read back has them by name: what was asked first is not stored.
    pub items: Vec<Item>,
}

impl Order {
    /// Whether the pickup window has closed.
    pub fn is_expired(&self, now: Instant) -> (yes: bool)
        ensures
            yes == (self.expires_at matches Some(at) && at <= now),
    {
        match self.expires_at {
            Some(at) => at <= now,
            None => false,
        }
    }

    /// Whether the requester decided their own order. Reported rather than prevented.
    pub fn self_approved(&self) -> (yes: bool)
        ensures
            yes == (self.decided_by == Some(self.requested_by)),
    {
        match self.decided_by {
            Some(by) => by == self.requested_by,
            None => false,
        }
    }
}

/// An order to place.
#[derive(Debug, Clone, PartialEq, Eq)]
pub struct NewOrder {
    pub requested_by: Uuid,
    pub purpose: String,
    pub channel: Option<String>,
    pub territory: Option<String>,
    pub conversion_key: Option<String>,
    pub include_metadata: bool,
    pub recipients: Vec<String>,
    pub asset_ids: Vec<Uuid>,
}

/// The assets of an order that its requester may see, each once, in the order they were asked for.
pub open spec fn visible_items(asked: Seq<Uuid>, visible: Seq<Uuid>) -> Seq<Uuid>
    decreases asked.len(),
{
    if asked.len() == 0 {
        Seq::empty()
    } else {
        let front = visible_items(asked.drop_last(), visible);
        if visible.contains(asked.last()) && !front.contains(asked.last()) {
            front.push(asked.last())
        } else {
            front
        }
    }
}

/// The assets to put in an order, of which the requester can see `visible`.
///
/// A partly visible request is narrowed silently: telling which asset was invisible is the enumeration this
/// filter prevents. An asset asked for twice is put in once, where it was first asked for.
pub fn place(new: &NewOrder, visible: &Vec<Uuid>) -> (items: Result<Vec<Uuid>, OrderRefusal>)
    ensures
        match items {
            Ok(ids) => {
                &&& ids@.len() > 0
                &&& ids@ == visible_items(new.asset_ids@, visible@)
            },
            Err(OrderRefusal::Empty) => new.asset_ids@.len() == 0,
            Err(OrderRefusal::NothingVisible) => new.asset_ids@.len() > 0 && visible_items(
                new.asset_ids@,
                visible@,
            ).len() == 0,
            Err(_) => false,
        },
{
    if new.asset_ids.len() == 0 {
        return Err(OrderRefusal::Empty);
    }
    let mut ids: Vec<Uuid> = Vec::new();
    let mut i: usize = 0;
    while i < new.asset_ids.len()
        invariant
            i <= new.asset_ids@.len(),
            ids@ == visible_items(new.asset_ids@.take(i as int), visible@),
        decreases new.asset_ids@.len() - i,
    {
        proof {
            assert(new.asset_ids@.take(i + 1).drop_last() =~= new.asset_ids@.take(i as int));
        }
        let id = new.asset_ids[i];
        if among(visible, id) && !among(&ids, id) {
            ids.push(id);
        }
        i += 1;
    }
    proof {
        assert(new.asset_ids@.take(i as int) =~= new.asset_ids@);
    }
    if ids.len() == 0 {
        return Err(OrderRefusal::NothingVisible);
    }
    Ok(ids)
}

/// What an order was placed for, as it is stored.
pub fn purpose(new: &NewOrder) -> (text: &str)
    ensures
        text@ == trimmed(new.purpose@),
{
    trim(new.purpose.as_str())
}

/// What can be done with an order that was placed.
pub enum Act {
    Approve,
    Reject,
    Cancel,
    MakeReady,
    Collect,
}

/// Whether an order in this state allows an act. Using the pickup again is no second collection.
pub open spec fn allows(state: Seq<char>, act: Act) -> bool {
    match act {
        Act::Approve | Act::Reject | Act::Cancel => state == "submitted"@,
        Act::MakeReady => state == "approved"@,
        Act::Collect => state == "ready"@ || state == "collected"@,
    }
}

/// The state an act leaves an order in.
pub open spec fn left_by(act: Act) -> Seq<char> {
    match act {
        Act::Approve => "approved"@,
        Act::Reject => "rejected"@,
        Act::Cancel => "cancelled"@,
        Act::MakeReady => "ready"@,
        Act::Collect => "collected"@,
    }
}

/// Refuses an order that is not in the state `wanted`.
fn check_state(
    order: &Order,
    wanted: &str,
    verb: &'static str,
) -> (checked: Result<(), OrderRefusal>)
    ensures
        checked is Ok <==> order.state@ == wanted@,
        checked matches Err(refusal) ==> refusal matches OrderRefusal::WrongState(
            reference,
            state,
            word,
        ) && reference@ == order.reference@ && state@ == order.state@ && word == verb,
{
    if same(order.state.as_str(), wanted) {
        Ok(())
    } else {
        Err(OrderRefusal::WrongState(order.reference.clone(), order.state.clone(), verb))
    }
}

/// The items of an order that are not among `visible`.
pub open spec fn unseen_count(items: Seq<Item>, visible: Seq<Uuid>) -> int
    decreases items.len(),
{
    if items.len() == 0 {
        0
    } else {
        unseen_count(items.drop_last(), visible) + if visible.contains(items.last().asset_id) {
            0int
        } else {
            1int
        }
    }
}

/// How many days a pickup window stays open when `window_days` are asked for.
pub open spec fn pickup_days(window_days: int) -> int {
    clamped(window_days, 1, 365)
}

/// What an act is called in a refusal.
pub open spec fn verb_of(act: Act) -> Seq<char> {
    match act {
        Act::Approve => "approved"@,
        Act::Reject => "rejected"@,
        Act::Cancel => "cancelled"@,
        Act::MakeReady => "made ready"@,
        Act::Collect => "collected"@,
    }
}

/// Whether this is what an act is refused with: there is no such order, or it is not in a state that allows the act.
pub open spec fn refuses_act(id: Uuid, order: Option<Order>, act: Act, refusal: OrderRefusal) -> bool {
    match refusal {
        OrderRefusal::Unknown(given) => order is None && given == id,
        OrderRefusal::WrongState(reference, state, verb) => {
            &&& order matches Some(found)
            &&& !allows(found.state@, act)
            &&& reference@ == found.reference@
            &&& state@ == found.state@
            &&& verb@ == verb_of(act)
        },
        _ => false,
    }
}

pub const APPROVE: &'static str =
    "UPDATE orders SET state = 'approved', decided_by = $2, decided_at = $3, decision_note = $4, expires_at = $3 \
     + make_interval(days => $5::int), updated_at = now() WHERE id = $1";

/// Approves an order, for a pickup window of `window_days`. `visible` is which of its assets the approver can see;
/// agreeing to hand over something they cannot inspect is a signature on a blank page.
pub fn approve(
    id: Uuid,
    order: &Option<Order>,
    visible: &Vec<Uuid>,
    window_days: i64,
    approver: Uuid,
    note: Option<&str>,
    now: Instant,
) -> (approved: Result<Command, OrderRefusal>)
    ensures
        match approved {
            Ok(command) => {
                &&& *order matches Some(found)
                &&& allows(found.state@, Act::Approve)
                &&& unseen_count(found.items@, visible@) == 0
                &&& command.says(
                    "UPDATE orders SET state = 'approved', decided_by = $2, decided_at = $3, decision_note = $4, expires_at = $3 \
                     + make_interval(days => $5::int), updated_at = now() WHERE id = $1"@,
                    seq![
                        Given::Id(id), Given::Id(approver), Given::At(now),
                        Given::MaybeText(opt_str_chars(note)),
                        Given::Whole(pickup_days(window_days as int) as i32),
                    ],
                )
            },
            Err(OrderRefusal::Unjudgeable(unseen)) => {
                &&& *order matches Some(found)
                &&& allows(found.state@, Act::Approve)
                &&& unseen == unseen_count(found.items@, visible@)
                &&& unseen > 0
            },
            Err(refusal) => refuses_act(id, *order, Act::Approve, refusal),
        },
        approved is Ok ==> (*order matches Some(found) && found.state@ == "submitted"@),
{
    let found = match order {
        None => return Err(OrderRefusal::Unknown(id)),
        Some(found) => found,
    };
    match check_state(found, "submitted", "approved") {
        Err(refusal) => return Err(refusal),
        Ok(()) => {},
    }
    let unseen: usize = count_unseen(&found.items, visible);
    if unseen > 0 {
        return Err(OrderRefusal::Unjudgeable(unseen));
    }
    let days: i32 = clamp(window_days, 1, 365) as i32;
    Ok(
        Command::new(
            APPROVE,
            vec![
                Value::Id(id), Value::Id(approver), Value::At(now), as_maybe_str(note),
                Value::Whole(days),
            ],
        ),
    )
}

fn count_unseen(items: &Vec<Item>, visible: &Vec<Uuid>) -> (unseen: usize)
    ensures
        unseen == unseen_count(items@, visible@),
{
    let mut unseen: usize = 0;
    let mut i: usize = 0;
    proof {
        assert(items@.take(0) =~= Seq::<Item>::empty());
    }
    while i < items.len()
        invariant
            i <= items@.len(),
            unseen <= i,
            unseen == unseen_count(items@.take(i as int), visible@),
        decreases items@.len() - i,
    {
        proof {
            assert(items@.take(i + 1).drop_last() =~= items@.take(i as int));
            assert(items@.take(i + 1).last() == items@[i as int]);
        }
        if !among(visible, items[i].asset_id) {
            unseen += 1;
        }
        i += 1;
    }
    proof {
        assert(items@.take(i as int) =~= items@);
    }
    unseen
}

pub const REJECT: &'static str =
    "UPDATE orders SET state = 'rejected', decided_by = $2, decided_at = $3, decision_note = $4, updated_at = \
     now() WHERE id = $1";

/// Refuses an order. No visibility is required: saying no to something you cannot see is a defensible answer, and
/// requiring it would leave orders nobody can close.
pub fn reject(
    id: Uuid,
    order: &Option<Order>,
    approver: Uuid,
    note: Option<&str>,
    now: Instant,
) -> (rejected: Result<Command, OrderRefusal>)
    ensures
        match rejected {
            Ok(command) => {
                &&& *order matches Some(found)
                &&& allows(found.state@, Act::Reject)
                &&& command.says(
                    "UPDATE orders SET state = 'rejected', decided_by = $2, decided_at = $3, decision_note = $4, updated_at = \
                     now() WHERE id = $1"@,
                    seq![
                        Given::Id(id), Given::Id(approver), Given::At(now),
                        Given::MaybeText(opt_str_chars(note)),
                    ],
                )
            },
            Err(refusal) => refuses_act(id, *order, Act::Reject, refusal),
        },
        rejected is Ok <==> (*order matches Some(found) && found.state@ == "submitted"@),
{
    match order {
        None => Err(OrderRefusal::Unknown(id)),
        Some(found) => match check_state(found, "submitted", "rejected") {
            Err(refusal) => Err(refusal),
            Ok(()) => Ok(
                Command::new(
                    REJECT,
                    vec![Value::Id(id), Value::Id(approver), Value::At(now), as_maybe_str(note)],
                ),
            ),
        },
    }
}

pub const CANCEL: &'static str = "UPDATE orders SET state = 'cancelled', updated_at = now() WHERE id = $1";

/// Withdraws an order: its requester may, and only before a decision. An approval is somebody else's recorded act,
/// and erasing it would remove the trail the order exists to keep.
pub fn cancel(
    id: Uuid,
    order: &Option<Order>,
    requester: Uuid,
) -> (cancelled: Result<Command, OrderRefusal>)
    ensures
        match cancelled {
            Ok(command) => {
                &&& *order matches Some(found)
                &&& found.requested_by == requester
                &&& allows(found.state@, Act::Cancel)
                &&& command.says(
                    "UPDATE orders SET state = 'cancelled', updated_at = now() WHERE id = $1"@,
                    seq![Given::Id(id)],
                )
            },
            Err(OrderRefusal::NotYours) => *order matches Some(found) && found.requested_by
                != requester,
            Err(refusal) => refuses_act(id, *order, Act::Cancel, refusal) && (*order matches Some(found)
                ==> found.requested_by == requester),
        },
        cancelled is Ok <==> (*order matches Some(found) && found.state@ == "submitted"@ && found.requested_by
            == requester),
{
    match order {
        None => Err(OrderRefusal::Unknown(id)),
        Some(found) => if found.requested_by != requester {
            Err(OrderRefusal::NotYours)
        } else {
            match check_state(found, "submitted", "cancelled") {
                Err(refusal) => Err(refusal),
                Ok(()) => Ok(Command::new(CANCEL, vec![Value::Id(id)])),
            }
        },
    }
}

pub const MARK_READY: &'static str =
    "UPDATE orders SET state = 'ready', share_link_id = $2, updated_at = now() WHERE id = $1";

/// Attaches the pickup share, moving an approved order to `ready`.
pub fn mark_ready(
    id: Uuid,
    order: &Option<Order>,
    share_link_id: Uuid,
) -> (ready: Result<Command, OrderRefusal>)
    ensures
        match ready {
            Ok(command) => {
                &&& *order matches Some(found)
                &&& allows(found.state@, Act::MakeReady)
                &&& command.says(
                    "UPDATE orders SET state = 'ready', share_link_id = $2, updated_at = now() WHERE id = $1"@,
                    seq![Given::Id(id), Given::Id(share_link_id)],
                )
            },
            Err(refusal) => refuses_act(id, *order, Act::MakeReady, refusal),
        },
        ready is Ok <==> (*order matches Some(found) && found.state@ == "approved"@),
{
    match order {
        None => Err(OrderRefusal::Unknown(id)),
        Some(found) => match check_state(found, "approved", "made ready") {
            Err(refusal) => Err(refusal),
            Ok(()) => Ok(Command::new(MARK_READY, vec![Value::Id(id), Value::Id(share_link_id)])),
        },
    }
}

pub const MARK_COLLECTED: &'static str =
    "UPDATE orders SET state = 'collected', updated_at = now() WHERE id = $1";

/// Records that the pickup was used: once it is ready, and again after that. A recipient downloading twice is one
/// collection.
pub fn mark_collected(id: Uuid, order: &Option<Order>) -> (collected: Option<Command>)
    ensures
        match collected {
            Some(command) => {
                &&& *order matches Some(found)
                &&& allows(found.state@, Act::Collect)
                &&& command.says(
                    "UPDATE orders SET state = 'collected', updated_at = now() WHERE id = $1"@,
                    seq![Given::Id(id)],
                )
            },
            None => *order matches Some(found) ==> !allows(found.state@, Act::Collect),
        },
        collected is Some <==> (*order matches Some(found) && (found.state@ == "ready"@ || found.state@
            == "collected"@)),
{
    let moves = match order {
        None => false,
        Some(found) => same(found.state.as_str(), "ready") || same(found.state.as_str(), "collected"),
    };
    if moves {
        Some(Command::new(MARK_COLLECTED, vec![Value::Id(id)]))
    } else {
        None
    }
}

proof fn lemma_states_differ()
    ensures
        "submitted"@.len() == 9,
        "approved"@.len() == 8,
        "rejected"@.len() == 8,
        "cancelled"@.len() == 9,
        "ready"@.len() == 5,
        "collected"@.len() == 9,
        "submitted"@[0] == 's',
        "cancelled"@[1] == 'a',
        "collected"@[1] == 'o',
        "approved"@[0] == 'a',
        "rejected"@[0] == 'r',
        "cancelled"@[0] == 'c',
        "collected"@[0] == 'c',
{
    reveal_strlit("submitted");
    reveal_strlit("approved");
    reveal_strlit("rejected");
    reveal_strlit("cancelled");
    reveal_strlit("ready");
    reveal_strlit("collected");
}

/// An order is decided once: after an approval, a refusal or a withdrawal there is no other, and a refused or withdrawn
/// order allows nothing more.
pub proof fn an_order_is_decided_once(first: Act, second: Act)
    requires
        first is Approve || first is Reject || first is Cancel,
    ensures
        second is Approve || second is Reject || second is Cancel ==> !allows(left_by(first), second),
        first is Reject || first is Cancel ==> !allows(left_by(first), second),
{
    lemma_states_differ();
}

/// Nothing is handed over that was not approved: a pickup can be used only after it was made ready, that only after
/// an approval, and an approval leaves nothing else to do.
pub proof fn a_pickup_was_approved(before: Act, act: Act)
    ensures
        act is Collect && allows(left_by(before), act) ==> before is MakeReady || before is Collect,
        act is MakeReady && allows(left_by(before), act) ==> before is Approve,
        allows(left_by(Act::Approve), act) ==> act is MakeReady,
{
    lemma_states_differ();
}

/// The order as it stands after a change.
pub fn present(id: Uuid, order: Option<Order>) -> (found: Result<Order, OrderRefusal>)
    ensures
        found == match order {
            Some(inner) => Ok::<Order, OrderRefusal>(inner),
            None => Err(OrderRefusal::Unknown(id)),
        },
{
    match order {
        Some(inner) => Ok(inner),
        None => Err(OrderRefusal::Unknown(id)),
    }
}

/// Whether an asset is among an order's items.
pub open spec fn has_item(items: Seq<Item>, id: Uuid) -> bool {
    exists|i: int| 0 <= i < items.len() && (#[trigger] items[i]).asset_id == id
}

/// The item of an asset, among an order's items.
pub open spec fn item_of(items: Seq<Item>, id: Uuid) -> Option<Item>
    decreases items.len(),
{
    if items.len() == 0 {
        None
    } else if items[0].asset_id == id {
        Some(items[0])
    } else {
        item_of(items.drop_first(), id)
    }
}

/// The items of the assets in `asked`, in its order.
pub open spec fn asked_items(items: Seq<Item>, asked: Seq<Uuid>) -> Seq<Item>
    decreases asked.len(),
{
    if asked.len() == 0 {
        Seq::empty()
    } else {
        let front = asked_items(items, asked.drop_last());
        match item_of(items, asked.last()) {
            Some(item) => front.push(item),
            None => front,
        }
    }
}

/// An order's items, those of the assets in `asked` first and in its order, and any other after them.
pub open spec fn as_asked(items: Seq<Item>, asked: Seq<Uuid>) -> Seq<Item> {
    asked_items(items, asked) + items.filter(|item: Item| !asked.contains(item.asset_id))
}

fn find_item(items: &Vec<Item>, id: Uuid) -> (found: Option<Item>)
    ensures
        found == item_of(items@, id),
{
    let mut i: usize = 0;
    proof {
        assert(items@.skip(0) =~= items@);
    }
    while i < items.len()
        invariant
            i <= items@.len(),
            item_of(items@, id) == item_of(items@.skip(i as int), id),
        decreases items@.len() - i,
    {
        proof {
            let rest = items@.skip(i as int);
            assert(rest[0] == items@[i as int]);
            assert(rest.drop_first() =~= items@.skip(i + 1));
        }
        if items[i].asset_id == id {
            return Some(Item { asset_id: id, filename: items[i].filename.clone() });
        }
        i += 1;
    }
    None
}

fn arranged(items: &Vec<Item>, asked: &Vec<Uuid>) -> (out: Vec<Item>)
    ensures
        out@ == as_asked(items@, asked@),
{
    let mut out: Vec<Item> = Vec::new();
    let mut i: usize = 0;
    while i < asked.len()
        invariant
            i <= asked@.len(),
            out@ == asked_items(items@, asked@.take(i as int)),
        decreases asked@.len() - i,
    {
        proof {
            assert(asked@.take(i + 1).drop_last() =~= asked@.take(i as int));
        }
        if let Some(item) = find_item(items, asked[i]) {
            out.push(item);
        }
        i += 1;
    }
    let ghost first = out@;
    let ghost other = |item: Item| !asked@.contains(item.asset_id);
    proof {
        assert(asked@.take(i as int) =~= asked@);
        lemma_filter_ends(items@, other);
    }
    let mut j: usize = 0;
    while j < items.len()
        invariant
            j <= items@.len(),
            other == (|item: Item| !asked@.contains(item.asset_id)),
            out@ =~= first + items@.take(j as int).filter(other),
        decreases items@.len() - j,
    {
        proof {
            lemma_filter_step(items@, other, j as int);
        }
        if !among(asked, items[j].asset_id) {
            out.push(Item { asset_id: items[j].asset_id, filename: items[j].filename.clone() });
        }
        j += 1;
    }
    proof {
        assert(items@.take(j as int) =~= items@);
    }
    out
}

/// The order as it stands after being placed over the assets in `asked`: its items are in that order, because the
/// sequence somebody assembled is information.
pub fn placed(id: Uuid, order: Option<Order>, asked: &Vec<Uuid>) -> (found: Result<Order, OrderRefusal>)
    ensures
        match (order, found) {
            (Some(stored), Ok(shown)) => {
                &&& shown.items@ == as_asked(stored.items@, asked@)
                &&& shown == (Order { items: shown.items, ..stored })
            },
            (None, Err(refusal)) => refusal == OrderRefusal::Unknown(id),
            _ => false,
        },
{
    match order {
        Some(stored) => {
            let items = arranged(&stored.items, asked);
            Ok(Order { items, ..stored })
        },
        None => Err(OrderRefusal::Unknown(id)),
    }
}

proof fn lemma_item_of(items: Seq<Item>, id: Uuid)
    ensures
        item_of(items, id) is Some <==> has_item(items, id),
        item_of(items, id) matches Some(item) ==> item.asset_id == id && items.contains(item),
    decreases items.len(),
{
    if items.len() > 0 {
        let rest = items.drop_first();
        lemma_item_of(rest, id);
        if has_item(items, id) && items[0].asset_id != id {
            let i = choose|i: int| 0 <= i < items.len() && (#[trigger] items[i]).asset_id == id;
            assert(rest[i - 1] == items[i]);
        }
        if has_item(rest, id) {
            let i = choose|i: int| 0 <= i < rest.len() && (#[trigger] rest[i]).asset_id == id;
            assert(items[i + 1] == rest[i]);
        }
        if items[0].asset_id == id {
            assert(items.contains(items[0]));
        } else if item_of(rest, id) is Some {
            let i = choose|i: int| 0 <= i < rest.len() && rest[i] == item_of(rest, id)->0;
            assert(items[i + 1] == rest[i]);
        }
    }
}

proof fn lemma_asked_items(items: Seq<Item>, asked: Seq<Uuid>)
    requires
        forall|i: int| 0 <= i < asked.len() ==> has_item(items, #[trigger] asked[i]),
    ensures
        asked_items(items, asked).len() == asked.len(),
        forall|i: int|
            0 <= i < asked.len() ==> (#[trigger] asked_items(items, asked)[i]).asset_id == asked[i]
                && items.contains(asked_items(items, asked)[i]),
    decreases asked.len(),
{
    if asked.len() > 0 {
        let front = asked.drop_last();
        assert forall|i: int| 0 <= i < front.len() implies has_item(items, #[trigger] front[i]) by {
            assert(front[i] == asked[i]);
        }
        lemma_asked_items(items, front);
        assert(has_item(items, asked[asked.len() - 1]));
        lemma_item_of(items, asked.last());
        assert forall|i: int| 0 <= i < asked.len() implies (#[trigger] asked_items(
            items,
            asked,
        )[i]).asset_id == asked[i] && items.contains(asked_items(items, asked)[i]) by {
            if i < front.len() {
                assert(asked_items(items, asked)[i] == asked_items(items, front)[i]);
                assert(front[i] == asked[i]);
            }
        }
    }
}

/// An order that holds the assets it was placed over, and nothing else, shows them in the order they were asked for.
pub proof fn a_placed_order_reads_as_it_was_asked(items: Seq<Item>, asked: Seq<Uuid>)
    requires
        forall|id: Uuid| asked.contains(id) <==> has_item(items, id),
    ensures
        as_asked(items, asked).len() == asked.len(),
        forall|i: int|
            0 <= i < asked.len() ==> (#[trigger] as_asked(items, asked)[i]).asset_id == asked[i]
                && items.contains(as_asked(items, asked)[i]),
{
    let other = |item: Item| !asked.contains(item.asset_id);
    assert forall|i: int| 0 <= i < asked.len() implies has_item(items, #[trigger] asked[i]) by {
        assert(asked.contains(asked[i]));
    }
    lemma_asked_items(items, asked);
    let rest = items.filter(other);
    if rest.len() > 0 {
        let item = rest[0];
        assert(rest.contains(item));
        lemma_filter_keeps(items, other, item);
        let i = choose|i: int| 0 <= i < items.len() && items[i] == item;
        assert(has_item(items, items[i].asset_id));
    }
    assert(rest =~= Seq::<Item>::empty());
    assert(as_asked(items, asked) =~= asked_items(items, asked));
}

/// How many orders one list returns.
pub const MAX_ROWS: i64 = 200;

/// How many orders one list returns when `limit` are asked for.
pub fn list_limit(limit: i64) -> (effective: i64)
    ensures
        effective == clamped(limit as int, 1, MAX_ROWS as int),
        1 <= effective <= 200,
        1 <= limit <= 200 ==> effective == limit,
{
    clamp(limit, 1, MAX_ROWS)
}

/// An order's row, without its items.
#[derive(Debug, Clone, PartialEq, Eq)]
pub struct OrderRow {
    pub id: Uuid,
    pub reference: String,
    pub requested_by: Uuid,
    pub purpose: String,
    pub channel: Option<String>,
    pub territory: Option<String>,
    pub conversion_key: Option<String>,
    pub include_metadata: bool,
    pub recipients: Vec<String>,
    pub state: String,
    pub decided_by: Option<Uuid>,
    pub decided_at: Option<Instant>,
    pub decision_note: Option<String>,
    pub expires_at: Option<Instant>,
    pub share_link_id: Option<Uuid>,
    pub created_at: Instant,
}

/// Whether an order is what its row says, with these items.
pub open spec fn reads_row(order: Order, row: OrderRow, items: Seq<Item>) -> bool {
    &&& order.items@ == items
    &&& order == (Order {
        id: row.id,
        reference: row.reference,
        requested_by: row.requested_by,
        purpose: row.purpose,
        channel: row.channel,
        territory: row.territory,
        conversion_key: row.conversion_key,
        include_metadata: row.include_metadata,
        recipients: row.recipients,
        state: row.state,
        decided_by: row.decided_by,
        decided_at: row.decided_at,
        decision_note: row.decision_note,
        expires_at: row.expires_at,
        share_link_id: row.share_link_id,
        created_at: row.created_at,
        items: order.items,
    })
}

/// The order a row and its items make.
pub fn into_order(row: OrderRow, items: Vec<Item>) -> (order: Order)
    ensures
        reads_row(order, row, items@),
{
    Order {
        id: row.id,
        reference: row.reference,
        requested_by: row.requested_by,
        purpose: row.purpose,
        channel: row.channel,
        territory: row.territory,
        conversion_key: row.conversion_key,
        include_metadata: row.include_metadata,
        recipients: row.recipients,
        state: row.state,
        decided_by: row.decided_by,
        decided_at: row.decided_at,
        decision_note: row.decision_note,
        expires_at: row.expires_at,
        share_link_id: row.share_link_id,
        created_at: row.created_at,
        items,
    }
}

/// One item beside the order it belongs to.
#[derive(Debug, Clone, PartialEq, Eq)]
pub struct ItemRow {
    pub order_id: Uuid,
    pub asset_id: Uuid,
    pub filename: String,
}

/// The items of one order among the items of many, in their order.
pub open spec fn items_of(all: Seq<ItemRow>, order_id: Uuid) -> Seq<Item>
    decreases all.len(),
{
    if all.len() == 0 {
        Seq::empty()
    } else {
        let front = items_of(all.drop_last(), order_id);
        if all.last().order_id == order_id {
            front.push(Item { asset_id: all.last().asset_id, filename: all.last().filename })
        } else {
            front
        }
    }
}

fn items_for(all: &Vec<ItemRow>, order_id: Uuid) -> (items: Vec<Item>)
    ensures
        items@ == items_of(all@, order_id),
{
    let mut items: Vec<Item> = Vec::new();
    let mut i: usize = 0;
    proof {
        assert(all@.take(0) =~= Seq::<ItemRow>::empty());
    }
    while i < all.len()
        invariant
            i <= all@.len(),
            items@ == items_of(all@.take(i as int), order_id),
        decreases all@.len() - i,
    {
        proof {
            assert(all@.take(i + 1).drop_last() =~= all@.take(i as int));
            assert(all@.take(i + 1).last() == all@[i as int]);
        }
        if all[i].order_id == order_id {
            items.push(Item { asset_id: all[i].asset_id, filename: all[i].filename.clone() });
        }
        i += 1;
    }
    proof {
        assert(all@.take(i as int) =~= all@);
    }
    items
}

/// Many orders with their items, from one read of each.
pub fn with_items(rows: Vec<OrderRow>, all: &Vec<ItemRow>) -> (orders: Vec<Order>)
    ensures
        orders@.len() == rows@.len(),
        forall|i: int|
            0 <= i < rows@.len() ==> reads_row(
                #[trigger] orders@[i],
                rows@[i],
                items_of(all@, rows@[i].id),
            ),
{
    let ghost given = rows@;
    let mut orders: Vec<Order> = Vec::new();
    for row in each: rows
        invariant
            each.seq() == given,
            orders@.len() == each.index(),
            forall|i: int|
                0 <= i < each.index() ==> reads_row(
                    #[trigger] orders@[i],
                    given[i],
                    items_of(all@, given[i].id),
                ),
    {
        let items = items_for(all, row.id);
        orders.push(into_order(row, items));
    }
    orders
}

/// Every column an order is read from, in one order.
pub const LIST_ORDERS: &'static str =
    "SELECT o.id, o.reference, o.requested_by, o.purpose, o.channel, o.territory, \
     o.conversion_key, o.include_metadata, o.recipients, o.state, o.decided_by, \
     o.decided_at, o.decision_note, o.expires_at, o.share_link_id, o.created_at \
     FROM orders o";

/// One order.
pub fn read(id: Uuid) -> (statement: Statement)
    ensures
        query(statement) == Query::new(
            "SELECT o.id, o.reference, o.requested_by, o.purpose, o.channel, o.territory, \
             o.conversion_key, o.include_metadata, o.recipients, o.state, o.decided_by, \
             o.decided_at, o.decision_note, o.expires_at, o.share_link_id, o.created_at \
             FROM orders o"@,
        ).push(" WHERE o.id = "@).bind(Bind::Id(id)),
{
    let mut statement = Statement::new(LIST_ORDERS);
    push(&mut statement, " WHERE o.id = ");
    push_bind_id(&mut statement, id);
    statement
}

/// The orders one person asked for, newest first.
pub fn placed_by(requester: Uuid, limit: i64) -> (statement: Statement)
    ensures
        query(statement) == Query::new(LIST_ORDERS@).push(" WHERE o.requested_by = "@).bind(
            Bind::Id(requester),
        ).push(" ORDER BY o.created_at DESC LIMIT "@).bind(
            Bind::Int(clamped(limit as int, 1, MAX_ROWS as int) as i64),
        ),
{
    let mut statement = Statement::new(LIST_ORDERS);
    push(&mut statement, " WHERE o.requested_by = ");
    push_bind_id(&mut statement, requester);
    push(&mut statement, " ORDER BY o.created_at DESC LIMIT ");
    push_bind_int(&mut statement, list_limit(limit));
    statement
}

/// The orders waiting for a decision, oldest first: a queue is worked through.
pub fn awaiting_decision(limit: i64) -> (statement: Statement)
    ensures
        query(statement) == Query::new(LIST_ORDERS@).push(
            " WHERE o.state = 'submitted' ORDER BY o.created_at LIMIT "@,
        ).bind(Bind::Int(clamped(limit as int, 1, MAX_ROWS as int) as i64)),
{
    let mut statement = Statement::new(LIST_ORDERS);
    push(&mut statement, " WHERE o.state = 'submitted' ORDER BY o.created_at LIMIT ");
    push_bind_int(&mut statement, list_limit(limit));
    statement
}

/// The order a share link belongs to, if any.
pub fn for_share(share_link_id: Uuid) -> (statement: Statement)
    ensures
        query(statement) == Query::new(LIST_ORDERS@).push(" WHERE o.share_link_id = "@).bind(
            Bind::Id(share_link_id),
        ),
{
    let mut statement = Statement::new(LIST_ORDERS);
    push(&mut statement, " WHERE o.share_link_id = ");
    push_bind_id(&mut statement, share_link_id);
    statement
}

/// You cannot order what you cannot see: every asset put in an order is one the requester asked for and can see.
pub proof fn an_order_holds_only_visible_assets(asked: Seq<Uuid>, visible: Seq<Uuid>, id: Uuid)
    ensures
        visible_items(asked, visible).contains(id) <==> asked.contains(id) && visible.contains(id),
    decreases asked.len(),
{
    if asked.len() > 0 {
        let front = asked.drop_last();
        an_order_holds_only_visible_assets(front, visible, id);
        assert(asked =~= front.push(asked.last()));
        crate::lists::lemma_push_contains(front, asked.last(), id);
        crate::lists::lemma_push_contains(visible_items(front, visible), asked.last(), id);
    }
}

/// The sequence somebody assembled is information: an order holds each asset once, and of two assets in it the one
/// that comes first was asked for before the other ever was.
pub proof fn an_order_keeps_the_sequence_it_was_asked_in(asked: Seq<Uuid>, visible: Seq<Uuid>)
    ensures
        visible_items(asked, visible).no_duplicates(),
        forall|i: int, j: int|
            0 <= i < j < visible_items(asked, visible).len() ==> asked_before(
                asked,
                #[trigger] visible_items(asked, visible)[i],
                #[trigger] visible_items(asked, visible)[j],
            ),
    decreases asked.len(),
{
    let items = visible_items(asked, visible);
    if asked.len() > 0 {
        let front = asked.drop_last();
        let kept = visible_items(front, visible);
        an_order_keeps_the_sequence_it_was_asked_in(front, visible);
        assert forall|i: int, j: int| 0 <= i < j < items.len() implies asked_before(
            asked,
            #[trigger] items[i],
            #[trigger] items[j],
        ) by {
            let k = if j < kept.len() {
                assert(asked_before(front, kept[i], kept[j]));
                choose|k: int| #[trigger] holds_first(front, k, kept[i], kept[j])
            } else {
                an_order_holds_only_visible_assets(front, visible, items[i]);
                an_order_holds_only_visible_assets(front, visible, items[j]);
                assert(kept[i] == items[i]);
                choose|k: int| 0 <= k < front.len() && front[k] == items[i]
            };
            assert forall|m: int| 0 <= m < k implies #[trigger] asked[m] != items[j] by {
                assert(front[m] == asked[m]);
            }
            assert(holds_first(asked, k, items[i], items[j]));
        }
    }
}

/// Whether `id` is at a place of a list in front of which `other` is not.
pub open spec fn holds_first(asked: Seq<Uuid>, place: int, id: Uuid, other: Uuid) -> bool {
    &&& 0 <= place < asked.len()
    &&& asked[place] == id
    &&& forall|m: int| 0 <= m < place ==> #[trigger] asked[m] != other
}

/// Whether `id` was asked for before `other` ever was.
pub open spec fn asked_before(asked: Seq<Uuid>, id: Uuid, other: Uuid) -> bool {
    exists|place: int| #[trigger] holds_first(asked, place, id, other)
}

/// An approver sees everything they approve: the count of unseen items is zero exactly when each item is among
/// what the approver can see.
pub proof fn approval_means_every_item_was_visible(items: Seq<Item>, visible: Seq<Uuid>)
    ensures
        unseen_count(items, visible) >= 0,
        unseen_count(items, visible) == 0 <==> forall|i: int|
            0 <= i < items.len() ==> visible.contains((#[trigger] items[i]).asset_id),
    decreases items.len(),
{
    if items.len() > 0 {
        let front = items.drop_last();
        approval_means_every_item_was_visible(front, visible);
        if unseen_count(items, visible) == 0 {
            assert forall|i: int| 0 <= i < items.len() implies visible.contains(
                (#[trigger] items[i]).asset_id,
            ) by {
                if i < front.len() {
                    assert(front[i] == items[i]);
                }
            }
        }
        if forall|i: int|
            0 <= i < items.len() ==> visible.contains((#[trigger] items[i]).asset_id) {
            assert(items.last() == items[items.len() - 1]);
            assert forall|i: int| 0 <= i < front.len() implies visible.contains(
                (#[trigger] front[i]).asset_id,
            ) by {
                assert(front[i] == items[i]);
            }
        }
    }
}

/// What may be done with an order, by the word its state is stored as: one that was submitted is approved, rejected or
/// cancelled; one that was approved is made ready; one that is ready is collected, and may be collected again.
pub proof fn an_order_goes_from_desk_to_collection(state: Seq<char>)
    ensures
        allows(state, Act::Approve) <==> state == "submitted"@,
        allows(state, Act::Reject) <==> state == "submitted"@,
        allows(state, Act::Cancel) <==> state == "submitted"@,
        allows(state, Act::MakeReady) <==> state == "approved"@,
        allows(state, Act::Collect) <==> state == "ready"@ || state == "collected"@,
        allows(left_by(Act::Approve), Act::MakeReady),
        allows(left_by(Act::MakeReady), Act::Collect),
        allows(left_by(Act::Collect), Act::Collect),
        left_by(Act::Reject) == "rejected"@,
        left_by(Act::Cancel) == "cancelled"@,
{
}

/// A refusal names what was tried, in the word for it.
pub proof fn a_refusal_names_what_was_tried()
    ensures
        verb_of(Act::Approve) == "approved"@,
        verb_of(Act::Reject) == "rejected"@,
        verb_of(Act::Cancel) == "cancelled"@,
        verb_of(Act::MakeReady) == "made ready"@,
        verb_of(Act::Collect) == "collected"@,
{
}

/// An approved order can be picked up for as many days as were asked, one at least and a year at most.
pub proof fn a_pickup_lasts_a_day_to_a_year(window_days: int, longer: int)
    requires
        window_days <= longer,
    ensures
        1 <= pickup_days(window_days) <= 365,
        1 <= window_days <= 365 ==> pickup_days(window_days) == window_days,
        pickup_days(window_days) <= pickup_days(longer),
{
}

/// An order is read as its row says, field by field.
pub proof fn an_order_reads_as_its_row(order: Order, row: OrderRow, items: Seq<Item>)
    requires
        reads_row(order, row, items),
    ensures
        order.id == row.id,
        order.reference == row.reference,
        order.requested_by == row.requested_by,
        order.purpose == row.purpose,
        order.channel == row.channel,
        order.territory == row.territory,
        order.conversion_key == row.conversion_key,
        order.include_metadata == row.include_metadata,
        order.recipients == row.recipients,
        order.state == row.state,
        order.decided_by == row.decided_by,
        order.decided_at == row.decided_at,
        order.decision_note == row.decision_note,
        order.expires_at == row.expires_at,
        order.share_link_id == row.share_link_id,
        order.created_at == row.created_at,
        order.items@ == items,
{
}

/// An order's items are the rows that name it, in the order the rows came in, each with its own asset and name.
pub proof fn an_orders_items_are_its_own(all: Seq<ItemRow>, order_id: Uuid)
    ensures
        items_of(all, order_id) == all.filter(|row: ItemRow| row.order_id == order_id).map_values(
            |row: ItemRow| Item { asset_id: row.asset_id, filename: row.filename },
        ),
    decreases all.len(),
{
    reveal(Seq::filter);
    let own = |row: ItemRow| row.order_id == order_id;
    let shown = |row: ItemRow| Item { asset_id: row.asset_id, filename: row.filename };
    if all.len() > 0 {
        an_orders_items_are_its_own(all.drop_last(), order_id);
        assert(items_of(all, order_id) =~= all.filter(own).map_values(shown));
    } else {
        assert(items_of(all, order_id) =~= all.filter(own).map_values(shown));
    }
}

/// The number of items that keep an order from being approved is the number of those the approver cannot see.
pub proof fn what_cannot_be_judged_is_counted(items: Seq<Item>, visible: Seq<Uuid>)
    ensures
        unseen_count(items, visible) == items.filter(|item: Item| !visible.contains(item.asset_id)).len(),
    decreases items.len(),
{
    reveal(Seq::filter);
    if items.len() > 0 {
        what_cannot_be_judged_is_counted(items.drop_last(), visible);
    }
}

/// An act is refused because there is no such order, which the refusal names, or because the order is in another state,
/// which it names with the order's own reference and the word for what was tried.
pub proof fn an_act_is_refused_for_a_reason(id: Uuid, order: Option<Order>, act: Act, refusal: OrderRefusal)
    requires
        refuses_act(id, order, act, refusal),
    ensures
        order is None <==> refusal == OrderRefusal::Unknown(id),
        refusal matches OrderRefusal::WrongState(reference, state, verb) ==> order is Some && !allows(
            order->0.state@,
            act,
        ) && reference@ == order->0.reference@ && state@ == order->0.state@ && verb@ == verb_of(act),
        refusal is Unknown || refusal is WrongState,
{
}

// ----------------------------------------------------------------------------------------------------
// Commands
// ----------------------------------------------------------------------------------------------------

pub const INSERT: &'static str =
    "INSERT INTO orders (id, requested_by, purpose, channel, territory, conversion_key, include_metadata, \
     recipients) VALUES ($1, $2, $3, $4, $5, $6, $7, $8)";

/// A new order, under its trimmed purpose.
pub fn insert(id: Uuid, new: &NewOrder) -> (command: Command)
    ensures
        command.says(
            "INSERT INTO orders (id, requested_by, purpose, channel, territory, conversion_key, include_metadata, \
             recipients) VALUES ($1, $2, $3, $4, $5, $6, $7, $8)"@,
            seq![
                Given::Id(id), Given::Id(new.requested_by), Given::Text(trimmed(new.purpose@)),
                Given::MaybeText(opt_chars(new.channel)), Given::MaybeText(opt_chars(new.territory)),
                Given::MaybeText(opt_chars(new.conversion_key)), Given::Flag(new.include_metadata),
                Given::Texts(crate::text::all_chars(new.recipients@)),
            ],
        ),
{
    Command::new(
        INSERT,
        vec![
            Value::Id(id), Value::Id(new.requested_by), as_text(purpose(new)),
            as_maybe_text(&new.channel), as_maybe_text(&new.territory),
            as_maybe_text(&new.conversion_key), Value::Flag(new.include_metadata),
            as_texts(&new.recipients),
        ],
    )
}

pub const INSERT_ITEM: &'static str =
    "INSERT INTO order_items (order_id, asset_id, filename) SELECT $1, id, filename FROM assets WHERE id = \
     $2 ON CONFLICT (order_id, asset_id) DO NOTHING";

/// One asset of an order, under the name it has now.
pub fn insert_item(order_id: Uuid, asset_id: Uuid) -> (command: Command)
    ensures
        command.says(
            "INSERT INTO order_items (order_id, asset_id, filename) SELECT $1, id, filename FROM assets WHERE id = \
             $2 ON CONFLICT (order_id, asset_id) DO NOTHING"@,
            seq![Given::Id(order_id), Given::Id(asset_id)],
        ),
{
    Command::new(INSERT_ITEM, vec![Value::Id(order_id), Value::Id(asset_id)])
}

pub const HOLD: &'static str = "SELECT id FROM orders WHERE id = $1 FOR UPDATE";

/// An order, held until the transaction ends.
pub fn hold(id: Uuid) -> (command: Command)
    ensures
        command.says("SELECT id FROM orders WHERE id = $1 FOR UPDATE"@, seq![Given::Id(id)]),
{
    Command::new(HOLD, vec![Value::Id(id)])
}

pub const READ_ITEMS: &'static str =
    "SELECT asset_id, filename FROM order_items WHERE order_id = $1 ORDER BY filename, asset_id";

/// One order's items, by name.
pub fn read_items(order_id: Uuid) -> (command: Command)
    ensures
        command.says(
            "SELECT asset_id, filename FROM order_items WHERE order_id = $1 ORDER BY filename, asset_id"@,
            seq![Given::Id(order_id)],
        ),
{
    Command::new(READ_ITEMS, vec![Value::Id(order_id)])
}

pub const READ_ALL_ITEMS: &'static str =
    "SELECT order_id, asset_id, filename FROM order_items WHERE order_id = ANY($1) ORDER BY filename, \
     asset_id";

/// Several orders' items, by name.
pub fn read_all_items(order_ids: &Vec<Uuid>) -> (command: Command)
    ensures
        command.says(
            "SELECT order_id, asset_id, filename FROM order_items WHERE order_id = ANY($1) ORDER BY filename, \
             asset_id"@,
            seq![Given::Ids(order_ids@)],
        ),
{
    Command::new(READ_ALL_ITEMS, vec![as_ids(order_ids)])
}

} // verus!
