//! Proofing rounds: a named review over a set of assets, with a verdict per approver.
//!
//! A round's state is derived from its verdicts every time. A request for changes wins over any number of
//! approvals: if three people approved and one asked for changes, the round has changes to make. The set is
//! snapshotted and never widened, so an approver cannot find that they agreed to more than they saw.

use crate::commands::{as_text, Command, Given, Value};
use crate::sql::{push, push_bind_id, query, Bind, Query, Statement};
use crate::text::{
    int_chars, int_text, quoted, quoted_chars, same, trim, trimmed, uuid_chars, uuid_text,
};
use crate::{among, clamp, clamped, count, counted, Error, Instant, Uuid};
use vstd::prelude::*;

verus! {

/// What a round has come to.
#[derive(Debug, Clone, Copy, PartialEq, Eq, Structural)]
pub enum Outcome {
    /// Somebody has not decided yet.
    Open,
    /// Everybody asked approved.
    Approved,
    /// At least one approver asked for changes.
    ChangesRequested,
    /// Withdrawn by whoever asked for it.
    Cancelled,
}

impl Outcome {
    /// The column's spelling.
    pub open spec fn chars(self) -> Seq<char> {
        match self {
            Outcome::Open => "open"@,
            Outcome::Approved => "approved"@,
            Outcome::ChangesRequested => "changes_requested"@,
            Outcome::Cancelled => "cancelled"@,
        }
    }

    /// The column's spelling.
    pub fn as_str(self) -> (text: &'static str)
        ensures
            text@ == self.chars(),
            text@ == match self {
                Outcome::Open => "open"@,
                Outcome::Approved => "approved"@,
                Outcome::ChangesRequested => "changes_requested"@,
                Outcome::Cancelled => "cancelled"@,
            },
    {
        match self {
            Outcome::Open => "open",
            Outcome::Approved => "approved",
            Outcome::ChangesRequested => "changes_requested",
            Outcome::Cancelled => "cancelled",
        }
    }
}

/// Two values with one spelling are one value, so a spelling that is written reads back as what was written.
pub proof fn outcome_spellings_are_distinct(a: Outcome, b: Outcome)
    requires
        a.chars() == b.chars(),
    ensures
        a == b,
{
    reveal_strlit("open");
    reveal_strlit("approved");
    reveal_strlit("changes_requested");
    reveal_strlit("cancelled");
    assert("open"@.len() == 4);
    assert("approved"@.len() == 8);
    assert("changes_requested"@.len() == 17);
    assert("cancelled"@.len() == 9);
}

impl Outcome {
    /// Whether the round is over, either way.
    pub open spec fn closed(self) -> bool {
        self != Outcome::Open
    }

    /// Whether the round is over, either way.
    pub fn is_closed(self) -> (yes: bool)
        ensures
            yes == self.closed(),
            yes <==> self == Outcome::Approved || self == Outcome::ChangesRequested || self == Outcome::Cancelled,
    {
        match self {
            Outcome::Open => false,
            Outcome::Approved | Outcome::ChangesRequested | Outcome::Cancelled => true,
        }
    }
}

/// One approver's answer.
#[derive(Debug, Clone, Copy, PartialEq, Eq, Structural)]
pub enum Verdict {
    Pending,
    Approved,
    ChangesRequested,
}

impl Verdict {
    /// The column's spelling.
    pub open spec fn chars(self) -> Seq<char> {
        match self {
            Verdict::Pending => "pending"@,
            Verdict::Approved => "approved"@,
            Verdict::ChangesRequested => "changes_requested"@,
        }
    }

    /// The column's spelling.
    pub fn as_str(self) -> (text: &'static str)
        ensures
            text@ == self.chars(),
            text@ == match self {
                Verdict::Pending => "pending"@,
                Verdict::Approved => "approved"@,
                Verdict::ChangesRequested => "changes_requested"@,
            },
    {
        match self {
            Verdict::Pending => "pending",
            Verdict::Approved => "approved",
            Verdict::ChangesRequested => "changes_requested",
        }
    }

    /// The value a spelling stands for; `None` for a spelling nothing has.
    pub fn parse(text: &str) -> (parsed: Option<Verdict>)
        ensures
            match parsed {
                Some(value) => text@ == value.chars(),
                None => forall|value: Verdict| text@ != #[trigger] value.chars(),
            },
            parsed == Some(Verdict::Pending) ==> text@ == "pending"@,
            parsed == Some(Verdict::Approved) ==> text@ == "approved"@,
            parsed == Some(Verdict::ChangesRequested) ==> text@ == "changes_requested"@,
            parsed is None ==> text@ != "pending"@ && text@ != "approved"@ && text@ != "changes_requested"@,
    {
        if same(text, "pending") {
            Some(Verdict::Pending)
        } else if same(text, "approved") {
            Some(Verdict::Approved)
        } else if same(text, "changes_requested") {
            Some(Verdict::ChangesRequested)
        } else {
            None
        }
    }
}

/// Two values with one spelling are one value, so a spelling that is written reads back as what was written.
pub proof fn verdict_spellings_are_distinct(a: Verdict, b: Verdict)
    requires
        a.chars() == b.chars(),
    ensures
        a == b,
{
    reveal_strlit("pending");
    reveal_strlit("approved");
    reveal_strlit("changes_requested");
    assert("pending"@.len() == 7);
    assert("approved"@.len() == 8);
    assert("changes_requested"@.len() == 17);
}

impl Verdict {
    /// A verdict somebody can actually give. `pending` is a starting state, not an answer.
    pub fn parse_decision(text: &str) -> (decided: Option<Verdict>)
        ensures
            match decided {
                Some(verdict) => verdict != Verdict::Pending && text@ == verdict.chars(),
                None => forall|verdict: Verdict|
                    text@ == #[trigger] verdict.chars() ==> verdict == Verdict::Pending,
            },
    {
        match Verdict::parse(text) {
            Some(Verdict::Pending) => {
                proof {
                    assert forall|verdict: Verdict| text@ == #[trigger] verdict.chars() implies verdict
                        == Verdict::Pending by {
                        verdict_spellings_are_distinct(verdict, Verdict::Pending);
                    }
                }
                None
            },
            Some(decided) => Some(decided),
            None => None,
        }
    }
}

/// Why a round operation was refused.
#[derive(Debug, Clone, PartialEq, Eq)]
pub enum ProofRefusal {
    /// No such round, or one over assets this caller cannot see. One refusal for both.
    UnknownRound(Uuid),
    /// A round over an asset the requester cannot see. Refused wholesale rather than silently narrowed.
    AssetsOutOfScope(usize),
    NoAssets,
    NoReviewers,
    NotAReviewer(Uuid),
    AlreadyClosed,
    NotAVerdict(String),
}

impl ProofRefusal {
    /// The text of this refusal.
    pub open spec fn message_chars(self) -> Seq<char> {
        match self {
            ProofRefusal::UnknownRound(given) => "no round "@ + uuid_chars(given),
            ProofRefusal::AssetsOutOfScope(given) => int_chars(given as int) + " of the assets are not ones you can see; a round cannot be narrowed silently"@,
            ProofRefusal::NoAssets => "a round needs at least one asset"@,
            ProofRefusal::NoReviewers => "a round needs at least one approver, or nobody is being asked anything"@,
            ProofRefusal::NotAReviewer(given) => uuid_chars(given) + " is not an approver on this round"@,
            ProofRefusal::AlreadyClosed => "this round is already closed; a further review is a new round"@,
            ProofRefusal::NotAVerdict(given) => quoted_chars(given@) + " is not a verdict; use approved or changes_requested"@,
        }
    }

    /// The sentence whoever was refused reads.
    pub fn message(&self) -> (out: String)
        ensures
            out@ == self.message_chars(),
    {
        match self {
            ProofRefusal::UnknownRound(given) => {
                let mut out = "no round ".to_owned();
                out.append(uuid_text(*given).as_str());
                out
            },
            ProofRefusal::AssetsOutOfScope(given) => {
                let mut out = int_text(*given as i128).as_str().to_owned();
                out.append(" of the assets are not ones you can see; a round cannot be narrowed silently");
                out
            },
            ProofRefusal::NoAssets => "a round needs at least one asset".to_owned(),
            ProofRefusal::NoReviewers => "a round needs at least one approver, or nobody is being asked anything".to_owned(),
            ProofRefusal::NotAReviewer(given) => {
                let mut out = uuid_text(*given).as_str().to_owned();
                out.append(" is not an approver on this round");
                out
            },
            ProofRefusal::AlreadyClosed => "this round is already closed; a further review is a new round".to_owned(),
            ProofRefusal::NotAVerdict(given) => {
                let mut out = quoted(given.as_str()).as_str().to_owned();
                out.append(" is not a verdict; use approved or changes_requested");
                out
            },
        }
    }
}

/// A round to open.
#[derive(Debug, Clone)]
pub struct NewRound<'a> {
    pub title: &'a str,
    pub brief: &'a str,
    pub asset_ids: Vec<Uuid>,
    pub reviewer_ids: Vec<Uuid>,
    pub due_at: Option<Instant>,
    pub requested_by: Option<Uuid>,
    /// The round this follows, when it is a second pass. Its number is that one's plus one.
    pub supersedes: Option<Uuid>,
}

/// A round as it is written.
#[derive(Debug, Clone, PartialEq, Eq)]
pub struct OpenedRound {
    pub title: String,
    pub brief: String,
    pub number: i32,
    /// The assets with the position each is snapshotted at.
    pub assets: Vec<(Uuid, i32)>,
}

/// The position the asset at `index` is snapshotted at.
pub open spec fn snapshot_position(index: int) -> int {
    if index > i32::MAX {
        i32::MAX as int
    } else {
        index
    }
}

/// How many of the assets asked for are not among `visible`.
pub open spec fn unseen_count(asked: Seq<Uuid>, visible: Seq<Uuid>) -> nat
    decreases asked.len(),
{
    if asked.len() == 0 {
        0
    } else {
        unseen_count(asked.drop_last(), visible) + if visible.contains(asked.last()) {
            0nat
        } else {
            1nat
        }
    }
}

/// A round is never narrowed: nothing asked for is out of scope exactly when every asset asked for is visible.
pub proof fn a_round_is_all_or_nothing(asked: Seq<Uuid>, visible: Seq<Uuid>)
    ensures
        unseen_count(asked, visible) <= asked.len(),
        unseen_count(asked, visible) == 0 <==> forall|i: int|
            0 <= i < asked.len() ==> visible.contains(#[trigger] asked[i]),
    decreases asked.len(),
{
    if asked.len() > 0 {
        let front = asked.drop_last();
        a_round_is_all_or_nothing(front, visible);
        assert(asked.last() == asked[asked.len() - 1]);
        if unseen_count(asked, visible) == 0 {
            assert forall|i: int| 0 <= i < asked.len() implies visible.contains(#[trigger] asked[i]) by {
                if i < front.len() {
                    assert(front[i] == asked[i]);
                }
            }
        }
        if forall|i: int| 0 <= i < asked.len() ==> visible.contains(#[trigger] asked[i]) {
            assert forall|i: int| 0 <= i < front.len() implies visible.contains(#[trigger] front[i]) by {
                assert(front[i] == asked[i]);
            }
        }
    }
}

/// The assets asked for that are not among `visible`, counted.
fn unseen(asked: &Vec<Uuid>, visible: &Vec<Uuid>) -> (count: usize)
    ensures
        count == unseen_count(asked@, visible@),
{
    let mut count: usize = 0;
    let mut i: usize = 0;
    while i < asked.len()
        invariant
            i <= asked@.len(),
            count <= i,
            count == unseen_count(asked@.take(i as int), visible@),
        decreases asked@.len() - i,
    {
        proof {
            assert(asked@.take(i + 1).drop_last() =~= asked@.take(i as int));
        }
        if !among(visible, asked[i]) {
            count += 1;
        }
        i += 1;
    }
    proof {
        assert(asked@.take(i as int) =~= asked@);
    }
    count
}

/// Opens a round over `new.asset_ids`, of which the requester can see `visible`. `previous` is the number of the
/// round it follows, where that round exists.
///
/// The whole round is refused if any asset is out of scope: narrowing silently would have an approver approve a
/// set the requester did not choose.
pub fn open(
    new: &NewRound,
    visible: &Vec<Uuid>,
    previous: Option<i32>,
) -> (opened: Result<OpenedRound, ProofRefusal>)
    requires
        previous matches Some(number) ==> number < i32::MAX,
    ensures
        match opened {
            Ok(round) => {
                &&& new.asset_ids@.len() > 0 && new.reviewer_ids@.len() > 0
                &&& forall|i: int|
                    0 <= i < new.asset_ids@.len() ==> visible@.contains(#[trigger] new.asset_ids@[i])
                &&& round.title@ == trimmed(new.title@)
                &&& round.brief@ == trimmed(new.brief@)
                &&& match new.supersedes {
                    None => round.number == 1,
                    Some(_) => previous matches Some(number) && round.number == number + 1,
                }
                &&& round.assets@.len() == new.asset_ids@.len()
                &&& forall|i: int|
                    0 <= i < round.assets@.len() ==> (#[trigger] round.assets@[i]).0
                        == new.asset_ids@[i] && round.assets@[i].1 == snapshot_position(i)
            },
            Err(ProofRefusal::NoAssets) => new.asset_ids@.len() == 0,
            Err(ProofRefusal::NoReviewers) => new.asset_ids@.len() > 0 && new.reviewer_ids@.len() == 0,
            Err(ProofRefusal::AssetsOutOfScope(unseen)) => {
                &&& new.asset_ids@.len() > 0 && new.reviewer_ids@.len() > 0
                &&& unseen > 0 && unseen == unseen_count(new.asset_ids@, visible@)
            },
            Err(ProofRefusal::UnknownRound(id)) => {
                &&& new.asset_ids@.len() > 0 && new.reviewer_ids@.len() > 0
                &&& unseen_count(new.asset_ids@, visible@) == 0
                &&& new.supersedes == Some(id) && previous is None
            },
            Err(_) => false,
        },
        opened matches Ok(round) ==> forall|i: int|
            0 <= i < round.assets@.len() && i <= i32::MAX ==> (#[trigger] round.assets@[i]).1 == i,
{
    if new.asset_ids.len() == 0 {
        return Err(ProofRefusal::NoAssets);
    }
    if new.reviewer_ids.len() == 0 {
        return Err(ProofRefusal::NoReviewers);
    }
    let out_of_scope = unseen(&new.asset_ids, visible);
    if out_of_scope > 0 {
        return Err(ProofRefusal::AssetsOutOfScope(out_of_scope));
    }
    proof {
        a_round_is_all_or_nothing(new.asset_ids@, visible@);
    }
    let number: i32 = match new.supersedes {
        None => 1,
        Some(id) => match previous {
            None => return Err(ProofRefusal::UnknownRound(id)),
            Some(number) => number + 1,
        },
    };
    let mut assets: Vec<(Uuid, i32)> = Vec::new();
    let mut i: usize = 0;
    while i < new.asset_ids.len()
        invariant
            i <= new.asset_ids@.len(),
            assets@.len() == i,
            forall|j: int|
                0 <= j < i ==> (#[trigger] assets@[j]).0 == new.asset_ids@[j] && assets@[j].1
                    == snapshot_position(j),
        decreases new.asset_ids@.len() - i,
    {
        let position: i32 = if i as u128 > i32::MAX as u128 {
            i32::MAX
        } else {
            i as i32
        };
        assets.push((new.asset_ids[i], position));
        i += 1;
    }
    Ok(
        OpenedRound {
            title: trim(new.title).to_owned(),
            brief: trim(new.brief).to_owned(),
            number,
            assets,
        },
    )
}

/// The rule a round's outcome follows.
pub open spec fn outcome_rule(cancelled: bool, pending: int, changes_requested: int) -> Outcome {
    if cancelled {
        Outcome::Cancelled
    } else if changes_requested > 0 {
        Outcome::ChangesRequested
    } else if pending > 0 {
        Outcome::Open
    } else {
        Outcome::Approved
    }
}

/// The rule, in one place.
///
/// A request for changes beats everything but a cancellation. A majority rule would be inventing governance
/// nobody asked for, and would quietly overrule the one person who found the problem.
pub fn decide_outcome(cancelled: bool, pending: i64, changes_requested: i64) -> (outcome: Outcome)
    ensures
        outcome == outcome_rule(cancelled, pending as int, changes_requested as int),
        outcome == Outcome::Cancelled <==> cancelled,
        outcome == Outcome::ChangesRequested <==> !cancelled && changes_requested > 0,
        outcome == Outcome::Open <==> !cancelled && changes_requested <= 0 && pending > 0,
        outcome == Outcome::Approved <==> !cancelled && changes_requested <= 0 && pending <= 0,
{
    if cancelled {
        Outcome::Cancelled
    } else if changes_requested > 0 {
        Outcome::ChangesRequested
    } else if pending > 0 {
        Outcome::Open
    } else {
        Outcome::Approved
    }
}

/// Whether a verdict may be given on a round. `closed` is whether the round has been closed, where it exists.
pub fn check_open(round_id: Uuid, closed: Option<bool>) -> (checked: Result<(), ProofRefusal>)
    ensures
        checked == match closed {
            None => Err::<(), ProofRefusal>(ProofRefusal::UnknownRound(round_id)),
            Some(true) => Err(ProofRefusal::AlreadyClosed),
            Some(false) => Ok(()),
        },
{
    match closed {
        None => Err(ProofRefusal::UnknownRound(round_id)),
        Some(true) => Err(ProofRefusal::AlreadyClosed),
        Some(false) => Ok(()),
    }
}

/// What a round has come to once a verdict was written. `updated` is how many approver rows the verdict reached,
/// and `tally` is whether the round is cancelled, how many approvers are pending and how many asked for changes,
/// where the round still exists. The caller closes the round when the outcome is closed.
pub fn decide(
    reviewer: Uuid,
    updated: u64,
    tally: Option<(bool, i64, i64)>,
) -> (outcome: Result<Outcome, ProofRefusal>)
    ensures
        outcome == if updated == 0 {
            Err::<Outcome, ProofRefusal>(ProofRefusal::NotAReviewer(reviewer))
        } else {
            Ok(
                match tally {
                    None => Outcome::Cancelled,
                    Some((cancelled, pending, changes)) => outcome_rule(
                        cancelled,
                        pending as int,
                        changes as int,
                    ),
                },
            )
        },
        outcome is Ok <==> updated > 0,
        outcome == Ok::<Outcome, ProofRefusal>(Outcome::Approved) ==> (tally matches Some(counted) && !counted.0
            && counted.1 <= 0 && counted.2 <= 0),
        outcome == Ok::<Outcome, ProofRefusal>(Outcome::ChangesRequested) ==> (tally matches Some(counted)
            && counted.2 > 0),
        outcome == Ok::<Outcome, ProofRefusal>(Outcome::Open) ==> (tally matches Some(counted) && counted.1 > 0),
{
    if updated == 0 {
        return Err(ProofRefusal::NotAReviewer(reviewer));
    }
    Ok(
        match tally {
            None => Outcome::Cancelled,
            Some((cancelled, pending, changes)) => decide_outcome(cancelled, pending, changes),
        },
    )
}

/// The words an approver left with their verdict, as they are stored.
pub fn stored_note(note: &str) -> (stored: &str)
    ensures
        stored@ == trimmed(note@),
{
    trim(note)
}

/// When a round was closed and when it was withdrawn.
#[derive(Debug, Clone, Copy, PartialEq, Eq, Structural)]
pub struct Ending {
    pub closed_at: Option<Instant>,
    pub cancelled_at: Option<Instant>,
}

/// Withdraws a round at `now`: how it ends, or `None` where there is no such round or it was withdrawn already. A
/// round that had closed keeps the moment it closed, and the verdicts given so far are kept.
pub fn cancel(round: Option<Ending>, now: Instant) -> (ending: Option<Ending>)
    ensures
        ending == match round {
            Some(stands) => match stands.cancelled_at {
                Some(_) => None,
                None => Some(
                    Ending {
                        closed_at: Some(
                            match stands.closed_at {
                                Some(at) => at,
                                None => now,
                            },
                        ),
                        cancelled_at: Some(now),
                    },
                ),
            },
            None => None,
        },
        ending is Some <==> (round matches Some(stands) && stands.cancelled_at is None),
        ending matches Some(ends) ==> {
            &&& ends.cancelled_at == Some(now)
            &&& ends.closed_at is Some
            &&& round->0.closed_at is Some ==> ends.closed_at == round->0.closed_at
            &&& round->0.closed_at is None ==> ends.closed_at == Some(now)
        },
{
    match round {
        None => None,
        Some(stands) => match stands.cancelled_at {
            Some(_) => None,
            None => {
                let closed_at: Instant = match stands.closed_at {
                    Some(at) => at,
                    None => now,
                };
                Some(Ending { closed_at: Some(closed_at), cancelled_at: Some(now) })
            },
        },
    }
}

/// The verdict a word stands for, refused when it is not one somebody can give.
pub fn decision(text: &str) -> (verdict: Result<Verdict, ProofRefusal>)
    ensures
        match verdict {
            Ok(given) => given != Verdict::Pending && text@ == given.chars(),
            Err(refusal) => {
                &&& refusal matches ProofRefusal::NotAVerdict(word)
                &&& word@ == text@
                &&& forall|given: Verdict|
                    text@ == #[trigger] given.chars() ==> given == Verdict::Pending
            },
        },
{
    match Verdict::parse_decision(text) {
        Some(given) => Ok(given),
        None => Err(ProofRefusal::NotAVerdict(text.to_owned())),
    }
}

/// One approver's standing on a round.
#[derive(Debug, Clone, PartialEq, Eq)]
pub struct Reviewer {
    pub identity_id: Uuid,
    pub verdict: Verdict,
    pub note: String,
    pub decided_at: Option<Instant>,
}

/// One approver's row.
#[derive(Debug, Clone, PartialEq, Eq)]
pub struct ReviewerRow {
    pub identity_id: Uuid,
    pub verdict: String,
    pub note: String,
    pub decided_at: Option<Instant>,
}

/// A round's row.
#[derive(Debug, Clone, PartialEq, Eq)]
pub struct RoundRow {
    pub id: Uuid,
    pub title: String,
    pub brief: String,
    pub number: i32,
    pub supersedes: Option<Uuid>,
    pub due_at: Option<Instant>,
    pub requested_by: Option<Uuid>,
    pub created_at: Instant,
    pub closed_at: Option<Instant>,
    pub cancelled_at: Option<Instant>,
}

/// A round as read back.
#[derive(Debug, Clone, PartialEq, Eq)]
pub struct Round {
    pub id: Uuid,
    pub title: String,
    pub brief: String,
    pub number: i32,
    pub supersedes: Option<Uuid>,
    pub due_at: Option<Instant>,
    pub requested_by: Option<Uuid>,
    pub created_at: Instant,
    pub closed_at: Option<Instant>,
    /// Derived from the verdicts.
    pub outcome: Outcome,
    /// How many assets are still in it.
    pub asset_count: i64,
    pub reviewers: Vec<Reviewer>,
}

/// How many of the approvers gave `verdict`.
pub open spec fn tally(reviewers: Seq<Reviewer>, verdict: Verdict) -> int
    decreases reviewers.len(),
{
    if reviewers.len() == 0 {
        0
    } else {
        tally(reviewers.drop_last(), verdict) + if reviewers.last().verdict == verdict {
            1int
        } else {
            0int
        }
    }
}

/// Whether a row's verdict is one this library knows.
pub open spec fn verdict_known(row: ReviewerRow) -> bool {
    exists|verdict: Verdict| row.verdict@ == #[trigger] verdict.chars()
}

/// Whether an approver is what their row says.
pub open spec fn reads_row(reviewer: Reviewer, row: ReviewerRow) -> bool {
    &&& reviewer.identity_id == row.identity_id
    &&& row.verdict@ == reviewer.verdict.chars()
    &&& reviewer.note == row.note
    &&& reviewer.decided_at == row.decided_at
}

/// A round from its row and its approvers' rows. The outcome comes from the verdicts just read, so it and the
/// approvers cannot disagree.
pub fn hydrate(
    row: RoundRow,
    reviewer_rows: Vec<ReviewerRow>,
    asset_count: i64,
) -> (round: Result<Round, Error>)
    requires
        reviewer_rows@.len() < i64::MAX,
    ensures
        match round {
            Ok(round) => {
                &&& round.reviewers@.len() == reviewer_rows@.len()
                &&& forall|i: int|
                    0 <= i < reviewer_rows@.len() ==> reads_row(
                        #[trigger] round.reviewers@[i],
                        reviewer_rows@[i],
                    )
                &&& round.outcome == outcome_rule(
                    row.cancelled_at is Some,
                    tally(round.reviewers@, Verdict::Pending),
                    tally(round.reviewers@, Verdict::ChangesRequested),
                )
                &&& round.asset_count == asset_count
                &&& round.id == row.id
                &&& round.title == row.title
                &&& round.brief == row.brief
                &&& round.number == row.number
                &&& round.supersedes == row.supersedes
                &&& round.due_at == row.due_at
                &&& round.requested_by == row.requested_by
                &&& round.created_at == row.created_at
                &&& round.closed_at == row.closed_at
            },
            Err(error) => {
                &&& error matches Error::Migrate(detail)
                &&& exists|i: int|
                    {
                        &&& 0 <= i < reviewer_rows@.len()
                        &&& !verdict_known(#[trigger] reviewer_rows@[i])
                        &&& detail@ == "unknown proofing verdict "@ + quoted_chars(
                            reviewer_rows@[i].verdict@,
                        )
                        &&& forall|j: int|
                            0 <= j < i ==> verdict_known(#[trigger] reviewer_rows@[j])
                    }
            },
        },
{
    let ghost rows = reviewer_rows@;
    let mut reviewers: Vec<Reviewer> = Vec::new();
    let mut pending: i64 = 0;
    let mut changes: i64 = 0;
    for reviewer in each: reviewer_rows
        invariant
            each.seq() == rows,
            rows.len() < i64::MAX,
            reviewers@.len() == each.index(),
            forall|i: int|
                0 <= i < each.index() ==> reads_row(#[trigger] reviewers@[i], rows[i]),
            forall|i: int| 0 <= i < each.index() ==> verdict_known(#[trigger] rows[i]),
            0 <= pending <= each.index(),
            0 <= changes <= each.index(),
            pending == tally(reviewers@, Verdict::Pending),
            changes == tally(reviewers@, Verdict::ChangesRequested),
    {
        let ghost before = reviewers@;
        let verdict = match Verdict::parse(reviewer.verdict.as_str()) {
            Some(verdict) => verdict,
            None => {
                let mut detail = "unknown proofing verdict ".to_owned();
                detail.append(quoted(reviewer.verdict.as_str()).as_str());
                proof {
                    assert(rows[each.index()] == reviewer);
                    assert(!verdict_known(rows[each.index()]));
                }
                return Err(Error::Migrate(detail));
            },
        };
        match verdict {
            Verdict::Pending => pending = pending + 1,
            Verdict::ChangesRequested => changes = changes + 1,
            Verdict::Approved => {},
        }
        proof {
            assert(reviewer.verdict@ == verdict.chars());
            assert(verdict_known(reviewer));
        }
        reviewers.push(
            Reviewer {
                identity_id: reviewer.identity_id,
                verdict,
                note: reviewer.note,
                decided_at: reviewer.decided_at,
            },
        );
        proof {
            assert(reviewers@.drop_last() =~= before);
        }
    }
    Ok(
        Round {
            id: row.id,
            title: row.title,
            brief: row.brief,
            number: row.number,
            supersedes: row.supersedes,
            due_at: row.due_at,
            requested_by: row.requested_by,
            created_at: row.created_at,
            closed_at: row.closed_at,
            outcome: decide_outcome(row.cancelled_at.is_some(), pending, changes),
            asset_count,
            reviewers,
        },
    )
}

/// Whether a caller who can see `visible` of a round's `assets` may see the round: only when they see every one
/// of them, and there is one. Showing part of a round would disclose that the set is larger.
pub fn may_read(assets: &Vec<Uuid>, visible: &Vec<Uuid>) -> (yes: bool)
    ensures
        yes == (assets@.len() > 0 && forall|i: int|
            0 <= i < assets@.len() ==> visible@.contains(#[trigger] assets@[i])),
{
    proof {
        a_round_is_all_or_nothing(assets@, visible@);
    }
    assets.len() > 0 && unseen(assets, visible) == 0
}

/// The statement that reads a round's assets in the order they were put in.
pub fn assets_in(round_id: Uuid) -> (statement: Statement)
    ensures
        query(statement) == Query::new(
            "SELECT a.asset_id FROM proof_round_assets a WHERE a.round_id = "@,
        ).bind(Bind::Id(round_id)).push(" ORDER BY a.position, a.asset_id"@),
{
    let mut statement = Statement::new(
        "SELECT a.asset_id FROM proof_round_assets a WHERE a.round_id = ",
    );
    push_bind_id(&mut statement, round_id);
    push(&mut statement, " ORDER BY a.position, a.asset_id");
    statement
}

/// How many assets a round is said to hold.
pub fn asset_count(assets: &Vec<Uuid>) -> (total: i64)
    ensures
        total == counted(assets@.len()),
{
    count(assets.len())
}

/// How many rounds a list reads when `limit` are asked for.
pub fn list_limit(limit: i64) -> (effective: i64)
    ensures
        effective == clamped(limit as int, 1, 200),
        1 <= effective <= 200,
        1 <= limit <= 200 ==> effective == limit,
{
    clamp(limit, 1, 200)
}

/// One asset in a round's snapshot.
#[derive(Debug, Clone, PartialEq, Eq)]
pub struct Item {
    pub asset_id: Uuid,
    pub position: i32,
    pub filename: String,
    pub mime: String,
}

proof fn lemma_tally_bounds(reviewers: Seq<Reviewer>, verdict: Verdict)
    ensures
        tally(reviewers, verdict) >= 0,
        tally(reviewers, verdict) > 0 <==> exists|i: int|
            0 <= i < reviewers.len() && (#[trigger] reviewers[i]).verdict == verdict,
    decreases reviewers.len(),
{
    if reviewers.len() > 0 {
        let front = reviewers.drop_last();
        lemma_tally_bounds(front, verdict);
        if exists|i: int| 0 <= i < front.len() && (#[trigger] front[i]).verdict == verdict {
            let i = choose|i: int| 0 <= i < front.len() && (#[trigger] front[i]).verdict == verdict;
            assert(reviewers[i].verdict == verdict);
        }
        if reviewers.last().verdict == verdict {
            assert(reviewers[reviewers.len() - 1].verdict == verdict);
        }
        if exists|i: int| 0 <= i < reviewers.len() && (#[trigger] reviewers[i]).verdict == verdict {
            let i = choose|i: int|
                0 <= i < reviewers.len() && (#[trigger] reviewers[i]).verdict == verdict;
            if i < front.len() {
                assert(front[i].verdict == verdict);
            }
        }
    }
}

/// What a round that was not cancelled comes to: changes are requested exactly when some approver requests them,
/// it is approved exactly when every approver approved, and it is open otherwise.
pub proof fn the_outcome_follows_the_verdicts(reviewers: Seq<Reviewer>)
    ensures
        ({
            let outcome = outcome_rule(
                false,
                tally(reviewers, Verdict::Pending),
                tally(reviewers, Verdict::ChangesRequested),
            );
            &&& outcome == Outcome::ChangesRequested <==> exists|i: int|
                0 <= i < reviewers.len() && (#[trigger] reviewers[i]).verdict
                    == Verdict::ChangesRequested
            &&& outcome == Outcome::Approved <==> forall|i: int|
                0 <= i < reviewers.len() ==> (#[trigger] reviewers[i]).verdict == Verdict::Approved
            &&& outcome != Outcome::Cancelled
        }),
{
    lemma_tally_bounds(reviewers, Verdict::Pending);
    lemma_tally_bounds(reviewers, Verdict::ChangesRequested);
    let outcome = outcome_rule(
        false,
        tally(reviewers, Verdict::Pending),
        tally(reviewers, Verdict::ChangesRequested),
    );
    if outcome == Outcome::Approved {
        assert forall|i: int| 0 <= i < reviewers.len() implies (#[trigger] reviewers[i]).verdict
            == Verdict::Approved by {
            if reviewers[i].verdict == Verdict::Pending {
                assert(tally(reviewers, Verdict::Pending) > 0);
            }
            if reviewers[i].verdict == Verdict::ChangesRequested {
                assert(tally(reviewers, Verdict::ChangesRequested) > 0);
            }
        }
    }
}

/// A cancellation wins over every verdict.
pub proof fn a_cancelled_round_stays_cancelled(pending: int, changes_requested: int)
    ensures
        outcome_rule(true, pending, changes_requested) == Outcome::Cancelled,
{
}

/// An approver is read as their row says: who, what they wrote and when, and the verdict that the row's word names.
pub proof fn an_approver_reads_as_their_row(reviewer: Reviewer, row: ReviewerRow)
    requires
        reads_row(reviewer, row),
    ensures
        reviewer.identity_id == row.identity_id,
        reviewer.note@ == row.note@,
        reviewer.decided_at == row.decided_at,
        reviewer.verdict == Verdict::Pending <==> row.verdict@ == "pending"@,
        reviewer.verdict == Verdict::Approved <==> row.verdict@ == "approved"@,
        reviewer.verdict == Verdict::ChangesRequested <==> row.verdict@ == "changes_requested"@,
{
    assert(Verdict::Pending.chars() == "pending"@);
    assert(Verdict::Approved.chars() == "approved"@);
    assert(Verdict::ChangesRequested.chars() == "changes_requested"@);
    if row.verdict@ == "pending"@ {
        verdict_spellings_are_distinct(reviewer.verdict, Verdict::Pending);
    }
    if row.verdict@ == "approved"@ {
        verdict_spellings_are_distinct(reviewer.verdict, Verdict::Approved);
    }
    if row.verdict@ == "changes_requested"@ {
        verdict_spellings_are_distinct(reviewer.verdict, Verdict::ChangesRequested);
    }
}

/// One more approval never undoes an outcome, and one request for changes decides a round that nobody cancelled: whatever
/// the others said, the round asks for changes.
pub proof fn one_request_for_changes_is_enough(cancelled: bool, pending: int, changes_requested: int)
    requires
        pending >= 0,
        changes_requested >= 0,
    ensures
        !cancelled ==> outcome_rule(cancelled, pending, changes_requested + 1) == Outcome::ChangesRequested,
        !cancelled ==> outcome_rule(cancelled, pending + 1, 0) == Outcome::Open,
        !cancelled ==> outcome_rule(cancelled, 0, 0) == Outcome::Approved,
        cancelled ==> outcome_rule(cancelled, pending, changes_requested) == Outcome::Cancelled,
{
}

/// The number of assets out of scope is the number of those asked for that are not visible.
pub proof fn what_is_out_of_scope_is_counted(asked: Seq<Uuid>, visible: Seq<Uuid>)
    ensures
        unseen_count(asked, visible) == asked.filter(|id: Uuid| !visible.contains(id)).len(),
    decreases asked.len(),
{
    reveal(Seq::filter);
    if asked.len() > 0 {
        what_is_out_of_scope_is_counted(asked.drop_last(), visible);
    }
}

/// The snapshot keeps the order the assets were given in: a place is the asset's own index, and no later asset has an
/// earlier place.
pub proof fn the_snapshot_keeps_its_order(index: int, later: int)
    requires
        0 <= index <= later,
    ensures
        snapshot_position(index) <= snapshot_position(later),
        snapshot_position(index) <= index,
        index <= i32::MAX ==> snapshot_position(index) == index,
{
}

// ----------------------------------------------------------------------------------------------------
// Commands
// ----------------------------------------------------------------------------------------------------

pub const NUMBER_OF: &'static str = "SELECT number FROM proof_rounds WHERE id = $1";

/// A round's number.
pub fn number_of(round_id: Option<Uuid>) -> (command: Command)
    ensures
        command.says("SELECT number FROM proof_rounds WHERE id = $1"@, seq![Given::MaybeId(round_id)]),
{
    Command::new(NUMBER_OF, vec![Value::MaybeId(round_id)])
}

pub const INSERT: &'static str =
    "INSERT INTO proof_rounds (id, title, brief, number, supersedes, due_at, requested_by) VALUES ($1, $2, \
     $3, $4, $5, $6, $7)";

/// A new round.
pub fn insert(id: Uuid, round: &OpenedRound, new: &NewRound) -> (command: Command)
    ensures
        command.says(
            "INSERT INTO proof_rounds (id, title, brief, number, supersedes, due_at, requested_by) VALUES ($1, $2, \
             $3, $4, $5, $6, $7)"@,
            seq![
                Given::Id(id), Given::Text(round.title@), Given::Text(round.brief@),
                Given::Whole(round.number), Given::MaybeId(new.supersedes), Given::MaybeAt(new.due_at),
                Given::MaybeId(new.requested_by),
            ],
        ),
{
    Command::new(
        INSERT,
        vec![
            Value::Id(id), as_text(round.title.as_str()), as_text(round.brief.as_str()),
            Value::Whole(round.number), Value::MaybeId(new.supersedes), Value::MaybeAt(new.due_at),
            Value::MaybeId(new.requested_by),
        ],
    )
}

pub const INSERT_ASSET: &'static str =
    "INSERT INTO proof_round_assets (round_id, asset_id, position) VALUES ($1, $2, $3) ON CONFLICT \
     (round_id, asset_id) DO NOTHING";

/// One of the assets of a round.
pub fn insert_asset(round_id: Uuid, asset_id: Uuid, position: i32) -> (command: Command)
    ensures
        command.says(
            "INSERT INTO proof_round_assets (round_id, asset_id, position) VALUES ($1, $2, $3) ON CONFLICT \
             (round_id, asset_id) DO NOTHING"@,
            seq![
                Given::Id(round_id), Given::Id(asset_id), Given::Whole(position),
            ],
        ),
{
    Command::new(INSERT_ASSET, vec![Value::Id(round_id), Value::Id(asset_id), Value::Whole(position)])
}

pub const INSERT_APPROVER: &'static str =
    "INSERT INTO proof_round_reviewers (round_id, identity_id) VALUES ($1, $2) ON CONFLICT (round_id, \
     identity_id) DO NOTHING";

/// One of those a round asks.
pub fn insert_approver(round_id: Uuid, identity_id: Uuid) -> (command: Command)
    ensures
        command.says(
            "INSERT INTO proof_round_reviewers (round_id, identity_id) VALUES ($1, $2) ON CONFLICT (round_id, \
             identity_id) DO NOTHING"@,
            seq![Given::Id(round_id), Given::Id(identity_id)],
        ),
{
    Command::new(INSERT_APPROVER, vec![Value::Id(round_id), Value::Id(identity_id)])
}

/// Everything that opening a round writes: the round, its assets in their order, and those it asks.
#[verifier::loop_isolation(false)]
pub fn opening(id: Uuid, round: &OpenedRound, new: &NewRound) -> (commands: Vec<Command>)
    ensures
        commands@.len() == 1 + round.assets@.len() + new.reviewer_ids@.len(),
        commands@[0].says(
            INSERT@,
            seq![
                Given::Id(id), Given::Text(round.title@), Given::Text(round.brief@),
                Given::Whole(round.number), Given::MaybeId(new.supersedes), Given::MaybeAt(new.due_at),
                Given::MaybeId(new.requested_by),
            ],
        ),
        forall|i: int|
            0 <= i < round.assets@.len() ==> (#[trigger] commands@[1 + i]).says(
                INSERT_ASSET@,
                seq![
                    Given::Id(id), Given::Id(round.assets@[i].0), Given::Whole(round.assets@[i].1),
                ],
            ),
        forall|i: int|
            0 <= i < new.reviewer_ids@.len() ==> (#[trigger] commands@[1 + round.assets@.len() + i]).says(
                INSERT_APPROVER@,
                seq![Given::Id(id), Given::Id(new.reviewer_ids@[i])],
            ),
{
    let mut commands: Vec<Command> = Vec::new();
    commands.push(self::insert(id, round, new));
    let mut i: usize = 0;
    while i < round.assets.len()
        invariant
            i <= round.assets@.len(),
            commands@.len() == 1 + i,
            commands@[0].says(
                INSERT@,
                seq![
                    Given::Id(id), Given::Text(round.title@), Given::Text(round.brief@),
                    Given::Whole(round.number), Given::MaybeId(new.supersedes),
                    Given::MaybeAt(new.due_at), Given::MaybeId(new.requested_by),
                ],
            ),
            forall|k: int|
                0 <= k < i ==> (#[trigger] commands@[1 + k]).says(
                    INSERT_ASSET@,
                    seq![
                        Given::Id(id), Given::Id(round.assets@[k].0), Given::Whole(round.assets@[k].1),
                    ],
                ),
        decreases round.assets@.len() - i,
    {
        let (asset_id, position) = round.assets[i];
        commands.push(insert_asset(id, asset_id, position));
        i += 1;
    }
    let ghost written = commands@;
    let mut j: usize = 0;
    while j < new.reviewer_ids.len()
        invariant
            j <= new.reviewer_ids@.len(),
            commands@.len() == written.len() + j,
            commands@.take(written.len() as int) =~= written,
            forall|k: int|
                0 <= k < j ==> (#[trigger] commands@[1 + round.assets@.len() + k]).says(
                    INSERT_APPROVER@,
                    seq![Given::Id(id), Given::Id(new.reviewer_ids@[k])],
                ),
        decreases new.reviewer_ids@.len() - j,
    {
        commands.push(insert_approver(id, new.reviewer_ids[j]));
        j += 1;
    }
    proof {
        assert(commands@[0] == written[0]) by {
            assert(commands@.take(written.len() as int)[0] == written[0]);
        }
        assert forall|k: int| 0 <= k < round.assets@.len() implies (#[trigger] commands@[1 + k]).says(
            INSERT_ASSET@,
            seq![Given::Id(id), Given::Id(round.assets@[k].0), Given::Whole(round.assets@[k].1)],
        ) by {
            assert(commands@.take(written.len() as int)[1 + k] == written[1 + k]);
        }
    }
    commands
}

pub const CLOSED_AT: &'static str = "SELECT closed_at FROM proof_rounds WHERE id = $1";

/// When a round was closed.
pub fn closed_at(round_id: Uuid) -> (command: Command)
    ensures
        command.says("SELECT closed_at FROM proof_rounds WHERE id = $1"@, seq![Given::Id(round_id)]),
{
    Command::new(CLOSED_AT, vec![Value::Id(round_id)])
}

pub const WRITE_DECISION: &'static str =
    "UPDATE proof_round_reviewers SET verdict = $3, note = $4, decided_at = now() WHERE round_id = $1 AND \
     identity_id = $2";

/// What one of those asked said, with a note kept trimmed.
pub fn write_verdict(
    round_id: Uuid,
    identity_id: Uuid,
    verdict: Verdict,
    note: &str,
) -> (command: Command)
    ensures
        command.says(
            "UPDATE proof_round_reviewers SET verdict = $3, note = $4, decided_at = now() WHERE round_id = $1 AND \
             identity_id = $2"@,
            seq![
                Given::Id(round_id), Given::Id(identity_id), Given::Text(verdict.chars()),
                Given::Text(trimmed(note@)),
            ],
        ),
{
    Command::new(
        WRITE_DECISION,
        vec![
            Value::Id(round_id), Value::Id(identity_id), as_text(verdict.as_str()),
            as_text(stored_note(note)),
        ],
    )
}

pub const VERDICTS: &'static str =
    "SELECT r.cancelled_at IS NOT NULL, count(v.*) FILTER (WHERE v.verdict = 'pending'), count(v.*) FILTER \
     (WHERE v.verdict = 'changes_requested') FROM proof_rounds r LEFT JOIN proof_round_reviewers v ON \
     v.round_id = r.id WHERE r.id = $1 GROUP BY r.id, r.cancelled_at";

/// How a round stands.
pub fn verdicts(round_id: Uuid) -> (command: Command)
    ensures
        command.says(
            "SELECT r.cancelled_at IS NOT NULL, count(v.*) FILTER (WHERE v.verdict = 'pending'), count(v.*) FILTER \
             (WHERE v.verdict = 'changes_requested') FROM proof_rounds r LEFT JOIN proof_round_reviewers v ON \
             v.round_id = r.id WHERE r.id = $1 GROUP BY r.id, r.cancelled_at"@,
            seq![Given::Id(round_id)],
        ),
{
    Command::new(VERDICTS, vec![Value::Id(round_id)])
}

pub const CLOSE: &'static str =
    "UPDATE proof_rounds SET closed_at = now() WHERE id = $1 AND closed_at IS NULL";

/// A round, closed now unless it was closed before.
pub fn close(round_id: Uuid) -> (command: Command)
    ensures
        command.says(
            "UPDATE proof_rounds SET closed_at = now() WHERE id = $1 AND closed_at IS NULL"@,
            seq![Given::Id(round_id)],
        ),
{
    Command::new(CLOSE, vec![Value::Id(round_id)])
}

pub const HELD_ENDING: &'static str =
    "SELECT closed_at, cancelled_at FROM proof_rounds WHERE id = $1 FOR UPDATE";

/// How a round ended, held until the transaction ends.
pub fn held_ending(round_id: Uuid) -> (command: Command)
    ensures
        command.says(
            "SELECT closed_at, cancelled_at FROM proof_rounds WHERE id = $1 FOR UPDATE"@,
            seq![Given::Id(round_id)],
        ),
{
    Command::new(HELD_ENDING, vec![Value::Id(round_id)])
}

pub const WRITE_ENDING: &'static str =
    "UPDATE proof_rounds SET cancelled_at = $3, cancelled_by = $2, closed_at = $4 WHERE id = $1";

/// How a round ended, and who cancelled it.
pub fn write_ending(
    round_id: Uuid,
    cancelled_by: Option<Uuid>,
    ending: Ending,
) -> (command: Command)
    ensures
        command.says(
            "UPDATE proof_rounds SET cancelled_at = $3, cancelled_by = $2, closed_at = $4 WHERE id = $1"@,
            seq![
                Given::Id(round_id), Given::MaybeId(cancelled_by), Given::MaybeAt(ending.cancelled_at),
                Given::MaybeAt(ending.closed_at),
            ],
        ),
{
    Command::new(
        WRITE_ENDING,
        vec![
            Value::Id(round_id), Value::MaybeId(cancelled_by), Value::MaybeAt(ending.cancelled_at),
            Value::MaybeAt(ending.closed_at),
        ],
    )
}

pub const ASKED: &'static str =
    "SELECT identity_id, verdict, note, decided_at FROM proof_round_reviewers WHERE round_id = $1 ORDER BY \
     added_at, identity_id";

/// Those a round asked, and what they said.
pub fn asked(round_id: Uuid) -> (command: Command)
    ensures
        command.says(
            "SELECT identity_id, verdict, note, decided_at FROM proof_round_reviewers WHERE round_id = $1 ORDER BY \
             added_at, identity_id"@,
            seq![Given::Id(round_id)],
        ),
{
    Command::new(ASKED, vec![Value::Id(round_id)])
}

pub const READ: &'static str =
    "SELECT id, title, brief, number, supersedes, due_at, requested_by, created_at, closed_at, cancelled_at \
     FROM proof_rounds WHERE id = $1";

/// One round.
pub fn read(round_id: Uuid) -> (command: Command)
    ensures
        command.says(
            "SELECT id, title, brief, number, supersedes, due_at, requested_by, created_at, closed_at, cancelled_at \
             FROM proof_rounds WHERE id = $1"@,
            seq![Given::Id(round_id)],
        ),
{
    Command::new(READ, vec![Value::Id(round_id)])
}

pub const LIST: &'static str =
    "SELECT id, title, brief, number, supersedes, due_at, requested_by, created_at, closed_at, cancelled_at \
     FROM proof_rounds ORDER BY created_at DESC LIMIT $1";

/// Rounds, newest first.
pub fn list(limit: i64) -> (command: Command)
    ensures
        command.says(
            "SELECT id, title, brief, number, supersedes, due_at, requested_by, created_at, closed_at, cancelled_at \
             FROM proof_rounds ORDER BY created_at DESC LIMIT $1"@,
            seq![Given::Int(clamped(limit as int, 1, 200) as i64)],
        ),
{
    Command::new(LIST, vec![Value::Int(list_limit(limit))])
}

pub const WAITING_ON: &'static str =
    "SELECT r.id, r.title, r.brief, r.number, r.supersedes, r.due_at, r.requested_by, r.created_at, \
     r.closed_at, r.cancelled_at FROM proof_rounds r JOIN proof_round_reviewers v ON v.round_id = r.id \
     WHERE v.identity_id = $1 AND v.verdict = 'pending' AND r.closed_at IS NULL ORDER BY r.due_at NULLS \
     LAST, r.created_at";

/// The open rounds that wait for one person, the soonest due first.
pub fn waiting_on(identity_id: Uuid) -> (command: Command)
    ensures
        command.says(
            "SELECT r.id, r.title, r.brief, r.number, r.supersedes, r.due_at, r.requested_by, r.created_at, \
             r.closed_at, r.cancelled_at FROM proof_rounds r JOIN proof_round_reviewers v ON v.round_id = r.id \
             WHERE v.identity_id = $1 AND v.verdict = 'pending' AND r.closed_at IS NULL ORDER BY r.due_at NULLS \
             LAST, r.created_at"@,
            seq![Given::Id(identity_id)],
        ),
{
    Command::new(WAITING_ON, vec![Value::Id(identity_id)])
}

pub const ITEMS: &'static str =
    "SELECT r.asset_id, r.position, a.filename, a.mime FROM proof_round_assets r JOIN assets a ON a.id = \
     r.asset_id WHERE r.round_id = $1 AND a.status <> 'deleted' ORDER BY r.position, r.asset_id";

/// A round's assets, in order.
pub fn items(round_id: Uuid) -> (command: Command)
    ensures
        command.says(
            "SELECT r.asset_id, r.position, a.filename, a.mime FROM proof_round_assets r JOIN assets a ON a.id = \
             r.asset_id WHERE r.round_id = $1 AND a.status <> 'deleted' ORDER BY r.position, r.asset_id"@,
            seq![Given::Id(round_id)],
        ),
{
    Command::new(ITEMS, vec![Value::Id(round_id)])
}

} // verus!
