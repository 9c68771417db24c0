//! Bulk operations: one change applied to a snapshotted set of assets.
//!
//! What is served next depends on each item's own state and never on a cursor, so a worker that dies resumes
//! exactly. The terminal state is derived from the counters: an operation with failures cannot be reported
//! complete.

use crate::commands::{as_ids, as_maybe_str, as_text, Command, Given, Value};
use crate::json::Json;
use crate::text::{opt_str_chars, same, uuid_chars, uuid_text, wrapped};
use crate::{count, counted, sorted_once, Error, Instant, Uuid};
use vstd::prelude::*;

verus! {

/// Where an operation has got to.
#[derive(Debug, Clone, Copy, PartialEq, Eq, Structural)]
pub enum State {
    Queued,
    Running,
    Paused,
    Completed,
    /// Finished, with failures among what was done.
    Partial,
    Failed,
    Cancelled,
}

impl State {
    /// The column's spelling.
    pub open spec fn chars(self) -> Seq<char> {
        match self {
            State::Queued => "queued"@,
            State::Running => "running"@,
            State::Paused => "paused"@,
            State::Completed => "completed"@,
            State::Partial => "partial"@,
            State::Failed => "failed"@,
            State::Cancelled => "cancelled"@,
        }
    }

    /// The column's spelling.
    pub fn as_str(self) -> (text: &'static str)
        ensures
            text@ == self.chars(),
            text@ == match self {
                State::Queued => "queued"@,
                State::Running => "running"@,
                State::Paused => "paused"@,
                State::Completed => "completed"@,
                State::Partial => "partial"@,
                State::Failed => "failed"@,
                State::Cancelled => "cancelled"@,
            },
    {
        match self {
            State::Queued => "queued",
            State::Running => "running",
            State::Paused => "paused",
            State::Completed => "completed",
            State::Partial => "partial",
            State::Failed => "failed",
            State::Cancelled => "cancelled",
        }
    }

    /// The value a spelling stands for; `None` for a spelling nothing has.
    pub fn parse(text: &str) -> (parsed: Option<State>)
        ensures
            match parsed {
                Some(value) => text@ == value.chars(),
                None => forall|value: State| text@ != #[trigger] value.chars(),
            },
            parsed == Some(State::Queued) ==> text@ == "queued"@,
            parsed == Some(State::Running) ==> text@ == "running"@,
            parsed == Some(State::Paused) ==> text@ == "paused"@,
            parsed == Some(State::Completed) ==> text@ == "completed"@,
            parsed == Some(State::Partial) ==> text@ == "partial"@,
            parsed == Some(State::Failed) ==> text@ == "failed"@,
            parsed == Some(State::Cancelled) ==> text@ == "cancelled"@,
            parsed is None ==> text@ != "queued"@ && text@ != "running"@ && text@ != "paused"@
                && text@ != "completed"@ && text@ != "partial"@ && text@ != "failed"@ && text@ != "cancelled"@,
    {
        if same(text, "queued") {
            Some(State::Queued)
        } else if same(text, "running") {
            Some(State::Running)
        } else if same(text, "paused") {
            Some(State::Paused)
        } else if same(text, "completed") {
            Some(State::Completed)
        } else if same(text, "partial") {
            Some(State::Partial)
        } else if same(text, "failed") {
            Some(State::Failed)
        } else if same(text, "cancelled") {
            Some(State::Cancelled)
        } else {
            None
        }
    }
}

/// Two values with one spelling are one value, so a spelling that is written reads back as what was written.
pub proof fn state_spellings_are_distinct(a: State, b: State)
    requires
        a.chars() == b.chars(),
    ensures
        a == b,
{
    reveal_strlit("queued");
    reveal_strlit("running");
    reveal_strlit("paused");
    reveal_strlit("completed");
    reveal_strlit("partial");
    reveal_strlit("failed");
    reveal_strlit("cancelled");
    assert("queued"@.len() == 6);
    assert("running"@.len() == 7);
    assert("paused"@.len() == 6);
    assert("completed"@.len() == 9);
    assert("partial"@.len() == 7);
    assert("failed"@.len() == 6);
    assert("cancelled"@.len() == 9);
    assert("queued"@[0] != "paused"@[0]);
    assert("queued"@[0] != "failed"@[0]);
    assert("running"@[0] != "partial"@[0]);
    assert("paused"@[0] != "failed"@[0]);
    assert("completed"@[1] != "cancelled"@[1]);
}

impl State {
    /// Whether an operation in this state has stopped for good.
    pub open spec fn terminal(self) -> bool {
        self == State::Completed || self == State::Partial || self == State::Failed || self
            == State::Cancelled
    }

    /// The state a start moves to, where a start is allowed.
    pub open spec fn after_start(self) -> Option<State> {
        if self == State::Queued || self == State::Paused {
            Some(State::Running)
        } else {
            None
        }
    }

    /// The state a pause moves to, where a pause is allowed.
    pub open spec fn after_pause(self) -> Option<State> {
        if self == State::Running {
            Some(State::Paused)
        } else {
            None
        }
    }

    /// The state a cancellation moves to, where it is allowed.
    pub open spec fn after_cancel(self) -> Option<State> {
        if self.terminal() {
            None
        } else {
            Some(State::Cancelled)
        }
    }

    /// The state finishing moves to, where it is allowed: chosen from what actually happened.
    pub open spec fn after_finish(self, done: int, failed: int) -> Option<State> {
        if self.terminal() {
            None
        } else if failed > 0 && done == 0 {
            Some(State::Failed)
        } else if failed > 0 {
            Some(State::Partial)
        } else {
            Some(State::Completed)
        }
    }

    /// Starts, or resumes, an operation.
    pub fn start(self) -> (next: Option<State>)
        ensures
            next == self.after_start(),
            next is Some <==> self == State::Queued || self == State::Paused,
            next matches Some(state) ==> state == State::Running,
    {
        match self {
            State::Queued | State::Paused => Some(State::Running),
            _ => None,
        }
    }

    /// Pauses a running operation, so that it can be resumed.
    pub fn pause(self) -> (next: Option<State>)
        ensures
            next == self.after_pause(),
            next is Some <==> self == State::Running,
            next matches Some(state) ==> state == State::Paused,
    {
        match self {
            State::Running => Some(State::Paused),
            _ => None,
        }
    }

    /// Cancels an operation. Work already applied stays applied.
    pub fn cancel(self) -> (next: Option<State>)
        ensures
            next == self.after_cancel(),
            next is Some <==> self == State::Queued || self == State::Running || self == State::Paused,
            next matches Some(state) ==> state == State::Cancelled,
    {
        match self {
            State::Queued | State::Running | State::Paused => Some(State::Cancelled),
            _ => None,
        }
    }

    /// Finishes an operation. The caller does not get to say "completed".
    pub fn finish(self, done: i64, failed: i64) -> (next: Option<State>)
        ensures
            next == self.after_finish(done as int, failed as int),
            next is Some <==> self == State::Queued || self == State::Running || self == State::Paused,
            next == Some(State::Completed) ==> failed <= 0,
            next == Some(State::Failed) ==> failed > 0 && done == 0,
            next == Some(State::Partial) ==> failed > 0 && done != 0,
            next matches Some(state) ==> state == State::Completed || state == State::Partial || state
                == State::Failed,
    {
        match self {
            State::Queued | State::Running | State::Paused => if failed > 0 && done == 0 {
                Some(State::Failed)
            } else if failed > 0 {
                Some(State::Partial)
            } else {
                Some(State::Completed)
            },
            _ => None,
        }
    }
}

/// When an operation that starts at `now` started: the first time it did.
pub fn started_at(already: Option<Instant>, now: Instant) -> (at: Instant)
    ensures
        at == match already {
            Some(first) => first,
            None => now,
        },
{
    match already {
        Some(first) => first,
        None => now,
    }
}

/// An operation as stored.
#[derive(Debug, Clone, PartialEq, Eq)]
pub struct Operation {
    pub id: Uuid,
    pub kind: String,
    pub actor_id: Option<Uuid>,
    pub target_count: i64,
    pub state: String,
    pub done_count: i64,
    pub failed_count: i64,
    /// The greatest asset id whose outcome has been recorded: a progress marker, not a cursor.
    pub resume_after: Option<Uuid>,
    pub params: Json,
    pub started_at: Option<Instant>,
    pub finished_at: Option<Instant>,
}

impl Operation {
    /// Whether the operation has stopped for good.
    pub fn is_terminal(&self) -> (yes: bool)
        ensures
            yes == exists|state: State| state.terminal() && #[trigger] state.chars() == self.state@,
            yes <==> self.state@ == "completed"@ || self.state@ == "partial"@ || self.state@ == "failed"@
                || self.state@ == "cancelled"@,
    {
        proof {
            assert(State::Completed.chars() == "completed"@);
            assert(State::Partial.chars() == "partial"@);
            assert(State::Failed.chars() == "failed"@);
            assert(State::Cancelled.chars() == "cancelled"@);
        }
        match State::parse(self.state.as_str()) {
            Some(state) => {
                proof {
                    assert forall|other: State| #[trigger] other.chars() == self.state@ implies other
                        == state by {
                        state_spellings_are_distinct(other, state);
                    }
                }
                match state {
                    State::Completed | State::Partial | State::Failed | State::Cancelled => true,
                    _ => false,
                }
            },
            None => false,
        }
    }
}

/// One asset's outcome.
#[derive(Debug, Clone, PartialEq, Eq)]
pub struct Item {
    pub asset_id: Uuid,
    pub state: String,
    pub reason: Option<String>,
}

/// What a dry run would do.
#[derive(Debug, Clone, PartialEq, Eq)]
pub struct DryRun {
    pub kind: String,
    /// How many assets the operation would touch: as many as creating it materialises.
    pub target_count: i64,
    /// A sample, to show rather than 40,000 rows.
    pub sample: Vec<Uuid>,
}

/// Longest sample a dry run returns.
pub const DRY_RUN_SAMPLE: usize = 20;

/// Reports what an operation would do, without recording anything.
pub fn dry_run(kind: &str, targets: &Vec<Uuid>) -> (run: DryRun)
    ensures
        run.kind@ == kind@,
        run.target_count == counted(targets@.to_set().len()),
        run.sample@ == targets@.take(
            if targets@.len() < DRY_RUN_SAMPLE {
                targets@.len() as int
            } else {
                DRY_RUN_SAMPLE as int
            },
        ),
        targets@.len() <= 20 ==> run.sample@ == targets@,
        targets@.len() > 20 ==> run.sample@.len() == 20,
{
    let mut sample: Vec<Uuid> = Vec::new();
    let mut i: usize = 0;
    while i < targets.len() && i < DRY_RUN_SAMPLE
        invariant
            i <= targets@.len(),
            i <= DRY_RUN_SAMPLE,
            sample@ =~= targets@.take(i as int),
        decreases targets@.len() - i,
    {
        sample.push(targets[i]);
        i += 1;
    }
    let unique = sorted_once(targets);
    proof {
        lemma_unique_count(unique@, targets@);
    }
    DryRun { kind: kind.to_owned(), target_count: count(unique.len()), sample }
}

/// A list that holds what another holds, each once and ascending, is as long as the other has distinct members.
proof fn lemma_unique_count(unique: Seq<Uuid>, targets: Seq<Uuid>)
    requires
        forall|i: int, j: int| 0 <= i < j < unique.len() ==> unique[i] < unique[j],
        forall|id: Uuid| unique.contains(id) <==> targets.contains(id),
    ensures
        unique.len() == targets.to_set().len(),
{
    assert(unique.no_duplicates());
    unique.unique_seq_to_set();
    assert(unique.to_set() =~= targets.to_set());
}

/// The assets of a new operation, each once and ascending; their number is what the operation counts to.
///
/// An operation over nothing is refused rather than recorded as instantly complete: it is a mis-built query or a
/// stale selection.
pub fn create(kind: &str, targets: &Vec<Uuid>) -> (unique: Result<Vec<Uuid>, Error>)
    ensures
        unique is Ok <==> targets@.len() > 0,
        unique matches Ok(ids) ==> {
            &&& forall|i: int, j: int| 0 <= i < j < ids@.len() ==> ids@[i] < ids@[j]
            &&& forall|id: Uuid| ids@.contains(id) <==> targets@.contains(id)
            &&& ids@.len() == targets@.to_set().len()
        },
        unique matches Err(error) ==> error matches Error::Unsupported(detail) && detail@ == "a "@
            + kind@
            + " operation over zero assets is a mis-built selection rather than an empty job"@,
{
    if targets.len() == 0 {
        return Err(
            Error::Unsupported(
                wrapped(
                    "a ",
                    kind,
                    " operation over zero assets is a mis-built selection rather than an empty job",
                ),
            ),
        );
    }
    let unique = sorted_once(targets);
    proof {
        lemma_unique_count(unique@, targets@);
    }
    Ok(unique)
}

/// What happened to one asset.
#[derive(Debug, Clone, Copy, PartialEq, Eq)]
pub enum ItemOutcome<'a> {
    Done,
    /// Deliberately not touched. Carries a reason: a silent skip is indistinguishable from a bug.
    Skipped(&'a str),
    Failed(&'a str),
}

/// Where one asset of an operation stands.
#[derive(Debug, Clone, Copy, PartialEq, Eq, Structural)]
pub enum Standing {
    Pending,
    Done,
    Skipped,
    Failed,
}

impl<'a> ItemOutcome<'a> {
    /// Where an asset with this outcome stands.
    pub open spec fn standing(self) -> Standing {
        match self {
            ItemOutcome::Done => Standing::Done,
            ItemOutcome::Skipped(_) => Standing::Skipped,
            ItemOutcome::Failed(_) => Standing::Failed,
        }
    }

    /// The state written for an asset with this outcome, and the reason beside it.
    pub fn written(self) -> (row: (&'static str, Option<&'a str>))
        ensures
            match self {
                ItemOutcome::Done => row.0@ == "done"@ && row.1 is None,
                ItemOutcome::Skipped(reason) => row.0@ == "skipped"@ && row.1 == Some(reason),
                ItemOutcome::Failed(reason) => row.0@ == "failed"@ && row.1 == Some(reason),
            },
    {
        match self {
            ItemOutcome::Done => ("done", None),
            ItemOutcome::Skipped(reason) => ("skipped", Some(reason)),
            ItemOutcome::Failed(reason) => ("failed", Some(reason)),
        }
    }
}

/// An operation's counters.
#[derive(Debug, Clone, Copy, PartialEq, Eq, Structural)]
pub struct Counters {
    pub done: i64,
    pub failed: i64,
    pub resume_after: Option<Uuid>,
    /// How many failures the error sample holds.
    pub sampled: usize,
}

/// Longest error sample an operation keeps.
pub const ERROR_SAMPLE: usize = 20;

impl Counters {
    /// The counters after the asset `asset_id` has left `pending` with `outcome`. A skipped asset counts as
    /// neither done nor failed; only a failure is sampled, and only while the sample has room.
    pub open spec fn after(self, asset_id: Uuid, standing: Standing) -> Counters {
        Counters {
            done: if standing == Standing::Done {
                (self.done + 1) as i64
            } else {
                self.done
            },
            failed: if standing == Standing::Failed {
                (self.failed + 1) as i64
            } else {
                self.failed
            },
            resume_after: Some(
                match self.resume_after {
                    Some(last) => if last > asset_id {
                        last
                    } else {
                        asset_id
                    },
                    None => asset_id,
                },
            ),
            sampled: if standing == Standing::Failed && self.sampled < ERROR_SAMPLE {
                (self.sampled + 1) as usize
            } else {
                self.sampled
            },
        }
    }
}

/// The counters once an outcome has been recorded. `transitioned` is whether the item was pending: a retried
/// worker re-recording the same asset changes nothing.
pub fn record_outcome(
    counters: Counters,
    asset_id: Uuid,
    outcome: ItemOutcome,
    transitioned: bool,
) -> (after: Counters)
    requires
        counters.done < i64::MAX,
        counters.failed < i64::MAX,
    ensures
        after == if transitioned {
            counters.after(asset_id, outcome.standing())
        } else {
            counters
        },
        !transitioned ==> after == counters,
        after.done == counters.done + if transitioned && outcome is Done {
            1int
        } else {
            0
        },
        after.failed == counters.failed + if transitioned && outcome is Failed {
            1int
        } else {
            0
        },
        after.sampled == counters.sampled + if transitioned && outcome is Failed && counters.sampled < 20 {
            1int
        } else {
            0
        },
        transitioned ==> {
            &&& after.resume_after matches Some(at)
            &&& at >= asset_id
            &&& at == asset_id || counters.resume_after == Some(at)
            &&& counters.resume_after matches Some(last) ==> at >= last
        },
{
    if !transitioned {
        return counters;
    }
    let resume_after = match counters.resume_after {
        Some(last) => if last > asset_id {
            Some(last)
        } else {
            Some(asset_id)
        },
        None => Some(asset_id),
    };
    match outcome {
        ItemOutcome::Done => Counters { done: counters.done + 1, resume_after, ..counters },
        ItemOutcome::Skipped(_) => Counters { resume_after, ..counters },
        ItemOutcome::Failed(_) => Counters {
            failed: counters.failed + 1,
            resume_after,
            sampled: if counters.sampled < ERROR_SAMPLE {
                counters.sampled + 1
            } else {
                counters.sampled
            },
            ..counters
        },
    }
}

/// The reason that joins the error sample: a failure's, while there is room.
pub fn samples<'a>(counters: Counters, outcome: ItemOutcome<'a>) -> (reason: Option<&'a str>)
    ensures
        reason == match outcome {
            ItemOutcome::Failed(why) => if counters.sampled < ERROR_SAMPLE {
                Some(why)
            } else {
                None
            },
            _ => None,
        },
{
    match outcome {
        ItemOutcome::Failed(why) => if counters.sampled < ERROR_SAMPLE {
            Some(why)
        } else {
            None
        },
        _ => None,
    }
}

/// The operation as it stands, or the complaint that it is gone. `during` says when it went.
pub fn present(
    found: Option<Operation>,
    id: Uuid,
    during: &str,
) -> (operation: Result<Operation, Error>)
    ensures
        match found {
            Some(inner) => operation == Ok::<Operation, Error>(inner),
            None => operation matches Err(Error::Inconsistent(detail)) && detail@
                == "bulk operation "@ + uuid_chars(id) + " vanished "@ + during@,
        },
{
    match found {
        Some(inner) => Ok(inner),
        None => {
            let mut detail = wrapped("bulk operation ", uuid_text(id).as_str(), " vanished ");
            detail.append(during);
            Err(Error::Inconsistent(detail))
        },
    }
}

// ----------------------------------------------------------------------------------------------------
// What the counters promise
// ----------------------------------------------------------------------------------------------------

/// How many items stand at `standing`.
pub open spec fn standing_count(items: Seq<Standing>, standing: Standing) -> int
    decreases items.len(),
{
    if items.len() == 0 {
        0
    } else {
        standing_count(items.drop_last(), standing) + if items.last() == standing {
            1int
        } else {
            0int
        }
    }
}

/// Whether the counters say what the items say.
pub open spec fn counters_true(counters: Counters, items: Seq<Standing>) -> bool {
    &&& counters.done == standing_count(items, Standing::Done)
    &&& counters.failed == standing_count(items, Standing::Failed)
}

proof fn lemma_standing_update(items: Seq<Standing>, i: int, to: Standing, counted: Standing)
    requires
        0 <= i < items.len(),
    ensures
        standing_count(items.update(i, to), counted) == standing_count(items, counted) - (if items[i]
            == counted {
            1int
        } else {
            0int
        }) + (if to == counted {
            1int
        } else {
            0int
        }),
    decreases items.len(),
{
    let now = items.update(i, to);
    if i == items.len() - 1 {
        assert(now.drop_last() =~= items.drop_last());
    } else {
        assert(now.drop_last() =~= items.drop_last().update(i, to));
        lemma_standing_update(items.drop_last(), i, to, counted);
    }
}

proof fn lemma_standing_total(items: Seq<Standing>)
    ensures
        standing_count(items, Standing::Done) >= 0,
        standing_count(items, Standing::Failed) >= 0,
        standing_count(items, Standing::Skipped) >= 0,
        standing_count(items, Standing::Pending) >= 0,
        standing_count(items, Standing::Done) + standing_count(items, Standing::Failed)
            + standing_count(items, Standing::Skipped) + standing_count(items, Standing::Pending)
            == items.len(),
    decreases items.len(),
{
    if items.len() > 0 {
        lemma_standing_total(items.drop_last());
    }
}

/// Recording keeps the counters true: whatever order outcomes arrive in and however often one is repeated, the
/// counters count the items that are done and that failed, and together never exceed the number of items.
pub proof fn recording_keeps_the_counters_true(
    counters: Counters,
    items: Seq<Standing>,
    at: int,
    asset_id: Uuid,
    standing: Standing,
)
    requires
        items.len() <= i64::MAX,
        0 <= at < items.len(),
        counters_true(counters, items),
        standing != Standing::Pending,
    ensures
        items[at] == Standing::Pending ==> counters_true(
            counters.after(asset_id, standing),
            items.update(at, standing),
        ),
        standing_count(items, Standing::Done) + standing_count(items, Standing::Failed)
            <= items.len(),
{
    lemma_standing_total(items);
    if items[at] == Standing::Pending {
        lemma_standing_update(items, at, standing, Standing::Done);
        lemma_standing_update(items, at, standing, Standing::Failed);
        lemma_standing_total(items.update(at, standing));
    }
}

/// When nothing is pending, everything that was not skipped has been counted.
pub proof fn a_finished_operation_counts_everything(counters: Counters, items: Seq<Standing>)
    requires
        counters_true(counters, items),
        standing_count(items, Standing::Pending) == 0,
    ensures
        counters.done + counters.failed + standing_count(items, Standing::Skipped) == items.len(),
{
    lemma_standing_total(items);
}

/// An operation with failures is never reported complete, and one without never as anything else.
pub proof fn failures_are_never_reported_complete(state: State, done: int, failed: int)
    requires
        state.after_finish(done, failed) is Some,
    ensures
        state.after_finish(done, failed) == Some(State::Completed) <==> failed <= 0,
        state.after_finish(done, failed)->0.terminal(),
{
}

/// Running, then paused, then running: a pause that is allowed leaves an operation that has not stopped for good and can
/// be started again, and a start that is allowed leaves one that runs and can be paused. Neither is allowed twice in a
/// row.
pub proof fn a_paused_operation_can_be_resumed(state: State)
    ensures
        state.after_pause() matches Some(next) ==> {
            &&& !state.terminal()
            &&& !next.terminal()
            &&& next != state
            &&& next.after_start() == Some(state)
            &&& next.after_pause() is None
        },
        state.after_start() matches Some(next) ==> {
            &&& !state.terminal()
            &&& !next.terminal()
            &&& next.after_start() is None
            &&& next.after_pause() matches Some(paused) && paused.after_start() == Some(next)
        },
        state == State::Running ==> state.after_pause() is Some,
        state.terminal() || state.after_start() is Some || state.after_pause() is Some,
{
}

/// What is not over can be ended, and what was ended is over: cancelling or finishing is allowed exactly while the
/// operation has not stopped for good, and leaves one that has. Only cancelling leaves it cancelled.
pub proof fn ending_an_operation_ends_it(state: State, done: int, failed: int)
    ensures
        state.after_cancel() is Some <==> !state.terminal(),
        state.after_finish(done, failed) is Some <==> !state.terminal(),
        state.after_cancel() matches Some(next) ==> next.terminal() && next == State::Cancelled,
        state.after_finish(done, failed) matches Some(next) ==> next.terminal() && next != State::Cancelled,
        state.after_finish(done, failed) == Some(State::Failed) ==> done == 0,
        state.after_finish(done, failed) == Some(State::Partial) ==> done != 0,
        !State::Queued.terminal() && !State::Running.terminal() && !State::Paused.terminal(),
{
}

/// An operation that has stopped for good stays as it is, whatever is asked of it.
pub proof fn a_terminal_state_is_final(state: State, done: int, failed: int)
    requires
        state.terminal(),
    ensures
        state.after_start() is None,
        state.after_pause() is None,
        state.after_cancel() is None,
        state.after_finish(done, failed) is None,
{
}

// ----------------------------------------------------------------------------------------------------
// Commands
// ----------------------------------------------------------------------------------------------------

/// What to run.
#[derive(Debug, Clone)]
pub struct OperationSpec<'a> {
    pub kind: &'a str,
    pub actor_id: Option<Uuid>,
    /// The predicate the target set came from, recorded for the audit trail and never evaluated again.
    pub predicate: Option<Json>,
    pub params: Json,
}

pub const INSERT: &'static str =
    "INSERT INTO bulk_operations (id, kind, actor_id, predicate, target_count, params, state) VALUES ($1, \
     $2, $3, $4, $5, $6, 'queued')";

/// A new operation, queued.
pub fn insert(id: Uuid, spec: OperationSpec, target_count: i64) -> (command: Command)
    ensures
        command.says(
            "INSERT INTO bulk_operations (id, kind, actor_id, predicate, target_count, params, state) VALUES ($1, \
             $2, $3, $4, $5, $6, 'queued')"@,
            seq![
                Given::Id(id), Given::Text(spec.kind@), Given::MaybeId(spec.actor_id),
                Given::MaybeJson(spec.predicate), Given::Int(target_count), Given::Json(spec.params),
            ],
        ),
{
    Command::new(
        INSERT,
        vec![
            Value::Id(id), as_text(spec.kind), Value::MaybeId(spec.actor_id),
            Value::MaybeJson(spec.predicate), Value::Int(target_count), Value::Json(spec.params),
        ],
    )
}

pub const INSERT_ITEMS: &'static str =
    "INSERT INTO bulk_operation_items (operation_id, asset_id, state) SELECT $1, unnested, 'pending' FROM \
     unnest($2::uuid[]) AS unnested ON CONFLICT DO NOTHING";

/// The targets of a new operation, each pending.
pub fn insert_items(id: Uuid, targets: &Vec<Uuid>) -> (command: Command)
    ensures
        command.says(
            "INSERT INTO bulk_operation_items (operation_id, asset_id, state) SELECT $1, unnested, 'pending' FROM \
             unnest($2::uuid[]) AS unnested ON CONFLICT DO NOTHING"@,
            seq![Given::Id(id), Given::Ids(targets@)],
        ),
{
    Command::new(INSERT_ITEMS, vec![Value::Id(id), as_ids(targets)])
}

pub const LOAD: &'static str =
    "SELECT id, kind, actor_id, target_count, state, done_count, failed_count, resume_after, params, \
     started_at, finished_at FROM bulk_operations WHERE id = $1";

/// An operation, by its identifier.
pub fn load(id: Uuid) -> (command: Command)
    ensures
        command.says(
            "SELECT id, kind, actor_id, target_count, state, done_count, failed_count, resume_after, params, \
             started_at, finished_at FROM bulk_operations WHERE id = $1"@,
            seq![Given::Id(id)],
        ),
{
    Command::new(LOAD, vec![Value::Id(id)])
}

pub const NEXT_BATCH: &'static str =
    "SELECT asset_id FROM bulk_operation_items WHERE operation_id = $1 AND state = 'pending' ORDER BY \
     asset_id LIMIT $2";

/// The next pending items, in the order of their identifiers. What is left is known by state and not by a cursor, so
/// that an item skipped once is not skipped for good.
pub fn next_batch(operation_id: Uuid, limit: i64) -> (command: Command)
    ensures
        command.says(
            "SELECT asset_id FROM bulk_operation_items WHERE operation_id = $1 AND state = 'pending' ORDER BY \
             asset_id LIMIT $2"@,
            seq![Given::Id(operation_id), Given::Int(limit)],
        ),
{
    Command::new(NEXT_BATCH, vec![Value::Id(operation_id), Value::Int(limit)])
}

pub const HELD_STATE: &'static str = "SELECT state FROM bulk_operations WHERE id = $1 FOR UPDATE";

/// An operation's state, held until the transaction ends.
pub fn held_state(id: Uuid) -> (command: Command)
    ensures
        command.says("SELECT state FROM bulk_operations WHERE id = $1 FOR UPDATE"@, seq![Given::Id(id)]),
{
    Command::new(HELD_STATE, vec![Value::Id(id)])
}

pub const HELD_COUNTERS: &'static str =
    "SELECT done_count, failed_count, resume_after, jsonb_array_length(error_sample) FROM bulk_operations \
     WHERE id = $1 FOR UPDATE";

/// An operation's counters, held until the transaction ends.
pub fn held_counters(operation_id: Uuid) -> (command: Command)
    ensures
        command.says(
            "SELECT done_count, failed_count, resume_after, jsonb_array_length(error_sample) FROM bulk_operations \
             WHERE id = $1 FOR UPDATE"@,
            seq![Given::Id(operation_id)],
        ),
{
    Command::new(HELD_COUNTERS, vec![Value::Id(operation_id)])
}

pub const WRITE_STARTED: &'static str =
    "UPDATE bulk_operations SET state = $2, started_at = $3 WHERE id = $1";

/// An operation that starts, or starts again.
pub fn write_started(id: Uuid, state: State, started_at: Instant) -> (command: Command)
    ensures
        command.says(
            "UPDATE bulk_operations SET state = $2, started_at = $3 WHERE id = $1"@,
            seq![
                Given::Id(id), Given::Text(state.chars()), Given::At(started_at),
            ],
        ),
{
    Command::new(WRITE_STARTED, vec![Value::Id(id), as_text(state.as_str()), Value::At(started_at)])
}

pub const WRITE_ITEM: &'static str =
    "UPDATE bulk_operation_items SET state = $3, reason = $4 WHERE operation_id = $1 AND asset_id = $2 AND \
     state = 'pending'";

/// One item's outcome, where it is still pending.
pub fn write_item(
    operation_id: Uuid,
    asset_id: Uuid,
    state: &str,
    reason: Option<&str>,
) -> (command: Command)
    ensures
        command.says(
            "UPDATE bulk_operation_items SET state = $3, reason = $4 WHERE operation_id = $1 AND asset_id = $2 AND \
             state = 'pending'"@,
            seq![
                Given::Id(operation_id), Given::Id(asset_id), Given::Text(state@),
                Given::MaybeText(opt_str_chars(reason)),
            ],
        ),
{
    Command::new(
        WRITE_ITEM,
        vec![
            Value::Id(operation_id), Value::Id(asset_id), as_text(state), as_maybe_str(reason),
        ],
    )
}

pub const WRITE_COUNTERS: &'static str =
    "UPDATE bulk_operations SET done_count = $2, failed_count = $3, resume_after = $4, error_sample = CASE \
     WHEN $6::text IS NULL THEN error_sample ELSE error_sample || jsonb_build_object('asset_id', $5::text, \
     'reason', $6::text) END WHERE id = $1";

/// An operation's counters after an asset's outcome, and the reason that joins its sample of errors, where one does.
pub fn write_counters(
    operation_id: Uuid,
    after: Counters,
    asset_id: Uuid,
    reason: Option<&str>,
) -> (command: Command)
    ensures
        command.says(
            "UPDATE bulk_operations SET done_count = $2, failed_count = $3, resume_after = $4, error_sample = CASE \
             WHEN $6::text IS NULL THEN error_sample ELSE error_sample || jsonb_build_object('asset_id', $5::text, \
             'reason', $6::text) END WHERE id = $1"@,
            seq![
                Given::Id(operation_id), Given::Int(after.done), Given::Int(after.failed),
                Given::MaybeId(after.resume_after), Given::Id(asset_id),
                Given::MaybeText(opt_str_chars(reason)),
            ],
        ),
{
    Command::new(
        WRITE_COUNTERS,
        vec![
            Value::Id(operation_id), Value::Int(after.done), Value::Int(after.failed),
            Value::MaybeId(after.resume_after), Value::Id(asset_id), as_maybe_str(reason),
        ],
    )
}

pub const WRITE_FINISHED: &'static str =
    "UPDATE bulk_operations SET state = $2, finished_at = $3 WHERE id = $1";

/// An operation that has ended.
pub fn write_finished(id: Uuid, state: State, finished_at: Instant) -> (command: Command)
    ensures
        command.says(
            "UPDATE bulk_operations SET state = $2, finished_at = $3 WHERE id = $1"@,
            seq![
                Given::Id(id), Given::Text(state.chars()), Given::At(finished_at),
            ],
        ),
{
    Command::new(WRITE_FINISHED, vec![Value::Id(id), as_text(state.as_str()), Value::At(finished_at)])
}

pub const WRITE_STATE: &'static str = "UPDATE bulk_operations SET state = $2 WHERE id = $1";

/// An operation that goes from one state to another, with no time to keep.
pub fn write_state(id: Uuid, state: State) -> (command: Command)
    ensures
        command.says(
            "UPDATE bulk_operations SET state = $2 WHERE id = $1"@,
            seq![Given::Id(id), Given::Text(state.chars())],
        ),
{
    Command::new(WRITE_STATE, vec![Value::Id(id), as_text(state.as_str())])
}

pub const FAILURES: &'static str =
    "SELECT asset_id, state, reason FROM bulk_operation_items WHERE operation_id = $1 AND state = 'failed' \
     ORDER BY asset_id LIMIT $2";

/// Every item that did not apply.
pub fn failures(operation_id: Uuid, limit: i64) -> (command: Command)
    ensures
        command.says(
            "SELECT asset_id, state, reason FROM bulk_operation_items WHERE operation_id = $1 AND state = 'failed' \
             ORDER BY asset_id LIMIT $2"@,
            seq![Given::Id(operation_id), Given::Int(limit)],
        ),
{
    Command::new(FAILURES, vec![Value::Id(operation_id), Value::Int(limit)])
}

pub const ITEMS: &'static str =
    "SELECT asset_id, state, reason FROM bulk_operation_items WHERE operation_id = $1 ORDER BY asset_id \
     LIMIT $2";

/// Items in any state.
pub fn items(operation_id: Uuid, limit: i64) -> (command: Command)
    ensures
        command.says(
            "SELECT asset_id, state, reason FROM bulk_operation_items WHERE operation_id = $1 ORDER BY asset_id \
             LIMIT $2"@,
            seq![Given::Id(operation_id), Given::Int(limit)],
        ),
{
    Command::new(ITEMS, vec![Value::Id(operation_id), Value::Int(limit)])
}

} // verus!
