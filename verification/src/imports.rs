//! Phased migration in.
//!
//! The phase is a state machine: one step at a time, with one loop, so that a run cannot skip its own review. A
//! record is the idempotency key of a resumed run, the rollback manifest and the provenance at once, so records
//! are never deleted, and a dry run never un-migrates what a transfer did.

use crate::commands::{as_maybe_str, as_text, Command, Given, Value};
use crate::json::Json;
use crate::text::{opt_str_chars, quoted, quoted_chars, same, trim, trimmed, uuid_chars, uuid_text};
use crate::{clamp, clamped, Error, Instant, Uuid};
use vstd::prelude::*;

verus! {

/// Where an import has got to. The order is the state machine.
#[derive(Debug, Clone, Copy, PartialEq, Eq, PartialOrd, Ord, Structural)]
pub enum Phase {
    Discover,
    CrosswalkReview,
    DryRun,
    Transfer,
    Verify,
    Complete,
    RolledBack,
    Failed,
}

impl Phase {
    /// The column's spelling.
    pub open spec fn chars(self) -> Seq<char> {
        match self {
            Phase::Discover => "discover"@,
            Phase::CrosswalkReview => "crosswalk_review"@,
            Phase::DryRun => "dry_run"@,
            Phase::Transfer => "transfer"@,
            Phase::Verify => "verify"@,
            Phase::Complete => "complete"@,
            Phase::RolledBack => "rolled_back"@,
            Phase::Failed => "failed"@,
        }
    }

    /// The column's spelling.
    pub fn as_str(self) -> (text: &'static str)
        ensures
            text@ == self.chars(),
            text@ == match self {
                Phase::Discover => "discover"@,
                Phase::CrosswalkReview => "crosswalk_review"@,
                Phase::DryRun => "dry_run"@,
                Phase::Transfer => "transfer"@,
                Phase::Verify => "verify"@,
                Phase::Complete => "complete"@,
                Phase::RolledBack => "rolled_back"@,
                Phase::Failed => "failed"@,
            },
    {
        match self {
            Phase::Discover => "discover",
            Phase::CrosswalkReview => "crosswalk_review",
            Phase::DryRun => "dry_run",
            Phase::Transfer => "transfer",
            Phase::Verify => "verify",
            Phase::Complete => "complete",
            Phase::RolledBack => "rolled_back",
            Phase::Failed => "failed",
        }
    }

    /// The value a spelling stands for; `None` for a spelling nothing has.
    pub fn parse(text: &str) -> (parsed: Option<Phase>)
        ensures
            match parsed {
                Some(value) => text@ == value.chars(),
                None => forall|value: Phase| text@ != #[trigger] value.chars(),
            },
            parsed == Some(Phase::Discover) ==> text@ == "discover"@,
            parsed == Some(Phase::CrosswalkReview) ==> text@ == "crosswalk_review"@,
            parsed == Some(Phase::DryRun) ==> text@ == "dry_run"@,
            parsed == Some(Phase::Transfer) ==> text@ == "transfer"@,
            parsed == Some(Phase::Verify) ==> text@ == "verify"@,
            parsed == Some(Phase::Complete) ==> text@ == "complete"@,
            parsed == Some(Phase::RolledBack) ==> text@ == "rolled_back"@,
            parsed == Some(Phase::Failed) ==> text@ == "failed"@,
            parsed is None ==> text@ != "discover"@ && text@ != "crosswalk_review"@ && text@ != "dry_run"@
                && text@ != "transfer"@ && text@ != "verify"@ && text@ != "complete"@ && text@ != "rolled_back"@
                && text@ != "failed"@,
    {
        if same(text, "discover") {
            Some(Phase::Discover)
        } else if same(text, "crosswalk_review") {
            Some(Phase::CrosswalkReview)
        } else if same(text, "dry_run") {
            Some(Phase::DryRun)
        } else if same(text, "transfer") {
            Some(Phase::Transfer)
        } else if same(text, "verify") {
            Some(Phase::Verify)
        } else if same(text, "complete") {
            Some(Phase::Complete)
        } else if same(text, "rolled_back") {
            Some(Phase::RolledBack)
        } else if same(text, "failed") {
            Some(Phase::Failed)
        } else {
            None
        }
    }
}

/// Two values with one spelling are one value, so a spelling that is written reads back as what was written.
pub proof fn phase_spellings_are_distinct(a: Phase, b: Phase)
    requires
        a.chars() == b.chars(),
    ensures
        a == b,
{
    reveal_strlit("discover");
    reveal_strlit("crosswalk_review");
    reveal_strlit("dry_run");
    reveal_strlit("transfer");
    reveal_strlit("verify");
    reveal_strlit("complete");
    reveal_strlit("rolled_back");
    reveal_strlit("failed");
    assert("discover"@.len() == 8);
    assert("crosswalk_review"@.len() == 16);
    assert("dry_run"@.len() == 7);
    assert("transfer"@.len() == 8);
    assert("verify"@.len() == 6);
    assert("complete"@.len() == 8);
    assert("rolled_back"@.len() == 11);
    assert("failed"@.len() == 6);
    assert("discover"@[0] != "transfer"@[0]);
    assert("discover"@[0] != "complete"@[0]);
    assert("transfer"@[0] != "complete"@[0]);
    assert("verify"@[0] != "failed"@[0]);
}

impl Phase {
    /// Whether this phase is final: `complete` and `rolled_back` are. A run that failed on a bad mapping is
    /// fixed by changing the mapping, so `failed` is not.
    pub open spec fn terminal(self) -> bool {
        self == Phase::Complete || self == Phase::RolledBack
    }

    /// The phase that ordinarily follows this one.
    pub open spec fn successor(self) -> Option<Phase> {
        match self {
            Phase::Discover => Some(Phase::CrosswalkReview),
            Phase::CrosswalkReview => Some(Phase::DryRun),
            Phase::DryRun => Some(Phase::Transfer),
            Phase::Transfer => Some(Phase::Verify),
            Phase::Verify => Some(Phase::Complete),
            Phase::Complete | Phase::RolledBack | Phase::Failed => None,
        }
    }

    /// Whether moving to `next` is allowed: from a phase that is not final, to its successor, to failure or
    /// rollback, from verification back to transfer, or from failure back to the review.
    pub open spec fn allows(self, next: Phase) -> bool {
        !self.terminal() && {
            ||| next == Phase::Failed
            ||| next == Phase::RolledBack
            ||| self.successor() == Some(next)
            ||| self == Phase::Verify && next == Phase::Transfer
            ||| self == Phase::Failed && next == Phase::CrosswalkReview
        }
    }

    /// Whether this phase can no longer change.
    pub fn is_terminal(self) -> (yes: bool)
        ensures
            yes == self.terminal(),
            yes <==> self == Phase::Complete || self == Phase::RolledBack,
    {
        match self {
            Phase::Complete | Phase::RolledBack => true,
            _ => false,
        }
    }

    /// The phase that ordinarily follows this one. `None` at the end of the pipeline and off it.
    pub fn next(self) -> (phase: Option<Phase>)
        ensures
            phase == self.successor(),
            phase is None <==> self == Phase::Complete || self == Phase::RolledBack || self == Phase::Failed,
            phase matches Some(following) ==> rank(following) == rank(self) + 1 && rank(following) <= 5,
    {
        match self {
            Phase::Discover => Some(Phase::CrosswalkReview),
            Phase::CrosswalkReview => Some(Phase::DryRun),
            Phase::DryRun => Some(Phase::Transfer),
            Phase::Transfer => Some(Phase::Verify),
            Phase::Verify => Some(Phase::Complete),
            Phase::Complete | Phase::RolledBack | Phase::Failed => None,
        }
    }

    /// Whether moving to `next` is allowed.
    pub fn may_become(self, next: Phase) -> (allowed: bool)
        ensures
            allowed == self.allows(next),
            allowed ==> self != Phase::Complete && self != Phase::RolledBack,
            next == Phase::Failed || next == Phase::RolledBack ==> (allowed <==> self != Phase::Complete && self
                != Phase::RolledBack),
    {
        if self.is_terminal() {
            return false;
        }
        match next {
            Phase::Failed | Phase::RolledBack => true,
            _ => match self {
                Phase::Failed => next == Phase::CrosswalkReview,
                Phase::Verify => next == Phase::Transfer || next == Phase::Complete,
                _ => match self.next() {
                    Some(following) => following == next,
                    None => false,
                },
            },
        }
    }
}

/// Why an import operation was refused.
#[derive(Debug, Clone, PartialEq, Eq)]
pub enum ImportRefusal {
    Unknown(Uuid),
    /// The phase machine refused a move. Carries both phases.
    NotForward { from: String, to: String },
    /// A field the database refuses, or an empty label.
    Invalid(String),
}

impl ImportRefusal {
    /// The text of this refusal.
    pub open spec fn message_chars(self) -> Seq<char> {
        match self {
            ImportRefusal::Unknown(given) => "no import job "@ + uuid_chars(given),
            ImportRefusal::NotForward { from, to } => "an import in "@ + from@ + " cannot become "@ + to@,
            ImportRefusal::Invalid(given) => given@,
        }
    }

    /// The sentence whoever was refused reads.
    pub fn message(&self) -> (out: String)
        ensures
            out@ == self.message_chars(),
    {
        match self {
            ImportRefusal::Unknown(given) => {
                let mut out = "no import job ".to_owned();
                out.append(uuid_text(*given).as_str());
                out
            },
            ImportRefusal::NotForward { from, to } => {
                let mut out = "an import in ".to_owned();
                out.append(from.as_str());
                out.append(" cannot become ");
                out.append(to.as_str());
                out
            },
            ImportRefusal::Invalid(given) => given.as_str().to_owned(),
        }
    }
}

pub const LABEL_NEEDED: &'static str =
    "an import needs a label; it is how an operator tells two runs apart";

/// The label and batch size to store for a new import.
pub fn create(label: &str, batch_size: i32) -> (stored: Result<(String, i32), ImportRefusal>)
    ensures
        match stored {
            Ok((text, size)) => trimmed(label@).len() > 0 && text@ == trimmed(label@) && size
                == clamped(batch_size as int, 1, 10_000),
            Err(refusal) => trimmed(label@).len() == 0 && (refusal matches ImportRefusal::Invalid(
                detail,
            ) && detail@ == "an import needs a label; it is how an operator tells two runs apart"@),
        },
        stored matches Ok((_, size)) ==> 1 <= size <= 10_000 && (1 <= batch_size <= 10_000 ==> size == batch_size),
        stored is Ok <==> trimmed(label@).len() > 0,
{
    let text = trim(label);
    if text.is_empty() {
        return Err(ImportRefusal::Invalid(LABEL_NEEDED.to_owned()));
    }
    Ok((text.to_owned(), clamp(batch_size as i64, 1, 10_000) as i32))
}

/// What a failed insert says: the name of the constraint that refused it, where a constraint did.
pub fn classify(constraint: Option<String>) -> (refusal: Option<ImportRefusal>)
    ensures
        refusal == match constraint {
            Some(name) => Some(ImportRefusal::Invalid(name)),
            None => None,
        },
{
    match constraint {
        Some(name) => Some(ImportRefusal::Invalid(name)),
        None => None,
    }
}

/// Whether the crosswalk may be set. Editable between phases and in `failed`; not once the run is final.
pub fn set_crosswalk(id: Uuid, current: Option<Phase>) -> (checked: Result<(), ImportRefusal>)
    ensures
        match checked {
            Ok(()) => current matches Some(phase) && !phase.terminal(),
            Err(ImportRefusal::Unknown(given)) => current is None && given == id,
            Err(ImportRefusal::NotForward { from, to }) => {
                &&& current matches Some(phase)
                &&& phase.terminal()
                &&& from@ == phase.chars()
                &&& to@ == "crosswalk_review"@
            },
            Err(_) => false,
        },
{
    match current {
        None => Err(ImportRefusal::Unknown(id)),
        Some(phase) => if phase.is_terminal() {
            Err(
                ImportRefusal::NotForward {
                    from: phase.as_str().to_owned(),
                    to: "crosswalk_review".to_owned(),
                },
            )
        } else {
            Ok(())
        },
    }
}

/// A run's phase, with when it first left discovery and when it reached a final phase.
#[derive(Debug, Clone, Copy, PartialEq, Eq, Structural)]
pub struct Stage {
    pub phase: Phase,
    pub started_at: Option<Instant>,
    pub finished_at: Option<Instant>,
}

/// The stamp once `now` may set it, when `due`: a stamp that is set does not move.
pub open spec fn stamped(stamp: Option<Instant>, due: bool, now: Instant) -> Option<Instant> {
    if stamp is None && due {
        Some(now)
    } else {
        stamp
    }
}

impl Stage {
    /// The stage after a move to `to` at `now`.
    pub open spec fn after(self, to: Phase, now: Instant) -> Stage {
        Stage {
            phase: to,
            started_at: stamped(self.started_at, to != Phase::Discover, now),
            finished_at: stamped(self.finished_at, to.terminal(), now),
        }
    }
}

fn stamp(already: Option<Instant>, due: bool, now: Instant) -> (stamp: Option<Instant>)
    ensures
        stamp == stamped(already, due, now),
{
    match already {
        Some(at) => Some(at),
        None => if due {
            Some(now)
        } else {
            None
        },
    }
}

/// Moves the phase on. The only thing that changes it.
pub fn advance(
    id: Uuid,
    current: Option<Stage>,
    to: Phase,
    now: Instant,
) -> (moved: Result<Stage, ImportRefusal>)
    ensures
        match moved {
            Ok(stage) => {
                &&& current matches Some(from)
                &&& from.phase.allows(to)
                &&& stage == from.after(to, now)
            },
            Err(ImportRefusal::Unknown(given)) => current is None && given == id,
            Err(ImportRefusal::NotForward { from, to: wanted }) => {
                &&& current matches Some(stage)
                &&& !stage.phase.allows(to)
                &&& from@ == stage.phase.chars()
                &&& wanted@ == to.chars()
            },
            Err(_) => false,
        },
        moved matches Ok(stage) ==> stage.phase == to,
{
    match current {
        None => Err(ImportRefusal::Unknown(id)),
        Some(from) => if from.phase.may_become(to) {
            Ok(
                Stage {
                    phase: to,
                    started_at: stamp(from.started_at, to != Phase::Discover, now),
                    finished_at: stamp(from.finished_at, to.is_terminal(), now),
                },
            )
        } else {
            Err(
                ImportRefusal::NotForward {
                    from: from.phase.as_str().to_owned(),
                    to: to.as_str().to_owned(),
                },
            )
        },
    }
}

/// The phase a row holds. A phase this build does not know is reported rather than guessed at.
pub fn phase_of(raw: &str) -> (phase: Result<Phase, Error>)
    ensures
        match phase {
            Ok(known) => raw@ == known.chars(),
            Err(error) => {
                &&& forall|known: Phase| raw@ != #[trigger] known.chars()
                &&& error matches Error::Inconsistent(detail)
                &&& detail@ == "import_jobs.phase holds "@ + quoted_chars(raw@)
            },
        },
{
    match Phase::parse(raw) {
        Some(known) => Ok(known),
        None => {
            let mut detail = "import_jobs.phase holds ".to_owned();
            detail.append(quoted(raw).as_str());
            Err(Error::Inconsistent(detail))
        },
    }
}

/// One source asset's fate.
#[derive(Debug, Clone, Copy, PartialEq, Eq, Structural)]
pub enum RecordState {
    Pending,
    Migrated,
    Failed,
    Skipped,
    RolledBack,
}

impl RecordState {
    /// The column's spelling.
    pub open spec fn chars(self) -> Seq<char> {
        match self {
            RecordState::Pending => "pending"@,
            RecordState::Migrated => "migrated"@,
            RecordState::Failed => "failed"@,
            RecordState::Skipped => "skipped"@,
            RecordState::RolledBack => "rolled_back"@,
        }
    }

    /// The column's spelling.
    pub fn as_str(self) -> (text: &'static str)
        ensures
            text@ == self.chars(),
            text@ == match self {
                RecordState::Pending => "pending"@,
                RecordState::Migrated => "migrated"@,
                RecordState::Failed => "failed"@,
                RecordState::Skipped => "skipped"@,
                RecordState::RolledBack => "rolled_back"@,
            },
    {
        match self {
            RecordState::Pending => "pending",
            RecordState::Migrated => "migrated",
            RecordState::Failed => "failed",
            RecordState::Skipped => "skipped",
            RecordState::RolledBack => "rolled_back",
        }
    }

    /// The value a spelling stands for; `None` for a spelling nothing has.
    pub fn parse(text: &str) -> (parsed: Option<RecordState>)
        ensures
            match parsed {
                Some(value) => text@ == value.chars(),
                None => forall|value: RecordState| text@ != #[trigger] value.chars(),
            },
            parsed == Some(RecordState::Pending) ==> text@ == "pending"@,
            parsed == Some(RecordState::Migrated) ==> text@ == "migrated"@,
            parsed == Some(RecordState::Failed) ==> text@ == "failed"@,
            parsed == Some(RecordState::Skipped) ==> text@ == "skipped"@,
            parsed == Some(RecordState::RolledBack) ==> text@ == "rolled_back"@,
            parsed is None ==> text@ != "pending"@ && text@ != "migrated"@ && text@ != "failed"@
                && text@ != "skipped"@ && text@ != "rolled_back"@,
    {
        if same(text, "pending") {
            Some(RecordState::Pending)
        } else if same(text, "migrated") {
            Some(RecordState::Migrated)
        } else if same(text, "failed") {
            Some(RecordState::Failed)
        } else if same(text, "skipped") {
            Some(RecordState::Skipped)
        } else if same(text, "rolled_back") {
            Some(RecordState::RolledBack)
        } else {
            None
        }
    }
}

/// Two values with one spelling are one value, so a spelling that is written reads back as what was written.
pub proof fn record_state_spellings_are_distinct(a: RecordState, b: RecordState)
    requires
        a.chars() == b.chars(),
    ensures
        a == b,
{
    reveal_strlit("pending");
    reveal_strlit("migrated");
    reveal_strlit("failed");
    reveal_strlit("skipped");
    reveal_strlit("rolled_back");
    assert("pending"@.len() == 7);
    assert("migrated"@.len() == 8);
    assert("failed"@.len() == 6);
    assert("skipped"@.len() == 7);
    assert("rolled_back"@.len() == 11);
    assert("pending"@[0] != "skipped"@[0]);
}

/// The state a dry run leaves a record in: migrated if it was, and otherwise pending or failed by whether it has
/// an error.
pub open spec fn noted(current: Option<RecordState>, error: bool) -> RecordState {
    if current == Some(RecordState::Migrated) {
        RecordState::Migrated
    } else if error {
        RecordState::Failed
    } else {
        RecordState::Pending
    }
}

/// Notes what one source asset mapped to, without migrating it: the state to write, or `None` where nothing is
/// written. A record already migrated is left alone, because a dry run must never un-migrate something a transfer
/// did.
pub fn note(current: Option<RecordState>, error: bool) -> (state: Option<RecordState>)
    ensures
        state == if current == Some(RecordState::Migrated) {
            None::<RecordState>
        } else {
            Some(noted(current, error))
        },
        state is None <==> current == Some(RecordState::Migrated),
        state == Some(RecordState::Failed) ==> error,
        state == Some(RecordState::Pending) ==> !error,
        state matches Some(left) ==> left == RecordState::Failed || left == RecordState::Pending,
{
    match current {
        Some(RecordState::Migrated) => None,
        _ => if error {
            Some(RecordState::Failed)
        } else {
            Some(RecordState::Pending)
        },
    }
}

/// The job's counters.
#[derive(Debug, Clone, Copy, PartialEq, Eq, Structural)]
pub struct Counters {
    pub migrated: i64,
    pub failed: i64,
}

/// The counters after a source asset arrived. `None` when it had arrived already.
pub open spec fn arrived(current: RecordState, counters: Counters) -> Option<Counters> {
    if current == RecordState::Migrated {
        None
    } else {
        Some(Counters { migrated: (counters.migrated + 1) as i64, ..counters })
    }
}

/// The counters after a source asset did not arrive. `None` when it had arrived already.
pub open spec fn missed(current: RecordState, counters: Counters) -> Option<Counters> {
    if current == RecordState::Migrated {
        None
    } else {
        Some(Counters { failed: (counters.failed + 1) as i64, ..counters })
    }
}

/// Records that a source asset arrived. `None` when it had arrived already, and then nothing is counted.
pub fn migrated(current: RecordState, counters: Counters) -> (after: Option<Counters>)
    requires
        counters.migrated < i64::MAX,
    ensures
        after == arrived(current, counters),
        after is None <==> current == RecordState::Migrated,
        after matches Some(counts) ==> counts.migrated == counters.migrated + 1 && counts.failed == counters.failed,
{
    match current {
        RecordState::Migrated => None,
        _ => Some(Counters { migrated: counters.migrated + 1, ..counters }),
    }
}

/// Records that a source asset did not arrive. `None` when it had arrived already: a failure of a later attempt
/// does not undo it.
pub fn failed(current: RecordState, counters: Counters) -> (after: Option<Counters>)
    requires
        counters.failed < i64::MAX,
    ensures
        after == missed(current, counters),
        after is None <==> current == RecordState::Migrated,
        after matches Some(counts) ==> counts.failed == counters.failed + 1 && counts.migrated == counters.migrated,
{
    match current {
        RecordState::Migrated => None,
        _ => Some(Counters { failed: counters.failed + 1, ..counters }),
    }
}

/// How many of a migration's records have arrived.
pub open spec fn arrivals(records: Seq<RecordState>) -> int
    decreases records.len(),
{
    if records.len() == 0 {
        0
    } else {
        arrivals(records.drop_last()) + if records.last() == RecordState::Migrated {
            1int
        } else {
            0
        }
    }
}

proof fn lemma_arrivals_update(records: Seq<RecordState>, i: int, state: RecordState)
    requires
        0 <= i < records.len(),
    ensures
        arrivals(records.update(i, state)) == arrivals(records) + (if state == RecordState::Migrated {
            1int
        } else {
            0
        }) - (if records[i] == RecordState::Migrated {
            1int
        } else {
            0
        }),
    decreases records.len(),
{
    let after = records.update(i, state);
    if i == records.len() - 1 {
        assert(after.drop_last() =~= records.drop_last());
    } else {
        assert(after.drop_last() =~= records.drop_last().update(i, state));
        lemma_arrivals_update(records.drop_last(), i, state);
    }
}

/// The counter of what arrived is true, however often a record is reported: an arrival counts a record once, a failure
/// never uncounts one that arrived, and noting a record again leaves it counted.
pub proof fn every_arrival_counts_once(
    records: Seq<RecordState>,
    i: int,
    counters: Counters,
    error: bool,
)
    requires
        0 <= i < records.len(),
        counters.migrated == arrivals(records),
        counters.migrated < i64::MAX,
        counters.failed < i64::MAX,
    ensures
        match arrived(records[i], counters) {
            Some(after) => after.migrated == arrivals(records.update(i, RecordState::Migrated)),
            None => arrivals(records.update(i, RecordState::Migrated)) == counters.migrated,
        },
        match missed(records[i], counters) {
            Some(after) => after.migrated == arrivals(records.update(i, RecordState::Failed)),
            None => records[i] == RecordState::Migrated,
        },
        arrivals(records.update(i, noted(Some(records[i]), error))) == counters.migrated,
{
    lemma_arrivals_update(records, i, RecordState::Migrated);
    lemma_arrivals_update(records, i, RecordState::Failed);
    lemma_arrivals_update(records, i, noted(Some(records[i]), error));
}

/// How many records one batch serves when `limit` are asked for.
pub fn batch_limit(limit: i32) -> (effective: i64)
    ensures
        effective == if limit < 1 {
            1
        } else {
            limit as int
        },
        limit >= 1 ==> effective == limit,
        limit < 1 ==> effective == 1,
{
    if limit < 1 {
        1
    } else {
        limit as i64
    }
}

/// How many records a report reads when `limit` are asked for.
pub fn report_limit(limit: i64) -> (effective: i64)
    ensures
        effective == clamped(limit as int, 1, 10_000),
        1 <= effective <= 10_000,
        1 <= limit <= 10_000 ==> effective == limit,
{
    clamp(limit, 1, 10_000)
}

/// A final phase is final: nothing may follow `complete` or `rolled_back`.
pub proof fn a_final_phase_is_final(phase: Phase, next: Phase)
    requires
        phase.terminal(),
    ensures
        !phase.allows(next),
{
}

/// How far along the pipeline a phase is.
pub open spec fn rank(phase: Phase) -> int {
    match phase {
        Phase::Discover => 0,
        Phase::CrosswalkReview => 1,
        Phase::DryRun => 2,
        Phase::Transfer => 3,
        Phase::Verify => 4,
        Phase::Complete => 5,
        Phase::RolledBack => 6,
        Phase::Failed => 7,
    }
}

/// A run cannot skip its own review: a move along the pipeline is exactly one step forward or the step from
/// verification back to transfer, and the only way back onto it from failure is the review.
pub proof fn the_pipeline_moves_one_step_at_a_time(phase: Phase, next: Phase)
    requires
        phase.allows(next),
        rank(next) <= 5,
    ensures
        phase == Phase::Failed ==> next == Phase::CrosswalkReview,
        phase != Phase::Failed ==> rank(next) == rank(phase) + 1 || (phase == Phase::Verify && next
            == Phase::Transfer),
{
}

/// From every phase that is not final a run can fail and can be rolled back.
pub proof fn the_escape_is_always_reachable(phase: Phase)
    requires
        !phase.terminal(),
    ensures
        phase.allows(Phase::Failed),
        phase.allows(Phase::RolledBack),
{
}

/// A history of phases that the machine allows.
pub open spec fn allowed_history(history: Seq<Phase>) -> bool {
    &&& history.len() > 0
    &&& history[0] == Phase::Discover
    &&& forall|i: int|
        0 <= i < history.len() - 1 ==> (#[trigger] history[i]).allows(history[i + 1])
}

/// Nothing is transferred unreviewed: in every history the machine allows, a transfer has a dry run before it,
/// and a dry run has a crosswalk review before it.
pub proof fn a_transfer_was_reviewed(history: Seq<Phase>, at: int)
    requires
        allowed_history(history),
        0 <= at < history.len(),
    ensures
        history[at] == Phase::Transfer || history[at] == Phase::Verify || history[at]
            == Phase::Complete ==> exists|i: int| 0 <= i < at && history[i] == Phase::DryRun,
        history[at] == Phase::DryRun || history[at] == Phase::Transfer || history[at]
            == Phase::Verify || history[at] == Phase::Complete ==> exists|i: int|
            0 <= i < at && history[i] == Phase::CrosswalkReview,
    decreases at,
{
    if at > 0 {
        let from = history[at - 1];
        let to = history[at];
        assert(history[at - 1].allows(history[at - 1 + 1]));
        a_transfer_was_reviewed(history, at - 1);
        if to == Phase::DryRun {
            assert(from == Phase::CrosswalkReview);
            assert(history[at - 1] == Phase::CrosswalkReview);
        } else if to == Phase::Transfer {
            if from == Phase::DryRun {
                assert(history[at - 1] == Phase::DryRun);
            }
            let i = choose|i: int| 0 <= i < at - 1 && history[i] == Phase::CrosswalkReview;
            assert(0 <= i < at && history[i] == Phase::CrosswalkReview);
            if from == Phase::Verify {
                let j = choose|j: int| 0 <= j < at - 1 && history[j] == Phase::DryRun;
                assert(0 <= j < at && history[j] == Phase::DryRun);
            }
        } else if to == Phase::Verify || to == Phase::Complete {
            let i = choose|i: int| 0 <= i < at - 1 && history[i] == Phase::CrosswalkReview;
            assert(0 <= i < at && history[i] == Phase::CrosswalkReview);
            let j = choose|j: int| 0 <= j < at - 1 && history[j] == Phase::DryRun;
            assert(0 <= j < at && history[j] == Phase::DryRun);
        }
    }
}

/// Stamps answer "when did this run": once set, neither moves, and a run is stamped finished exactly from the
/// move that makes it final.
pub proof fn stamps_do_not_move(stage: Stage, to: Phase, now: Instant)
    ensures
        stage.started_at is Some ==> stage.after(to, now).started_at == stage.started_at,
        stage.finished_at is Some ==> stage.after(to, now).finished_at == stage.finished_at,
        to != Phase::Discover ==> stage.after(to, now).started_at is Some,
        to.terminal() ==> stage.after(to, now).finished_at is Some,
        !to.terminal() && stage.finished_at is None ==> stage.after(to, now).finished_at is None,
{
}

/// A dry run never un-migrates: whatever it finds, a migrated record stays migrated.
pub proof fn a_dry_run_never_unmigrates(error: bool)
    ensures
        noted(Some(RecordState::Migrated), error) == RecordState::Migrated,
{
}

/// The pipeline goes forward: from each stage of it the next one is allowed, from the check the transfer again, and from a
/// failure the review again and nothing else of the pipeline.
pub proof fn the_next_stage_is_allowed(phase: Phase, next: Phase)
    ensures
        rank(next) == rank(phase) + 1 && rank(next) <= 5 ==> phase.allows(next) && phase.successor() == Some(next),
        phase.successor() matches Some(following) ==> rank(following) == rank(phase) + 1 && rank(following) <= 5,
        Phase::Verify.allows(Phase::Transfer),
        Phase::Failed.allows(Phase::CrosswalkReview),
        phase.allows(next) && rank(next) < rank(phase) ==> phase == Phase::Verify && next == Phase::Transfer || phase
            == Phase::Failed,
        phase.terminal() <==> rank(phase) == 5 || rank(phase) == 6,
        !Phase::Failed.terminal(),
{
}

/// A stage is stamped when it is entered: the import starts when it first leaves discovery, and finishes when it reaches
/// a final phase, each at the instant of that move.
pub proof fn a_move_is_stamped_as_it_happens(stage: Stage, to: Phase, now: Instant)
    ensures
        stage.after(to, now).phase == to,
        stage.started_at is None && to != Phase::Discover ==> stage.after(to, now).started_at == Some(now),
        stage.started_at is None && to == Phase::Discover ==> stage.after(to, now).started_at is None,
        stage.finished_at is None && (to == Phase::Complete || to == Phase::RolledBack) ==> stage.after(
            to,
            now,
        ).finished_at == Some(now),
        stage.finished_at is None && to != Phase::Complete && to != Phase::RolledBack ==> stage.after(
            to,
            now,
        ).finished_at is None,
{
}

/// What a dry run finds of a record that has not arrived is what it leaves: an error leaves it failed, none leaves it
/// pending, whatever it was before.
pub proof fn a_dry_run_leaves_what_it_found(current: Option<RecordState>, error: bool)
    requires
        current != Some(RecordState::Migrated),
    ensures
        noted(current, error) == RecordState::Failed <==> error,
        noted(current, error) == RecordState::Pending <==> !error,
{
}

// ----------------------------------------------------------------------------------------------------
// Commands
// ----------------------------------------------------------------------------------------------------

/// A migration to set up.
#[derive(Debug, Clone)]
pub struct NewImport<'a> {
    pub id: Uuid,
    pub source: &'a str,
    pub label: &'a str,
    /// Endpoint, credential reference, file path. Never a credential itself.
    pub config: Json,
    pub batch_size: i32,
    pub created_by: Option<Uuid>,
}

/// A migration, as an operator sees it.
#[derive(Debug, Clone)]
pub struct Import {
    pub id: Uuid,
    pub source: String,
    pub label: String,
    pub config: Json,
    pub crosswalk: Json,
    pub taxonomy_mapping: Json,
    pub unmapped_fields: Json,
    pub phase: Phase,
    pub batch_size: i32,
    pub current_batch: i32,
    pub discovered_count: i64,
    pub migrated_count: i64,
    pub skipped_count: i64,
    pub failed_count: i64,
    pub report: Json,
    /// Everything this job created can be removed by this token alone.
    pub rollback_token: Uuid,
    pub started_at: Option<Instant>,
    pub finished_at: Option<Instant>,
    pub created_at: Instant,
}

/// One source asset's fate.
#[derive(Debug, Clone)]
pub struct Record {
    pub source_id: String,
    pub asset_id: Option<Uuid>,
    pub source_checksum: Option<String>,
    pub state: String,
    pub warnings: Json,
    pub error: Option<String>,
    pub migrated_at: Option<Instant>,
}

pub const INSERT: &'static str =
    "INSERT INTO import_jobs (id, source, label, config, batch_size, rollback_token, created_by) VALUES \
     ($1, $2, $3, $4, $5, gen_random_uuid(), $6) RETURNING id";

/// A new migration, under the label and with the batches that were settled on. Its rollback token is the database's.
pub fn insert(new: NewImport, label: &str, batch_size: i32) -> (command: Command)
    ensures
        command.says(
            "INSERT INTO import_jobs (id, source, label, config, batch_size, rollback_token, created_by) VALUES \
             ($1, $2, $3, $4, $5, gen_random_uuid(), $6) RETURNING id"@,
            seq![
                Given::Id(new.id), Given::Text(new.source@), Given::Text(label@),
                Given::Json(new.config), Given::Whole(batch_size), Given::MaybeId(new.created_by),
            ],
        ),
{
    Command::new(
        INSERT,
        vec![
            Value::Id(new.id), as_text(new.source), as_text(label), Value::Json(new.config),
            Value::Whole(batch_size), Value::MaybeId(new.created_by),
        ],
    )
}

pub const BY_ID: &'static str =
    "SELECT id, source, label, config, crosswalk, taxonomy_mapping, unmapped_fields, phase, batch_size, \
     current_batch, discovered_count, migrated_count, skipped_count, failed_count, report, rollback_token, \
     started_at, finished_at, created_at FROM import_jobs WHERE id = $1";

/// A migration.
pub fn by_id(id: Uuid) -> (command: Command)
    ensures
        command.says(
            "SELECT id, source, label, config, crosswalk, taxonomy_mapping, unmapped_fields, phase, batch_size, \
             current_batch, discovered_count, migrated_count, skipped_count, failed_count, report, rollback_token, \
             started_at, finished_at, created_at FROM import_jobs WHERE id = $1"@,
            seq![Given::Id(id)],
        ),
{
    Command::new(BY_ID, vec![Value::Id(id)])
}

pub const ALL: &'static str =
    "SELECT id, source, label, config, crosswalk, taxonomy_mapping, unmapped_fields, phase, batch_size, \
     current_batch, discovered_count, migrated_count, skipped_count, failed_count, report, rollback_token, \
     started_at, finished_at, created_at FROM import_jobs ORDER BY created_at DESC";

/// Every migration, newest first.
pub fn all() -> (command: Command)
    ensures
        command.says(
            "SELECT id, source, label, config, crosswalk, taxonomy_mapping, unmapped_fields, phase, batch_size, \
             current_batch, discovered_count, migrated_count, skipped_count, failed_count, report, rollback_token, \
             started_at, finished_at, created_at FROM import_jobs ORDER BY created_at DESC"@,
            Seq::empty(),
        ),
{
    Command::new(ALL, Vec::new())
}

pub const WRITE_CROSSWALK: &'static str =
    "UPDATE import_jobs SET crosswalk = $2, taxonomy_mapping = $3, unmapped_fields = $4 WHERE id = $1";

/// The crosswalk a person looked over, and what discovery found that it does not cover.
pub fn write_crosswalk(
    id: Uuid,
    crosswalk: Json,
    taxonomy_mapping: Json,
    unmapped_fields: Json,
) -> (command: Command)
    ensures
        command.says(
            "UPDATE import_jobs SET crosswalk = $2, taxonomy_mapping = $3, unmapped_fields = $4 WHERE id = $1"@,
            seq![
                Given::Id(id), Given::Json(crosswalk), Given::Json(taxonomy_mapping),
                Given::Json(unmapped_fields),
            ],
        ),
{
    Command::new(
        WRITE_CROSSWALK,
        vec![
            Value::Id(id), Value::Json(crosswalk), Value::Json(taxonomy_mapping),
            Value::Json(unmapped_fields),
        ],
    )
}

pub const HELD_STAGE: &'static str =
    "SELECT phase, started_at, finished_at FROM import_jobs WHERE id = $1 FOR UPDATE";

/// Where a migration has got to, held until the transaction ends.
pub fn held_stage(id: Uuid) -> (command: Command)
    ensures
        command.says(
            "SELECT phase, started_at, finished_at FROM import_jobs WHERE id = $1 FOR UPDATE"@,
            seq![Given::Id(id)],
        ),
{
    Command::new(HELD_STAGE, vec![Value::Id(id)])
}

pub const WRITE_STAGE: &'static str =
    "UPDATE import_jobs SET phase = $2, started_at = $3, finished_at = $4 WHERE id = $1";

/// Where a migration has got to.
pub fn write_stage(id: Uuid, stage: Stage) -> (command: Command)
    ensures
        command.says(
            "UPDATE import_jobs SET phase = $2, started_at = $3, finished_at = $4 WHERE id = $1"@,
            seq![
                Given::Id(id), Given::Text(stage.phase.chars()), Given::MaybeAt(stage.started_at),
                Given::MaybeAt(stage.finished_at),
            ],
        ),
{
    Command::new(
        WRITE_STAGE,
        vec![
            Value::Id(id), as_text(stage.phase.as_str()), Value::MaybeAt(stage.started_at),
            Value::MaybeAt(stage.finished_at),
        ],
    )
}

pub const SET_REPORT: &'static str =
    "UPDATE import_jobs SET discovered_count = $2, report = $3 WHERE id = $1";

/// The dry run's report, and what discovery counted.
pub fn set_report(id: Uuid, discovered: i64, report: Json) -> (command: Command)
    ensures
        command.says(
            "UPDATE import_jobs SET discovered_count = $2, report = $3 WHERE id = $1"@,
            seq![Given::Id(id), Given::Int(discovered), Given::Json(report)],
        ),
{
    Command::new(SET_REPORT, vec![Value::Id(id), Value::Int(discovered), Value::Json(report)])
}

pub const HELD_RECORD: &'static str =
    "SELECT state FROM import_records WHERE import_job_id = $1 AND source_id = $2 FOR UPDATE";

/// One source asset's record, held until the transaction ends.
pub fn held_record(job: Uuid, source_id: &str) -> (command: Command)
    ensures
        command.says(
            "SELECT state FROM import_records WHERE import_job_id = $1 AND source_id = $2 FOR UPDATE"@,
            seq![Given::Id(job), Given::Text(source_id@)],
        ),
{
    Command::new(HELD_RECORD, vec![Value::Id(job), as_text(source_id)])
}

pub const WRITE_NOTE: &'static str =
    "INSERT INTO import_records (import_job_id, source_id, source_checksum, state, warnings, error) VALUES \
     ($1, $2, $3, $4, $5, $6) ON CONFLICT (import_job_id, source_id) DO UPDATE SET source_checksum = \
     excluded.source_checksum, state = excluded.state, warnings = excluded.warnings, error = excluded.error \
     WHERE import_records.state <> 'migrated'";

/// What one source asset mapped to.
pub fn write_note(
    job: Uuid,
    source_id: &str,
    checksum: Option<&str>,
    state: RecordState,
    warnings: Json,
    error: Option<&str>,
) -> (command: Command)
    ensures
        command.says(
            "INSERT INTO import_records (import_job_id, source_id, source_checksum, state, warnings, error) VALUES \
             ($1, $2, $3, $4, $5, $6) ON CONFLICT (import_job_id, source_id) DO UPDATE SET source_checksum = \
             excluded.source_checksum, state = excluded.state, warnings = excluded.warnings, error = excluded.error \
             WHERE import_records.state <> 'migrated'"@,
            seq![
                Given::Id(job), Given::Text(source_id@), Given::MaybeText(opt_str_chars(checksum)),
                Given::Text(state.chars()), Given::Json(warnings),
                Given::MaybeText(opt_str_chars(error)),
            ],
        ),
{
    Command::new(
        WRITE_NOTE,
        vec![
            Value::Id(job), as_text(source_id), as_maybe_str(checksum), as_text(state.as_str()),
            Value::Json(warnings), as_maybe_str(error),
        ],
    )
}

pub const STATE_OF: &'static str =
    "SELECT state FROM import_records WHERE import_job_id = $1 AND source_id = $2";

/// What state one record is in.
pub fn state_of(job: Uuid, source_id: &str) -> (command: Command)
    ensures
        command.says(
            "SELECT state FROM import_records WHERE import_job_id = $1 AND source_id = $2"@,
            seq![Given::Id(job), Given::Text(source_id@)],
        ),
{
    Command::new(STATE_OF, vec![Value::Id(job), as_text(source_id)])
}

pub const HELD_COUNTERS: &'static str =
    "SELECT migrated_count, failed_count FROM import_jobs WHERE id = $1 FOR UPDATE";

/// A migration's counters, held until the transaction ends.
pub fn held_counters(job: Uuid) -> (command: Command)
    ensures
        command.says(
            "SELECT migrated_count, failed_count FROM import_jobs WHERE id = $1 FOR UPDATE"@,
            seq![Given::Id(job)],
        ),
{
    Command::new(HELD_COUNTERS, vec![Value::Id(job)])
}

pub const WRITE_COUNTERS: &'static str =
    "UPDATE import_jobs SET migrated_count = $2, failed_count = $3 WHERE id = $1";

/// A migration's counters.
pub fn write_counters(job: Uuid, counters: Counters) -> (command: Command)
    ensures
        command.says(
            "UPDATE import_jobs SET migrated_count = $2, failed_count = $3 WHERE id = $1"@,
            seq![
                Given::Id(job), Given::Int(counters.migrated), Given::Int(counters.failed),
            ],
        ),
{
    Command::new(
        WRITE_COUNTERS,
        vec![
            Value::Id(job), Value::Int(counters.migrated), Value::Int(counters.failed),
        ],
    )
}

pub const WRITE_MIGRATED: &'static str =
    "UPDATE import_records SET asset_id = $3, state = 'migrated', error = NULL, migrated_at = now() WHERE \
     import_job_id = $1 AND source_id = $2";

/// That a source asset arrived, and as what.
pub fn write_migrated(job: Uuid, source_id: &str, asset_id: Uuid) -> (command: Command)
    ensures
        command.says(
            "UPDATE import_records SET asset_id = $3, state = 'migrated', error = NULL, migrated_at = now() WHERE \
             import_job_id = $1 AND source_id = $2"@,
            seq![
                Given::Id(job), Given::Text(source_id@), Given::Id(asset_id),
            ],
        ),
{
    Command::new(WRITE_MIGRATED, vec![Value::Id(job), as_text(source_id), Value::Id(asset_id)])
}

pub const WRITE_FAILED: &'static str =
    "UPDATE import_records SET state = 'failed', error = $3 WHERE import_job_id = $1 AND source_id = $2";

/// That a source asset did not arrive, and why.
pub fn write_failed(job: Uuid, source_id: &str, reason: &str) -> (command: Command)
    ensures
        command.says(
            "UPDATE import_records SET state = 'failed', error = $3 WHERE import_job_id = $1 AND source_id = $2"@,
            seq![
                Given::Id(job), Given::Text(source_id@), Given::Text(reason@),
            ],
        ),
{
    Command::new(WRITE_FAILED, vec![Value::Id(job), as_text(source_id), as_text(reason)])
}

pub const PENDING: &'static str =
    "SELECT source_id, asset_id, source_checksum, state, warnings, error, migrated_at FROM import_records \
     WHERE import_job_id = $1 AND state = 'pending' ORDER BY source_id LIMIT $2";

/// The next batch of source assets still to move, by their identifiers.
pub fn pending(job: Uuid, limit: i32) -> (command: Command)
    ensures
        command.says(
            "SELECT source_id, asset_id, source_checksum, state, warnings, error, migrated_at FROM import_records \
             WHERE import_job_id = $1 AND state = 'pending' ORDER BY source_id LIMIT $2"@,
            seq![
                Given::Id(job), Given::Int(if limit < 1 { 1 } else { limit as i64 }),
            ],
        ),
{
    Command::new(PENDING, vec![Value::Id(job), Value::Int(batch_limit(limit))])
}

pub const RECORDS: &'static str =
    "SELECT source_id, asset_id, source_checksum, state, warnings, error, migrated_at FROM import_records \
     WHERE import_job_id = $1 ORDER BY source_id LIMIT $2";

/// Every record, for a report or a manifest.
pub fn records(job: Uuid, limit: i64) -> (command: Command)
    ensures
        command.says(
            "SELECT source_id, asset_id, source_checksum, state, warnings, error, migrated_at FROM import_records \
             WHERE import_job_id = $1 ORDER BY source_id LIMIT $2"@,
            seq![
                Given::Id(job), Given::Int(clamped(limit as int, 1, 10_000) as i64),
            ],
        ),
{
    Command::new(RECORDS, vec![Value::Id(job), Value::Int(report_limit(limit))])
}

pub const RECOUNT: &'static str =
    "UPDATE import_jobs SET migrated_count = counts.migrated, failed_count = counts.failed, skipped_count = \
     counts.skipped FROM (SELECT count(*) FILTER (WHERE state = 'migrated') AS migrated, count(*) FILTER \
     (WHERE state = 'failed') AS failed, count(*) FILTER (WHERE state = 'skipped') AS skipped FROM \
     import_records WHERE import_job_id = $1) AS counts WHERE id = $1";

/// A migration's counters, counted again from its records, which are the truth.
pub fn recount(job: Uuid) -> (command: Command)
    ensures
        command.says(
            "UPDATE import_jobs SET migrated_count = counts.migrated, failed_count = counts.failed, skipped_count = \
             counts.skipped FROM (SELECT count(*) FILTER (WHERE state = 'migrated') AS migrated, count(*) FILTER \
             (WHERE state = 'failed') AS failed, count(*) FILTER (WHERE state = 'skipped') AS skipped FROM \
             import_records WHERE import_job_id = $1) AS counts WHERE id = $1"@,
            seq![Given::Id(job)],
        ),
{
    Command::new(RECOUNT, vec![Value::Id(job)])
}

pub const CREATED_ASSETS: &'static str =
    "SELECT r.asset_id FROM import_records r JOIN assets a ON a.id = r.asset_id WHERE r.import_job_id = $1 \
     AND r.state = 'migrated' AND r.asset_id IS NOT NULL AND a.deleted_at IS NULL AND a.is_current ORDER BY \
     r.source_id";

/// The assets one migration created, for a rollback to remove. Only what it created: a record whose asset was later
/// replaced, deleted or superseded is left out, so that a rollback cannot take something the migration did not bring.
pub fn created_assets(job: Uuid) -> (command: Command)
    ensures
        command.says(
            "SELECT r.asset_id FROM import_records r JOIN assets a ON a.id = r.asset_id WHERE r.import_job_id = $1 \
             AND r.state = 'migrated' AND r.asset_id IS NOT NULL AND a.deleted_at IS NULL AND a.is_current ORDER BY \
             r.source_id"@,
            seq![Given::Id(job)],
        ),
{
    Command::new(CREATED_ASSETS, vec![Value::Id(job)])
}

pub const MARK_ROLLED_BACK: &'static str =
    "UPDATE import_records SET state = 'rolled_back', asset_id = NULL WHERE import_job_id = $1 AND state = \
     'migrated'";

/// A migration's records, rolled back. The records themselves are kept.
pub fn mark_rolled_back(job: Uuid) -> (command: Command)
    ensures
        command.says(
            "UPDATE import_records SET state = 'rolled_back', asset_id = NULL WHERE import_job_id = $1 AND state = \
             'migrated'"@,
            seq![Given::Id(job)],
        ),
{
    Command::new(MARK_ROLLED_BACK, vec![Value::Id(job)])
}

} // verus!
