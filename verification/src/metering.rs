//! Fleet metering: one row per tenant per day.
//!
//! A level is not a flow. What happened on a day can be measured for any past day, but how much is stored is only
//! known now, so a day whose level can no longer be observed is refused: a backfill that wrote today's storage
//! against last March would be a flat curve because it is the same number repeated.

use crate::commands::{Command, Given, Value};
use crate::json::Json;
use crate::Uuid;
use vstd::prelude::*;

verus! {

/// A calendar day, as days since the Unix epoch.
pub type Day = i32;

/// How far back a level can still be observed, in days: yesterday.
pub const LEVEL_HORIZON_DAYS: i64 = 1;

/// The first and last days chrono can represent.
pub const MIN_DAY: Day = -96_465_292;

pub const MAX_DAY: Day = 95_026_236;

/// A calendar day as chrono writes it, year first.
pub uninterp spec fn day_chars(day: int) -> Seq<char>;

/// `chrono::NaiveDate::from_epoch_days`, and the date's `Display`. How the date is written is not stated, only
/// named.
#[verifier::external_body]
fn day_text(day: Day) -> (text: String)
    requires
        representable(day),
    ensures
        text@ == day_chars(day as int),
{
    chrono::NaiveDate::from_epoch_days(day).unwrap().to_string()
}

/// Why a day cannot be measured.
#[derive(Debug, Clone, Copy, PartialEq, Eq, Structural)]
pub enum Refusal {
    /// The day is old enough that its storage level is no longer observable.
    LevelUnobservable { day: Day, today: Day },
}

pub const UNOBSERVABLE: &'static str =
    " minus 1 day(s), and object_placements only knows what \
     is stored now \u{2014} measuring it would record today's storage against a past day";

/// Whether chrono can represent a day.
pub open spec fn representable(day: Day) -> bool {
    MIN_DAY <= day <= MAX_DAY
}

impl Refusal {
    /// The sentence an operator reads.
    pub fn message(&self) -> (out: String)
        requires
            match *self {
                Refusal::LevelUnobservable { day, today } => representable(day) && representable(
                    today,
                ),
            },
        ensures
            match *self {
                Refusal::LevelUnobservable { day, today } => out@ == day_chars(day as int)
                    + " is before "@ + day_chars(today as int) + " minus 1 day(s), and object_placements only knows what \
                         is stored now \u{2014} measuring it would record today's storage against a past day"@,
            },
    {
        match self {
            Refusal::LevelUnobservable { day, today } => {
                let mut out = day_text(*day);
                out.append(" is before ");
                out.append(day_text(*today).as_str());
                out.append(UNOBSERVABLE);
                out
            },
        }
    }
}

/// Whether the level of `day` can still be observed on `today`.
pub open spec fn observable(day: Day, today: Day) -> bool {
    today - day <= LEVEL_HORIZON_DAYS
}

/// Refuses a day whose level can no longer be observed. Today is permitted, and yesterday, so that a job that runs
/// after midnight can measure the day that has just ended.
pub fn check_day(day: Day, today: Day) -> (checked: Result<(), Refusal>)
    ensures
        checked == if observable(day, today) {
            Ok::<(), Refusal>(())
        } else {
            Err(Refusal::LevelUnobservable { day, today })
        },
        checked is Ok <==> day >= today - 1,
{
    if today as i64 - day as i64 > LEVEL_HORIZON_DAYS {
        Err(Refusal::LevelUnobservable { day, today })
    } else {
        Ok(())
    }
}

/// One tenant-day.
#[derive(Debug, Clone, PartialEq, Eq)]
pub struct DayTotals {
    /// A level: current library rows.
    pub asset_count: i64,
    /// A level: bytes over present placements, by storage class.
    pub bytes_by_pool: Json,
    /// A flow: downloads recorded in the ledger that day.
    pub downloads: i64,
    /// A flow: restores requested that day.
    pub restores: i64,
    pub restore_bytes: i64,
    pub ai_input_tokens: i64,
    pub ai_output_tokens: i64,
    pub ai_cached_tokens: i64,
    /// A flow: restore retrieval and AI spend, in whole cents.
    pub est_cost_cents: i64,
}

impl Default for DayTotals {
    /// A day on which nothing happened and nothing is stored. The classes are an empty object and not `null`, so
    /// that a reader needs no branch for the empty case.
    fn default() -> (totals: DayTotals)
        ensures
            totals.asset_count == 0,
            totals.bytes_by_pool matches Json::Object(classes) && classes@.len() == 0,
            totals.downloads == 0,
            totals.restores == 0,
            totals.restore_bytes == 0,
            totals.ai_input_tokens == 0,
            totals.ai_output_tokens == 0,
            totals.ai_cached_tokens == 0,
            totals.est_cost_cents == 0,
    {
        DayTotals {
            asset_count: 0,
            bytes_by_pool: Json::Object(Vec::new()),
            downloads: 0,
            restores: 0,
            restore_bytes: 0,
            ai_input_tokens: 0,
            ai_output_tokens: 0,
            ai_cached_tokens: 0,
            est_cost_cents: 0,
        }
    }
}

/// What one entry contributes: its integer, or nothing when it is malformed.
pub open spec fn entry_bytes(value: Json) -> int {
    match value {
        Json::Int(bytes) => bytes as int,
        _ => 0,
    }
}

/// The sum of what the entries contribute.
pub open spec fn total_bytes(entries: Seq<(String, Json)>) -> int
    decreases entries.len(),
{
    if entries.len() == 0 {
        0
    } else {
        total_bytes(entries.drop_last()) + entry_bytes(entries.last().1)
    }
}

/// Whether the sum of the entries, and of every first few of them, is a 64-bit integer.
pub open spec fn summable(entries: Seq<(String, Json)>) -> bool {
    forall|n: int|
        0 <= n <= entries.len() ==> i64::MIN <= #[trigger] total_bytes(entries.take(n)) <= i64::MAX
}

impl DayTotals {
    /// Everything stored, across every class.
    pub open spec fn stored(self) -> int {
        match self.bytes_by_pool {
            Json::Object(classes) => total_bytes(classes@),
            _ => 0,
        }
    }

    /// Everything stored, across every class. A malformed value contributes nothing rather than failing: refusing
    /// to print a table because one day is wrong would hide the other twenty-nine.
    #[verifier::loop_isolation(false)]
    pub fn stored_bytes(&self) -> (total: i64)
        requires
            self.bytes_by_pool matches Json::Object(classes) ==> summable(classes@),
        ensures
            total == self.stored(),
    {
        match &self.bytes_by_pool {
            Json::Object(classes) => {
                let mut total: i64 = 0;
                let mut i: usize = 0;
                proof {
                    assert(classes@.take(0) =~= Seq::<(String, Json)>::empty());
                }
                while i < classes.len()
                    invariant
                        i <= classes@.len(),
                        total == total_bytes(classes@.take(i as int)),
                    decreases classes@.len() - i,
                {
                    proof {
                        assert(classes@.take(i + 1).drop_last() =~= classes@.take(i as int));
                        assert(classes@.take(i + 1).last() == classes@[i as int]);
                        assert(i64::MIN <= total_bytes(classes@.take(i + 1)) <= i64::MAX);
                    }
                    match classes[i].1 {
                        Json::Int(bytes) => total = total + bytes,
                        _ => {},
                    }
                    i += 1;
                }
                proof {
                    assert(classes@.take(i as int) =~= classes@);
                }
                total
            },
            _ => 0,
        }
    }
}

/// One tenant-day as stored, for an operator's report.
#[derive(Debug, Clone, PartialEq, Eq)]
pub struct Row {
    pub tenant_id: Uuid,
    pub day: Day,
    pub totals: DayTotals,
}

/// What a measurement read.
#[derive(Debug)]
pub struct Measured {
    pub asset_count: i64,
    /// Bytes by storage class.
    pub by_class: Vec<(String, i64)>,
    pub downloads: i64,
    pub restores: i64,
    pub restore_bytes: i64,
    pub restore_cents: i64,
    pub ai_input_tokens: i64,
    pub ai_output_tokens: i64,
    pub ai_cached_tokens: i64,
    /// AI spend, rounded once.
    pub ai_cents: i64,
}

/// Whether an object holds each class's bytes under its name, in their order.
pub open spec fn classes_listed(value: Json, by_class: Seq<(String, i64)>) -> bool {
    &&& value matches Json::Object(classes)
    &&& classes@.len() == by_class.len()
    &&& forall|i: int|
        0 <= i < by_class.len() ==> (#[trigger] classes@[i]).0 == by_class[i].0 && classes@[i].1
            == Json::Int(by_class[i].1)
}

/// The sum of two costs, saturating.
pub open spec fn saturated(a: i64, b: i64) -> i64 {
    if a + b > i64::MAX {
        i64::MAX
    } else if a + b < i64::MIN {
        i64::MIN
    } else {
        (a + b) as i64
    }
}

/// One day's totals from what was read of it.
pub fn measure(day: Day, today: Day, measured: Measured) -> (totals: Result<DayTotals, Refusal>)
    ensures
        match totals {
            Ok(inner) => {
                &&& observable(day, today)
                &&& inner.asset_count == measured.asset_count
                &&& classes_listed(inner.bytes_by_pool, measured.by_class@)
                &&& inner.downloads == measured.downloads
                &&& inner.restores == measured.restores
                &&& inner.restore_bytes == measured.restore_bytes
                &&& inner.ai_input_tokens == measured.ai_input_tokens
                &&& inner.ai_output_tokens == measured.ai_output_tokens
                &&& inner.ai_cached_tokens == measured.ai_cached_tokens
                &&& inner.est_cost_cents == saturated(measured.restore_cents, measured.ai_cents)
            },
            Err(refusal) => !observable(day, today) && refusal == (Refusal::LevelUnobservable {
                day,
                today,
            }),
        },
        totals is Ok <==> day >= today - 1,
        totals matches Ok(inner) ==> {
            let sum = measured.restore_cents + measured.ai_cents;
            &&& i64::MIN <= sum <= i64::MAX ==> inner.est_cost_cents == sum
            &&& sum > i64::MAX ==> inner.est_cost_cents == i64::MAX
            &&& sum < i64::MIN ==> inner.est_cost_cents == i64::MIN
        },
{
    match check_day(day, today) {
        Err(refusal) => return Err(refusal),
        Ok(()) => {},
    }
    let ghost given = measured.by_class@;
    let mut classes: Vec<(String, Json)> = Vec::new();
    for entry in each: measured.by_class
        invariant
            each.seq() == given,
            classes@.len() == each.index(),
            forall|i: int|
                0 <= i < each.index() ==> (#[trigger] classes@[i]).0 == given[i].0 && classes@[i].1
                    == Json::Int(given[i].1),
    {
        let (class, bytes) = entry;
        classes.push((class, Json::Int(bytes)));
    }
    let cents: i128 = measured.restore_cents as i128 + measured.ai_cents as i128;
    let est_cost_cents: i64 = if cents > i64::MAX as i128 {
        i64::MAX
    } else if cents < i64::MIN as i128 {
        i64::MIN
    } else {
        cents as i64
    };
    Ok(
        DayTotals {
            asset_count: measured.asset_count,
            bytes_by_pool: Json::Object(classes),
            downloads: measured.downloads,
            restores: measured.restores,
            restore_bytes: measured.restore_bytes,
            ai_input_tokens: measured.ai_input_tokens,
            ai_output_tokens: measured.ai_output_tokens,
            ai_cached_tokens: measured.ai_cached_tokens,
            est_cost_cents,
        },
    )
}

/// The sum of a day's bytes by class.
pub open spec fn class_total(by_class: Seq<(String, i64)>) -> int
    decreases by_class.len(),
{
    if by_class.len() == 0 {
        0
    } else {
        class_total(by_class.drop_last()) + by_class.last().1
    }
}

/// What is measured is what is reported: the bytes stored across every class are the sum of what the measurement
/// read for each.
pub proof fn stored_bytes_are_what_was_measured(
    classes: Seq<(String, Json)>,
    by_class: Seq<(String, i64)>,
)
    requires
        classes.len() == by_class.len(),
        forall|i: int|
            0 <= i < by_class.len() ==> (#[trigger] classes[i]).1 == Json::Int(by_class[i].1),
    ensures
        total_bytes(classes) == class_total(by_class),
    decreases classes.len(),
{
    if classes.len() > 0 {
        let front = classes.drop_last();
        assert forall|i: int| 0 <= i < by_class.drop_last().len() implies (#[trigger] front[i]).1
            == Json::Int(by_class.drop_last()[i].1) by {
            assert(classes[i].1 == Json::Int(by_class[i].1));
        }
        stored_bytes_are_what_was_measured(front, by_class.drop_last());
        assert(classes[classes.len() - 1].1 == Json::Int(by_class[by_class.len() - 1].1));
    }
}

/// A level can be read of today and of yesterday, and of no day before.
pub proof fn a_level_is_read_within_a_day(day: Day, today: Day)
    ensures
        observable(day, today) <==> day >= today - 1,
        observable(today, today),
{
}

/// Bytes add up: what is stored over two lists of classes is the sum of what is stored over each, a class counts what its
/// number says, and what is no number counts nothing.
pub proof fn stored_bytes_add_up(
    first: Seq<(String, Json)>,
    second: Seq<(String, Json)>,
    name: String,
    bytes: i64,
)
    ensures
        total_bytes(first + second) == total_bytes(first) + total_bytes(second),
        total_bytes(seq![(name, Json::Int(bytes))]) == bytes,
        total_bytes(seq![(name, Json::Null)]) == 0,
    decreases second.len(),
{
    reveal_with_fuel(total_bytes, 2);
    assert(seq![(name, Json::Int(bytes))].drop_last() =~= Seq::<(String, Json)>::empty());
    assert(seq![(name, Json::Null)].drop_last() =~= Seq::<(String, Json)>::empty());
    if second.len() > 0 {
        stored_bytes_add_up(first, second.drop_last(), name, bytes);
        assert((first + second).drop_last() =~= first + second.drop_last());
    } else {
        assert(first + second =~= first);
    }
}

/// A day's classes are listed under their own names, each with its own bytes, in the order they were measured in.
pub proof fn classes_keep_their_names(value: Json, by_class: Seq<(String, i64)>, i: int)
    requires
        classes_listed(value, by_class),
        0 <= i < by_class.len(),
    ensures
        value matches Json::Object(classes) && classes@.len() == by_class.len() && classes@[i].0@ == by_class[i].0@
            && classes@[i].1 == Json::Int(by_class[i].1),
{
    if let Json::Object(classes) = value {
        assert(classes@[i].0 == by_class[i].0);
    }
}

/// What a day stored is the sum over its classes, and nothing where it lists none.
pub proof fn a_day_stores_what_its_classes_do(totals: DayTotals)
    ensures
        !(totals.bytes_by_pool is Object) ==> totals.stored() == 0,
        totals.bytes_by_pool matches Json::Object(classes) ==> totals.stored() == total_bytes(classes@),
{
}

// ----------------------------------------------------------------------------------------------------
// Commands
// ----------------------------------------------------------------------------------------------------

pub const LEVEL: &'static str =
    "SELECT count(*) FROM assets WHERE assets.deleted_at IS NULL AND assets.is_current AND \
     assets.attached_to IS NULL";

/// How many assets the library holds now.
pub fn level() -> (command: Command)
    ensures
        command.says(
            "SELECT count(*) FROM assets WHERE assets.deleted_at IS NULL AND assets.is_current AND \
             assets.attached_to IS NULL"@,
            Seq::empty(),
        ),
{
    Command::new(LEVEL, Vec::new())
}

pub const STORED_BY_CLASS: &'static str =
    "SELECT storage_class, coalesce(sum(size_bytes), 0)::bigint FROM object_placements WHERE state = \
     'present' GROUP BY storage_class";

/// How much is stored now, by storage class.
pub fn stored_by_class() -> (command: Command)
    ensures
        command.says(
            "SELECT storage_class, coalesce(sum(size_bytes), 0)::bigint FROM object_placements WHERE state = \
             'present' GROUP BY storage_class"@,
            Seq::empty(),
        ),
{
    Command::new(STORED_BY_CLASS, Vec::new())
}

pub const FLOWS: &'static str =
    "SELECT (SELECT count(*) FROM rights_usage WHERE source = 'download' AND recorded_at::date = $1), \
     (SELECT count(*) FROM restore_requests WHERE requested_at::date = $1), (SELECT coalesce(sum(bytes), \
     0)::bigint FROM restore_requests WHERE requested_at::date = $1), (SELECT coalesce(sum(est_cost_cents), \
     0)::bigint FROM restore_requests WHERE requested_at::date = $1), (SELECT coalesce(sum(input_tokens), \
     0)::bigint FROM enrichment_runs WHERE started_at::date = $1), (SELECT coalesce(sum(output_tokens), \
     0)::bigint FROM enrichment_runs WHERE started_at::date = $1), (SELECT coalesce(sum(cached_tokens), \
     0)::bigint FROM enrichment_runs WHERE started_at::date = $1)";

/// What happened on a day: downloads, restores with their bytes and their cost, and tokens.
pub fn flows(day: Day) -> (command: Command)
    ensures
        command.says(
            "SELECT (SELECT count(*) FROM rights_usage WHERE source = 'download' AND recorded_at::date = $1), \
             (SELECT count(*) FROM restore_requests WHERE requested_at::date = $1), (SELECT coalesce(sum(bytes), \
             0)::bigint FROM restore_requests WHERE requested_at::date = $1), (SELECT coalesce(sum(est_cost_cents), \
             0)::bigint FROM restore_requests WHERE requested_at::date = $1), (SELECT coalesce(sum(input_tokens), \
             0)::bigint FROM enrichment_runs WHERE started_at::date = $1), (SELECT coalesce(sum(output_tokens), \
             0)::bigint FROM enrichment_runs WHERE started_at::date = $1), (SELECT coalesce(sum(cached_tokens), \
             0)::bigint FROM enrichment_runs WHERE started_at::date = $1)"@,
            seq![Given::Day(day)],
        ),
{
    Command::new(FLOWS, vec![Value::Day(day)])
}

pub const AI_SPEND: &'static str =
    "SELECT coalesce(round(sum(est_cost_cents)), 0)::bigint FROM enrichment_runs WHERE started_at::date = \
     $1";

/// What models cost on a day, rounded once and not run by run.
pub fn ai_spend(day: Day) -> (command: Command)
    ensures
        command.says(
            "SELECT coalesce(round(sum(est_cost_cents)), 0)::bigint FROM enrichment_runs WHERE started_at::date = \
             $1"@,
            seq![Given::Day(day)],
        ),
{
    Command::new(AI_SPEND, vec![Value::Day(day)])
}

pub const UPSERT: &'static str =
    "INSERT INTO dam_global.tenant_usage_daily (tenant_id, day, asset_count, bytes_by_pool, downloads, \
     restores, restore_bytes, ai_input_tokens, ai_output_tokens, ai_cached_tokens, est_cost_cents) VALUES \
     ($1, $2, $3, $4, $5, $6, $7, $8, $9, $10, $11) ON CONFLICT (tenant_id, day) DO UPDATE SET asset_count \
     = excluded.asset_count, bytes_by_pool = excluded.bytes_by_pool, downloads = excluded.downloads, \
     restores = excluded.restores, restore_bytes = excluded.restore_bytes, ai_input_tokens = \
     excluded.ai_input_tokens, ai_output_tokens = excluded.ai_output_tokens, ai_cached_tokens = \
     excluded.ai_cached_tokens, est_cost_cents = excluded.est_cost_cents";

/// One tenant-day in the control plane, in place of any earlier measurement of it.
pub fn upsert(tenant_id: Uuid, day: Day, totals: DayTotals) -> (command: Command)
    ensures
        command.says(
            "INSERT INTO dam_global.tenant_usage_daily (tenant_id, day, asset_count, bytes_by_pool, downloads, \
             restores, restore_bytes, ai_input_tokens, ai_output_tokens, ai_cached_tokens, est_cost_cents) VALUES \
             ($1, $2, $3, $4, $5, $6, $7, $8, $9, $10, $11) ON CONFLICT (tenant_id, day) DO UPDATE SET asset_count \
             = excluded.asset_count, bytes_by_pool = excluded.bytes_by_pool, downloads = excluded.downloads, \
             restores = excluded.restores, restore_bytes = excluded.restore_bytes, ai_input_tokens = \
             excluded.ai_input_tokens, ai_output_tokens = excluded.ai_output_tokens, ai_cached_tokens = \
             excluded.ai_cached_tokens, est_cost_cents = excluded.est_cost_cents"@,
            seq![
                Given::Id(tenant_id), Given::Day(day), Given::Int(totals.asset_count),
                Given::Json(totals.bytes_by_pool), Given::Int(totals.downloads),
                Given::Int(totals.restores), Given::Int(totals.restore_bytes),
                Given::Int(totals.ai_input_tokens), Given::Int(totals.ai_output_tokens),
                Given::Int(totals.ai_cached_tokens), Given::Int(totals.est_cost_cents),
            ],
        ),
{
    Command::new(
        UPSERT,
        vec![
            Value::Id(tenant_id), Value::Day(day), Value::Int(totals.asset_count),
            Value::Json(totals.bytes_by_pool), Value::Int(totals.downloads),
            Value::Int(totals.restores), Value::Int(totals.restore_bytes),
            Value::Int(totals.ai_input_tokens), Value::Int(totals.ai_output_tokens),
            Value::Int(totals.ai_cached_tokens), Value::Int(totals.est_cost_cents),
        ],
    )
}

pub const WINDOW: &'static str =
    "SELECT day, asset_count, bytes_by_pool, downloads, restores, restore_bytes, ai_input_tokens, \
     ai_output_tokens, ai_cached_tokens, est_cost_cents FROM dam_global.tenant_usage_daily WHERE tenant_id \
     = $1 AND day BETWEEN $2 AND $3 ORDER BY day";

/// A window of days for one tenant, oldest first.
pub fn window(tenant_id: Uuid, from: Day, to: Day) -> (command: Command)
    ensures
        command.says(
            "SELECT day, asset_count, bytes_by_pool, downloads, restores, restore_bytes, ai_input_tokens, \
             ai_output_tokens, ai_cached_tokens, est_cost_cents FROM dam_global.tenant_usage_daily WHERE tenant_id \
             = $1 AND day BETWEEN $2 AND $3 ORDER BY day"@,
            seq![Given::Id(tenant_id), Given::Day(from), Given::Day(to)],
        ),
{
    Command::new(WINDOW, vec![Value::Id(tenant_id), Value::Day(from), Value::Day(to)])
}

} // verus!
