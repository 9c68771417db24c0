//! Which pages use which assets.
//!
//! A site reports its own usage, so a reference is advisory, and staleness is the whole design: a site that stops
//! reporting looks exactly like a site that stopped using the asset. Two kinds of stale are derived on read:
//! version drift is a job to run, and an overdue refresh is a site to go and look at.

use crate::commands::{as_maybe_str, as_text, as_texts, Command, Given, Value};
use crate::sql::{push, push_bind_ids, push_bind_instant, query, Bind, Query, Statement};
use crate::sql::{MAX_IDS, MAX_INSTANT, MIN_INSTANT};
use crate::json::Json;
use crate::text::{contains, holds, opt_str_chars, same};
use crate::{clamp, clamped, Instant, Uuid};
use vstd::prelude::*;

verus! {

/// How long a reference keeps counting as live: thirty days, in microseconds.
pub const STALE_AFTER: i64 = 2_592_000_000_000;

/// What a report pass changed.
#[derive(Debug, Clone, Copy, Default, PartialEq, Eq, Structural)]
pub struct Reported {
    pub written: u64,
}

/// What pulling an asset would affect.
#[derive(Debug, Clone, Copy, Default, PartialEq, Eq, Structural)]
pub struct Impact {
    /// Distinct connected sites.
    pub sites: i64,
    /// Remote entities.
    pub entities: i64,
    /// Places those entities are used, summed from what each site reported.
    pub pages: i64,
}

/// How often something is used, as it is kept: never below zero.
pub open spec fn counted_usage(usage_count: i32) -> i32 {
    if usage_count < 0 {
        0
    } else {
        usage_count
    }
}

/// A usage count as it is stored: never negative.
pub fn stored_usage(usage_count: i32) -> (stored: i32)
    ensures
        stored == counted_usage(usage_count),
        usage_count >= 0 ==> stored == usage_count,
        usage_count < 0 ==> stored == 0,
{
    if usage_count < 0 {
        0
    } else {
        usage_count
    }
}

/// The total of what each statement of a report wrote.
pub open spec fn total_written(affected: Seq<u64>) -> int
    decreases affected.len(),
{
    if affected.len() == 0 {
        0
    } else {
        total_written(affected.drop_last()) + affected.last()
    }
}

/// What a report pass changed, from how many rows each of its statements wrote.
pub fn report(affected: &Vec<u64>) -> (reported: Reported)
    requires
        total_written(affected@) <= u64::MAX,
    ensures
        reported.written == total_written(affected@),
{
    let mut written: u64 = 0;
    let mut i: usize = 0;
    proof {
        assert(affected@.take(0) =~= Seq::<u64>::empty());
    }
    while i < affected.len()
        invariant
            i <= affected@.len(),
            written == total_written(affected@.take(i as int)),
            total_written(affected@) <= u64::MAX,
        decreases affected@.len() - i,
    {
        proof {
            assert(affected@.take(i + 1).drop_last() =~= affected@.take(i as int));
            assert(affected@.take(i + 1).last() == affected@[i as int]);
            lemma_total_grows(affected@, i + 1);
        }
        written = written + affected[i];
        i += 1;
    }
    proof {
        assert(affected@.take(i as int) =~= affected@);
    }
    Reported { written }
}

proof fn lemma_total_grows(affected: Seq<u64>, i: int)
    requires
        0 <= i <= affected.len(),
    ensures
        total_written(affected.take(i)) <= total_written(affected),
    decreases affected.len(),
{
    if i < affected.len() {
        lemma_total_grows(affected.drop_last(), i);
        assert(affected.drop_last().take(i) =~= affected.take(i));
    } else {
        assert(affected.take(i) =~= affected);
    }
}

/// The instant a reference has to have been refreshed after to count as fresh at `now`.
pub fn horizon(now: Instant) -> (horizon: Instant)
    requires
        now >= i64::MIN + STALE_AFTER,
    ensures
        horizon == now - STALE_AFTER,
        now - horizon == 30 * 24 * 60 * 60 * 1_000_000,
{
    now - STALE_AFTER
}

/// Whether a site renders a version older than the current one. A version nobody reported has not drifted.
pub fn version_drifted(synced: Option<i32>, current: Option<i32>) -> (yes: bool)
    ensures
        yes == drifted(synced, current),
        synced is None || current is None ==> !yes,
        synced is Some && current is Some ==> (yes <==> synced->0 < current->0),
{
    match synced {
        Some(rendered) => match current {
            Some(latest) => rendered < latest,
            None => false,
        },
        None => false,
    }
}

/// Whether a site has not reported since the horizon, or never.
pub open spec fn overdue(synced_at: Option<Instant>, now: Instant) -> bool {
    match synced_at {
        Some(at) => at <= now - STALE_AFTER,
        None => true,
    }
}

/// Whether a site has not reported inside the window.
pub fn refresh_overdue(synced_at: Option<Instant>, now: Instant) -> (yes: bool)
    ensures
        yes == overdue(synced_at, now),
{
    match synced_at {
        Some(at) => at as i128 <= now as i128 - STALE_AFTER as i128,
        None => true,
    }
}

/// One reference, as a report reads it.
#[derive(Debug, Clone, PartialEq, Eq)]
pub struct Reference {
    pub connector_id: Uuid,
    pub connector_label: String,
    pub asset_id: Uuid,
    pub remote_entity_type: String,
    pub remote_entity_id: String,
    pub remote_url: Option<String>,
    pub usage_count: i32,
    pub usage_sample: Json,
    pub synced_version_no: Option<i32>,
    pub synced_at: Option<Instant>,
    /// What somebody asserted. Never `stale`, which is derived.
    pub state: String,
    /// The site is rendering a version older than the current one.
    pub version_drifted: bool,
    /// The site has not reported inside the window, and this reference no longer pins.
    pub refresh_overdue: bool,
}

/// A reference's row, with the asset's current version where there is such an asset.
#[derive(Debug, PartialEq, Eq)]
pub struct ReferenceRow {
    pub connector_id: Uuid,
    pub connector_label: String,
    pub asset_id: Uuid,
    pub remote_entity_type: String,
    pub remote_entity_id: String,
    pub remote_url: Option<String>,
    pub usage_count: i32,
    pub usage_sample: Json,
    pub synced_version_no: Option<i32>,
    pub synced_at: Option<Instant>,
    pub state: String,
    pub current_version_no: Option<i32>,
}

/// Whether a site renders a version older than the current one. A version nobody reported has not drifted.
pub open spec fn drifted(synced: Option<i32>, current: Option<i32>) -> bool {
    synced matches Some(rendered) && current matches Some(latest) && rendered < latest
}

/// The reference a row describes at `now`. Both kinds of stale are derived here, so that they cannot disagree with
/// what is beside them.
pub fn reference_of(row: ReferenceRow, now: Instant) -> (reference: Reference)
    ensures
        reference == (Reference {
            connector_id: row.connector_id,
            connector_label: row.connector_label,
            asset_id: row.asset_id,
            remote_entity_type: row.remote_entity_type,
            remote_entity_id: row.remote_entity_id,
            remote_url: row.remote_url,
            usage_count: row.usage_count,
            usage_sample: row.usage_sample,
            synced_version_no: row.synced_version_no,
            synced_at: row.synced_at,
            state: row.state,
            version_drifted: drifted(row.synced_version_no, row.current_version_no),
            refresh_overdue: overdue(row.synced_at, now),
        }),
{
    Reference {
        connector_id: row.connector_id,
        connector_label: row.connector_label,
        asset_id: row.asset_id,
        remote_entity_type: row.remote_entity_type,
        remote_entity_id: row.remote_entity_id,
        remote_url: row.remote_url,
        usage_count: row.usage_count,
        usage_sample: row.usage_sample,
        synced_version_no: row.synced_version_no,
        synced_at: row.synced_at,
        state: row.state,
        version_drifted: version_drifted(row.synced_version_no, row.current_version_no),
        refresh_overdue: refresh_overdue(row.synced_at, now),
    }
}

/// An entity a site is held to use, and what is asserted of it.
#[derive(Debug, Clone, PartialEq, Eq)]
pub struct Held {
    pub remote_entity_id: String,
    pub state: String,
}

/// Whether a full report that names `seen` leaves an entity out that is not orphaned yet.
pub open spec fn absent(held: Held, seen: Seq<String>) -> bool {
    !holds(seen, held.remote_entity_id@) && held.state@ != "orphaned"@
}

/// The entities of one type to mark as orphaned: those the site did not report. Without this half of a full report
/// a deleted page would keep pinning its asset. Marked and not deleted: that it was once used is an answer.
pub fn sweep_absent(rows: &Vec<Held>, seen: &Vec<String>) -> (swept: Vec<Held>)
    ensures
        swept@ == rows@.filter(|held: Held| absent(held, seen@)),
{
    let ghost keep = |held: Held| absent(held, seen@);
    let mut swept: Vec<Held> = Vec::new();
    let mut i: usize = 0;
    proof {
        crate::lists::lemma_filter_ends(rows@, keep);
    }
    while i < rows.len()
        invariant
            i <= rows@.len(),
            keep == (|held: Held| absent(held, seen@)),
            swept@ == rows@.take(i as int).filter(keep),
        decreases rows@.len() - i,
    {
        proof {
            crate::lists::lemma_filter_step(rows@, keep, i as int);
        }
        let held = &rows[i];
        if !contains(seen, held.remote_entity_id.as_str()) && !same(held.state.as_str(), "orphaned") {
            swept.push(
                Held {
                    remote_entity_id: held.remote_entity_id.clone(),
                    state: held.state.clone(),
                },
            );
        }
        i += 1;
    }
    proof {
        assert(rows@.take(i as int) =~= rows@);
    }
    swept
}

/// Whether asserting `to` of a reference in `state` changes it: an orphaned reference stays orphaned until its site
/// reports it again.
pub fn set_state(state: &str, to: &str) -> (changes: bool)
    ensures
        changes == (state@ != "orphaned"@ && state@ != to@),
{
    !same(state, "orphaned") && !same(state, to)
}

/// What a site reports is never swept, and everything else of the type is: after a full report an entity is
/// orphaned exactly when it was not reported or had been orphaned before.
pub proof fn a_full_report_orphans_only_what_it_leaves_out(held: Held, seen: Seq<String>)
    ensures
        holds(seen, held.remote_entity_id@) ==> !absent(held, seen),
        !holds(seen, held.remote_entity_id@) ==> absent(held, seen) || held.state@ == "orphaned"@,
{
}

/// How many references one site's list returns when `limit` are asked for.
pub fn list_limit(limit: i64) -> (effective: i64)
    ensures
        effective == clamped(limit as int, 1, 500),
        1 <= effective <= 500,
        1 <= limit <= 500 ==> effective == limit,
{
    clamp(limit, 1, 500)
}

pub const IMPACT_SELECT: &'static str =
    "SELECT r.asset_id, \
            count(DISTINCT r.connector_id) AS sites, \
            count(*) AS entities, \
            coalesce(sum(r.usage_count), 0)::bigint AS pages \
     FROM connector_asset_refs r \
     JOIN connectors c ON c.id = r.connector_id \
     WHERE r.asset_id = ANY(";

pub const IMPACT_LIVE: &'static str =
    ") AND r.state = 'linked' AND r.usage_count > 0 \
       AND c.status IN ('active', 'error') \
       AND r.synced_at IS NOT NULL AND r.synced_at > ";

/// The statement that says what pulling each of `asset_ids` would affect. `None` when there is nothing to ask.
/// It counts only what is live: linked, in use, on a connector that renders, refreshed inside the window.
pub fn impact(asset_ids: &Vec<Uuid>, now: Instant) -> (statement: Option<Statement>)
    requires
        asset_ids@.len() <= MAX_IDS,
        MIN_INSTANT + STALE_AFTER <= now <= MAX_INSTANT,
    ensures
        statement is None <==> asset_ids@.len() == 0,
        statement matches Some(inner) ==> query(inner) == Query::new(
            "SELECT r.asset_id, \
             count(DISTINCT r.connector_id) AS sites, \
             count(*) AS entities, \
             coalesce(sum(r.usage_count), 0)::bigint AS pages \
             FROM connector_asset_refs r \
             JOIN connectors c ON c.id = r.connector_id \
             WHERE r.asset_id = ANY("@,
        ).bind(
            Bind::Ids(asset_ids@),
        ).push(
            ") AND r.state = 'linked' AND r.usage_count > 0 \
             AND c.status IN ('active', 'error') \
             AND r.synced_at IS NOT NULL AND r.synced_at > "@,
        ).bind(Bind::At((now - STALE_AFTER) as i64)).push(" GROUP BY r.asset_id"@),
{
    if asset_ids.len() == 0 {
        return None;
    }
    let mut statement = Statement::new(IMPACT_SELECT);
    push_bind_ids(&mut statement, asset_ids);
    push(&mut statement, IMPACT_LIVE);
    push_bind_instant(&mut statement, horizon(now));
    push(&mut statement, " GROUP BY r.asset_id");
    Some(statement)
}

/// A reference goes stale by itself: one that is overdue stays overdue until it is refreshed, and one that has
/// just been refreshed is not.
pub proof fn staleness_needs_no_sweep(synced_at: Option<Instant>, now: Instant, later: Instant)
    requires
        now <= later,
    ensures
        overdue(synced_at, now) ==> overdue(synced_at, later),
        !overdue(Some(now), now),
{
}

/// A reference is due for a refresh when it was never refreshed or the last time is thirty days ago or more.
pub proof fn a_reference_is_refreshed_within_thirty_days(at: Instant, now: Instant)
    ensures
        overdue(None, now),
        overdue(Some(at), now) <==> now - at >= 30 * 24 * 60 * 60 * 1_000_000,
{
}

/// A site has drifted only where both versions are known and what it shows is the older: a site that shows the latest
/// version, or a later one, has not.
pub proof fn a_site_drifts_when_it_falls_behind(synced: Option<i32>, current: Option<i32>, later: i32)
    ensures
        drifted(synced, current) ==> synced is Some && current is Some,
        synced is Some && current is Some ==> (drifted(synced, current) <==> synced->0 < current->0),
        !drifted(Some(later), Some(later)),
{
}

/// What a report wrote is the sum of what its parts wrote.
pub proof fn a_report_adds_up(first: Seq<u64>, second: Seq<u64>, one: u64)
    ensures
        total_written(seq![one]) == one,
        total_written(first + second) == total_written(first) + total_written(second),
    decreases second.len(),
{
    reveal_with_fuel(total_written, 2);
    assert(seq![one].drop_last() =~= Seq::<u64>::empty());
    if second.len() > 0 {
        a_report_adds_up(first, second.drop_last(), one);
        assert((first + second).drop_last() =~= first + second.drop_last());
    } else {
        assert(first + second =~= first);
    }
}

/// What is orphaned already is left as it is, and the count of uses is never below none.
pub proof fn an_orphan_is_not_swept_twice(held: Held, seen: Seq<String>, usage_count: i32)
    ensures
        held.state@ == "orphaned"@ ==> !absent(held, seen),
        counted_usage(usage_count) >= 0,
        usage_count >= 0 ==> counted_usage(usage_count) == usage_count,
{
}

// ----------------------------------------------------------------------------------------------------
// Commands
// ----------------------------------------------------------------------------------------------------

/// One thing a site says it uses.
#[derive(Debug, Clone)]
pub struct NewRef<'a> {
    pub asset_id: Uuid,
    pub remote_entity_type: &'a str,
    pub remote_entity_id: &'a str,
    pub remote_uuid: Option<&'a str>,
    pub remote_url: Option<&'a str>,
    pub usage_count: i32,
    pub usage_sample: Json,
    pub synced_version_no: Option<i32>,
}

pub const WRITE_REFERENCE: &'static str =
    "INSERT INTO connector_asset_refs (connector_id, asset_id, remote_entity_type, remote_entity_id, \
     remote_uuid, remote_url, usage_count, usage_sample, synced_version_no, synced_at, state) VALUES ($1, \
     $2, $3, $4, $5, $6, $7, $8, $9, $10, 'linked') ON CONFLICT (connector_id, remote_entity_type, \
     remote_entity_id) DO UPDATE SET asset_id = excluded.asset_id, remote_uuid = excluded.remote_uuid, \
     remote_url = excluded.remote_url, usage_count = excluded.usage_count, usage_sample = \
     excluded.usage_sample, synced_version_no = excluded.synced_version_no, synced_at = excluded.synced_at, \
     state = 'linked', updated_at = now()";

/// What a site is using. Whatever is reported is linked again.
pub fn write_reference(connector_id: Uuid, one: NewRef, now: Instant) -> (command: Command)
    ensures
        command.says(
            "INSERT INTO connector_asset_refs (connector_id, asset_id, remote_entity_type, remote_entity_id, \
             remote_uuid, remote_url, usage_count, usage_sample, synced_version_no, synced_at, state) VALUES ($1, \
             $2, $3, $4, $5, $6, $7, $8, $9, $10, 'linked') ON CONFLICT (connector_id, remote_entity_type, \
             remote_entity_id) DO UPDATE SET asset_id = excluded.asset_id, remote_uuid = excluded.remote_uuid, \
             remote_url = excluded.remote_url, usage_count = excluded.usage_count, usage_sample = \
             excluded.usage_sample, synced_version_no = excluded.synced_version_no, synced_at = excluded.synced_at, \
             state = 'linked', updated_at = now()"@,
            seq![
                Given::Id(connector_id), Given::Id(one.asset_id), Given::Text(one.remote_entity_type@),
                Given::Text(one.remote_entity_id@), Given::MaybeText(opt_str_chars(one.remote_uuid)),
                Given::MaybeText(opt_str_chars(one.remote_url)),
                Given::Whole(counted_usage(one.usage_count)), Given::Json(one.usage_sample),
                Given::MaybeWhole(one.synced_version_no), Given::At(now),
            ],
        ),
{
    Command::new(
        WRITE_REFERENCE,
        vec![
            Value::Id(connector_id), Value::Id(one.asset_id), as_text(one.remote_entity_type),
            as_text(one.remote_entity_id), as_maybe_str(one.remote_uuid), as_maybe_str(one.remote_url),
            Value::Whole(stored_usage(one.usage_count)), Value::Json(one.usage_sample),
            Value::MaybeWhole(one.synced_version_no), Value::At(now),
        ],
    )
}

pub const HELD: &'static str =
    "SELECT remote_entity_id, state FROM connector_asset_refs WHERE connector_id = $1 AND \
     remote_entity_type = $2 FOR UPDATE";

/// What a site is known to use of one type, held until the transaction ends.
pub fn held(connector_id: Uuid, remote_entity_type: &str) -> (command: Command)
    ensures
        command.says(
            "SELECT remote_entity_id, state FROM connector_asset_refs WHERE connector_id = $1 AND \
             remote_entity_type = $2 FOR UPDATE"@,
            seq![Given::Id(connector_id), Given::Text(remote_entity_type@)],
        ),
{
    Command::new(HELD, vec![Value::Id(connector_id), as_text(remote_entity_type)])
}

pub const WRITE_ORPHANED: &'static str =
    "UPDATE connector_asset_refs SET state = 'orphaned', updated_at = now() WHERE connector_id = $1 AND \
     remote_entity_type = $2 AND remote_entity_id = ANY($3)";

/// That a site no longer uses these.
pub fn write_orphaned(
    connector_id: Uuid,
    remote_entity_type: &str,
    swept: &Vec<String>,
) -> (command: Command)
    ensures
        command.says(
            "UPDATE connector_asset_refs SET state = 'orphaned', updated_at = now() WHERE connector_id = $1 AND \
             remote_entity_type = $2 AND remote_entity_id = ANY($3)"@,
            seq![
                Given::Id(connector_id), Given::Text(remote_entity_type@),
                Given::Texts(crate::text::all_chars(swept@)),
            ],
        ),
{
    Command::new(
        WRITE_ORPHANED,
        vec![
            Value::Id(connector_id), as_text(remote_entity_type), as_texts(swept),
        ],
    )
}

pub const WRITE_STATE: &'static str =
    "UPDATE connector_asset_refs SET state = $2, updated_at = now() WHERE asset_id = $1 AND state = ANY($3)";

/// An asset's references in these states, in another.
pub fn write_state(asset_id: Uuid, state: &str, moved: &Vec<String>) -> (command: Command)
    ensures
        command.says(
            "UPDATE connector_asset_refs SET state = $2, updated_at = now() WHERE asset_id = $1 AND state = ANY($3)"@,
            seq![
                Given::Id(asset_id), Given::Text(state@), Given::Texts(crate::text::all_chars(moved@)),
            ],
        ),
{
    Command::new(WRITE_STATE, vec![Value::Id(asset_id), as_text(state), as_texts(moved)])
}

pub const STATES_OF: &'static str = "SELECT DISTINCT state FROM connector_asset_refs WHERE asset_id = $1";

/// The states an asset's references are in.
pub fn states_of(asset_id: Uuid) -> (command: Command)
    ensures
        command.says("SELECT DISTINCT state FROM connector_asset_refs WHERE asset_id = $1"@, seq![Given::Id(asset_id)]),
{
    Command::new(STATES_OF, vec![Value::Id(asset_id)])
}

pub const FOR_ASSET: &'static str =
    "SELECT r.connector_id, c.label AS connector_label, r.asset_id, r.remote_entity_type, \
     r.remote_entity_id, r.remote_url, r.usage_count, r.usage_sample, r.synced_version_no, r.synced_at, \
     r.state, a.version_no FROM connector_asset_refs r JOIN connectors c ON c.id = r.connector_id LEFT JOIN \
     assets a ON a.id = r.asset_id WHERE r.asset_id = $1 ORDER BY r.usage_count DESC, c.label, \
     r.remote_entity_id";

/// Every reference to one asset, across every site.
pub fn for_asset(asset_id: Uuid) -> (command: Command)
    ensures
        command.says(
            "SELECT r.connector_id, c.label AS connector_label, r.asset_id, r.remote_entity_type, \
             r.remote_entity_id, r.remote_url, r.usage_count, r.usage_sample, r.synced_version_no, r.synced_at, \
             r.state, a.version_no FROM connector_asset_refs r JOIN connectors c ON c.id = r.connector_id LEFT JOIN \
             assets a ON a.id = r.asset_id WHERE r.asset_id = $1 ORDER BY r.usage_count DESC, c.label, \
             r.remote_entity_id"@,
            seq![Given::Id(asset_id)],
        ),
{
    Command::new(FOR_ASSET, vec![Value::Id(asset_id)])
}

pub const FOR_CONNECTOR: &'static str =
    "SELECT r.connector_id, c.label AS connector_label, r.asset_id, r.remote_entity_type, \
     r.remote_entity_id, r.remote_url, r.usage_count, r.usage_sample, r.synced_version_no, r.synced_at, \
     r.state, a.version_no FROM connector_asset_refs r JOIN connectors c ON c.id = r.connector_id LEFT JOIN \
     assets a ON a.id = r.asset_id WHERE r.connector_id = $1 ORDER BY r.usage_count DESC, \
     r.remote_entity_id LIMIT $2";

/// Every reference one site holds, most used first.
pub fn for_connector(connector_id: Uuid, limit: i64) -> (command: Command)
    ensures
        command.says(
            "SELECT r.connector_id, c.label AS connector_label, r.asset_id, r.remote_entity_type, \
             r.remote_entity_id, r.remote_url, r.usage_count, r.usage_sample, r.synced_version_no, r.synced_at, \
             r.state, a.version_no FROM connector_asset_refs r JOIN connectors c ON c.id = r.connector_id LEFT JOIN \
             assets a ON a.id = r.asset_id WHERE r.connector_id = $1 ORDER BY r.usage_count DESC, \
             r.remote_entity_id LIMIT $2"@,
            seq![
                Given::Id(connector_id), Given::Int(clamped(limit as int, 1, 500) as i64),
            ],
        ),
{
    Command::new(FOR_CONNECTOR, vec![Value::Id(connector_id), Value::Int(list_limit(limit))])
}

} // verus!
