//! The derivative cache.
//!
//! Keyed on the recipe, not the name: looking a derivative up by name would serve the old bytes forever after a
//! profile was redefined. An asset has exactly one master proxy, so a redefined proxy is swapped rather than
//! recorded beside its predecessor, and the swap hands back the object it leaves unreferenced.

use crate::commands::{as_text, as_texts, Command, Given, Value};
use crate::text::{quoted, quoted_chars, same, uuid_chars, uuid_text, wrapped};
use crate::{Error, Instant, Uuid};
use vstd::prelude::*;

verus! {

/// How stale `last_served_at` must be before a delivery rewrites it: an hour, in microseconds.
pub const SERVED_RESOLUTION: i64 = 3_600_000_000;

/// A cached derivative.
#[derive(Debug, Clone, PartialEq, Eq)]
pub struct Derivative {
    pub id: Uuid,
    pub asset_id: Uuid,
    pub role: String,
    pub profile: String,
    pub op_hash: String,
    pub object_key: String,
    pub mime: String,
    pub bytes: i64,
    pub width: Option<i32>,
    pub height: Option<i32>,
}

/// What to record for a freshly rendered derivative.
#[derive(Debug, Clone, Copy)]
pub struct NewDerivative<'a> {
    pub asset_id: Uuid,
    pub role: &'a str,
    pub profile: &'a str,
    pub op_hash: &'a str,
    pub object_key: &'a str,
    pub mime: &'a str,
    pub bytes: i64,
    pub width: Option<i32>,
    pub height: Option<i32>,
    /// How long the render took, so that a cheap thumbnail can be told from an expensive export.
    pub regen_cost_ms: Option<i32>,
}

/// Whether a new derivative is a master proxy under another recipe than the one the asset has.
pub open spec fn second_proxy(role: Seq<char>, op_hash: Seq<char>, current: Option<Derivative>) -> bool {
    role == "proxy"@ && (current matches Some(existing) && existing.op_hash@ != op_hash)
}

/// Whether a derivative may be recorded, given the asset's current master proxy.
///
/// A second recipe for the proxy is refused rather than silently replacing the first: replacing it would orphan
/// an object with nothing recording that the old key still exists.
pub fn record(new: &NewDerivative, current: &Option<Derivative>) -> (checked: Result<(), Error>)
    ensures
        checked is Ok <==> !second_proxy(new.role@, new.op_hash@, *current),
        checked matches Err(error) ==> error matches Error::Unsupported(detail) && detail@
            == "asset "@ + uuid_chars(new.asset_id) + " already has a master proxy under recipe "@
            + current->0.op_hash@
            + "; an asset has exactly one (D5), so a redefined proxy must go through `replace_proxy`, which reports the object it supersedes"@,
{
    if same(new.role, "proxy") {
        match current {
            Some(existing) => if !same(existing.op_hash.as_str(), new.op_hash) {
                let mut detail = wrapped(
                    "asset ",
                    uuid_text(new.asset_id).as_str(),
                    " already has a master proxy under recipe ",
                );
                detail.append(existing.op_hash.as_str());
                detail.append(
                    "; an asset has exactly one (D5), so a redefined proxy must go through `replace_proxy`, which reports the object it supersedes",
                );
                return Err(Error::Unsupported(detail));
            },
            None => {},
        }
    }
    Ok(())
}

/// The row that ended up in the table after a derivative was recorded.
pub fn recorded(
    found: Option<Derivative>,
    new: &NewDerivative,
) -> (outcome: Result<Derivative, Error>)
    ensures
        match found {
            Some(derivative) => outcome == Ok::<Derivative, Error>(derivative),
            None => outcome matches Err(Error::Inconsistent(detail)) && detail@ == "derivative "@
                + new.op_hash@ + " for asset "@ + uuid_chars(new.asset_id)
                + " vanished immediately after being recorded"@,
        },
{
    match found {
        Some(derivative) => Ok(derivative),
        None => {
            let mut detail = wrapped("derivative ", new.op_hash, " for asset ");
            detail.append(uuid_text(new.asset_id).as_str());
            detail.append(" vanished immediately after being recorded");
            Err(Error::Inconsistent(detail))
        },
    }
}

/// The asset's master proxy as a swap finds it.
#[derive(Debug, Clone, PartialEq, Eq)]
pub struct ProxyRow {
    pub id: Uuid,
    pub op_hash: String,
    pub object_key: String,
}

/// What swapping a master proxy writes.
#[derive(Debug, Clone, PartialEq, Eq)]
pub enum ProxyWrite {
    /// The proxy already has this recipe.
    Keep,
    /// The row `id` takes the new recipe, and `orphaned`, where there is one, is no longer referenced.
    Swap { id: Uuid, orphaned: Option<String> },
    /// The asset had no proxy.
    Insert,
}

/// The write that makes `op_hash` the recipe of the asset's proxy and `object_key` its object. The object the row had is
/// orphaned unless the row goes on naming it.
pub open spec fn writes_proxy(
    write: ProxyWrite,
    superseded: Option<ProxyRow>,
    op_hash: Seq<char>,
    object_key: Seq<char>,
) -> bool {
    match superseded {
        None => write == ProxyWrite::Insert,
        Some(row) => if row.op_hash@ == op_hash {
            write == ProxyWrite::Keep
        } else {
            write == (ProxyWrite::Swap {
                id: row.id,
                orphaned: if row.object_key@ == object_key {
                    None
                } else {
                    Some(row.object_key)
                },
            })
        },
    }
}

/// Swaps an asset's master proxy for a newly rendered one.
///
/// Idempotent: a retried render must not report an object for deletion that is still in use.
pub fn replace_proxy(
    new: &NewDerivative,
    superseded: Option<ProxyRow>,
) -> (write: Result<ProxyWrite, Error>)
    ensures
        write is Ok <==> new.role@ == "proxy"@,
        write matches Ok(inner) ==> writes_proxy(inner, superseded, new.op_hash@, new.object_key@),
        write matches Err(error) ==> error matches Error::Unsupported(detail) && detail@
            == "replace_proxy is for the master proxy; "@ + quoted_chars(new.role@)
            + " is an ordinary derivative and can simply be recorded alongside its predecessors"@,
{
    if !same(new.role, "proxy") {
        return Err(
            Error::Unsupported(
                wrapped(
                    "replace_proxy is for the master proxy; ",
                    quoted(new.role).as_str(),
                    " is an ordinary derivative and can simply be recorded alongside its predecessors",
                ),
            ),
        );
    }
    match superseded {
        None => Ok(ProxyWrite::Insert),
        Some(row) => if same(row.op_hash.as_str(), new.op_hash) {
            Ok(ProxyWrite::Keep)
        } else if same(row.object_key.as_str(), new.object_key) {
            Ok(ProxyWrite::Swap { id: row.id, orphaned: None })
        } else {
            Ok(ProxyWrite::Swap { id: row.id, orphaned: Some(row.object_key) })
        },
    }
}

/// The stored proxy, and the object key that is now unreferenced, for the caller to reclaim once committed.
pub fn replaced(
    write: ProxyWrite,
    found: Option<Derivative>,
    new: &NewDerivative,
) -> (outcome: Result<(Derivative, Option<String>), Error>)
    ensures
        match found {
            Some(derivative) => outcome == Ok::<(Derivative, Option<String>), Error>(
                (
                    derivative,
                    match write {
                        ProxyWrite::Swap { orphaned, .. } => orphaned,
                        _ => None,
                    },
                ),
            ),
            None => outcome matches Err(Error::Inconsistent(detail)) && detail@ == "master proxy "@
                + new.op_hash@ + " for asset "@ + uuid_chars(new.asset_id)
                + " vanished immediately after being written"@,
        },
{
    match found {
        Some(derivative) => Ok(
            (
                derivative,
                match write {
                    ProxyWrite::Swap { orphaned, .. } => orphaned,
                    _ => None,
                },
            ),
        ),
        None => {
            let mut detail = wrapped("master proxy ", new.op_hash, " for asset ");
            detail.append(uuid_text(new.asset_id).as_str());
            detail.append(" vanished immediately after being written");
            Err(Error::Inconsistent(detail))
        },
    }
}

/// The instant before which `last_served_at` has to lie for a delivery at `now` to rewrite it.
pub fn served_horizon(now: Instant) -> (horizon: Instant)
    requires
        now >= i64::MIN + SERVED_RESOLUTION,
    ensures
        horizon == now - SERVED_RESOLUTION,
        now - horizon == 60 * 60 * 1_000_000,
{
    now - SERVED_RESOLUTION
}

pub const EMPTY_PROFILES: &'static str =
    "refusing to list superseded derivatives against an empty profile set; every derivative \
     would qualify, which is a configuration failure rather than an eviction plan";

/// A swap never hands over an object that is still in use: an object is reported as orphaned only when it is the one
/// that the row named, and the row names another after the write.
pub proof fn only_a_superseded_object_is_orphaned(
    write: ProxyWrite,
    superseded: Option<ProxyRow>,
    op_hash: Seq<char>,
    object_key: Seq<char>,
)
    requires
        writes_proxy(write, superseded, op_hash, object_key),
    ensures
        write matches ProxyWrite::Swap { id, orphaned } ==> superseded matches Some(row)
            && row.op_hash@ != op_hash && id == row.id && (orphaned is Some <==> row.object_key@
            != object_key) && (orphaned is Some ==> orphaned->0 == row.object_key),
        superseded matches Some(row) && row.op_hash@ == op_hash ==> write == ProxyWrite::Keep,
{
}

/// Recording never makes a second master proxy: where a proxy is recorded for an asset that has one, both have
/// the same recipe.
pub proof fn recording_keeps_one_proxy(role: Seq<char>, op_hash: Seq<char>, current: Derivative)
    requires
        role == "proxy"@,
        !second_proxy(role, op_hash, Some(current)),
    ensures
        current.op_hash@ == op_hash,
{
}

/// Only a second master proxy is refused: another role is recorded whatever is there, and a proxy where there is none, or
/// where the one there has the same recipe. One with another recipe is refused.
pub proof fn only_a_second_proxy_is_refused(role: Seq<char>, op_hash: Seq<char>, current: Derivative)
    ensures
        role != "proxy"@ ==> !second_proxy(role, op_hash, Some(current)),
        !second_proxy(role, op_hash, None),
        current.op_hash@ == op_hash ==> !second_proxy(role, op_hash, Some(current)),
        role == "proxy"@ && current.op_hash@ != op_hash ==> second_proxy(role, op_hash, Some(current)),
{
}

/// A proxy is written by what is there: where there is none a row is added, where the recipe is the same nothing is, and
/// where it is another the row that is there becomes it.
pub proof fn a_proxy_takes_its_predecessors_place(
    write: ProxyWrite,
    superseded: Option<ProxyRow>,
    op_hash: Seq<char>,
    object_key: Seq<char>,
)
    requires
        writes_proxy(write, superseded, op_hash, object_key),
    ensures
        write is Insert <==> superseded is None,
        write is Keep <==> superseded is Some && superseded->0.op_hash@ == op_hash,
        write is Swap <==> superseded is Some && superseded->0.op_hash@ != op_hash,
        write matches ProxyWrite::Swap { id, orphaned } ==> id == superseded->0.id,
{
}

// ----------------------------------------------------------------------------------------------------
// Commands
// ----------------------------------------------------------------------------------------------------

pub const BY_OP_HASH: &'static str =
    "SELECT d.id, d.asset_id, d.role, d.profile, d.op_hash, d.object_key, d.mime, d.bytes, d.width, \
     d.height FROM derivatives d JOIN assets a ON a.id = d.asset_id WHERE d.asset_id = $1 AND d.op_hash = \
     $2 AND a.deleted_at IS NULL";

/// The derivative for an exact recipe, of an asset that is not deleted.
pub fn by_op_hash(asset_id: Uuid, op_hash: &str) -> (command: Command)
    ensures
        command.says(
            "SELECT d.id, d.asset_id, d.role, d.profile, d.op_hash, d.object_key, d.mime, d.bytes, d.width, \
             d.height FROM derivatives d JOIN assets a ON a.id = d.asset_id WHERE d.asset_id = $1 AND d.op_hash = \
             $2 AND a.deleted_at IS NULL"@,
            seq![Given::Id(asset_id), Given::Text(op_hash@)],
        ),
{
    Command::new(BY_OP_HASH, vec![Value::Id(asset_id), as_text(op_hash)])
}

pub const INSERT: &'static str =
    "INSERT INTO derivatives (id, asset_id, role, profile, op_hash, object_key, mime, bytes, width, height, \
     regen_cost_ms) VALUES (gen_random_uuid(), $1, $2, $3, $4, $5, $6, $7, $8, $9, $10) ON CONFLICT \
     (asset_id, op_hash) DO NOTHING";

/// A rendered derivative, unless its recipe is already recorded.
pub fn insert(new: &NewDerivative) -> (command: Command)
    ensures
        command.says(
            "INSERT INTO derivatives (id, asset_id, role, profile, op_hash, object_key, mime, bytes, width, height, \
             regen_cost_ms) VALUES (gen_random_uuid(), $1, $2, $3, $4, $5, $6, $7, $8, $9, $10) ON CONFLICT \
             (asset_id, op_hash) DO NOTHING"@,
            seq![
                Given::Id(new.asset_id), Given::Text(new.role@), Given::Text(new.profile@),
                Given::Text(new.op_hash@), Given::Text(new.object_key@), Given::Text(new.mime@),
                Given::Int(new.bytes), Given::MaybeWhole(new.width), Given::MaybeWhole(new.height),
                Given::MaybeWhole(new.regen_cost_ms),
            ],
        ),
{
    Command::new(
        INSERT,
        vec![
            Value::Id(new.asset_id), as_text(new.role), as_text(new.profile), as_text(new.op_hash),
            as_text(new.object_key), as_text(new.mime), Value::Int(new.bytes),
            Value::MaybeWhole(new.width), Value::MaybeWhole(new.height),
            Value::MaybeWhole(new.regen_cost_ms),
        ],
    )
}

pub const CURRENT_PROXY: &'static str =
    "SELECT d.id, d.asset_id, d.role, d.profile, d.op_hash, d.object_key, d.mime, d.bytes, d.width, \
     d.height FROM derivatives d JOIN assets a ON a.id = d.asset_id WHERE d.asset_id = $1 AND d.role = \
     'proxy' AND a.deleted_at IS NULL";

/// An asset's current master proxy.
pub fn current_proxy(asset_id: Uuid) -> (command: Command)
    ensures
        command.says(
            "SELECT d.id, d.asset_id, d.role, d.profile, d.op_hash, d.object_key, d.mime, d.bytes, d.width, \
             d.height FROM derivatives d JOIN assets a ON a.id = d.asset_id WHERE d.asset_id = $1 AND d.role = \
             'proxy' AND a.deleted_at IS NULL"@,
            seq![Given::Id(asset_id)],
        ),
{
    Command::new(CURRENT_PROXY, vec![Value::Id(asset_id)])
}

pub const HELD_PROXY: &'static str =
    "SELECT id, op_hash, object_key FROM derivatives WHERE asset_id = $1 AND role = 'proxy' FOR UPDATE";

/// An asset's master proxy, held until the transaction ends.
pub fn held_proxy(asset_id: Uuid) -> (command: Command)
    ensures
        command.says(
            "SELECT id, op_hash, object_key FROM derivatives WHERE asset_id = $1 AND role = 'proxy' FOR UPDATE"@,
            seq![Given::Id(asset_id)],
        ),
{
    Command::new(HELD_PROXY, vec![Value::Id(asset_id)])
}

pub const SWAP_PROXY: &'static str =
    "UPDATE derivatives SET op_hash = $2, object_key = $3, mime = $4, bytes = $5, width = $6, height = $7, \
     regen_cost_ms = $8, profile = $9, last_served_at = NULL WHERE id = $1";

pub const INSERT_PROXY: &'static str =
    "INSERT INTO derivatives (id, asset_id, role, profile, op_hash, object_key, mime, bytes, width, height, \
     regen_cost_ms) VALUES (gen_random_uuid(), $1, 'proxy', $2, $3, $4, $5, $6, $7, $8, $9)";

/// What replacing a master proxy writes: nothing where it is kept, and a proxy that takes another's place has not been
/// served yet.
pub fn write_proxy(write: &ProxyWrite, new: &NewDerivative) -> (command: Option<Command>)
    ensures
        match *write {
            ProxyWrite::Keep => command is None,
            ProxyWrite::Swap { id, .. } => command is Some && command->0.says(
                "UPDATE derivatives SET op_hash = $2, object_key = $3, mime = $4, bytes = $5, width = $6, height = $7, \
                 regen_cost_ms = $8, profile = $9, last_served_at = NULL WHERE id = $1"@,
                seq![
                    Given::Id(id), Given::Text(new.op_hash@), Given::Text(new.object_key@),
                    Given::Text(new.mime@), Given::Int(new.bytes), Given::MaybeWhole(new.width),
                    Given::MaybeWhole(new.height), Given::MaybeWhole(new.regen_cost_ms),
                    Given::Text(new.profile@),
                ],
            ),
            ProxyWrite::Insert => command is Some && command->0.says(
                "INSERT INTO derivatives (id, asset_id, role, profile, op_hash, object_key, mime, bytes, width, height, \
                 regen_cost_ms) VALUES (gen_random_uuid(), $1, 'proxy', $2, $3, $4, $5, $6, $7, $8, $9)"@,
                seq![
                    Given::Id(new.asset_id), Given::Text(new.profile@), Given::Text(new.op_hash@),
                    Given::Text(new.object_key@), Given::Text(new.mime@), Given::Int(new.bytes),
                    Given::MaybeWhole(new.width), Given::MaybeWhole(new.height),
                    Given::MaybeWhole(new.regen_cost_ms),
                ],
            ),
        },
{
    match write {
        ProxyWrite::Keep => None,
        ProxyWrite::Swap { id, .. } => Some(
            Command::new(
                SWAP_PROXY,
                vec![
                    Value::Id(*id), as_text(new.op_hash), as_text(new.object_key), as_text(new.mime),
                    Value::Int(new.bytes), Value::MaybeWhole(new.width), Value::MaybeWhole(new.height),
                    Value::MaybeWhole(new.regen_cost_ms), as_text(new.profile),
                ],
            ),
        ),
        ProxyWrite::Insert => Some(
            Command::new(
                INSERT_PROXY,
                vec![
                    Value::Id(new.asset_id), as_text(new.profile), as_text(new.op_hash),
                    as_text(new.object_key), as_text(new.mime), Value::Int(new.bytes),
                    Value::MaybeWhole(new.width), Value::MaybeWhole(new.height),
                    Value::MaybeWhole(new.regen_cost_ms),
                ],
            ),
        ),
    }
}

pub const MARK_SERVED: &'static str =
    "UPDATE derivatives SET last_served_at = $2 WHERE id = $1 AND (last_served_at IS NULL OR last_served_at \
     < $3)";

/// That a derivative was served, unless it was marked within the resolution already.
pub fn mark_served(derivative_id: Uuid, now: Instant) -> (command: Command)
    requires
        now >= i64::MIN + SERVED_RESOLUTION,
    ensures
        command.says(
            "UPDATE derivatives SET last_served_at = $2 WHERE id = $1 AND (last_served_at IS NULL OR last_served_at \
             < $3)"@,
            seq![
                Given::Id(derivative_id), Given::At(now), Given::At((now - SERVED_RESOLUTION) as i64),
            ],
        ),
{
    Command::new(
        MARK_SERVED,
        vec![
            Value::Id(derivative_id), Value::At(now), Value::At(served_horizon(now)),
        ],
    )
}

pub const SUPERSEDED: &'static str =
    "SELECT d.id, d.asset_id, d.role, d.profile, d.op_hash, d.object_key, d.mime, d.bytes, d.width, d.height \
     FROM derivatives d WHERE d.op_hash <> ALL($1) ORDER BY d.last_served_at NULLS FIRST, d.created_at LIMIT $2";

/// Derivatives whose recipe no longer matches any current profile definition, the least recently served first. With
/// no profile at all every derivative would match, so that is refused.
pub fn superseded(current_op_hashes: &Vec<String>, limit: i64) -> (found: Result<Command, Error>)
    ensures
        found is Ok <==> current_op_hashes@.len() > 0,
        found matches Ok(command) ==> command.says(
            "SELECT d.id, d.asset_id, d.role, d.profile, d.op_hash, d.object_key, d.mime, d.bytes, d.width, d.height \
             FROM derivatives d WHERE d.op_hash <> ALL($1) ORDER BY d.last_served_at NULLS FIRST, d.created_at LIMIT $2"@,
            seq![Given::Texts(crate::text::all_chars(current_op_hashes@)), Given::Int(limit)],
        ),
        found matches Err(error) ==> error matches Error::Unsupported(detail) && detail@
            == "refusing to list superseded derivatives against an empty profile set; every derivative \
                 would qualify, which is a configuration failure rather than an eviction plan"@,
{
    if current_op_hashes.len() == 0 {
        Err(Error::Unsupported(EMPTY_PROFILES.to_owned()))
    } else {
        Ok(Command::new(SUPERSEDED, vec![as_texts(current_op_hashes), Value::Int(limit)]))
    }
}

} // verus!
