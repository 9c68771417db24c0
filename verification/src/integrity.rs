//! Checking that the database's account of the object store is true.
//!
//! A verdict is re-derived every pass and never accumulated: a missing placement whose object comes back returns
//! to present on the next pass.

use crate::commands::{as_maybe_text, as_text, Command, Given, Value};
use crate::text::{opt_chars, quoted, quoted_chars, same};
use crate::{Error, Instant, Uuid};
use vstd::prelude::*;

verus! {

/// Where a stored object stands.
#[derive(Debug, Clone, Copy, PartialEq, Eq, Structural)]
pub enum PlacementState {
    Uploading,
    Present,
    Transitioning,
    Missing,
    Corrupt,
    Deleting,
}

impl PlacementState {
    /// The column's spelling.
    pub open spec fn chars(self) -> Seq<char> {
        match self {
            PlacementState::Uploading => "uploading"@,
            PlacementState::Present => "present"@,
            PlacementState::Transitioning => "transitioning"@,
            PlacementState::Missing => "missing"@,
            PlacementState::Corrupt => "corrupt"@,
            PlacementState::Deleting => "deleting"@,
        }
    }

    /// The column's spelling.
    pub fn as_str(self) -> (text: &'static str)
        ensures
            text@ == self.chars(),
            text@ == match self {
                PlacementState::Uploading => "uploading"@,
                PlacementState::Present => "present"@,
                PlacementState::Transitioning => "transitioning"@,
                PlacementState::Missing => "missing"@,
                PlacementState::Corrupt => "corrupt"@,
                PlacementState::Deleting => "deleting"@,
            },
    {
        match self {
            PlacementState::Uploading => "uploading",
            PlacementState::Present => "present",
            PlacementState::Transitioning => "transitioning",
            PlacementState::Missing => "missing",
            PlacementState::Corrupt => "corrupt",
            PlacementState::Deleting => "deleting",
        }
    }

    /// The value a spelling stands for; `None` for a spelling nothing has.
    pub fn parse(text: &str) -> (parsed: Option<PlacementState>)
        ensures
            match parsed {
                Some(value) => text@ == value.chars(),
                None => forall|value: PlacementState| text@ != #[trigger] value.chars(),
            },
            parsed == Some(PlacementState::Uploading) ==> text@ == "uploading"@,
            parsed == Some(PlacementState::Present) ==> text@ == "present"@,
            parsed == Some(PlacementState::Transitioning) ==> text@ == "transitioning"@,
            parsed == Some(PlacementState::Missing) ==> text@ == "missing"@,
            parsed == Some(PlacementState::Corrupt) ==> text@ == "corrupt"@,
            parsed == Some(PlacementState::Deleting) ==> text@ == "deleting"@,
            parsed is None ==> text@ != "uploading"@ && text@ != "present"@ && text@ != "transitioning"@
                && text@ != "missing"@ && text@ != "corrupt"@ && text@ != "deleting"@,
    {
        if same(text, "uploading") {
            Some(PlacementState::Uploading)
        } else if same(text, "present") {
            Some(PlacementState::Present)
        } else if same(text, "transitioning") {
            Some(PlacementState::Transitioning)
        } else if same(text, "missing") {
            Some(PlacementState::Missing)
        } else if same(text, "corrupt") {
            Some(PlacementState::Corrupt)
        } else if same(text, "deleting") {
            Some(PlacementState::Deleting)
        } else {
            None
        }
    }
}

/// Two values with one spelling are one value, so a spelling that is written reads back as what was written.
pub proof fn placement_state_spellings_are_distinct(a: PlacementState, b: PlacementState)
    requires
        a.chars() == b.chars(),
    ensures
        a == b,
{
    reveal_strlit("uploading");
    reveal_strlit("present");
    reveal_strlit("transitioning");
    reveal_strlit("missing");
    reveal_strlit("corrupt");
    reveal_strlit("deleting");
    assert("uploading"@.len() == 9);
    assert("present"@.len() == 7);
    assert("transitioning"@.len() == 13);
    assert("missing"@.len() == 7);
    assert("corrupt"@.len() == 7);
    assert("deleting"@.len() == 8);
    assert("present"@[0] != "missing"@[0]);
    assert("present"@[0] != "corrupt"@[0]);
    assert("missing"@[0] != "corrupt"@[0]);
}

/// One placement the scrub has to ask the store about.
#[derive(Debug, Clone, PartialEq, Eq)]
pub struct Checkable {
    pub object_key: String,
    pub pool_id: Uuid,
    /// Which asset this belongs to. `None` on a derivative's placement.
    pub asset_id: Option<Uuid>,
    pub derivative_id: Option<Uuid>,
    /// What the row claims the object weighs.
    pub size_bytes: i64,
    /// The backend's own checksum as of the last pass, when there was one.
    pub remote_checksum: Option<String>,
    pub state: PlacementState,
}

/// What one pass concluded about one placement.
#[derive(Debug, Clone, Copy, PartialEq, Eq, Structural)]
pub enum Verdict {
    /// The object is there and agrees with the row.
    Present,
    /// The store says there is no such object.
    Missing,
    /// The object is there and disagrees with the row.
    Corrupt,
}

impl Verdict {
    /// The state a placement with this verdict takes.
    pub open spec fn placed(self) -> PlacementState {
        match self {
            Verdict::Present => PlacementState::Present,
            Verdict::Missing => PlacementState::Missing,
            Verdict::Corrupt => PlacementState::Corrupt,
        }
    }

    /// The state a placement with this verdict takes.
    pub fn state(self) -> (state: PlacementState)
        ensures
            state == self.placed(),
            self == Verdict::Present <==> state == PlacementState::Present,
            self == Verdict::Missing <==> state == PlacementState::Missing,
            self == Verdict::Corrupt <==> state == PlacementState::Corrupt,
    {
        match self {
            Verdict::Present => PlacementState::Present,
            Verdict::Missing => PlacementState::Missing,
            Verdict::Corrupt => PlacementState::Corrupt,
        }
    }

    /// Whether this verdict is a finding an operator has to act on.
    pub fn is_finding(self) -> (yes: bool)
        ensures
            yes == (self != Verdict::Present),
    {
        match self {
            Verdict::Present => false,
            Verdict::Missing | Verdict::Corrupt => true,
        }
    }
}

/// How many placements sit in each state right now.
#[derive(Debug, Clone, Copy, Default, PartialEq, Eq, Structural)]
pub struct Standing {
    pub present: i64,
    pub missing: i64,
    pub corrupt: i64,
    /// Placements no pass has ever reached.
    pub unverified: i64,
}

impl Standing {
    /// How many placements are flagged.
    pub fn findings(self) -> (total: i64)
        requires
            i64::MIN <= self.missing + self.corrupt <= i64::MAX,
        ensures
            total == self.missing + self.corrupt,
    {
        self.missing + self.corrupt
    }
}

/// A placement's row.
#[derive(Debug, Clone, PartialEq, Eq)]
pub struct CheckableRow {
    pub object_key: String,
    pub pool_id: Uuid,
    pub asset_id: Option<Uuid>,
    pub derivative_id: Option<Uuid>,
    pub size_bytes: i64,
    pub remote_checksum: Option<String>,
    pub state: String,
}

/// The placement a row describes.
pub fn checkable_of(row: CheckableRow) -> (read: Result<Checkable, Error>)
    ensures
        match read {
            Ok(placement) => row.state@ == placement.state.chars() && placement == (Checkable {
                object_key: row.object_key,
                pool_id: row.pool_id,
                asset_id: row.asset_id,
                derivative_id: row.derivative_id,
                size_bytes: row.size_bytes,
                remote_checksum: row.remote_checksum,
                state: placement.state,
            }),
            Err(error) => {
                &&& forall|state: PlacementState| row.state@ != #[trigger] state.chars()
                &&& error matches Error::Inconsistent(detail)
                &&& detail@ == "placement state holds "@ + quoted_chars(row.state@)
            },
        },
{
    match PlacementState::parse(row.state.as_str()) {
        Some(state) => Ok(
            Checkable {
                object_key: row.object_key,
                pool_id: row.pool_id,
                asset_id: row.asset_id,
                derivative_id: row.derivative_id,
                size_bytes: row.size_bytes,
                remote_checksum: row.remote_checksum,
                state,
            },
        ),
        None => {
            let mut detail = "placement state holds ".to_owned();
            detail.append(quoted(row.state.as_str()).as_str());
            Err(Error::Inconsistent(detail))
        },
    }
}

/// The checksum to keep: what this pass was told, or what an earlier pass recorded. A backend that stops reporting
/// one must not erase the ability to notice a replacement.
pub fn kept_checksum(reported: Option<String>, recorded: Option<String>) -> (kept: Option<String>)
    ensures
        kept == if reported is Some {
            reported
        } else {
            recorded
        },
        reported is Some ==> kept == reported,
        reported is None ==> kept == recorded,
{
    match reported {
        Some(checksum) => Some(checksum),
        None => recorded,
    }
}

/// A verdict never latches: the state a pass writes depends on that pass alone, and writing a finding or its
/// recovery is always possible.
pub proof fn a_verdict_decides_the_state_alone(a: Verdict, b: Verdict)
    ensures
        a.placed() == b.placed() <==> a == b,
{
}

/// A placement is stored as what it was found to be: present, missing or corrupt, under that word, and never as one of the
/// states that somebody is working on.
pub proof fn a_finding_is_stored_as_it_was_found(verdict: Verdict)
    ensures
        verdict == Verdict::Present <==> verdict.placed() == PlacementState::Present,
        verdict == Verdict::Missing <==> verdict.placed() == PlacementState::Missing,
        verdict == Verdict::Corrupt <==> verdict.placed() == PlacementState::Corrupt,
        verdict == Verdict::Present ==> verdict.placed().chars() == "present"@,
        verdict == Verdict::Missing ==> verdict.placed().chars() == "missing"@,
        verdict == Verdict::Corrupt ==> verdict.placed().chars() == "corrupt"@,
{
}

// ----------------------------------------------------------------------------------------------------
// Commands
// ----------------------------------------------------------------------------------------------------

pub const DUE: &'static str =
    "SELECT object_key, pool_id, asset_id, derivative_id, size_bytes, remote_checksum, state FROM \
     object_placements WHERE state IN ('present', 'missing', 'corrupt') ORDER BY last_verified_at ASC NULLS \
     FIRST, object_key, pool_id LIMIT $1";

/// The placements least recently checked, those never checked first, and by key and pool after that, so that the order
/// is total and a run is reproducible.
pub fn due(limit: i64) -> (command: Command)
    ensures
        command.says(
            "SELECT object_key, pool_id, asset_id, derivative_id, size_bytes, remote_checksum, state FROM \
             object_placements WHERE state IN ('present', 'missing', 'corrupt') ORDER BY last_verified_at ASC NULLS \
             FIRST, object_key, pool_id LIMIT $1"@,
            seq![Given::Int(limit)],
        ),
{
    Command::new(DUE, vec![Value::Int(limit)])
}

pub const PLACEMENTS: &'static str =
    "SELECT pool_id, remote_checksum FROM object_placements WHERE object_key = $1 FOR UPDATE";

/// An object's placements, held until the transaction ends.
pub fn placements(object_key: &str) -> (command: Command)
    ensures
        command.says(
            "SELECT pool_id, remote_checksum FROM object_placements WHERE object_key = $1 FOR UPDATE"@,
            seq![Given::Text(object_key@)],
        ),
{
    Command::new(PLACEMENTS, vec![as_text(object_key)])
}

pub const STAMP: &'static str =
    "UPDATE object_placements SET state = $3, last_verified_at = $4, remote_checksum = $5 WHERE object_key \
     = $1 AND pool_id = $2";

/// One verdict on a placement, which is stamped whatever the verdict was. A checksum is kept until another is
/// reported.
pub fn record_verdict(
    object_key: &str,
    pool_id: Uuid,
    verdict: Verdict,
    reported: Option<String>,
    recorded: Option<String>,
    now: Instant,
) -> (command: Command)
    ensures
        command.says(
            "UPDATE object_placements SET state = $3, last_verified_at = $4, remote_checksum = $5 WHERE object_key \
             = $1 AND pool_id = $2"@,
            seq![
                Given::Text(object_key@), Given::Id(pool_id), Given::Text(verdict.placed().chars()),
                Given::At(now),
                Given::MaybeText(opt_chars(if reported is Some { reported } else { recorded })),
            ],
        ),
{
    Command::new(
        STAMP,
        vec![
            as_text(object_key), Value::Id(pool_id), as_text(verdict.state().as_str()), Value::At(now),
            as_maybe_text(&kept_checksum(reported, recorded)),
        ],
    )
}

pub const STANDING: &'static str =
    "SELECT count(*) FILTER (WHERE state = 'present') AS present, count(*) FILTER (WHERE state = 'missing') \
     AS missing, count(*) FILTER (WHERE state = 'corrupt') AS corrupt, count(*) FILTER (WHERE \
     last_verified_at IS NULL) AS unverified FROM object_placements";

/// How many placements are in each state.
pub fn standing() -> (command: Command)
    ensures
        command.says(
            "SELECT count(*) FILTER (WHERE state = 'present') AS present, count(*) FILTER (WHERE state = 'missing') \
             AS missing, count(*) FILTER (WHERE state = 'corrupt') AS corrupt, count(*) FILTER (WHERE \
             last_verified_at IS NULL) AS unverified FROM object_placements"@,
            Seq::empty(),
        ),
{
    Command::new(STANDING, Vec::new())
}

pub const FINDINGS: &'static str =
    "SELECT object_key, pool_id, asset_id, derivative_id, size_bytes, remote_checksum, state FROM \
     object_placements WHERE state IN ('corrupt', 'missing') ORDER BY state, object_key LIMIT $1";

/// Every placement currently flagged.
pub fn findings(limit: i64) -> (command: Command)
    ensures
        command.says(
            "SELECT object_key, pool_id, asset_id, derivative_id, size_bytes, remote_checksum, state FROM \
             object_placements WHERE state IN ('corrupt', 'missing') ORDER BY state, object_key LIMIT $1"@,
            seq![Given::Int(limit)],
        ),
{
    Command::new(FINDINGS, vec![Value::Int(limit)])
}

} // verus!
