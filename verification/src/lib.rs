//! Postgres access for the asset library.
//!
//! The library decides and renders; it never talks to a server. Each module takes what was read as plain
//! values, says what it means, which refusal it earns or which statement comes next, and hands plain values
//! back. Identifiers are their 128 bits, instants are microseconds since the Unix epoch, and a document is a
//! [`json::Json`].

pub mod access;
pub mod assets;
pub mod attachments;
pub mod audit;
pub mod auth;
pub mod auto_import;
pub mod branding;
pub mod bulk;
pub mod categories;
pub mod collections;
pub mod commands;
pub mod comments;
pub mod connector_refs;
pub mod connectors;
pub mod conversions;
pub mod derivatives;
pub mod engagement;
pub mod enrichment;
pub mod events;
pub mod facets;
pub mod fields;
pub mod imports;
pub mod insights;
pub mod integrity;
pub mod jobs;
pub mod json;
pub mod judgements;
pub mod lists;
pub mod members;
pub mod metadata;
pub mod metadata_types;
pub mod metering;
pub mod migrate;
pub mod orders;
pub mod paths;
pub mod portals;
pub mod proofing;
pub mod provision;
pub mod query_sql;
pub mod sql;
pub mod text;
pub mod turns;
pub mod versions;

use vstd::prelude::*;

verus! {

/// An identifier, as its 128 bits.
pub type Uuid = u128;

/// An instant, in microseconds since the Unix epoch.
pub type Instant = i64;

/// What was looked for and not found.
#[derive(Debug, Clone, Copy, PartialEq, Eq, Structural)]
pub enum ResourceKind {
    Asset,
    FieldDef,
}

/// Why an operation could not be carried out.
#[derive(Debug, Clone, PartialEq, Eq)]
pub enum Error {
    /// The schema and the code disagree.
    Migrate(String),
    /// A failure of the test harness, kept apart so that a container problem is never mistaken for a defect.
    Harness(String),
    /// The tenant's schema does not exist.
    TenantNotProvisioned(String),
    /// A worker tried to extend or finish a job it no longer holds.
    LeaseLost { job_id: Uuid, worker: String },
    /// A caller tried to advance an upload session the database has no record of.
    UploadGone(String),
    /// A configuration the code cannot act on; refused rather than approximated.
    Unsupported(String),
    /// A row contradicts itself.
    Inconsistent(String),
    /// A named thing does not exist.
    NotFound { kind: ResourceKind, id: String },
    /// A tenant slug outside the vocabulary.
    InvalidSlug(String),
}

impl Error {
    /// The text of this error.
    pub open spec fn message_chars(self) -> Seq<char> {
        match self {
            Error::Migrate(detail) => "migration error: "@ + detail@,
            Error::Harness(detail) => "test harness: "@ + detail@,
            Error::TenantNotProvisioned(schema) => "tenant schema `"@ + schema@
                + "` does not exist \u{2014} tenant not provisioned"@,
            Error::LeaseLost { job_id, worker } => "lease lost for job "@ + text::uuid_chars(job_id)
                + " (worker "@ + worker@ + "); another worker may own it"@,
            Error::UploadGone(session) => "upload session `"@ + session@ + "` does not exist"@,
            Error::Unsupported(detail) => "unsupported: "@ + detail@,
            Error::Inconsistent(detail) => "inconsistent row: "@ + detail@,
            Error::NotFound { kind, id } => match kind {
                ResourceKind::Asset => "no asset "@ + id@,
                ResourceKind::FieldDef => "no field definition "@ + id@,
            },
            Error::InvalidSlug(slug) => "invalid tenant slug "@ + slug@,
        }
    }

    /// The sentence an operator reads.
    pub fn message(&self) -> (out: String)
        ensures
            out@ == self.message_chars(),
    {
        let mut out = String::new();
        match self {
            Error::Migrate(detail) => {
                out = "migration error: ".to_owned();
                out.append(detail.as_str());
            },
            Error::Harness(detail) => {
                out = "test harness: ".to_owned();
                out.append(detail.as_str());
            },
            Error::TenantNotProvisioned(schema) => {
                out = text::wrapped(
                    "tenant schema `",
                    schema.as_str(),
                    "` does not exist \u{2014} tenant not provisioned",
                );
            },
            Error::LeaseLost { job_id, worker } => {
                out = text::wrapped("lease lost for job ", text::uuid_text(*job_id).as_str(), " (worker ");
                out.append(worker.as_str());
                out.append("); another worker may own it");
            },
            Error::UploadGone(session) => {
                out = text::wrapped("upload session `", session.as_str(), "` does not exist");
            },
            Error::Unsupported(detail) => {
                out = "unsupported: ".to_owned();
                out.append(detail.as_str());
            },
            Error::Inconsistent(detail) => {
                out = "inconsistent row: ".to_owned();
                out.append(detail.as_str());
            },
            Error::NotFound { kind, id } => match kind {
                ResourceKind::Asset => {
                    out = "no asset ".to_owned();
                    out.append(id.as_str());
                },
                ResourceKind::FieldDef => {
                    out = "no field definition ".to_owned();
                    out.append(id.as_str());
                },
            },
            Error::InvalidSlug(slug) => {
                out = "invalid tenant slug ".to_owned();
                out.append(slug.as_str());
            },
        }
        out
    }
}

/// `value`, brought up to `low` or down to `high` when it lies outside them.
pub open spec fn clamped(value: int, low: int, high: int) -> int {
    if value < low {
        low
    } else if value > high {
        high
    } else {
        value
    }
}

/// A length as a 64-bit count, saturating.
pub open spec fn counted(len: nat) -> i64 {
    if len > i64::MAX {
        i64::MAX
    } else {
        len as i64
    }
}

/// A length as a 64-bit count, saturating.
pub fn count(len: usize) -> (out: i64)
    ensures
        out == counted(len as nat),
        len <= i64::MAX ==> out == len,
        out <= len,
        out == len || out == i64::MAX,
{
    if len as u128 > i64::MAX as u128 {
        i64::MAX
    } else {
        len as i64
    }
}

/// `value` clamped between `low` and `high`.
pub fn clamp(value: i64, low: i64, high: i64) -> (out: i64)
    requires
        low <= high,
    ensures
        out == clamped(value as int, low as int, high as int),
        low <= out <= high,
        low <= value <= high ==> out == value,
        value < low ==> out == low,
        value > high ==> out == high,
{
    if value < low {
        low
    } else if value > high {
        high
    } else {
        value
    }
}

/// The identifiers of `ids`, each once and ascending.
pub fn sorted_once(ids: &Vec<Uuid>) -> (out: Vec<Uuid>)
    ensures
        forall|i: int, j: int| 0 <= i < j < out@.len() ==> out@[i] < out@[j],
        forall|id: Uuid| out@.contains(id) <==> ids@.contains(id),
{
    let mut out: Vec<Uuid> = Vec::new();
    let mut next: usize = 0;
    while next < ids.len()
        invariant
            next <= ids@.len(),
            forall|i: int, j: int| 0 <= i < j < out@.len() ==> out@[i] < out@[j],
            forall|id: Uuid| out@.contains(id) <==> ids@.take(next as int).contains(id),
        decreases ids@.len() - next,
    {
        let id: Uuid = ids[next];
        let ghost was = out@;
        let mut place: usize = 0;
        while place < out.len() && out[place] < id
            invariant
                place <= out@.len(),
                out@ == was,
                forall|i: int| 0 <= i < place ==> out@[i] < id,
            decreases out@.len() - place,
        {
            place += 1;
        }
        proof {
            assert(ids@.take(next + 1) =~= ids@.take(next as int).push(id));
            assert forall|other: Uuid|
                ids@.take(next + 1).contains(other) <==> ids@.take(next as int).contains(other)
                    || other == id by {
                lists::lemma_push_contains(ids@.take(next as int), id, other);
            }
        }
        if place == out.len() || out[place] != id {
            out.insert(place, id);
            proof {
                assert(out@ == was.insert(place as int, id));
                assert forall|other: Uuid| out@.contains(other) <==> was.contains(other) || other
                    == id by {
                    if was.contains(other) {
                        let i = choose|i: int| 0 <= i < was.len() && was[i] == other;
                        if i < place {
                            assert(out@[i] == other);
                        } else {
                            assert(out@[i + 1] == other);
                        }
                    }
                    if other == id {
                        assert(out@[place as int] == id);
                    }
                    if out@.contains(other) && other != id {
                        let i = choose|i: int| 0 <= i < out@.len() && out@[i] == other;
                        if i < place {
                            assert(was[i] == other);
                        } else {
                            assert(was[i - 1] == other);
                        }
                    }
                }
            }
        } else {
            proof {
                assert(was[place as int] == id);
                assert(was.contains(id));
            }
        }
        proof {
            assert forall|other: Uuid| out@.contains(other) <==> ids@.take(next + 1).contains(other) by {
                assert(was.contains(other) <==> ids@.take(next as int).contains(other));
            }
        }
        next += 1;
    }
    proof {
        assert(ids@.take(next as int) =~= ids@);
    }
    out
}

/// Whether `id` is one of `ids`.
pub fn among(ids: &Vec<Uuid>, id: Uuid) -> (found: bool)
    ensures
        found == ids@.contains(id),
{
    let mut i: usize = 0;
    while i < ids.len()
        invariant
            i <= ids.len(),
            forall|j: int| 0 <= j < i ==> ids@[j] != id,
        decreases ids.len() - i,
    {
        if ids[i] == id {
            return true;
        }
        i += 1;
    }
    false
}

} // verus!
