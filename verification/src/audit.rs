//! The tamper-evident governance record.
//!
//! Every entry hashes its predecessor's hash. An entry is altered when its columns do not produce the hash
//! stored beside them, and unlinked when the predecessor it names is not the entry before it. A gap in `seq`
//! is neither: a rolled-back action consumes a number and leaves a hole, so verification follows the hashes
//! and never counts numbers.
//!
//! The digest of an entry's columns is computed by whoever reads the rows; what is proved here holds for any
//! digest.

use crate::commands::{as_maybe_text, as_text, Command, Given, Value};
use crate::json::Json;
use crate::text::{opt_chars, same, same_opt};
use crate::{clamp, clamped, Instant, Uuid};
use vstd::prelude::*;

verus! {

/// How many rows verification holds at once.
pub const VERIFY_BATCH: usize = 1_000;

/// The largest extract one export produces.
pub const EXPORT_LIMIT: i64 = 10_000;

/// Who took the action.
///
/// `support` is separate from `system`: support access to customer data is itself auditable.
#[derive(Debug, Clone, Copy, PartialEq, Eq, Structural)]
pub enum ActorKind {
    User,
    ApiKey,
    Connector,
    System,
    Support,
}

impl ActorKind {
    /// The column's spelling.
    pub open spec fn chars(self) -> Seq<char> {
        match self {
            ActorKind::User => "user"@,
            ActorKind::ApiKey => "api_key"@,
            ActorKind::Connector => "connector"@,
            ActorKind::System => "system"@,
            ActorKind::Support => "support"@,
        }
    }

    /// The column's spelling.
    pub fn as_str(self) -> (text: &'static str)
        ensures
            text@ == self.chars(),
            text@ == match self {
                ActorKind::User => "user"@,
                ActorKind::ApiKey => "api_key"@,
                ActorKind::Connector => "connector"@,
                ActorKind::System => "system"@,
                ActorKind::Support => "support"@,
            },
    {
        match self {
            ActorKind::User => "user",
            ActorKind::ApiKey => "api_key",
            ActorKind::Connector => "connector",
            ActorKind::System => "system",
            ActorKind::Support => "support",
        }
    }

    /// The value a spelling stands for; `None` for a spelling nothing has.
    pub fn parse(text: &str) -> (parsed: Option<ActorKind>)
        ensures
            match parsed {
                Some(value) => text@ == value.chars(),
                None => forall|value: ActorKind| text@ != #[trigger] value.chars(),
            },
            parsed == Some(ActorKind::User) ==> text@ == "user"@,
            parsed == Some(ActorKind::ApiKey) ==> text@ == "api_key"@,
            parsed == Some(ActorKind::Connector) ==> text@ == "connector"@,
            parsed == Some(ActorKind::System) ==> text@ == "system"@,
            parsed == Some(ActorKind::Support) ==> text@ == "support"@,
            parsed is None ==> text@ != "user"@ && text@ != "api_key"@ && text@ != "connector"@ && text@ != "system"@
                && text@ != "support"@,
    {
        if same(text, "user") {
            Some(ActorKind::User)
        } else if same(text, "api_key") {
            Some(ActorKind::ApiKey)
        } else if same(text, "connector") {
            Some(ActorKind::Connector)
        } else if same(text, "system") {
            Some(ActorKind::System)
        } else if same(text, "support") {
            Some(ActorKind::Support)
        } else {
            None
        }
    }
}

/// Two values with one spelling are one value, so a spelling that is written reads back as what was written.
pub proof fn actor_kind_spellings_are_distinct(a: ActorKind, b: ActorKind)
    requires
        a.chars() == b.chars(),
    ensures
        a == b,
{
    reveal_strlit("user");
    reveal_strlit("api_key");
    reveal_strlit("connector");
    reveal_strlit("system");
    reveal_strlit("support");
    assert("user"@.len() == 4);
    assert("api_key"@.len() == 7);
    assert("connector"@.len() == 9);
    assert("system"@.len() == 6);
    assert("support"@.len() == 7);
    assert("api_key"@[0] != "support"@[0]);
}

/// What was done.
///
/// A closed set for what this library writes, over a column that stays free text.
#[derive(Debug, Clone, Copy, PartialEq, Eq, Structural)]
pub enum Action {
    LegalHoldPlaced,
    LegalHoldLifted,
    RetentionChanged,
    ErasureRequested,
    ErasureCompleted,
    ErasureRefused,
    ConnectorRegistered,
    ConnectorRotated,
    ConnectorRevoked,
    IdentityProvisioned,
    IdentityDeprovisioned,
    IdentityReactivated,
    RoleGranted,
    RoleRevoked,
    KeyIssued,
    KeyRevoked,
    AuditExported,
    SupportAccess,
}

impl Action {
    /// The column's spelling.
    pub open spec fn chars(self) -> Seq<char> {
        match self {
            Action::LegalHoldPlaced => "legal_hold.placed"@,
            Action::LegalHoldLifted => "legal_hold.lifted"@,
            Action::RetentionChanged => "retention.changed"@,
            Action::ErasureRequested => "erasure.requested"@,
            Action::ErasureCompleted => "erasure.completed"@,
            Action::ErasureRefused => "erasure.refused"@,
            Action::ConnectorRegistered => "connector.registered"@,
            Action::ConnectorRotated => "connector.rotated"@,
            Action::ConnectorRevoked => "connector.revoked"@,
            Action::IdentityProvisioned => "identity.provisioned"@,
            Action::IdentityDeprovisioned => "identity.deprovisioned"@,
            Action::IdentityReactivated => "identity.reactivated"@,
            Action::RoleGranted => "role.granted"@,
            Action::RoleRevoked => "role.revoked"@,
            Action::KeyIssued => "key.issued"@,
            Action::KeyRevoked => "key.revoked"@,
            Action::AuditExported => "audit.exported"@,
            Action::SupportAccess => "support.access"@,
        }
    }

    /// The column's spelling.
    pub fn as_str(self) -> (text: &'static str)
        ensures
            text@ == self.chars(),
            text@ == match self {
                Action::LegalHoldPlaced => "legal_hold.placed"@,
                Action::LegalHoldLifted => "legal_hold.lifted"@,
                Action::RetentionChanged => "retention.changed"@,
                Action::ErasureRequested => "erasure.requested"@,
                Action::ErasureCompleted => "erasure.completed"@,
                Action::ErasureRefused => "erasure.refused"@,
                Action::ConnectorRegistered => "connector.registered"@,
                Action::ConnectorRotated => "connector.rotated"@,
                Action::ConnectorRevoked => "connector.revoked"@,
                Action::IdentityProvisioned => "identity.provisioned"@,
                Action::IdentityDeprovisioned => "identity.deprovisioned"@,
                Action::IdentityReactivated => "identity.reactivated"@,
                Action::RoleGranted => "role.granted"@,
                Action::RoleRevoked => "role.revoked"@,
                Action::KeyIssued => "key.issued"@,
                Action::KeyRevoked => "key.revoked"@,
                Action::AuditExported => "audit.exported"@,
                Action::SupportAccess => "support.access"@,
            },
    {
        match self {
            Action::LegalHoldPlaced => "legal_hold.placed",
            Action::LegalHoldLifted => "legal_hold.lifted",
            Action::RetentionChanged => "retention.changed",
            Action::ErasureRequested => "erasure.requested",
            Action::ErasureCompleted => "erasure.completed",
            Action::ErasureRefused => "erasure.refused",
            Action::ConnectorRegistered => "connector.registered",
            Action::ConnectorRotated => "connector.rotated",
            Action::ConnectorRevoked => "connector.revoked",
            Action::IdentityProvisioned => "identity.provisioned",
            Action::IdentityDeprovisioned => "identity.deprovisioned",
            Action::IdentityReactivated => "identity.reactivated",
            Action::RoleGranted => "role.granted",
            Action::RoleRevoked => "role.revoked",
            Action::KeyIssued => "key.issued",
            Action::KeyRevoked => "key.revoked",
            Action::AuditExported => "audit.exported",
            Action::SupportAccess => "support.access",
        }
    }
}

/// Two values with one spelling are one value, so a spelling that is written reads back as what was written.
pub proof fn action_spellings_are_distinct(a: Action, b: Action)
    requires
        a.chars() == b.chars(),
    ensures
        a == b,
{
    reveal_strlit("legal_hold.placed");
    reveal_strlit("legal_hold.lifted");
    reveal_strlit("retention.changed");
    reveal_strlit("erasure.requested");
    reveal_strlit("erasure.completed");
    reveal_strlit("erasure.refused");
    reveal_strlit("connector.registered");
    reveal_strlit("connector.rotated");
    reveal_strlit("connector.revoked");
    reveal_strlit("identity.provisioned");
    reveal_strlit("identity.deprovisioned");
    reveal_strlit("identity.reactivated");
    reveal_strlit("role.granted");
    reveal_strlit("role.revoked");
    reveal_strlit("key.issued");
    reveal_strlit("key.revoked");
    reveal_strlit("audit.exported");
    reveal_strlit("support.access");
    assert("legal_hold.placed"@.len() == 17);
    assert("legal_hold.lifted"@.len() == 17);
    assert("retention.changed"@.len() == 17);
    assert("erasure.requested"@.len() == 17);
    assert("erasure.completed"@.len() == 17);
    assert("erasure.refused"@.len() == 15);
    assert("connector.registered"@.len() == 20);
    assert("connector.rotated"@.len() == 17);
    assert("connector.revoked"@.len() == 17);
    assert("identity.provisioned"@.len() == 20);
    assert("identity.deprovisioned"@.len() == 22);
    assert("identity.reactivated"@.len() == 20);
    assert("role.granted"@.len() == 12);
    assert("role.revoked"@.len() == 12);
    assert("key.issued"@.len() == 10);
    assert("key.revoked"@.len() == 11);
    assert("audit.exported"@.len() == 14);
    assert("support.access"@.len() == 14);
    assert("legal_hold.placed"@[11] != "legal_hold.lifted"@[11]);
    assert("legal_hold.placed"@[0] != "retention.changed"@[0]);
    assert("legal_hold.placed"@[0] != "erasure.requested"@[0]);
    assert("legal_hold.placed"@[0] != "erasure.completed"@[0]);
    assert("legal_hold.placed"@[0] != "connector.rotated"@[0]);
    assert("legal_hold.placed"@[0] != "connector.revoked"@[0]);
    assert("legal_hold.lifted"@[0] != "retention.changed"@[0]);
    assert("legal_hold.lifted"@[0] != "erasure.requested"@[0]);
    assert("legal_hold.lifted"@[0] != "erasure.completed"@[0]);
    assert("legal_hold.lifted"@[0] != "connector.rotated"@[0]);
    assert("legal_hold.lifted"@[0] != "connector.revoked"@[0]);
    assert("retention.changed"@[0] != "erasure.requested"@[0]);
    assert("retention.changed"@[0] != "erasure.completed"@[0]);
    assert("retention.changed"@[0] != "connector.rotated"@[0]);
    assert("retention.changed"@[0] != "connector.revoked"@[0]);
    assert("erasure.requested"@[8] != "erasure.completed"@[8]);
    assert("erasure.requested"@[0] != "connector.rotated"@[0]);
    assert("erasure.requested"@[0] != "connector.revoked"@[0]);
    assert("erasure.completed"@[0] != "connector.rotated"@[0]);
    assert("erasure.completed"@[0] != "connector.revoked"@[0]);
    assert("connector.registered"@[0] != "identity.provisioned"@[0]);
    assert("connector.registered"@[0] != "identity.reactivated"@[0]);
    assert("connector.rotated"@[11] != "connector.revoked"@[11]);
    assert("identity.provisioned"@[9] != "identity.reactivated"@[9]);
    assert("role.granted"@[5] != "role.revoked"@[5]);
    assert("audit.exported"@[0] != "support.access"@[0]);
}

/// An entry waiting to be chained.
#[derive(Debug, Clone)]
pub struct NewEntry {
    pub action: Action,
    pub actor_kind: ActorKind,
    /// `None` for a system action with no person behind it. Never invented.
    pub actor_id: Option<Uuid>,
    pub target_kind: String,
    pub target_id: Option<String>,
    pub payload: Json,
}

/// Whether a value is the empty object.
pub open spec fn empty_object(value: Json) -> bool {
    value matches Json::Object(members) && members@.len() == 0
}

impl NewEntry {
    /// An action taken by a person.
    pub fn by_person(action: Action, actor_id: Uuid, target_kind: String) -> (entry: NewEntry)
        ensures
            entry.action == action,
            entry.actor_kind == ActorKind::User,
            entry.actor_id == Some(actor_id),
            entry.target_kind == target_kind,
            entry.target_id is None,
            empty_object(entry.payload),
    {
        NewEntry {
            action,
            actor_kind: ActorKind::User,
            actor_id: Some(actor_id),
            target_kind,
            target_id: None,
            payload: Json::Object(Vec::new()),
        }
    }

    /// An action taken by the system with nobody behind it: a scheduled retention pass, a lifecycle move.
    pub fn by_system(action: Action, target_kind: String) -> (entry: NewEntry)
        ensures
            entry.action == action,
            entry.actor_kind == ActorKind::System,
            entry.actor_id is None,
            entry.target_kind == target_kind,
            entry.target_id is None,
            empty_object(entry.payload),
    {
        NewEntry {
            action,
            actor_kind: ActorKind::System,
            actor_id: None,
            target_kind,
            target_id: None,
            payload: Json::Object(Vec::new()),
        }
    }

    /// The same entry, about `target_id`.
    pub fn on(self, target_id: String) -> (entry: NewEntry)
        ensures
            entry == (NewEntry { target_id: Some(target_id), ..self }),
    {
        NewEntry { target_id: Some(target_id), ..self }
    }

    /// The same entry, by another kind of actor.
    pub fn as_kind(self, kind: ActorKind) -> (entry: NewEntry)
        ensures
            entry == (NewEntry { actor_kind: kind, ..self }),
    {
        NewEntry { actor_kind: kind, ..self }
    }

    /// The same entry, with this payload.
    pub fn with(self, payload: Json) -> (entry: NewEntry)
        ensures
            entry == (NewEntry { payload, ..self }),
    {
        NewEntry { payload, ..self }
    }

    /// The entry as it will be stored, after the entry whose hash is `prev_hash`, before its own hash is known.
    ///
    /// `payload` is the payload as the database will store it, which is what has to be hashed: `jsonb`
    /// normalises, and a digest of anything else would be a digest of a value that is never read back.
    pub fn chained(
        self,
        seq: i64,
        at: Instant,
        payload: Json,
        prev_hash: Option<String>,
    ) -> (entry: Entry)
        ensures
            entry.seq == seq,
            entry.at == at,
            entry.actor_id == self.actor_id,
            entry.actor_kind@ == self.actor_kind.chars(),
            entry.action@ == self.action.chars(),
            entry.target_kind == self.target_kind,
            entry.target_id == self.target_id,
            entry.payload == payload,
            entry.prev_hash == prev_hash,
            entry.hash@ == Seq::<char>::empty(),
    {
        Entry {
            seq,
            at,
            actor_id: self.actor_id,
            actor_kind: self.actor_kind.as_str().to_owned(),
            action: self.action.as_str().to_owned(),
            target_kind: self.target_kind,
            target_id: self.target_id,
            payload,
            prev_hash,
            hash: String::new(),
        }
    }
}

/// A chained entry, as stored.
#[derive(Debug, Clone, PartialEq, Eq)]
pub struct Entry {
    pub seq: i64,
    pub at: Instant,
    pub actor_id: Option<Uuid>,
    pub actor_kind: String,
    pub action: String,
    pub target_kind: String,
    pub target_id: Option<String>,
    pub payload: Json,
    pub prev_hash: Option<String>,
    pub hash: String,
}

impl Entry {
    /// The same entry with its hash.
    pub fn sealed(self, hash: String) -> (entry: Entry)
        ensures
            entry == (Entry { hash, ..self }),
    {
        Entry { hash, ..self }
    }
}

/// An entry read back, with the digest its columns give now.
#[derive(Debug)]
pub struct Checked {
    pub entry: Entry,
    pub recomputed: String,
}

/// What verification reads of an entry.
pub struct Link {
    pub seq: i64,
    pub prev: Option<Seq<char>>,
    pub hash: Seq<char>,
    pub recomputed: Seq<char>,
}

impl Checked {
    /// What verification reads of this entry.
    pub open spec fn link(self) -> Link {
        Link {
            seq: self.entry.seq,
            prev: opt_chars(self.entry.prev_hash),
            hash: self.entry.hash@,
            recomputed: self.recomputed@,
        }
    }
}

/// What verification reads of a list of entries.
pub open spec fn links(rows: Seq<Checked>) -> Seq<Link> {
    Seq::new(rows.len(), |i: int| rows[i].link())
}

/// Where a chain stops being consistent with itself.
#[derive(Debug, Clone, PartialEq, Eq)]
pub enum Break {
    /// The entry's columns do not produce the hash stored beside them.
    Altered { seq: i64, stored: String, recomputed: String },
    /// The entry's own hash checks out, but the predecessor it names is not the entry before it.
    Unlinked { seq: i64, claimed_prev: Option<String>, actual_prev: Option<String> },
}

/// What a [`Break`] says, in characters.
pub enum BreakView {
    Altered { seq: i64, stored: Seq<char>, recomputed: Seq<char> },
    Unlinked { seq: i64, claimed_prev: Option<Seq<char>>, actual_prev: Option<Seq<char>> },
}

impl Break {
    /// What this break says, in characters.
    pub open spec fn view(&self) -> BreakView {
        match *self {
            Break::Altered { seq, stored, recomputed } => BreakView::Altered {
                seq,
                stored: stored@,
                recomputed: recomputed@,
            },
            Break::Unlinked { seq, claimed_prev, actual_prev } => BreakView::Unlinked {
                seq,
                claimed_prev: opt_chars(claimed_prev),
                actual_prev: opt_chars(actual_prev),
            },
        }
    }

    /// The number of the entry the chain breaks at.
    pub open spec fn at(self) -> i64 {
        match self {
            Break::Altered { seq, .. } => seq,
            Break::Unlinked { seq, .. } => seq,
        }
    }

    /// The number of the entry the chain breaks at.
    pub fn seq(&self) -> (seq: i64)
        ensures
            seq == self.at(),
    {
        match self {
            Break::Altered { seq, .. } => *seq,
            Break::Unlinked { seq, .. } => *seq,
        }
    }
}

impl BreakView {
    /// The number of the entry the chain breaks at.
    pub open spec fn at(self) -> i64 {
        match self {
            BreakView::Altered { seq, .. } => seq,
            BreakView::Unlinked { seq, .. } => seq,
        }
    }
}

/// The result of walking the chain.
#[derive(Debug, Clone, PartialEq, Eq)]
pub struct Verification {
    pub checked: u64,
    pub from_seq: i64,
    /// The last sequence number reached: the break's, if there was one.
    pub through_seq: Option<i64>,
    /// `None` means every entry from `from_seq` onward hashes and links correctly.
    pub first_break: Option<Break>,
}

impl Verification {
    /// Whether no break was found.
    pub fn is_intact(&self) -> (intact: bool)
        ensures
            intact == (self.first_break is None),
    {
        self.first_break.is_none()
    }
}

/// How far a walk has come.
pub struct Progress {
    pub from_seq: i64,
    /// The first sequence number not yet read.
    pub cursor: i64,
    /// Entries checked, saturating.
    pub checked: u64,
    pub through: Option<i64>,
    /// The hash the next entry has to name.
    pub expected: Option<Seq<char>>,
}

impl Progress {
    /// Progress with one more entry checked.
    pub open spec fn counted(self, link: Link) -> Progress {
        Progress {
            checked: if self.checked == u64::MAX {
                u64::MAX
            } else {
                (self.checked + 1) as u64
            },
            through: Some(link.seq),
            ..self
        }
    }

    /// Progress past an entry that hashes and links.
    pub open spec fn past(self, link: Link) -> Progress {
        Progress {
            cursor: if link.seq == i64::MAX {
                i64::MAX
            } else {
                (link.seq + 1) as i64
            },
            expected: Some(link.hash),
            ..self.counted(link)
        }
    }
}

/// What is wrong with an entry that has to name `expected`.
pub open spec fn defect(expected: Option<Seq<char>>, link: Link) -> Option<BreakView> {
    if link.recomputed != link.hash {
        Some(
            BreakView::Altered { seq: link.seq, stored: link.hash, recomputed: link.recomputed },
        )
    } else if link.prev != expected {
        Some(
            BreakView::Unlinked { seq: link.seq, claimed_prev: link.prev, actual_prev: expected },
        )
    } else {
        None
    }
}

/// The walk over `rows`: where it gets to, and the break it stops at.
pub open spec fn walked(from: Progress, rows: Seq<Link>) -> (Progress, Option<BreakView>)
    decreases rows.len(),
{
    if rows.len() == 0 {
        (from, None)
    } else {
        match defect(from.expected, rows[0]) {
            Some(found) => (from.counted(rows[0]), Some(found)),
            None => walked(from.past(rows[0]), rows.drop_first()),
        }
    }
}

/// A walk along the chain, batch by batch.
#[derive(Debug)]
pub struct Walk {
    from_seq: i64,
    cursor: i64,
    checked: u64,
    through: Option<i64>,
    expected: Option<String>,
}

impl Walk {
    /// How far this walk has come.
    pub closed spec fn view(&self) -> Progress {
        Progress {
            from_seq: self.from_seq,
            cursor: self.cursor,
            checked: self.checked,
            through: self.through,
            expected: opt_chars(self.expected),
        }
    }

    /// A walk from `from_seq`, where `before` is the hash of the entry before it.
    ///
    /// The link into `from_seq` is checked too: skipping it would let a caller choose a start that hides the
    /// break.
    pub fn start(from_seq: i64, before: Option<String>) -> (walk: Walk)
        ensures
            walk@ == (Progress {
                from_seq,
                cursor: from_seq,
                checked: 0,
                through: None,
                expected: opt_chars(before),
            }),
    {
        Walk { from_seq, cursor: from_seq, checked: 0, through: None, expected: before }
    }

    /// The first sequence number of the next batch.
    pub fn cursor(&self) -> (cursor: i64)
        ensures
            cursor == self@.cursor,
    {
        self.cursor
    }

    /// The result as it stands.
    fn verdict(&self, first_break: Option<Break>) -> (result: Verification)
        ensures
            result.checked == self@.checked,
            result.from_seq == self@.from_seq,
            result.through_seq == self@.through,
            result.first_break == first_break,
    {
        Verification {
            checked: self.checked,
            from_seq: self.from_seq,
            through_seq: self.through,
            first_break,
        }
    }

    /// Walks over the next batch, oldest first. `None` asks for another batch, from [`Walk::cursor`]; a result
    /// ends the walk, at the first break or at a batch that is not full.
    ///
    /// It stops at the first break rather than collecting them: one alteration invalidates the link to
    /// everything after it.
    #[verifier::loop_isolation(false)]
    pub fn absorb(&mut self, batch: Vec<Checked>) -> (result: Option<Verification>)
        ensures
            ({
                let (after, found) = walked(old(self)@, links(batch@));
                &&& final(self)@ == after
                &&& result is None <==> found is None && batch@.len() >= VERIFY_BATCH
                &&& result matches Some(verification) ==> {
                    &&& verification.checked == after.checked
                    &&& verification.from_seq == after.from_seq
                    &&& verification.through_seq == after.through
                    &&& match found {
                        Some(expected) => verification.first_break matches Some(given)
                            && given@ == expected,
                        None => verification.first_break is None,
                    }
                }
            }),
            result is None ==> batch@.len() >= 1_000,
            result matches Some(verification) ==> verification.first_break is None ==> {
                &&& batch@.len() < 1_000
                &&& forall|i: int|
                    0 <= i < batch@.len() ==> (#[trigger] batch@[i]).entry.hash@ == batch@[i].recomputed@
                &&& forall|i: int|
                    1 <= i < batch@.len() ==> opt_chars((#[trigger] batch@[i]).entry.prev_hash) == Some(
                        batch@[i - 1].entry.hash@,
                    )
            },
            result is None ==> forall|i: int|
                0 <= i < batch@.len() ==> (#[trigger] batch@[i]).entry.hash@ == batch@[i].recomputed@,
            result is None ==> forall|i: int|
                1 <= i < batch@.len() ==> opt_chars((#[trigger] batch@[i]).entry.prev_hash) == Some(
                    batch@[i - 1].entry.hash@,
                ),
    {
        let size: usize = batch.len();
        let ghost all = links(batch@);
        let ghost begun = self@;
        proof {
            assert(all.skip(0) =~= all);
        }
        for row in rows: batch
            invariant
                rows.seq() == batch@,
                walked(self@, all.skip(rows.index())) == walked(begun, all),
        {
            let ghost done = rows.index();
            proof {
                assert(all.skip(done)[0] == row.link());
                assert(all.skip(done).drop_first() =~= all.skip(done + 1));
            }
            let Checked { entry, recomputed } = row;
            self.through = Some(entry.seq);
            if self.checked < u64::MAX {
                self.checked = self.checked + 1;
            }
            if !same(recomputed.as_str(), entry.hash.as_str()) {
                let found = Break::Altered { seq: entry.seq, stored: entry.hash, recomputed };
                return Some(self.verdict(Some(found)));
            }
            if !same_opt(&entry.prev_hash, &self.expected) {
                let found = Break::Unlinked {
                    seq: entry.seq,
                    claimed_prev: entry.prev_hash,
                    actual_prev: crate::text::copied_opt(&self.expected),
                };
                return Some(self.verdict(Some(found)));
            }
            self.cursor = if entry.seq < i64::MAX {
                entry.seq + 1
            } else {
                i64::MAX
            };
            self.expected = Some(entry.hash);
        }
        proof {
            assert(all.skip(all.len() as int) =~= Seq::<Link>::empty());
            intact_means_every_entry_hashes_and_links(begun, all);
            a_chain_holds_link_by_link(begun.expected, all);
            assert forall|i: int| 0 <= i < batch@.len() implies (#[trigger] batch@[i]).entry.hash@
                == batch@[i].recomputed@ by {
                assert(all[i].recomputed == all[i].hash);
            }
            assert forall|i: int| 1 <= i < batch@.len() implies opt_chars((#[trigger] batch@[i]).entry.prev_hash)
                == Some(batch@[i - 1].entry.hash@) by {
                assert(all[i].prev == Some(all[i - 1].hash));
            }
        }
        if size < VERIFY_BATCH {
            Some(self.verdict(None))
        } else {
            None
        }
    }
}

/// Which entries to read.
#[derive(Debug, Clone, Default, PartialEq, Eq)]
pub struct Filter {
    pub action: Option<String>,
    pub actor_id: Option<Uuid>,
    pub target_kind: Option<String>,
    pub target_id: Option<String>,
    /// The page runs backwards from here, exclusive.
    pub before_seq: Option<i64>,
}

/// How many entries a page or an extract holds when `limit` are asked for.
pub fn page_limit(limit: i64) -> (effective: i64)
    ensures
        effective == clamped(limit as int, 1, EXPORT_LIMIT as int),
        1 <= effective <= 10_000,
        1 <= limit <= 10_000 ==> effective == limit,
{
    clamp(limit, 1, EXPORT_LIMIT)
}

/// A contiguous extract, oldest first, with the entry recording that it was taken.
#[derive(Debug, Clone)]
pub struct Extract {
    pub entries: Vec<Entry>,
    /// The entry appended by the export. Not one of `entries`: an extract cannot contain the record of its own
    /// creation.
    pub recorded_as: Entry,
    /// The hash the first entry links back to. `None` when the extract starts at the beginning of the chain.
    pub anchor: Option<String>,
}

/// The payload that records an export.
pub open spec fn export_payload(
    payload: Json,
    from_seq: i64,
    count: int,
    through_seq: Option<i64>,
    truncated: bool,
) -> bool {
    &&& payload matches Json::Object(members)
    &&& members@.len() == 4
    &&& members@[0].0@ == "from_seq"@ && members@[0].1 == Json::Int(from_seq)
    &&& members@[1].0@ == "entries"@ && members@[1].1 == Json::Int(count as i64)
    &&& members@[2].0@ == "through_seq"@ && members@[2].1 == match through_seq {
        Some(seq) => Json::Int(seq),
        None => Json::Null,
    }
    &&& members@[3].0@ == "truncated"@ && members@[3].1 == Json::Bool(truncated)
}

/// The entry that records an export of `entries`, asked for from `from_seq` with `limit`.
///
/// It says the range actually taken, not the range asked for: an export that hit the limit and one that
/// reached the end of the log are different facts about what was handed over.
pub fn export_entry(
    from_seq: i64,
    limit: i64,
    actor: Option<Uuid>,
    actor_kind: ActorKind,
    entries: &Vec<Entry>,
) -> (entry: NewEntry)
    requires
        entries@.len() <= i64::MAX,
    ensures
        entry.action == Action::AuditExported,
        entry.actor_kind == actor_kind,
        entry.actor_id == actor,
        entry.target_kind@ == "audit_log"@,
        entry.target_id is None,
        export_payload(
            entry.payload,
            from_seq,
            entries@.len() as int,
            if entries@.len() > 0 {
                Some(entries@.last().seq)
            } else {
                None
            },
            entries@.len() >= clamped(limit as int, 1, EXPORT_LIMIT as int),
        ),
{
    let limit: i64 = page_limit(limit);
    let count: i64 = entries.len() as i64;
    let through = if entries.len() > 0 {
        Json::Int(entries[entries.len() - 1].seq)
    } else {
        Json::Null
    };
    let mut members: Vec<(String, Json)> = Vec::new();
    members.push(("from_seq".to_owned(), Json::Int(from_seq)));
    members.push(("entries".to_owned(), Json::Int(count)));
    members.push(("through_seq".to_owned(), through));
    members.push(("truncated".to_owned(), Json::Bool(count >= limit)));
    NewEntry {
        action: Action::AuditExported,
        actor_kind,
        actor_id: actor,
        target_kind: "audit_log".to_owned(),
        target_id: None,
        payload: Json::Object(members),
    }
}

// ----------------------------------------------------------------------------------------------------
// What verification promises
// ----------------------------------------------------------------------------------------------------

/// The hash the entry at `i` has to name, in a chain whose first entry has to name `before`.
pub open spec fn owed_prev(before: Option<Seq<char>>, rows: Seq<Link>, i: int) -> Option<Seq<char>> {
    if i == 0 {
        before
    } else {
        Some(rows[i - 1].hash)
    }
}

/// Whether the entry at `i` hashes and links.
pub open spec fn holds_at(before: Option<Seq<char>>, rows: Seq<Link>, i: int) -> bool {
    defect(owed_prev(before, rows, i), rows[i]) is None
}

/// Whether every entry hashes and links.
pub open spec fn chain_holds(before: Option<Seq<char>>, rows: Seq<Link>) -> bool {
    forall|i: int| 0 <= i < rows.len() ==> #[trigger] holds_at(before, rows, i)
}

/// Walking two batches one after the other is walking them as one: a break in the first ends the walk, and
/// otherwise the second is walked from where the first left off.
pub proof fn batches_compose(from: Progress, first: Seq<Link>, second: Seq<Link>)
    ensures
        walked(from, first + second) == match walked(from, first) {
            (at, Some(found)) => (at, Some(found)),
            (at, None) => walked(at, second),
        },
    decreases first.len(),
{
    if first.len() == 0 {
        assert(first + second =~= second);
    } else {
        assert((first + second)[0] == first[0]);
        assert((first + second).drop_first() =~= first.drop_first() + second);
        if defect(from.expected, first[0]) is None {
            batches_compose(from.past(first[0]), first.drop_first(), second);
        }
    }
}

/// A walk finds no break exactly when every entry hashes to what is stored beside it and names the entry before
/// it, the first entry included.
pub proof fn intact_means_every_entry_hashes_and_links(from: Progress, rows: Seq<Link>)
    ensures
        walked(from, rows).1 is None <==> chain_holds(from.expected, rows),
    decreases rows.len(),
{
    if rows.len() > 0 {
        let rest = rows.drop_first();
        let next = from.past(rows[0]);
        intact_means_every_entry_hashes_and_links(next, rest);
        if defect(from.expected, rows[0]) is None {
            assert forall|i: int| 0 <= i < rest.len() implies #[trigger] holds_at(
                next.expected,
                rest,
                i,
            ) == holds_at(from.expected, rows, i + 1) by {
                assert(rest[i] == rows[i + 1]);
                if i > 0 {
                    assert(rest[i - 1] == rows[i]);
                }
            }
            if chain_holds(next.expected, rest) {
                assert forall|i: int| 0 <= i < rows.len() implies #[trigger] holds_at(
                    from.expected,
                    rows,
                    i,
                ) by {
                    if i > 0 {
                        assert(holds_at(next.expected, rest, i - 1));
                    } else {
                        assert(owed_prev(from.expected, rows, 0) == from.expected);
                    }
                }
            }
            if chain_holds(from.expected, rows) {
                assert forall|i: int| 0 <= i < rest.len() implies #[trigger] holds_at(
                    next.expected,
                    rest,
                    i,
                ) by {
                    assert(holds_at(from.expected, rows, i + 1));
                }
            }
        } else {
            assert(!holds_at(from.expected, rows, 0));
        }
    }
}

/// The break a walk reports is the first: the entry at some place does not hold, every entry before that place
/// does, and the walk reached no further.
pub proof fn the_first_break_is_the_one_reported(from: Progress, rows: Seq<Link>, place: int)
    requires
        0 <= place < rows.len(),
        !holds_at(from.expected, rows, place),
        forall|i: int| 0 <= i < place ==> #[trigger] holds_at(from.expected, rows, i),
    ensures
        walked(from, rows).1 == defect(owed_prev(from.expected, rows, place), rows[place]),
        walked(from, rows).1 is Some,
        walked(from, rows).1->0.at() == rows[place].seq,
        walked(from, rows).0.through == Some(rows[place].seq),
        from.checked + place + 1 <= u64::MAX ==> walked(from, rows).0.checked == from.checked
            + place + 1,
    decreases rows.len(),
{
    if place > 0 {
        assert(holds_at(from.expected, rows, 0));
        let rest = rows.drop_first();
        let next = from.past(rows[0]);
        assert forall|i: int| 0 <= i < place - 1 implies #[trigger] holds_at(
            next.expected,
            rest,
            i,
        ) by {
            assert(holds_at(from.expected, rows, i + 1));
            assert(rest[i] == rows[i + 1]);
            if i > 0 {
                assert(rest[i - 1] == rows[i]);
            }
        }
        assert(rest[place - 1] == rows[place]);
        if place > 1 {
            assert(rest[place - 2] == rows[place - 1]);
        }
        assert(owed_prev(next.expected, rest, place - 1) == owed_prev(from.expected, rows, place));
        the_first_break_is_the_one_reported(next, rest, place - 1);
    }
}

/// A walk that finds no break has counted every entry and stands after the last.
pub proof fn an_intact_walk_reaches_the_end(from: Progress, rows: Seq<Link>)
    requires
        rows.len() > 0,
        chain_holds(from.expected, rows),
    ensures
        walked(from, rows).0.through == Some(rows.last().seq),
        walked(from, rows).0.expected == Some(rows.last().hash),
        from.checked + rows.len() <= u64::MAX ==> walked(from, rows).0.checked == from.checked
            + rows.len(),
    decreases rows.len(),
{
    assert(holds_at(from.expected, rows, 0));
    let rest = rows.drop_first();
    let next = from.past(rows[0]);
    if rest.len() > 0 {
        assert forall|i: int| 0 <= i < rest.len() implies #[trigger] holds_at(
            next.expected,
            rest,
            i,
        ) by {
            assert(holds_at(from.expected, rows, i + 1));
            assert(rest[i] == rows[i + 1]);
            if i > 0 {
                assert(rest[i - 1] == rows[i]);
            }
        }
        an_intact_walk_reaches_the_end(next, rest);
        assert(rest.last() == rows.last());
    }
}

/// Appending keeps the chain: an entry that names the last hash and carries its own digest continues an intact
/// chain as an intact chain.
pub proof fn an_appended_entry_keeps_the_chain(
    before: Option<Seq<char>>,
    rows: Seq<Link>,
    entry: Link,
)
    requires
        chain_holds(before, rows),
        entry.prev == if rows.len() > 0 {
            Some(rows.last().hash)
        } else {
            before
        },
        entry.hash == entry.recomputed,
    ensures
        chain_holds(before, rows.push(entry)),
{
    let after = rows.push(entry);
    assert forall|i: int| 0 <= i < after.len() implies #[trigger] holds_at(before, after, i) by {
        if i < rows.len() {
            assert(holds_at(before, rows, i));
        }
    }
}

/// An edit is found: when one entry of an intact chain no longer hashes to what is stored beside it, a walk
/// reports that entry as altered.
pub proof fn an_altered_entry_is_reported(
    from: Progress,
    rows: Seq<Link>,
    place: int,
    recomputed: Seq<char>,
)
    requires
        chain_holds(from.expected, rows),
        0 <= place < rows.len(),
        recomputed != rows[place].hash,
    ensures
        walked(from, rows.update(place, Link { recomputed, ..rows[place] })).1 == Some(
            BreakView::Altered { seq: rows[place].seq, stored: rows[place].hash, recomputed },
        ),
{
    let edited = rows.update(place, Link { recomputed, ..rows[place] });
    assert forall|i: int| 0 <= i < place implies #[trigger] holds_at(from.expected, edited, i) by {
        assert(holds_at(from.expected, rows, i));
    }
    the_first_break_is_the_one_reported(from, edited, place);
}

/// A deletion is found: when an entry is taken out of the middle of an intact chain in which it did not have its
/// predecessor's own hash, a walk reports the entry after it as unlinked.
pub proof fn a_removed_entry_is_reported(from: Progress, rows: Seq<Link>, place: int)
    requires
        chain_holds(from.expected, rows),
        0 <= place < rows.len() - 1,
        owed_prev(from.expected, rows, place) != Some(rows[place].hash),
    ensures
        walked(from, rows.remove(place)).1 == Some(
            BreakView::Unlinked {
                seq: rows[place + 1].seq,
                claimed_prev: Some(rows[place].hash),
                actual_prev: owed_prev(from.expected, rows, place),
            },
        ),
{
    let cut = rows.remove(place);
    assert(cut[place] == rows[place + 1]);
    assert forall|i: int| 0 <= i < place implies #[trigger] holds_at(from.expected, cut, i) by {
        assert(holds_at(from.expected, rows, i));
        assert(cut[i] == rows[i]);
    }
    assert(holds_at(from.expected, rows, place + 1));
    assert(owed_prev(from.expected, cut, place) == owed_prev(from.expected, rows, place));
    the_first_break_is_the_one_reported(from, cut, place);
}

/// What is walked of a stored entry is its own number, the hash it says came before it, the hash it is stored with and the
/// hash that was computed from it again.
pub proof fn a_link_is_its_entry(checked: Checked)
    ensures
        checked.link().seq == checked.entry.seq,
        checked.link().hash == checked.entry.hash@,
        checked.link().recomputed == checked.recomputed@,
        checked.entry.prev_hash is None ==> checked.link().prev is None,
        checked.entry.prev_hash matches Some(prev) ==> checked.link().prev == Some(prev@),
{
}

/// A chain holds exactly where each entry still hashes to what it is stored with and names the hash of the one before it,
/// the first of them the hash that the walk began from.
pub proof fn a_chain_holds_link_by_link(before: Option<Seq<char>>, rows: Seq<Link>)
    ensures
        chain_holds(before, rows) <==> {
            &&& forall|i: int| 0 <= i < rows.len() ==> (#[trigger] rows[i]).recomputed == rows[i].hash
            &&& forall|i: int|
                1 <= i < rows.len() ==> (#[trigger] rows[i]).prev == Some(rows[i - 1].hash)
            &&& rows.len() > 0 ==> rows[0].prev == before
        },
{
    if chain_holds(before, rows) {
        assert forall|i: int| 0 <= i < rows.len() implies (#[trigger] rows[i]).recomputed == rows[i].hash by {
            assert(holds_at(before, rows, i));
        }
        assert forall|i: int| 1 <= i < rows.len() implies (#[trigger] rows[i]).prev == Some(
            rows[i - 1].hash,
        ) by {
            assert(holds_at(before, rows, i));
        }
        if rows.len() > 0 {
            assert(holds_at(before, rows, 0));
        }
    }
    if (forall|i: int| 0 <= i < rows.len() ==> (#[trigger] rows[i]).recomputed == rows[i].hash) && (forall|i: int|
        1 <= i < rows.len() ==> (#[trigger] rows[i]).prev == Some(rows[i - 1].hash)) && (rows.len() > 0
        ==> rows[0].prev == before) {
        assert forall|i: int| 0 <= i < rows.len() implies #[trigger] holds_at(before, rows, i) by {
            assert(rows[i].recomputed == rows[i].hash);
        }
    }
}

/// A batch that holds is not walked again: the next one starts behind its last entry.
pub proof fn the_walk_goes_on_behind_what_it_checked(from: Progress, rows: Seq<Link>)
    requires
        rows.len() > 0,
        chain_holds(from.expected, rows),
        rows.last().seq < i64::MAX,
    ensures
        walked(from, rows).0.cursor == rows.last().seq + 1,
        walked(from, rows).0.from_seq == from.from_seq,
    decreases rows.len(),
{
    let next = from.past(rows[0]);
    let rest = rows.drop_first();
    assert(holds_at(from.expected, rows, 0));
    if rest.len() > 0 {
        assert forall|i: int| 0 <= i < rest.len() implies #[trigger] holds_at(next.expected, rest, i) by {
            assert(holds_at(from.expected, rows, i + 1));
            assert(rest[i] == rows[i + 1]);
            assert(i > 0 ==> rest[i - 1] == rows[i]);
        }
        assert(rest.last() == rows.last());
        the_walk_goes_on_behind_what_it_checked(next, rest);
    } else {
        reveal_with_fuel(walked, 2);
    }
}

/// What an export records of itself: where it began, how many entries it took, the last of them and whether there were
/// more than it could take.
pub proof fn an_export_says_what_it_took(
    payload: Json,
    from_seq: i64,
    count: int,
    through_seq: Option<i64>,
    truncated: bool,
)
    requires
        export_payload(payload, from_seq, count, through_seq, truncated),
    ensures
        payload matches Json::Object(members) && {
            &&& members@.len() == 4
            &&& members@[0].0@ == "from_seq"@ && members@[0].1 == Json::Int(from_seq)
            &&& members@[1].0@ == "entries"@ && members@[1].1 == Json::Int(count as i64)
            &&& members@[2].0@ == "through_seq"@ && (through_seq is None ==> members@[2].1 is Null) && (through_seq
                matches Some(seq) ==> members@[2].1 == Json::Int(seq))
            &&& members@[3].0@ == "truncated"@ && members@[3].1 == Json::Bool(truncated)
        },
{
}

/// A break is read as it was found: an altered entry with the hash it is stored with and the one it has now, an unlinked
/// one with the hash it names and the one that stands before it.
pub proof fn a_break_is_read_as_it_was_found(found: Break)
    ensures
        found matches Break::Altered { seq, stored, recomputed } ==> found@ == (BreakView::Altered {
            seq,
            stored: stored@,
            recomputed: recomputed@,
        }) && found.at() == seq,
        found matches Break::Unlinked { seq, claimed_prev, actual_prev } ==> found@ == (BreakView::Unlinked {
            seq,
            claimed_prev: opt_chars(claimed_prev),
            actual_prev: opt_chars(actual_prev),
        }) && found.at() == seq,
{
}

/// An entry that was altered is reported as altered, whatever it is linked to; one that was not is reported as unlinked
/// where it names another hash than the one before it.
pub proof fn an_alteration_comes_before_a_broken_link(expected: Option<Seq<char>>, link: Link)
    ensures
        link.recomputed != link.hash ==> defect(expected, link) == Some(
            BreakView::Altered { seq: link.seq, stored: link.hash, recomputed: link.recomputed },
        ),
        link.recomputed == link.hash && link.prev != expected ==> defect(expected, link) == Some(
            BreakView::Unlinked { seq: link.seq, claimed_prev: link.prev, actual_prev: expected },
        ),
        link.recomputed == link.hash && link.prev == expected ==> defect(expected, link) is None,
{
}

// ----------------------------------------------------------------------------------------------------
// Commands
// ----------------------------------------------------------------------------------------------------

pub const LOCK: &'static str = "SELECT pg_advisory_xact_lock('audit_log'::regclass::oid::bigint)";

/// The log, held until the transaction ends: two entries chained to one tail would break the chain.
pub fn lock() -> (command: Command)
    ensures
        command.says("SELECT pg_advisory_xact_lock('audit_log'::regclass::oid::bigint)"@, Seq::empty()),
{
    Command::new(LOCK, Vec::new())
}

pub const PREPARE: &'static str =
    "SELECT nextval(pg_get_serial_sequence('audit_log', 'seq')) AS seq, clock_timestamp() AS at, $1::jsonb \
     AS payload, (SELECT hash FROM audit_log ORDER BY seq DESC LIMIT 1) AS prev_hash";

/// What a new entry needs before it can be chained: its number, its instant, its payload as the database keeps it, and
/// the tail's hash.
pub fn prepare(payload: Json) -> (command: Command)
    ensures
        command.says(
            "SELECT nextval(pg_get_serial_sequence('audit_log', 'seq')) AS seq, clock_timestamp() AS at, $1::jsonb \
             AS payload, (SELECT hash FROM audit_log ORDER BY seq DESC LIMIT 1) AS prev_hash"@,
            seq![Given::Json(payload)],
        ),
{
    Command::new(PREPARE, vec![Value::Json(payload)])
}

pub const APPEND: &'static str =
    "INSERT INTO audit_log (seq, at, actor_id, actor_kind, action, target_kind, target_id, payload, \
     prev_hash, hash) OVERRIDING SYSTEM VALUE VALUES ($1, $2, $3, $4, $5, $6, $7, $8, $9, $10) RETURNING \
     seq, at, actor_id, actor_kind, action, target_kind, target_id, payload, prev_hash, hash";

/// A chained and sealed entry.
pub fn append(entry: Entry) -> (command: Command)
    ensures
        command.says(
            "INSERT INTO audit_log (seq, at, actor_id, actor_kind, action, target_kind, target_id, payload, \
             prev_hash, hash) OVERRIDING SYSTEM VALUE VALUES ($1, $2, $3, $4, $5, $6, $7, $8, $9, $10) RETURNING \
             seq, at, actor_id, actor_kind, action, target_kind, target_id, payload, prev_hash, hash"@,
            seq![
                Given::Int(entry.seq), Given::At(entry.at), Given::MaybeId(entry.actor_id),
                Given::Text(entry.actor_kind@), Given::Text(entry.action@),
                Given::Text(entry.target_kind@), Given::MaybeText(opt_chars(entry.target_id)),
                Given::Json(entry.payload), Given::MaybeText(opt_chars(entry.prev_hash)),
                Given::Text(entry.hash@),
            ],
        ),
{
    Command::new(
        APPEND,
        vec![
            Value::Int(entry.seq), Value::At(entry.at), Value::MaybeId(entry.actor_id),
            as_text(entry.actor_kind.as_str()), as_text(entry.action.as_str()),
            as_text(entry.target_kind.as_str()), as_maybe_text(&entry.target_id),
            Value::Json(entry.payload), as_maybe_text(&entry.prev_hash), as_text(entry.hash.as_str()),
        ],
    )
}

pub const PAGE: &'static str =
    "SELECT seq, at, actor_id, actor_kind, action, target_kind, target_id, payload, prev_hash, hash FROM \
     audit_log WHERE ($1::text IS NULL OR action = $1) AND ($2::uuid IS NULL OR actor_id = $2) AND \
     ($3::text IS NULL OR target_kind = $3) AND ($4::text IS NULL OR target_id = $4) AND ($5::bigint IS \
     NULL OR seq < $5) ORDER BY seq DESC LIMIT $6";

/// One page of the log, newest first. A filter that is absent lets everything through.
pub fn page(filter: &Filter, limit: i64) -> (command: Command)
    ensures
        command.says(
            "SELECT seq, at, actor_id, actor_kind, action, target_kind, target_id, payload, prev_hash, hash FROM \
             audit_log WHERE ($1::text IS NULL OR action = $1) AND ($2::uuid IS NULL OR actor_id = $2) AND \
             ($3::text IS NULL OR target_kind = $3) AND ($4::text IS NULL OR target_id = $4) AND ($5::bigint IS \
             NULL OR seq < $5) ORDER BY seq DESC LIMIT $6"@,
            seq![
                Given::MaybeText(opt_chars(filter.action)), Given::MaybeId(filter.actor_id),
                Given::MaybeText(opt_chars(filter.target_kind)),
                Given::MaybeText(opt_chars(filter.target_id)), Given::MaybeInt(filter.before_seq),
                Given::Int(clamped(limit as int, 1, EXPORT_LIMIT as int) as i64),
            ],
        ),
{
    Command::new(
        PAGE,
        vec![
            as_maybe_text(&filter.action), Value::MaybeId(filter.actor_id),
            as_maybe_text(&filter.target_kind), as_maybe_text(&filter.target_id),
            Value::MaybeInt(filter.before_seq), Value::Int(page_limit(limit)),
        ],
    )
}

pub const HASH_BEFORE: &'static str =
    "SELECT hash FROM audit_log WHERE seq < $1 ORDER BY seq DESC LIMIT 1";

/// The hash an entry should be chained to.
pub fn hash_before(from_seq: i64) -> (command: Command)
    ensures
        command.says(
            "SELECT hash FROM audit_log WHERE seq < $1 ORDER BY seq DESC LIMIT 1"@,
            seq![Given::Int(from_seq)],
        ),
{
    Command::new(HASH_BEFORE, vec![Value::Int(from_seq)])
}

pub const FROM: &'static str =
    "SELECT seq, at, actor_id, actor_kind, action, target_kind, target_id, payload, prev_hash, hash FROM \
     audit_log WHERE seq >= $1 ORDER BY seq ASC LIMIT $2";

/// Entries in order, from a number on.
pub fn from(from_seq: i64, limit: i64) -> (command: Command)
    ensures
        command.says(
            "SELECT seq, at, actor_id, actor_kind, action, target_kind, target_id, payload, prev_hash, hash FROM \
             audit_log WHERE seq >= $1 ORDER BY seq ASC LIMIT $2"@,
            seq![Given::Int(from_seq), Given::Int(limit)],
        ),
{
    Command::new(FROM, vec![Value::Int(from_seq), Value::Int(limit)])
}

} // verus!
