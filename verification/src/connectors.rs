//! Connected sites, and the secret each one signs with.
//!
//! A remote signs render URLs itself, so its secret is a forgery capability. A rotation keeps the superseded
//! secret for a grace window, because two deploys are involved, unless the secret leaked; the window is judged
//! when a URL is verified and never by a job that clears a column. Revocation is final and clears both secrets.

use crate::assets::unreadable;
use crate::commands::{as_ids, as_maybe_str, as_maybe_text, as_text, Command, Given, Value};
use crate::json::Json;
use crate::text::{
    opt_chars, opt_str_chars, quoted_chars, same, trim, trimmed, uuid_chars, uuid_text, wrapped,
};
use crate::{Error, Instant, Uuid};
use vstd::prelude::*;

verus! {

/// How long a superseded signing secret keeps verifying: a week, in microseconds.
pub const SECRET_GRACE: i64 = 604_800_000_000;

/// What kind of system is connected.
#[derive(Debug, Clone, Copy, PartialEq, Eq, Structural)]
pub enum Kind {
    Drupal,
    WordPress,
    AdobeCc,
    Figma,
    HubSpot,
    Salesforce,
    Generic,
}

impl Kind {
    /// The column's spelling.
    pub open spec fn chars(self) -> Seq<char> {
        match self {
            Kind::Drupal => "drupal"@,
            Kind::WordPress => "wordpress"@,
            Kind::AdobeCc => "adobe_cc"@,
            Kind::Figma => "figma"@,
            Kind::HubSpot => "hubspot"@,
            Kind::Salesforce => "salesforce"@,
            Kind::Generic => "generic"@,
        }
    }

    /// The column's spelling.
    pub fn as_str(self) -> (text: &'static str)
        ensures
            text@ == self.chars(),
            text@ == match self {
                Kind::Drupal => "drupal"@,
                Kind::WordPress => "wordpress"@,
                Kind::AdobeCc => "adobe_cc"@,
                Kind::Figma => "figma"@,
                Kind::HubSpot => "hubspot"@,
                Kind::Salesforce => "salesforce"@,
                Kind::Generic => "generic"@,
            },
    {
        match self {
            Kind::Drupal => "drupal",
            Kind::WordPress => "wordpress",
            Kind::AdobeCc => "adobe_cc",
            Kind::Figma => "figma",
            Kind::HubSpot => "hubspot",
            Kind::Salesforce => "salesforce",
            Kind::Generic => "generic",
        }
    }

    /// The value a spelling stands for; `None` for a spelling nothing has.
    pub fn parse(text: &str) -> (parsed: Option<Kind>)
        ensures
            match parsed {
                Some(value) => text@ == value.chars(),
                None => forall|value: Kind| text@ != #[trigger] value.chars(),
            },
            parsed == Some(Kind::Drupal) ==> text@ == "drupal"@,
            parsed == Some(Kind::WordPress) ==> text@ == "wordpress"@,
            parsed == Some(Kind::AdobeCc) ==> text@ == "adobe_cc"@,
            parsed == Some(Kind::Figma) ==> text@ == "figma"@,
            parsed == Some(Kind::HubSpot) ==> text@ == "hubspot"@,
            parsed == Some(Kind::Salesforce) ==> text@ == "salesforce"@,
            parsed == Some(Kind::Generic) ==> text@ == "generic"@,
            parsed is None ==> text@ != "drupal"@ && text@ != "wordpress"@ && text@ != "adobe_cc"@
                && text@ != "figma"@ && text@ != "hubspot"@ && text@ != "salesforce"@ && text@ != "generic"@,
    {
        if same(text, "drupal") {
            Some(Kind::Drupal)
        } else if same(text, "wordpress") {
            Some(Kind::WordPress)
        } else if same(text, "adobe_cc") {
            Some(Kind::AdobeCc)
        } else if same(text, "figma") {
            Some(Kind::Figma)
        } else if same(text, "hubspot") {
            Some(Kind::HubSpot)
        } else if same(text, "salesforce") {
            Some(Kind::Salesforce)
        } else if same(text, "generic") {
            Some(Kind::Generic)
        } else {
            None
        }
    }
}

/// Two values with one spelling are one value, so a spelling that is written reads back as what was written.
pub proof fn kind_spellings_are_distinct(a: Kind, b: Kind)
    requires
        a.chars() == b.chars(),
    ensures
        a == b,
{
    reveal_strlit("drupal");
    reveal_strlit("wordpress");
    reveal_strlit("adobe_cc");
    reveal_strlit("figma");
    reveal_strlit("hubspot");
    reveal_strlit("salesforce");
    reveal_strlit("generic");
    assert("drupal"@.len() == 6);
    assert("wordpress"@.len() == 9);
    assert("adobe_cc"@.len() == 8);
    assert("figma"@.len() == 5);
    assert("hubspot"@.len() == 7);
    assert("salesforce"@.len() == 10);
    assert("generic"@.len() == 7);
    assert("hubspot"@[0] != "generic"@[0]);
}

/// Whether a connector may be used at all.
#[derive(Debug, Clone, Copy, PartialEq, Eq, Structural)]
pub enum Status {
    Active,
    /// Temporarily stopped.
    Paused,
    /// The remote is failing.
    Error,
    /// Finished with. Reactivating would make every URL the remote ever signed live again.
    Revoked,
}

impl Status {
    /// The column's spelling.
    pub open spec fn chars(self) -> Seq<char> {
        match self {
            Status::Active => "active"@,
            Status::Paused => "paused"@,
            Status::Error => "error"@,
            Status::Revoked => "revoked"@,
        }
    }

    /// The column's spelling.
    pub fn as_str(self) -> (text: &'static str)
        ensures
            text@ == self.chars(),
            text@ == match self {
                Status::Active => "active"@,
                Status::Paused => "paused"@,
                Status::Error => "error"@,
                Status::Revoked => "revoked"@,
            },
    {
        match self {
            Status::Active => "active",
            Status::Paused => "paused",
            Status::Error => "error",
            Status::Revoked => "revoked",
        }
    }

    /// The value a spelling stands for; `None` for a spelling nothing has.
    pub fn parse(text: &str) -> (parsed: Option<Status>)
        ensures
            match parsed {
                Some(value) => text@ == value.chars(),
                None => forall|value: Status| text@ != #[trigger] value.chars(),
            },
            parsed == Some(Status::Active) ==> text@ == "active"@,
            parsed == Some(Status::Paused) ==> text@ == "paused"@,
            parsed == Some(Status::Error) ==> text@ == "error"@,
            parsed == Some(Status::Revoked) ==> text@ == "revoked"@,
            parsed is None ==> text@ != "active"@ && text@ != "paused"@ && text@ != "error"@ && text@ != "revoked"@,
    {
        if same(text, "active") {
            Some(Status::Active)
        } else if same(text, "paused") {
            Some(Status::Paused)
        } else if same(text, "error") {
            Some(Status::Error)
        } else if same(text, "revoked") {
            Some(Status::Revoked)
        } else {
            None
        }
    }
}

/// Two values with one spelling are one value, so a spelling that is written reads back as what was written.
pub proof fn status_spellings_are_distinct(a: Status, b: Status)
    requires
        a.chars() == b.chars(),
    ensures
        a == b,
{
    reveal_strlit("active");
    reveal_strlit("paused");
    reveal_strlit("error");
    reveal_strlit("revoked");
    assert("active"@.len() == 6);
    assert("paused"@.len() == 6);
    assert("error"@.len() == 5);
    assert("revoked"@.len() == 7);
    assert("active"@[0] != "paused"@[0]);
}

impl Status {
    /// Whether a URL signed by a connector in this status may still be honoured.
    pub open spec fn renders(self) -> bool {
        self == Status::Active || self == Status::Error
    }

    /// Whether a URL signed by a connector in this status may still be honoured.
    pub fn may_render(self) -> (yes: bool)
        ensures
            yes == self.renders(),
            yes <==> self != Status::Paused && self != Status::Revoked,
    {
        match self {
            Status::Active | Status::Error => true,
            Status::Paused | Status::Revoked => false,
        }
    }
}

/// Why a connector could not be written.
#[derive(Debug, Clone, PartialEq, Eq)]
pub enum ConnectorRefusal {
    Unknown(Uuid),
    /// A field the database refuses. Carries the constraint's name.
    Invalid(String),
    /// Another connector of this kind already claims this site URL.
    AlreadyConnected { kind: String, site_url: String },
    /// A revoked connector is terminal.
    Revoked(Uuid),
}

impl ConnectorRefusal {
    /// The text of this refusal.
    pub open spec fn message_chars(self) -> Seq<char> {
        match self {
            ConnectorRefusal::Unknown(given) => "no connector "@ + uuid_chars(given),
            ConnectorRefusal::Invalid(given) => given@,
            ConnectorRefusal::AlreadyConnected { kind, site_url } => kind@ + " is already connected to "@ + site_url@,
            ConnectorRefusal::Revoked(given) => "connector "@ + uuid_chars(given) + " is revoked; register a new one"@,
        }
    }

    /// The sentence whoever was refused reads.
    pub fn message(&self) -> (out: String)
        ensures
            out@ == self.message_chars(),
    {
        match self {
            ConnectorRefusal::Unknown(given) => {
                let mut out = "no connector ".to_owned();
                out.append(uuid_text(*given).as_str());
                out
            },
            ConnectorRefusal::Invalid(given) => given.as_str().to_owned(),
            ConnectorRefusal::AlreadyConnected { kind, site_url } => {
                let mut out = kind.as_str().to_owned();
                out.append(" is already connected to ");
                out.append(site_url.as_str());
                out
            },
            ConnectorRefusal::Revoked(given) => {
                let mut out = "connector ".to_owned();
                out.append(uuid_text(*given).as_str());
                out.append(" is revoked; register a new one");
                out
            },
        }
    }
}

/// The associated data a connector's signing secret is sealed under: the tenant, and the connector.
pub open spec fn sealed_under(tenant: Seq<char>, id: Uuid) -> Seq<char> {
    tenant + ":connector:"@ + uuid_chars(id)
}

/// The associated data a connector's signing secret is sealed under. Moved to another tenant, or copied to a new
/// row, the secret refuses to open.
pub fn associated_data(tenant: &str, id: Uuid) -> (data: String)
    ensures
        data@ == sealed_under(tenant@, id),
        data@ == tenant@ + ":connector:"@ + uuid_chars(id),
{
    wrapped(tenant, ":connector:", uuid_text(id).as_str())
}

/// A secret opens nowhere else: two connectors of one tenant never share associated data.
pub proof fn connectors_do_not_share_associated_data(tenant: Seq<char>, a: Uuid, b: Uuid)
    requires
        sealed_under(tenant, a) == sealed_under(tenant, b),
    ensures
        a == b,
{
    let head = tenant + ":connector:"@;
    assert(sealed_under(tenant, a).skip(head.len() as int) =~= uuid_chars(a));
    assert(sealed_under(tenant, b).skip(head.len() as int) =~= uuid_chars(b));
    crate::text::lemma_uuid_chars_injective(a, b);
}

/// Nor do two tenants, for one connector.
pub proof fn tenants_do_not_share_associated_data(a: Seq<char>, b: Seq<char>, id: Uuid)
    requires
        sealed_under(a, id) == sealed_under(b, id),
    ensures
        a == b,
{
    let tail = ":connector:"@ + uuid_chars(id);
    assert(sealed_under(a, id) =~= a + tail);
    assert(sealed_under(b, id) =~= b + tail);
    assert((a + tail).len() == (b + tail).len());
    assert((a + tail).take(a.len() as int) =~= a);
    assert((b + tail).take(b.len() as int) =~= b);
}

/// A connected site.
#[derive(Debug, Clone)]
pub struct Connector {
    pub id: Uuid,
    pub kind: Kind,
    pub label: String,
    pub site_url: String,
    pub remote_version: Option<String>,
    pub api_key_id: Option<Uuid>,
    /// Ciphertext.
    pub sealed_secret: String,
    /// The superseded ciphertext.
    pub previous_sealed_secret: Option<String>,
    pub secret_rotated_at: Option<Instant>,
    pub asset_group_ids: Vec<Uuid>,
    pub allow_all_groups: bool,
    pub allow_original: bool,
    pub allow_restore: bool,
    pub config: Json,
    pub status: Status,
    pub last_seen_at: Option<Instant>,
    pub last_error: Option<String>,
    pub created_at: Instant,
}

impl Connector {
    /// Whether the superseded secret still verifies at `now`: there is one, and the rotation is less than the
    /// grace window ago.
    pub open spec fn grace_holds(self, now: Instant) -> bool {
        &&& self.previous_sealed_secret is Some
        &&& self.secret_rotated_at matches Some(rotated)
        &&& now < rotated + SECRET_GRACE
    }

    /// Whether the superseded secret should still verify at `now`.
    pub fn previous_is_live(&self, now: Instant) -> (live: bool)
        ensures
            live == self.grace_holds(now),
    {
        match self.secret_rotated_at {
            Some(rotated) => self.previous_sealed_secret.is_some() && (now as i128) < rotated as i128
                + SECRET_GRACE as i128,
            None => false,
        }
    }

    /// The superseded ciphertext, only while it is still inside the window.
    pub fn live_previous(&self, now: Instant) -> (previous: Option<&str>)
        ensures
            match previous {
                Some(text) => self.grace_holds(now) && Some(text@) == opt_chars(
                    self.previous_sealed_secret,
                ),
                None => !self.grace_holds(now),
            },
    {
        if self.previous_is_live(now) {
            match &self.previous_sealed_secret {
                Some(text) => Some(text.as_str()),
                None => None,
            }
        } else {
            None
        }
    }

    /// The associated data this connector's secret was sealed under.
    pub fn associated_data(&self, tenant: &str) -> (data: String)
        ensures
            data@ == sealed_under(tenant@, self.id),
    {
        associated_data(tenant, self.id)
    }
}

/// `text` without the slashes at its end.
pub open spec fn without_slashes(text: Seq<char>) -> Seq<char>
    decreases text.len(),
{
    if text.len() > 0 && text.last() == '/' {
        without_slashes(text.drop_last())
    } else {
        text
    }
}

/// The label of a site to register, as it is stored.
pub fn stored_label(label: &str) -> (text: &str)
    ensures
        text@ == trimmed(label@),
{
    trim(label)
}

/// The URL of a site to register, as it is stored: without a trailing slash, so that one site has one spelling.
pub fn stored_site_url(site_url: &str) -> (text: &str)
    ensures
        text@ == without_slashes(site_url@),
{
    let mut end: usize = site_url.unicode_len();
    proof {
        assert(site_url@.take(end as int) =~= site_url@);
    }
    while end > 0
        invariant_except_break
            end <= site_url@.len(),
            without_slashes(site_url@.take(end as int)) == without_slashes(site_url@),
        ensures
            end <= site_url@.len(),
            without_slashes(site_url@) == site_url@.take(end as int),
        decreases end,
    {
        proof {
            let part = site_url@.take(end as int);
            assert(part.last() == site_url@[end - 1]);
            assert(part.drop_last() =~= site_url@.take(end - 1));
        }
        if site_url.get_char(end - 1) != '/' {
            break;
        }
        end -= 1;
    }
    let text = site_url.substring_char(0, end);
    proof {
        assert(text@ =~= site_url@.take(end as int));
    }
    text
}

/// What a failed registration says. `constraint` is the constraint the database named, where it named one.
pub fn classify(
    constraint: Option<String>,
    kind: Kind,
    site_url: &str,
) -> (refusal: Option<ConnectorRefusal>)
    ensures
        match constraint {
            None => refusal is None,
            Some(name) => if name@ == "connectors_site_idx"@ {
                refusal matches Some(
                    ConnectorRefusal::AlreadyConnected { kind: word, site_url: url },
                ) && word@ == kind.chars() && url@ == without_slashes(site_url@)
            } else {
                refusal == Some(ConnectorRefusal::Invalid(name))
            },
        },
{
    match constraint {
        None => None,
        Some(name) => if same(name.as_str(), "connectors_site_idx") {
            Some(
                ConnectorRefusal::AlreadyConnected {
                    kind: kind.as_str().to_owned(),
                    site_url: stored_site_url(site_url).to_owned(),
                },
            )
        } else {
            Some(ConnectorRefusal::Invalid(name))
        },
    }
}

/// A connector's secrets.
#[derive(Debug, Clone, PartialEq, Eq)]
pub struct Secrets {
    pub current: String,
    pub previous: Option<String>,
    pub rotated_at: Option<Instant>,
}

/// Replaces the signing secret. `keep_previous` is for a scheduled rotation; a leak wants the old secret dead
/// now. A revoked connector is refused: its secret is already out there.
pub fn rotate(
    id: Uuid,
    status: Option<Status>,
    secrets: Secrets,
    sealed_secret: String,
    keep_previous: bool,
    now: Instant,
) -> (rotated: Result<Secrets, ConnectorRefusal>)
    ensures
        match rotated {
            Ok(after) => {
                &&& status matches Some(known)
                &&& known != Status::Revoked
                &&& after.current == sealed_secret
                &&& after.previous == if keep_previous {
                    Some(secrets.current)
                } else {
                    None
                }
                &&& after.rotated_at == Some(now)
            },
            Err(ConnectorRefusal::Unknown(given)) => status is None && given == id,
            Err(ConnectorRefusal::Revoked(given)) => status == Some(Status::Revoked) && given == id,
            Err(_) => false,
        },
        rotated is Ok <==> (status matches Some(known) && known != Status::Revoked),
        rotated matches Ok(after) ==> {
            &&& after.current@ == sealed_secret@
            &&& keep_previous ==> after.previous == Some(secrets.current)
            &&& !keep_previous ==> after.previous is None
            &&& after.rotated_at == Some(now)
        },
{
    match status {
        None => Err(ConnectorRefusal::Unknown(id)),
        Some(Status::Revoked) => Err(ConnectorRefusal::Revoked(id)),
        Some(_) => Ok(
            Secrets {
                current: sealed_secret,
                previous: if keep_previous {
                    Some(secrets.current)
                } else {
                    None
                },
                rotated_at: Some(now),
            },
        ),
    }
}

/// The status after a change to `to`, where a change is possible: a revoked connector has none.
pub open spec fn status_after(current: Status, to: Status) -> Option<Status> {
    if current == Status::Revoked {
        None
    } else {
        Some(to)
    }
}

/// Pauses, resumes or revokes. `None` when the connector is revoked already, and then nothing changes. Revoking
/// clears both secrets: there is nothing to keep them for.
pub fn set_status(
    current: Status,
    secrets: Secrets,
    to: Status,
) -> (after: Option<(Status, Secrets)>)
    ensures
        match after {
            Some((status, _)) => status_after(current, to) == Some(status),
            None => status_after(current, to) is None,
        },
        after matches Some((_, kept)) ==> {
            &&& to == Status::Revoked ==> kept.current@ == Seq::<char>::empty() && kept.previous is None
                && kept.rotated_at == secrets.rotated_at
            &&& to != Status::Revoked ==> kept == secrets
        },
        after is None <==> current == Status::Revoked,
        after matches Some((status, _)) ==> status == to,
{
    match current {
        Status::Revoked => None,
        _ => match to {
            Status::Revoked => Some(
                (
                    to,
                    Secrets {
                        current: String::new(),
                        previous: None,
                        rotated_at: secrets.rotated_at,
                    },
                ),
            ),
            _ => Some((to, secrets)),
        },
    }
}

/// A connector's row.
#[derive(Debug)]
pub struct ConnectorRow {
    pub id: Uuid,
    pub kind: String,
    pub label: String,
    pub site_url: String,
    pub remote_version: Option<String>,
    pub api_key_id: Option<Uuid>,
    pub signing_secret: String,
    pub previous_signing_secret: Option<String>,
    pub secret_rotated_at: Option<Instant>,
    pub asset_group_ids: Vec<Uuid>,
    pub allow_all_groups: bool,
    pub allow_original: bool,
    pub allow_restore: bool,
    pub config: Json,
    pub status: String,
    pub last_seen_at: Option<Instant>,
    pub last_error: Option<String>,
    pub created_at: Instant,
}

/// The connector a row describes. A kind or a status this build does not know is reported, never guessed:
/// guessing would mean rendering for a connector whose rules are unknown.
pub fn hydrate(row: ConnectorRow) -> (connector: Result<Connector, Error>)
    ensures
        match connector {
            Ok(found) => {
                &&& row.kind@ == found.kind.chars()
                &&& row.status@ == found.status.chars()
                &&& found == (Connector {
                    id: row.id,
                    kind: found.kind,
                    label: row.label,
                    site_url: row.site_url,
                    remote_version: row.remote_version,
                    api_key_id: row.api_key_id,
                    sealed_secret: row.signing_secret,
                    previous_sealed_secret: row.previous_signing_secret,
                    secret_rotated_at: row.secret_rotated_at,
                    asset_group_ids: row.asset_group_ids,
                    allow_all_groups: row.allow_all_groups,
                    allow_original: row.allow_original,
                    allow_restore: row.allow_restore,
                    config: row.config,
                    status: found.status,
                    last_seen_at: row.last_seen_at,
                    last_error: row.last_error,
                    created_at: row.created_at,
                })
            },
            Err(error) => {
                &&& error matches Error::Inconsistent(detail)
                &&& if forall|kind: Kind| row.kind@ != #[trigger] kind.chars() {
                    detail@ == "connectors.kind"@ + " holds "@ + quoted_chars(row.kind@)
                } else {
                    &&& forall|status: Status| row.status@ != #[trigger] status.chars()
                    &&& detail@ == "connectors.status"@ + " holds "@ + quoted_chars(row.status@)
                }
            },
        },
{
    let kind = match Kind::parse(row.kind.as_str()) {
        Some(kind) => kind,
        None => return Err(unreadable("connectors.kind", row.kind.as_str())),
    };
    let status = match Status::parse(row.status.as_str()) {
        Some(status) => status,
        None => return Err(unreadable("connectors.status", row.status.as_str())),
    };
    Ok(
        Connector {
            id: row.id,
            kind,
            label: row.label,
            site_url: row.site_url,
            remote_version: row.remote_version,
            api_key_id: row.api_key_id,
            sealed_secret: row.signing_secret,
            previous_sealed_secret: row.previous_signing_secret,
            secret_rotated_at: row.secret_rotated_at,
            asset_group_ids: row.asset_group_ids,
            allow_all_groups: row.allow_all_groups,
            allow_original: row.allow_original,
            allow_restore: row.allow_restore,
            config: row.config,
            status,
            last_seen_at: row.last_seen_at,
            last_error: row.last_error,
            created_at: row.created_at,
        },
    )
}

/// Revocation is final: a revoked connector has no next status, and no URL it signed is honoured.
pub proof fn revocation_is_final(to: Status)
    ensures
        status_after(Status::Revoked, to) is None,
        !Status::Revoked.renders(),
{
}

/// A leaked secret is dead at once: after a rotation that does not keep the previous secret, no superseded secret
/// verifies at any time.
pub proof fn a_leaked_secret_is_dead_at_once(connector: Connector, now: Instant)
    requires
        connector.previous_sealed_secret is None,
    ensures
        !connector.grace_holds(now),
{
}

/// Grace ends by itself: a superseded secret that has stopped verifying never verifies again without another
/// rotation.
pub proof fn grace_ends_for_good(connector: Connector, now: Instant, later: Instant)
    requires
        !connector.grace_holds(now),
        now <= later,
    ensures
        !connector.grace_holds(later),
{
}

/// A connector renders while it is active and while its last call failed: only one that somebody paused or revoked does
/// not.
pub proof fn only_a_stopped_connector_does_not_render(status: Status)
    ensures
        status.renders() <==> status != Status::Paused && status != Status::Revoked,
{
}

/// Until it is revoked a connector can be put into any state, and back again.
pub proof fn a_connector_is_put_where_it_is_asked(current: Status, to: Status)
    requires
        current != Status::Revoked,
    ensures
        status_after(current, to) == Some(to),
        to != Status::Revoked ==> status_after(to, current) == Some(current),
{
}

/// A secret that was kept back when it was replaced works for seven days from then, and no longer.
pub proof fn a_kept_secret_works_for_seven_days(connector: Connector, rotated: Instant, now: Instant)
    requires
        connector.previous_sealed_secret is Some,
        connector.secret_rotated_at == Some(rotated),
    ensures
        connector.grace_holds(now) <==> now - rotated < 7 * 24 * 60 * 60 * 1_000_000,
{
}

/// A site's address is stored without the slashes it ends in, and is otherwise what was given: nothing but slashes is
/// cut off, and none is left at its end.
pub proof fn a_site_is_stored_without_its_last_slashes(text: Seq<char>)
    ensures
        without_slashes(text).is_prefix_of(text),
        without_slashes(text).len() > 0 ==> without_slashes(text).last() != '/',
        forall|i: int| without_slashes(text).len() <= i < text.len() ==> #[trigger] text[i] == '/',
    decreases text.len(),
{
    if text.len() > 0 && text.last() == '/' {
        a_site_is_stored_without_its_last_slashes(text.drop_last());
        assert forall|i: int| without_slashes(text).len() <= i < text.len() implies #[trigger] text[i] == '/' by {
            if i < text.len() - 1 {
                assert(text.drop_last()[i] == text[i]);
            }
        }
    }
}

// ----------------------------------------------------------------------------------------------------
// Commands
// ----------------------------------------------------------------------------------------------------

/// A site to connect.
#[derive(Debug, Clone)]
pub struct NewConnector<'a> {
    /// Known before the secret is sealed, because it is part of the associated data.
    pub id: Uuid,
    pub kind: Kind,
    pub label: &'a str,
    pub site_url: &'a str,
    pub remote_version: Option<&'a str>,
    pub api_key_id: Option<Uuid>,
    /// Already sealed. No plaintext secret comes here.
    pub sealed_secret: &'a str,
    pub asset_group_ids: Vec<Uuid>,
    pub allow_all_groups: bool,
    pub allow_original: bool,
    pub allow_restore: bool,
    pub config: Json,
}

pub const REGISTER: &'static str =
    "INSERT INTO connectors (id, kind, label, site_url, remote_version, api_key_id, signing_secret, \
     asset_group_ids, allow_all_groups, allow_original, allow_restore, config) VALUES ($1, $2, $3, $4, $5, \
     $6, $7, $8, $9, $10, $11, $12) RETURNING id";

/// A new site. Its label is kept trimmed, and its address without the slashes at its end.
pub fn register(new: NewConnector) -> (command: Command)
    ensures
        command.says(
            "INSERT INTO connectors (id, kind, label, site_url, remote_version, api_key_id, signing_secret, \
             asset_group_ids, allow_all_groups, allow_original, allow_restore, config) VALUES ($1, $2, $3, $4, $5, \
             $6, $7, $8, $9, $10, $11, $12) RETURNING id"@,
            seq![
                Given::Id(new.id), Given::Text(new.kind.chars()), Given::Text(trimmed(new.label@)),
                Given::Text(without_slashes(new.site_url@)),
                Given::MaybeText(opt_str_chars(new.remote_version)), Given::MaybeId(new.api_key_id),
                Given::Text(new.sealed_secret@), Given::Ids(new.asset_group_ids@),
                Given::Flag(new.allow_all_groups), Given::Flag(new.allow_original),
                Given::Flag(new.allow_restore), Given::Json(new.config),
            ],
        ),
{
    Command::new(
        REGISTER,
        vec![
            Value::Id(new.id), as_text(new.kind.as_str()), as_text(stored_label(new.label)),
            as_text(stored_site_url(new.site_url)), as_maybe_str(new.remote_version),
            Value::MaybeId(new.api_key_id), as_text(new.sealed_secret), as_ids(&new.asset_group_ids),
            Value::Flag(new.allow_all_groups), Value::Flag(new.allow_original),
            Value::Flag(new.allow_restore), Value::Json(new.config),
        ],
    )
}

pub const ALL: &'static str =
    "SELECT id, kind, label, site_url, remote_version, api_key_id, signing_secret, previous_signing_secret, \
     secret_rotated_at, asset_group_ids, allow_all_groups, allow_original, allow_restore, config, status, \
     last_seen_at, last_error, created_at FROM connectors ORDER BY created_at DESC";

/// Every site, newest first.
pub fn all() -> (command: Command)
    ensures
        command.says(
            "SELECT id, kind, label, site_url, remote_version, api_key_id, signing_secret, previous_signing_secret, \
             secret_rotated_at, asset_group_ids, allow_all_groups, allow_original, allow_restore, config, status, \
             last_seen_at, last_error, created_at FROM connectors ORDER BY created_at DESC"@,
            Seq::empty(),
        ),
{
    Command::new(ALL, Vec::new())
}

pub const BY_ID: &'static str =
    "SELECT id, kind, label, site_url, remote_version, api_key_id, signing_secret, previous_signing_secret, \
     secret_rotated_at, asset_group_ids, allow_all_groups, allow_original, allow_restore, config, status, \
     last_seen_at, last_error, created_at FROM connectors WHERE id = $1 FOR UPDATE";

/// One site, held until the transaction ends.
pub fn by_id(id: Uuid) -> (command: Command)
    ensures
        command.says(
            "SELECT id, kind, label, site_url, remote_version, api_key_id, signing_secret, previous_signing_secret, \
             secret_rotated_at, asset_group_ids, allow_all_groups, allow_original, allow_restore, config, status, \
             last_seen_at, last_error, created_at FROM connectors WHERE id = $1 FOR UPDATE"@,
            seq![Given::Id(id)],
        ),
{
    Command::new(BY_ID, vec![Value::Id(id)])
}

pub const WRITE_SECRETS: &'static str =
    "UPDATE connectors SET status = $2, signing_secret = $3, previous_signing_secret = $4, \
     secret_rotated_at = $5, updated_at = now() WHERE id = $1";

/// A site's status and secrets.
pub fn write_secrets(id: Uuid, status: Status, secrets: &Secrets) -> (command: Command)
    ensures
        command.says(
            "UPDATE connectors SET status = $2, signing_secret = $3, previous_signing_secret = $4, \
             secret_rotated_at = $5, updated_at = now() WHERE id = $1"@,
            seq![
                Given::Id(id), Given::Text(status.chars()), Given::Text(secrets.current@),
                Given::MaybeText(opt_chars(secrets.previous)), Given::MaybeAt(secrets.rotated_at),
            ],
        ),
{
    Command::new(
        WRITE_SECRETS,
        vec![
            Value::Id(id), as_text(status.as_str()), as_text(secrets.current.as_str()),
            as_maybe_text(&secrets.previous), Value::MaybeAt(secrets.rotated_at),
        ],
    )
}

pub const SEEN: &'static str =
    "UPDATE connectors SET last_seen_at = $2, remote_version = coalesce($3, remote_version), last_error = \
     NULL, updated_at = now() WHERE id = $1";

/// That a site called, and what version it is running. A call that names none leaves the version as it was. Whatever
/// failed before has been got over.
pub fn seen(id: Uuid, remote_version: Option<&str>, now: Instant) -> (command: Command)
    ensures
        command.says(
            "UPDATE connectors SET last_seen_at = $2, remote_version = coalesce($3, remote_version), last_error = \
             NULL, updated_at = now() WHERE id = $1"@,
            seq![
                Given::Id(id), Given::At(now), Given::MaybeText(opt_str_chars(remote_version)),
            ],
        ),
{
    Command::new(SEEN, vec![Value::Id(id), Value::At(now), as_maybe_str(remote_version)])
}

pub const RECORD_ERROR: &'static str =
    "UPDATE connectors SET last_error = $2, updated_at = now() WHERE id = $1";

/// A failure against a site, without changing its status.
pub fn record_error(id: Uuid, error: &str) -> (command: Command)
    ensures
        command.says(
            "UPDATE connectors SET last_error = $2, updated_at = now() WHERE id = $1"@,
            seq![Given::Id(id), Given::Text(error@)],
        ),
{
    Command::new(RECORD_ERROR, vec![Value::Id(id), as_text(error)])
}

} // verus!
