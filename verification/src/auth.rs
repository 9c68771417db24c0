//! API-key authentication and grant loading.
//!
//! A key is 256 random bits, so its stored hash is a fast digest: there is no dictionary to defend against.
//! A key's scopes restrict it below what its owner can do. They intersect with the owner's permissions and
//! never add to them.

use crate::commands::{as_text, as_texts, Command, Given, Value};
use crate::lists::{lemma_filter_ends, lemma_filter_keeps, lemma_filter_step};
use crate::migrate::{slug_shaped, TenantSlug};
use crate::text::{all_chars, contains, digit, digit_char, holds, is_word, occurs, quoted, same, wrapped};
use crate::{Error, Instant, Uuid};
use vstd::prelude::*;
use vstd::utf8::encode_utf8;

verus! {

/// How stale `last_used_at` must be before authentication rewrites it: an hour, in microseconds.
pub const LAST_USED_RESOLUTION: i64 = 3_600_000_000;

/// What is hashed before the key, so that a key's hash cannot be a content hash.
pub const KEY_DOMAIN: &'static str = "damrs-api-key-v1\0";

/// The BLAKE3 digest of a byte string, as 64 lower-case hexadecimal digits.
pub uninterp spec fn blake3_hex(bytes: Seq<u8>) -> Seq<char>;

/// `blake3::Hasher`, updated with `domain` and then with `body`: the digest of the one followed by the other,
/// by `Hash::to_hex`. The digest itself is not stated, only named.
#[verifier::external_body]
fn digest_of(domain: &[u8], body: &[u8]) -> (hex: String)
    ensures
        hex@ == blake3_hex(domain@ + body@),
{
    let mut hasher = blake3::Hasher::new();
    hasher.update(domain);
    hasher.update(body);
    hasher.finalize().to_hex().to_string()
}

/// `rand::random`: 32 bytes from the thread's generator. Nothing is promised of them.
#[verifier::external_body]
fn random_secret() -> [u8; 32] {
    rand::random()
}

/// Bytes in hexadecimal, two lower-case digits for each.
pub open spec fn hex_chars(bytes: Seq<u8>) -> Seq<char> {
    Seq::new(
        2 * bytes.len(),
        |i: int|
            digit_char(
                if i % 2 == 0 {
                    bytes[i / 2] as int / 16
                } else {
                    bytes[i / 2] as int % 16
                },
            ),
    )
}

/// The text of the key with these secret bytes. Its prefix gives a secret scanner something to match on.
pub open spec fn key_chars(secret: Seq<u8>) -> Seq<char> {
    "damrs_"@ + hex_chars(secret)
}

/// The digest stored for a key.
pub open spec fn key_digest(plaintext: Seq<char>) -> Seq<char> {
    blake3_hex(encode_utf8(KEY_DOMAIN@) + encode_utf8(plaintext))
}

/// A freshly generated key, held only long enough to show the caller once.
///
/// The plaintext is never stored, so this type is the only place it exists. It is neither `Clone` nor `Debug`.
pub struct ApiKey {
    plaintext: String,
    prefix: String,
    hash: String,
}

impl ApiKey {
    /// The key's text.
    pub closed spec fn plaintext_chars(self) -> Seq<char> {
        self.plaintext@
    }

    /// What a list shows of the key.
    pub closed spec fn prefix_chars(self) -> Seq<char> {
        self.prefix@
    }

    /// What the table stores of the key.
    pub closed spec fn hash_chars(self) -> Seq<char> {
        self.hash@
    }

    /// Every key is made of 32 secret bytes.
    #[verifier::type_invariant]
    closed spec fn made(self) -> bool {
        &&& self.prefix@ == self.plaintext@.take(14)
        &&& exists|secret: Seq<u8>|
            secret.len() == 32 && self.plaintext@ == #[trigger] key_chars(secret)
    }

    /// The prefix is the key's first 14 characters and the hash is the key's digest.
    pub open spec fn wf(self) -> bool {
        &&& self.plaintext_chars().len() >= 14
        &&& self.prefix_chars() == self.plaintext_chars().take(14)
        &&& self.hash_chars() == key_digest(self.plaintext_chars())
    }

    /// Generates a key from 32 random bytes.
    pub fn generate() -> (key: ApiKey)
        ensures
            key.wf(),
            exists|secret: Seq<u8>|
                secret.len() == 32 && key.plaintext_chars() == #[trigger] key_chars(secret),
    {
        let secret = random_secret();
        let key = ApiKey::from_secret(&secret);
        proof {
            assert(secret@.len() == 32);
        }
        key
    }

    /// The key with these secret bytes.
    pub fn from_secret(secret: &[u8; 32]) -> (key: ApiKey)
        ensures
            key.wf(),
            key.plaintext_chars() == key_chars(secret@),
    {
        let mut plaintext = "damrs_".to_owned();
        let ghost start = plaintext@;
        let mut i: usize = 0;
        proof {
            assert(hex_chars(secret@).take(0) =~= Seq::<char>::empty());
            assert(plaintext@ =~= start + hex_chars(secret@).take(0));
        }
        while i < 32
            invariant
                i <= 32,
                secret@.len() == 32,
                plaintext@ == start + hex_chars(secret@).take(2 * i),
            decreases 32 - i,
        {
            let byte: u8 = secret[i];
            let ghost before = plaintext@;
            plaintext.push(digit(byte / 16));
            plaintext.push(digit(byte % 16));
            proof {
                let hex = hex_chars(secret@);
                assert(hex[2 * i] == digit_char(byte as int / 16));
                assert(hex[2 * i + 1] == digit_char(byte as int % 16));
                assert(plaintext@ =~= start + hex.take(2 * (i + 1)));
            }
            i += 1;
        }
        proof {
            assert(hex_chars(secret@).take(64) =~= hex_chars(secret@));
            reveal_strlit("damrs_");
        }
        let prefix = plaintext.as_str().substring_char(0, 14).to_owned();
        let hash = ApiKey::hash_of(plaintext.as_str());
        proof {
            assert(prefix@ =~= plaintext@.take(14));
            assert(plaintext@ == key_chars(secret@));
        }
        ApiKey { plaintext, prefix, hash }
    }

    /// The digest stored for a key.
    pub fn hash_of(plaintext: &str) -> (hash: String)
        ensures
            hash@ == key_digest(plaintext@),
            hash@ == blake3_hex(encode_utf8("damrs-api-key-v1\0"@) + encode_utf8(plaintext@)),
    {
        digest_of(KEY_DOMAIN.as_bytes(), plaintext.as_bytes())
    }

    /// Shown to the caller once, at creation.
    pub fn plaintext(&self) -> (text: &str)
        ensures
            text@ == self.plaintext_chars(),
    {
        self.plaintext.as_str()
    }

    /// Stored so that a key can be identified without revealing it.
    pub fn prefix(&self) -> (text: &str)
        ensures
            text@ == self.prefix_chars(),
    {
        self.prefix.as_str()
    }

    /// Stored so that a presented key can be looked up.
    pub fn hash(&self) -> (text: &str)
        ensures
            text@ == self.hash_chars(),
    {
        self.hash.as_str()
    }

    /// Consumes the key, yielding the plaintext to hand over exactly once.
    pub fn into_plaintext(self) -> (text: String)
        ensures
            text@ == self.plaintext_chars(),
    {
        self.plaintext
    }

    /// The key for a log line: the prefix only. A key that reaches a log is a key that must be rotated, so what
    /// follows the prefix is never in the line.
    pub fn redacted(&self) -> (shown: String)
        ensures
            shown@ == redacted_chars(self.prefix_chars()),
            !occurs(self.plaintext_chars().skip(14), shown@),
            occurs("REDACTED"@, shown@),
    {
        proof {
            use_type_invariant(self);
            let secret = choose|secret: Seq<u8>|
                secret.len() == 32 && self.plaintext@ == #[trigger] key_chars(secret);
            lemma_a_key_is_a_word(secret);
            the_secret_is_never_shown(secret);
        }
        let shown = wrapped(
            "ApiKey { prefix: ",
            quoted(self.prefix.as_str()).as_str(),
            ", plaintext: \"[REDACTED]\" }",
        );
        proof {
            assert(shown@ =~= redacted_chars(self.prefix@));
        }
        shown
    }
}

/// What a log line holds of the key with this prefix.
pub open spec fn redacted_chars(prefix: Seq<char>) -> Seq<char> {
    "ApiKey { prefix: "@ + (seq!['"'] + prefix + seq!['"']) + ", plaintext: \"[REDACTED]\" }"@
}

/// Every character of a key is a letter, a digit or an underscore.
proof fn lemma_a_key_is_a_word(secret: Seq<u8>)
    requires
        secret.len() == 32,
    ensures
        is_word(key_chars(secret)),
        is_word(key_chars(secret).take(14)),
{
    reveal_strlit("damrs_");
    let key = key_chars(secret);
    let hex = hex_chars(secret);
    assert forall|i: int| 0 <= i < key.len() implies ('a' <= #[trigger] key[i] <= 'z' || 'A' <= key[i]
        <= 'Z' || '0' <= key[i] <= '9' || key[i] == '_') by {
        if i >= 6 {
            assert(key[i] == hex[i - 6]);
        }
    }
}

/// What a key is besides its prefix is nowhere in the line that stands for it in a log, and the line says that
/// something was left out.
pub proof fn the_secret_is_never_shown(secret: Seq<u8>)
    requires
        secret.len() == 32,
    ensures
        !occurs(key_chars(secret).skip(14), redacted_chars(key_chars(secret).take(14))),
        occurs("REDACTED"@, redacted_chars(key_chars(secret).take(14))),
{
    reveal_strlit("damrs_");
    reveal_strlit("ApiKey { prefix: ");
    reveal_strlit(", plaintext: \"[REDACTED]\" }");
    reveal_strlit("REDACTED");
    let key = key_chars(secret);
    let rest = key.skip(14);
    let shown = redacted_chars(key.take(14));
    assert(key.len() == 70);
    assert(shown.len() == 60);
    assert(shown[17] == '"');
    lemma_a_key_is_a_word(secret);
    assert forall|at: int| 0 <= at <= shown.len() - rest.len() implies #[trigger] shown.subrange(
        at,
        at + rest.len(),
    ) != rest by {
        assert(shown.subrange(at, at + rest.len())[17 - at] == '"');
        assert(rest[17 - at] == key[31 - at]);
    }
    assert(shown.subrange(48, 48int + "REDACTED"@.len()) =~= "REDACTED"@);
}

/// Whether `last_used_at` is stale enough to be rewritten.
pub fn touch_is_due(last_used_at: Option<Instant>, now: Instant) -> (due: bool)
    ensures
        due == match last_used_at {
            Some(at) => now - at > LAST_USED_RESOLUTION,
            None => true,
        },
        last_used_at is None ==> due,
        last_used_at matches Some(at) ==> (due <==> now - at > 60 * 60 * 1_000_000),
{
    match last_used_at {
        Some(at) => (now as i128) - (at as i128) > LAST_USED_RESOLUTION as i128,
        None => true,
    }
}

/// A key found under its hash, with its tenant and its owner.
#[derive(Debug, Clone, PartialEq, Eq)]
pub struct KeyRow {
    pub api_key_id: Uuid,
    pub tenant_id: Uuid,
    pub slug: String,
    pub tenant_status: String,
    pub identity_id: Option<Uuid>,
    /// The owner's status, where the key was issued to somebody.
    pub identity_status: Option<String>,
    pub scopes: Vec<String>,
    pub revoked_at: Option<Instant>,
    pub expires_at: Option<Instant>,
}

/// Who a request is from.
#[derive(Debug, Clone, PartialEq, Eq)]
pub struct Authenticated {
    pub tenant_id: Uuid,
    pub tenant_slug: TenantSlug,
    /// `None` for a key issued to no particular person.
    pub identity_id: Option<Uuid>,
    pub api_key_id: Uuid,
    /// The key's scopes. Empty means unscoped.
    pub scopes: Vec<String>,
}

/// Whether a key works at `now`: it is not revoked, it has not expired, and its tenant is active, as is whoever it
/// was issued to. A tenant that is suspended, being set up or being torn down has no working key.
pub open spec fn key_works(row: KeyRow, now: Instant) -> bool {
    &&& row.tenant_status@ == "active"@
    &&& row.identity_id is Some ==> (row.identity_status matches Some(status) && status@ == "active"@)
    &&& row.revoked_at is None
    &&& row.expires_at matches Some(at) ==> at > now
}

/// Whether a key works at `now`.
pub fn works(row: &KeyRow, now: Instant) -> (yes: bool)
    ensures
        yes == key_works(*row, now),
        yes ==> row.tenant_status@ == "active"@ && row.revoked_at is None,
        row.tenant_status@ == "active"@ && row.revoked_at is None && row.expires_at is None && row.identity_id
            is None ==> yes,
{
    let expired = match row.expires_at {
        Some(at) => at <= now,
        None => false,
    };
    let owner_active = match (row.identity_id, &row.identity_status) {
        (None, _) => true,
        (Some(_), Some(status)) => same(status.as_str(), "active"),
        (Some(_), None) => false,
    };
    same(row.tenant_status.as_str(), "active") && owner_active && row.revoked_at.is_none() && !expired
}

/// Who a presented key belongs to, from the row its hash was found under.
///
/// `Ok(None)` covers every reason a key does not work, unknown, revoked, expired or of an inactive tenant or owner:
/// telling a prober which of their guesses had the right shape hands them the cheap half of the search.
pub fn authenticate(row: Option<KeyRow>, now: Instant) -> (who: Result<Option<Authenticated>, Error>)
    ensures
        match row {
            None => who matches Ok(None),
            Some(found) => if !key_works(found, now) {
                who matches Ok(None)
            } else if slug_shaped(found.slug@) {
                &&& who matches Ok(Some(inner))
                &&& inner.tenant_id == found.tenant_id
                &&& inner.tenant_slug@ == found.slug@
                &&& inner.identity_id == found.identity_id
                &&& inner.api_key_id == found.api_key_id
                &&& inner.scopes == found.scopes
            } else {
                who matches Err(Error::InvalidSlug(given)) && given@ == found.slug@
            },
        },
{
    match row {
        None => Ok(None),
        Some(found) => if !works(&found, now) {
            Ok(None)
        } else {
            match TenantSlug::new(found.slug.as_str()) {
                Ok(tenant_slug) => Ok(
                    Some(
                        Authenticated {
                            tenant_id: found.tenant_id,
                            tenant_slug,
                            identity_id: found.identity_id,
                            api_key_id: found.api_key_id,
                            scopes: found.scopes,
                        },
                    ),
                ),
                Err(error) => Err(error),
            }
        },
    }
}

/// A key that was revoked or has expired never works again, and only a key of an active tenant works at all, and
/// only while whoever it was issued to is active.
pub proof fn a_dead_key_stays_dead(row: KeyRow, now: Instant, later: Instant)
    requires
        now <= later,
    ensures
        row.revoked_at is Some ==> !key_works(row, now),
        (row.expires_at is Some && row.expires_at->0 <= now) ==> !key_works(row, later),
        row.tenant_status@ != "active"@ ==> !key_works(row, now),
        (row.identity_id is Some && (row.identity_status matches Some(status) && status@ != "active"@))
            ==> !key_works(row, now),
{
}

/// A key that nothing speaks against works: it was not revoked, its expiry, if it has one, lies ahead, its tenant is
/// active, and so is its owner, if it has one. And a key that works now worked before, as far as its row says.
pub proof fn a_live_key_works(row: KeyRow, now: Instant, earlier: Instant)
    requires
        earlier <= now,
    ensures
        row.tenant_status@ == "active"@ && row.revoked_at is None && (row.expires_at is None
            || row.expires_at->0 > now) && (row.identity_id is None || row.identity_status is Some
            && row.identity_status->0@ == "active"@) ==> key_works(row, now),
        row.identity_id is Some && row.identity_status is None ==> !key_works(row, now),
        key_works(row, now) ==> key_works(row, earlier),
{
}

/// Somebody's membership of a tenant.
#[derive(Debug, Clone, PartialEq, Eq)]
pub struct Membership {
    pub role_names: Vec<String>,
    pub is_tenant_admin: bool,
}

/// A role, as the tenant defines it.
#[derive(Debug, Clone, PartialEq, Eq)]
pub struct Role {
    pub permissions: Vec<String>,
    pub asset_group_ids: Vec<Uuid>,
    pub all_asset_groups: bool,
    pub valid_from: Option<Instant>,
    pub valid_until: Option<Instant>,
    pub requires_eula: bool,
}

/// One grant: permissions over groups, within a window.
#[derive(Debug, Clone, PartialEq, Eq)]
pub struct Grant {
    pub permissions: Vec<String>,
    pub asset_group_ids: Vec<Uuid>,
    pub all_asset_groups: bool,
    pub valid_from: Option<Instant>,
    pub valid_until: Option<Instant>,
    pub requires_eula: bool,
    pub eula_accepted: bool,
}

/// What a grant says.
#[verifier::ext_equal]
pub struct GrantView {
    pub permissions: Seq<Seq<char>>,
    pub asset_group_ids: Seq<Uuid>,
    pub all_asset_groups: bool,
    pub valid_from: Option<Instant>,
    pub valid_until: Option<Instant>,
    pub requires_eula: bool,
    pub eula_accepted: bool,
}

impl Grant {
    /// What this grant says.
    pub open spec fn view(&self) -> GrantView {
        GrantView {
            permissions: all_chars(self.permissions@),
            asset_group_ids: self.asset_group_ids@,
            all_asset_groups: self.all_asset_groups,
            valid_from: self.valid_from,
            valid_until: self.valid_until,
            requires_eula: self.requires_eula,
            eula_accepted: self.eula_accepted,
        }
    }
}

impl Role {
    /// The grant this role makes. A role only says that an acceptance is required; it counts as not accepted until
    /// something says otherwise.
    pub open spec fn granted(self) -> GrantView {
        GrantView {
            permissions: all_chars(self.permissions@),
            asset_group_ids: self.asset_group_ids@,
            all_asset_groups: self.all_asset_groups,
            valid_from: self.valid_from,
            valid_until: self.valid_until,
            requires_eula: self.requires_eula,
            eula_accepted: false,
        }
    }
}

/// What each grant of a list says.
pub open spec fn grant_views(grants: Seq<Grant>) -> Seq<GrantView> {
    Seq::new(grants.len(), |i: int| grants[i]@)
}

/// The grant a tenant administrator holds besides their roles: everything, everywhere, at any time.
pub open spec fn admin_grant() -> GrantView {
    GrantView {
        permissions: seq!["asset:read"@, "asset:download"@, "asset:manage"@],
        asset_group_ids: Seq::empty(),
        all_asset_groups: true,
        valid_from: None,
        valid_until: None,
        requires_eula: false,
        eula_accepted: true,
    }
}

/// What a membership grants before the key's scopes are applied: the administrator's grant if they are one,
/// then one grant for each role.
pub open spec fn held(membership: Membership, roles: Seq<Role>) -> Seq<GrantView> {
    (if membership.is_tenant_admin {
        seq![admin_grant()]
    } else {
        Seq::empty()
    }) + (if membership.role_names@.len() > 0 {
        Seq::new(roles.len(), |i: int| roles[i].granted())
    } else {
        Seq::empty()
    })
}

/// A grant with the permissions that are not scopes taken out.
pub open spec fn narrowed(grant: GrantView, scopes: Seq<Seq<char>>) -> GrantView {
    GrantView {
        permissions: grant.permissions.filter(|permission: Seq<char>| scopes.contains(permission)),
        ..grant
    }
}

/// Grants narrowed to `scopes`, without those that are left with no permission. No scopes means no narrowing.
///
/// A grant with no permission would still widen the group union for any other action, so it is dropped.
pub open spec fn scoped(grants: Seq<GrantView>, scopes: Seq<Seq<char>>) -> Seq<GrantView>
    decreases grants.len(),
{
    if scopes.len() == 0 {
        grants
    } else if grants.len() == 0 {
        Seq::empty()
    } else {
        let rest = scoped(grants.drop_last(), scopes);
        let last = narrowed(grants.last(), scopes);
        if last.permissions.len() > 0 {
            rest.push(last)
        } else {
            rest
        }
    }
}

/// Whether a grant is a role's row, field by field. The row says that an acceptance is required, never that it was given.
pub open spec fn stands_for(grant: Grant, role: Role) -> bool {
    &&& grant.permissions@ == role.permissions@
    &&& grant.asset_group_ids@ == role.asset_group_ids@
    &&& grant.all_asset_groups == role.all_asset_groups
    &&& grant.valid_from == role.valid_from
    &&& grant.valid_until == role.valid_until
    &&& grant.requires_eula == role.requires_eula
    &&& !grant.eula_accepted
}

/// Whether a grant is over everything, at any time, under no condition, and lets its holder read, download and manage.
pub open spec fn is_unlimited(grant: Grant) -> bool {
    &&& grant.permissions@.len() == 3
    &&& grant.permissions@[0]@ == "asset:read"@
    &&& grant.permissions@[1]@ == "asset:download"@
    &&& grant.permissions@[2]@ == "asset:manage"@
    &&& grant.asset_group_ids@.len() == 0
    &&& grant.all_asset_groups
    &&& grant.valid_from is None
    &&& grant.valid_until is None
    &&& !grant.requires_eula
    &&& grant.eula_accepted
}

/// The grants an identity holds in a tenant, narrowed by the key's scopes.
///
/// `roles` is the rows of the tenant's roles that the membership names; a name that no longer resolves
/// contributes nothing. Somebody who is not a member holds no grant at all.
pub fn grants_for(
    membership: Option<Membership>,
    roles: Vec<Role>,
    scopes: &Vec<String>,
) -> (grants: Vec<Grant>)
    ensures
        grant_views(grants@) == match membership {
            None => Seq::empty(),
            Some(inner) => scoped(held(inner, roles@), all_chars(scopes@)),
        },
        membership is None ==> grants@.len() == 0,
        membership matches Some(inner) ==> scopes@.len() == 0 ==> {
            let lead: int = if inner.is_tenant_admin {
                1
            } else {
                0
            };
            &&& grants@.len() == lead + if inner.role_names@.len() > 0 {
                roles@.len() as int
            } else {
                0
            }
            &&& inner.is_tenant_admin ==> is_unlimited(grants@[0])
            &&& inner.role_names@.len() > 0 ==> forall|i: int|
                0 <= i < roles@.len() ==> stands_for(grants@[lead + i], #[trigger] roles@[i])
        },
        scopes@.len() > 0 ==> forall|i: int, j: int|
            0 <= i < grants@.len() && 0 <= j < grants@[i].permissions@.len() ==> holds(
                scopes@,
                (#[trigger] grants@[i].permissions@[j])@,
            ),
        scopes@.len() > 0 ==> forall|i: int| 0 <= i < grants@.len() ==> (#[trigger] grants@[i]).permissions@.len() > 0,
{
    let membership = match membership {
        None => {
            let none: Vec<Grant> = Vec::new();
            proof {
                assert(grant_views(none@) =~= Seq::<GrantView>::empty());
            }
            return none;
        },
        Some(inner) => inner,
    };
    let ghost rows = roles@;
    let mut grants: Vec<Grant> = Vec::new();
    if membership.is_tenant_admin {
        grants.push(administrators());
    }
    let ghost first = grant_views(grants@);
    proof {
        if membership.is_tenant_admin {
            assert(first =~= seq![admin_grant()]);
        } else {
            assert(first =~= Seq::<GrantView>::empty());
        }
    }
    let ghost lead: int = if membership.is_tenant_admin {
        1
    } else {
        0
    };
    if membership.role_names.len() > 0 {
        for role in each: roles
            invariant
                each.seq() == rows,
                0 <= lead <= 1,
                grants@.len() == lead + each.index(),
                lead == 1 ==> is_unlimited(grants@[0]),
                forall|i: int| 0 <= i < each.index() ==> stands_for(grants@[lead + i], #[trigger] rows[i]),
                grant_views(grants@) =~= first + Seq::new(
                    each.index() as nat,
                    |i: int| rows[i].granted(),
                ),
        {
            let ghost before = grants@;
            grants.push(
                Grant {
                    permissions: role.permissions,
                    asset_group_ids: role.asset_group_ids,
                    all_asset_groups: role.all_asset_groups,
                    valid_from: role.valid_from,
                    valid_until: role.valid_until,
                    requires_eula: role.requires_eula,
                    eula_accepted: false,
                },
            );
            proof {
                assert(grant_views(grants@) =~= grant_views(before).push(role.granted()));
            }
        }
    }
    proof {
        assert(grant_views(grants@) =~= held(membership, rows));
    }
    if scopes.len() > 0 {
        let kept = narrow(grants, scopes);
        proof {
            let all = held(membership, rows);
            let wanted = all_chars(scopes@);
            assert forall|i: int| 0 <= i < kept@.len() implies (#[trigger] kept@[i]).permissions@.len() > 0 by {
                assert(grant_views(kept@)[i] == kept@[i]@);
                scopes_narrow_and_never_widen(all, wanted, i);
            }
            assert forall|i: int, j: int|
                0 <= i < kept@.len() && 0 <= j < kept@[i].permissions@.len() implies holds(
                scopes@,
                (#[trigger] kept@[i].permissions@[j])@,
            ) by {
                let left = grant_views(kept@)[i].permissions;
                assert(grant_views(kept@)[i] == kept@[i]@);
                scopes_narrow_and_never_widen(all, wanted, i);
                assert(left[j] == kept@[i].permissions@[j]@);
                assert(grant_views(kept@) == scoped(all, wanted));
                assert(scoped(all, wanted)[i].permissions.contains(left[j]));
                assert(wanted.contains(left[j]));
                let k = choose|k: int| 0 <= k < wanted.len() && wanted[k] == left[j];
                assert(scopes@[k]@ == left[j]);
            }
        }
        kept
    } else {
        grants
    }
}

/// The administrator's grant.
fn administrators() -> (grant: Grant)
    ensures
        grant@ == admin_grant(),
        is_unlimited(grant),
{
    let mut permissions: Vec<String> = Vec::new();
    permissions.push("asset:read".to_owned());
    permissions.push("asset:download".to_owned());
    permissions.push("asset:manage".to_owned());
    let grant = Grant {
        permissions,
        asset_group_ids: Vec::new(),
        all_asset_groups: true,
        valid_from: None,
        valid_until: None,
        requires_eula: false,
        eula_accepted: true,
    };
    proof {
        assert(grant@ =~= admin_grant());
    }
    grant
}

/// The grants narrowed to `scopes`, without those left empty.
fn narrow(grants: Vec<Grant>, scopes: &Vec<String>) -> (kept: Vec<Grant>)
    requires
        scopes@.len() > 0,
    ensures
        grant_views(kept@) == scoped(grant_views(grants@), all_chars(scopes@)),
{
    let ghost all = grant_views(grants@);
    let ghost wanted = all_chars(scopes@);
    let ghost given = grants@;
    let mut kept: Vec<Grant> = Vec::new();
    proof {
        assert(all.take(0) =~= Seq::<GrantView>::empty());
        assert(grant_views(kept@) =~= Seq::<GrantView>::empty());
    }
    for grant in each: grants
        invariant
            each.seq() == given,
            all == grant_views(given),
            wanted == all_chars(scopes@),
            wanted.len() > 0,
            grant_views(kept@) == scoped(all.take(each.index()), wanted),
    {
        let ghost i = each.index();
        let ghost was = grant@;
        proof {
            assert(all.take(i + 1).drop_last() =~= all.take(i));
            assert(all.take(i + 1).last() == was);
        }
        let permissions = within(grant.permissions, scopes);
        if permissions.len() > 0 {
            let ghost before = kept@;
            let narrower = Grant { permissions, ..grant };
            proof {
                assert(narrower@ =~= narrowed(was, wanted));
            }
            kept.push(narrower);
            proof {
                assert(grant_views(kept@) =~= grant_views(before).push(narrowed(was, wanted)));
            }
        }
    }
    proof {
        assert(all.take(all.len() as int) =~= all);
    }
    kept
}

/// The permissions that are scopes, in their order.
fn within(permissions: Vec<String>, scopes: &Vec<String>) -> (kept: Vec<String>)
    ensures
        all_chars(kept@) == all_chars(permissions@).filter(
            |permission: Seq<char>| all_chars(scopes@).contains(permission),
        ),
{
    let ghost wanted = all_chars(scopes@);
    let ghost keep = |permission: Seq<char>| wanted.contains(permission);
    let ghost all = all_chars(permissions@);
    let ghost given = permissions@;
    let mut kept: Vec<String> = Vec::new();
    proof {
        lemma_filter_ends(all, keep);
        assert(all_chars(kept@) =~= Seq::<Seq<char>>::empty());
    }
    for permission in each: permissions
        invariant
            each.seq() == given,
            all == all_chars(given),
            wanted == all_chars(scopes@),
            keep == (|permission: Seq<char>| wanted.contains(permission)),
            all_chars(kept@) == all.take(each.index()).filter(keep),
    {
        let ghost i = each.index();
        proof {
            lemma_filter_step(all, keep, i);
            if holds(scopes@, permission@) {
                let j = choose|j: int| 0 <= j < scopes@.len() && (#[trigger] scopes@[j])@ == permission@;
                assert(wanted[j] == permission@);
            }
            if wanted.contains(permission@) {
                let j = choose|j: int| 0 <= j < wanted.len() && wanted[j] == permission@;
                assert(scopes@[j]@ == permission@);
            }
        }
        if contains(scopes, permission.as_str()) {
            let ghost before = kept@;
            let ghost text = permission@;
            kept.push(permission);
            proof {
                assert(all_chars(kept@) =~= all_chars(before).push(text));
            }
        }
    }
    kept
}

/// Scopes narrow and never widen: every grant of a scoped key is one of the owner's grants with permissions
/// taken out, over the same groups and in the same window, and each permission left is one of the scopes.
pub proof fn scopes_narrow_and_never_widen(grants: Seq<GrantView>, scopes: Seq<Seq<char>>, i: int)
    requires
        0 <= i < scoped(grants, scopes).len(),
    ensures
        exists|j: int|
            0 <= j < grants.len() && scoped(grants, scopes)[i] == (GrantView {
                permissions: scoped(grants, scopes)[i].permissions,
                ..#[trigger] grants[j]
            }) && (forall|permission: Seq<char>|
                scoped(grants, scopes)[i].permissions.contains(permission) ==> grants[j].permissions.contains(permission)),
        scopes.len() > 0 ==> forall|permission: Seq<char>|
            scoped(grants, scopes)[i].permissions.contains(permission) ==> scopes.contains(
                permission,
            ),
        scopes.len() > 0 ==> scoped(grants, scopes)[i].permissions.len() > 0,
    decreases grants.len(),
{
    let out = scoped(grants, scopes);
    if scopes.len() == 0 {
        assert(out[i] == grants[i]);
        assert(out[i] == (GrantView { permissions: out[i].permissions, ..grants[i] }));
    } else {
        let rest = scoped(grants.drop_last(), scopes);
        if i < rest.len() {
            scopes_narrow_and_never_widen(grants.drop_last(), scopes, i);
            let j = choose|j: int|
                0 <= j < grants.drop_last().len() && rest[i] == (GrantView {
                    permissions: rest[i].permissions,
                    ..#[trigger] grants.drop_last()[j]
                }) && (forall|permission: Seq<char>|
                    rest[i].permissions.contains(permission) ==> grants.drop_last()[j].permissions.contains(permission));
            assert(grants.drop_last()[j] == grants[j]);
        } else {
            let j = grants.len() - 1;
            let keep = |permission: Seq<char>| scopes.contains(permission);
            assert forall|permission: Seq<char>| out[i].permissions.contains(permission) implies grants[j].permissions.contains(
            permission) && scopes.contains(permission) by {
                lemma_filter_keeps(grants[j].permissions, keep, permission);
            }
            assert(out[i] == (GrantView { permissions: out[i].permissions, ..grants[j] }));
        }
    }
}

/// A scope takes nothing away that it names: whatever the owner may do under one of their grants, and the key's scopes
/// name, the key may do under a grant over the same groups, in the same window and under the same condition.
pub proof fn a_scope_keeps_what_it_names(
    grants: Seq<GrantView>,
    scopes: Seq<Seq<char>>,
    j: int,
    permission: Seq<char>,
) -> (i: int)
    requires
        0 <= j < grants.len(),
        grants[j].permissions.contains(permission),
        scopes.contains(permission),
    ensures
        0 <= i < scoped(grants, scopes).len(),
        scoped(grants, scopes)[i].permissions.contains(permission),
        scoped(grants, scopes)[i].asset_group_ids == grants[j].asset_group_ids,
        scoped(grants, scopes)[i].all_asset_groups == grants[j].all_asset_groups,
        scoped(grants, scopes)[i].valid_from == grants[j].valid_from,
        scoped(grants, scopes)[i].valid_until == grants[j].valid_until,
        scoped(grants, scopes)[i].requires_eula == grants[j].requires_eula,
        scoped(grants, scopes)[i].eula_accepted == grants[j].eula_accepted,
    decreases grants.len(),
{
    let rest = scoped(grants.drop_last(), scopes);
    if j < grants.len() - 1 {
        assert(grants.drop_last()[j] == grants[j]);
        let i = a_scope_keeps_what_it_names(grants.drop_last(), scopes, j, permission);
        assert(scoped(grants, scopes)[i] == rest[i]);
        i
    } else {
        lemma_filter_keeps(
            grants[j].permissions,
            |one: Seq<char>| scopes.contains(one),
            permission,
        );
        rest.len() as int
    }
}

/// The grant that stands for a role's row says what the row says, field by field, and a membership that names roles holds
/// one for each row; an administrator holds, before those, everything everywhere at any time.
pub proof fn a_role_is_granted_as_its_row_says(membership: Membership, roles: Seq<Role>, i: int)
    requires
        membership.role_names@.len() > 0,
        0 <= i < roles.len(),
    ensures
        ({
            let lead: int = if membership.is_tenant_admin {
                1
            } else {
                0
            };
            let grant = held(membership, roles)[lead + i];
            &&& held(membership, roles).len() == lead + roles.len()
            &&& grant.permissions.len() == roles[i].permissions@.len()
            &&& forall|k: int|
                0 <= k < grant.permissions.len() ==> #[trigger] grant.permissions[k] == roles[i].permissions@[k]@
            &&& grant.asset_group_ids == roles[i].asset_group_ids@
            &&& grant.all_asset_groups == roles[i].all_asset_groups
            &&& grant.valid_from == roles[i].valid_from
            &&& grant.valid_until == roles[i].valid_until
            &&& grant.requires_eula == roles[i].requires_eula
            &&& !grant.eula_accepted
            &&& membership.is_tenant_admin ==> {
                let first = held(membership, roles)[0];
                &&& first.permissions.contains("asset:read"@)
                &&& first.permissions.contains("asset:download"@)
                &&& first.permissions.contains("asset:manage"@)
                &&& first.all_asset_groups && first.valid_from is None && first.valid_until is None
                &&& !first.requires_eula && first.eula_accepted
            }
        }),
{
    if membership.is_tenant_admin {
        let first = held(membership, roles)[0];
        assert(first.permissions[0] == "asset:read"@);
        assert(first.permissions[1] == "asset:download"@);
        assert(first.permissions[2] == "asset:manage"@);
    }
}

/// A key without scopes holds exactly what its owner holds.
pub proof fn an_unscoped_key_holds_everything(grants: Seq<GrantView>)
    ensures
        scoped(grants, Seq::empty()) == grants,
{
}

/// A key's hash is never the plain digest of the key's own bytes as a content hash would be computed: the bytes
/// that are hashed are longer than the key's and start with the domain.
pub proof fn the_hash_is_domain_separated(plaintext: Seq<char>)
    ensures
        encode_utf8(KEY_DOMAIN@) + encode_utf8(plaintext) != encode_utf8(plaintext),
        (encode_utf8(KEY_DOMAIN@) + encode_utf8(plaintext)).take(
            encode_utf8(KEY_DOMAIN@).len() as int,
        ) == encode_utf8(KEY_DOMAIN@),
{
    let domain = encode_utf8(KEY_DOMAIN@);
    let body = encode_utf8(plaintext);
    reveal_strlit("damrs-api-key-v1\0");
    assert(KEY_DOMAIN@.len() == 17);
    assert(vstd::utf8::is_ascii_chars(KEY_DOMAIN@)) by {
        assert(forall|i: int| 0 <= i < KEY_DOMAIN@.len() ==> 0 <= #[trigger] KEY_DOMAIN@[i] as u32 <= 127);
    }
    vstd::utf8::is_ascii_chars_encode_utf8(KEY_DOMAIN@);
    assert(domain.len() == 17);
    assert((domain + body).len() == body.len() + 17);
    assert((domain + body).take(17) =~= domain);
}

/// A key is the word `damrs_` and two digits for each byte of its secret, so two keys that read alike have one secret.
pub proof fn a_key_spells_its_secret(secret: Seq<u8>, other: Seq<u8>)
    ensures
        key_chars(secret).len() == 6 + 2 * secret.len(),
        key_chars(secret).take(6) == "damrs_"@,
        secret.len() == other.len() && key_chars(secret) == key_chars(other) ==> secret == other,
{
    reveal_strlit("damrs_");
    assert("damrs_"@.len() == 6);
    assert(key_chars(secret).take(6) =~= "damrs_"@);
    if secret.len() == other.len() && key_chars(secret) == key_chars(other) {
        assert forall|i: int| 0 <= i < secret.len() implies secret[i] == other[i] by {
            assert(key_chars(secret)[6 + 2 * i] == hex_chars(secret)[2 * i]);
            assert(key_chars(other)[6 + 2 * i] == hex_chars(other)[2 * i]);
            assert(key_chars(secret)[6 + 2 * i + 1] == hex_chars(secret)[2 * i + 1]);
            assert(key_chars(other)[6 + 2 * i + 1] == hex_chars(other)[2 * i + 1]);
            assert((2 * i + 1) / 2 == i && (2 * i) / 2 == i);
            assert(hex_chars(secret)[2 * i] == digit_char(secret[i] as int / 16));
            assert(hex_chars(other)[2 * i] == digit_char(other[i] as int / 16));
            assert(hex_chars(secret)[2 * i + 1] == digit_char(secret[i] as int % 16));
            assert(hex_chars(other)[2 * i + 1] == digit_char(other[i] as int % 16));
        }
        assert(secret =~= other);
    }
}

// ----------------------------------------------------------------------------------------------------
// Commands
// ----------------------------------------------------------------------------------------------------

pub const LOOKUP: &'static str =
    "SELECT k.id, k.tenant_id, t.slug, t.status, k.identity_id, i.status AS identity_status, k.scopes, \
     k.revoked_at, k.expires_at, k.last_used_at, now() AS now FROM dam_global.api_keys k JOIN \
     dam_global.tenants t ON t.id = k.tenant_id LEFT JOIN dam_global.identities i ON i.id = k.identity_id WHERE k.key_hash = $1";

/// The key that was presented, by its digest, with what decides whether it works.
pub fn lookup(presented: &str) -> (command: Command)
    ensures
        command.says(
            "SELECT k.id, k.tenant_id, t.slug, t.status, k.identity_id, i.status AS identity_status, k.scopes, \
             k.revoked_at, k.expires_at, k.last_used_at, now() AS now FROM dam_global.api_keys k JOIN \
             dam_global.tenants t ON t.id = k.tenant_id LEFT JOIN dam_global.identities i ON i.id = k.identity_id WHERE k.key_hash = $1"@,
            seq![Given::Text(key_digest(presented@))],
        ),
{
    Command::new(LOOKUP, vec![as_text(ApiKey::hash_of(presented).as_str())])
}

pub const TOUCH: &'static str = "UPDATE dam_global.api_keys SET last_used_at = now() WHERE id = $1";

/// That a key was used.
pub fn touch(api_key_id: Uuid) -> (command: Command)
    ensures
        command.says("UPDATE dam_global.api_keys SET last_used_at = now() WHERE id = $1"@, seq![Given::Id(api_key_id)]),
{
    Command::new(TOUCH, vec![Value::Id(api_key_id)])
}

pub const MEMBERSHIP: &'static str =
    "SELECT role_names, is_tenant_admin FROM dam_global.tenant_members WHERE tenant_id = $1 AND identity_id \
     = $2";

/// An identity's membership of a tenant.
pub fn membership(tenant_id: Uuid, identity_id: Uuid) -> (command: Command)
    ensures
        command.says(
            "SELECT role_names, is_tenant_admin FROM dam_global.tenant_members WHERE tenant_id = $1 AND identity_id \
             = $2"@,
            seq![Given::Id(tenant_id), Given::Id(identity_id)],
        ),
{
    Command::new(MEMBERSHIP, vec![Value::Id(tenant_id), Value::Id(identity_id)])
}

pub const ROLES: &'static str =
    "SELECT permissions, asset_group_ids, all_asset_groups, valid_from, valid_until, requires_eula FROM \
     roles WHERE key = ANY($1)";

/// The tenant's roles of these names.
pub fn roles(role_names: &Vec<String>) -> (command: Command)
    ensures
        command.says(
            "SELECT permissions, asset_group_ids, all_asset_groups, valid_from, valid_until, requires_eula FROM \
             roles WHERE key = ANY($1)"@,
            seq![Given::Texts(crate::text::all_chars(role_names@))],
        ),
{
    Command::new(ROLES, vec![as_texts(role_names)])
}

} // verus!
