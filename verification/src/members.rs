//! Who has access to a tenant, and with what role.
//!
//! An identity is one row across the whole fleet, so adding somebody finds or creates, and which of the two
//! happened is not something the surface repeats back. A role name that does not exist grants nothing
//! silently, so names are checked before a membership is written. The last administrator can neither be
//! removed nor demoted: a tenant with no administrator is a tenant nobody can appoint one in.

use crate::auth::ApiKey;
use crate::commands::{as_maybe_text, as_text, as_texts, Command, Given, Value};
use crate::text::{
    all_chars, before, contains, holds, join, joined, opt_chars, precedes, same, trim, trimmed,
};
use crate::text::{lemma_precedes_total, lemma_precedes_transitive};
use crate::{Instant, Uuid};
use vstd::prelude::*;

verus! {

/// Why a change was refused.
#[derive(Debug, Clone, PartialEq, Eq)]
pub enum MemberRefusal {
    EmailInvalid(String),
    /// Named, because "one of your role names is wrong" sends somebody to check all of them.
    UnknownRoles(Vec<String>),
    AlreadyAMember,
    NotAMember,
    /// A tenant with no administrator cannot appoint one.
    LastAdmin,
    /// The identity provider would overwrite a local edit on its next sync.
    ScimManaged,
}

impl MemberRefusal {
    /// The text of this refusal.
    pub open spec fn message_chars(self) -> Seq<char> {
        match self {
            MemberRefusal::EmailInvalid(given) => "`"@ + given@ + "` is not an email address"@,
            MemberRefusal::UnknownRoles(given) => "no such role: "@ + joined(all_chars(given@), ", "@),
            MemberRefusal::AlreadyAMember => "that person is already a member of this tenant"@,
            MemberRefusal::NotAMember => "no such member"@,
            MemberRefusal::LastAdmin => "this is the tenant's only administrator"@,
            MemberRefusal::ScimManaged => "this account is managed by your identity provider; change it there"@,
        }
    }

    /// The sentence whoever was refused reads.
    pub fn message(&self) -> (out: String)
        ensures
            out@ == self.message_chars(),
    {
        match self {
            MemberRefusal::EmailInvalid(given) => {
                let mut out = "`".to_owned();
                out.append(given.as_str());
                out.append("` is not an email address");
                out
            },
            MemberRefusal::UnknownRoles(given) => {
                let mut out = "no such role: ".to_owned();
                out.append(join(given, ", ").as_str());
                out
            },
            MemberRefusal::AlreadyAMember => "that person is already a member of this tenant".to_owned(),
            MemberRefusal::NotAMember => "no such member".to_owned(),
            MemberRefusal::LastAdmin => "this is the tenant's only administrator".to_owned(),
            MemberRefusal::ScimManaged => "this account is managed by your identity provider; change it there".to_owned(),
        }
    }
}

/// The prefix of the role that a connected site holds.
pub const CONNECTOR_ROLE_PREFIX: &'static str = "connector:";

/// Whether no name comes after or equals one behind it.
pub open spec fn ascending(names: Seq<String>) -> bool {
    forall|i: int, j: int|
        0 <= i < j < names.len() ==> precedes((#[trigger] names[i])@, (#[trigger] names[j])@)
}

/// Which of `wanted` this tenant does not define, each once, in dictionary order.
pub fn unknown_roles(wanted: &Vec<String>, known: &Vec<String>) -> (missing: Vec<String>)
    ensures
        ascending(missing@),
        forall|name: Seq<char>|
            holds(missing@, name) <==> holds(wanted@, name) && !holds(known@, name),
        missing@.len() == 0 <==> forall|i: int|
            0 <= i < wanted@.len() ==> holds(known@, (#[trigger] wanted@[i])@),
{
    let mut missing: Vec<String> = Vec::new();
    let mut i: usize = 0;
    while i < wanted.len()
        invariant
            i <= wanted@.len(),
            ascending(missing@),
            forall|name: Seq<char>|
                holds(missing@, name) <==> holds(wanted@.take(i as int), name) && !holds(
                    known@,
                    name,
                ),
        decreases wanted@.len() - i,
    {
        let ghost done = wanted@.take(i as int);
        let ghost next = wanted@.take(i + 1);
        let ghost was = missing@;
        proof {
            assert forall|name: Seq<char>|
                holds(next, name) <==> holds(done, name) || name == wanted@[i as int]@ by {
                if holds(done, name) {
                    let j = choose|j: int| 0 <= j < done.len() && (#[trigger] done[j])@ == name;
                    assert(next[j]@ == name);
                }
                if name == wanted@[i as int]@ {
                    assert(next[i as int]@ == name);
                }
                if holds(next, name) {
                    let j = choose|j: int| 0 <= j < next.len() && (#[trigger] next[j])@ == name;
                    if j < i {
                        assert(done[j]@ == name);
                    }
                }
            }
        }
        if !contains(known, wanted[i].as_str()) {
            insert_once(&mut missing, &wanted[i]);
        }
        i += 1;
    }
    proof {
        assert(wanted@.take(i as int) =~= wanted@);
        if missing@.len() == 0 {
            assert forall|j: int| 0 <= j < wanted@.len() implies holds(
                known@,
                (#[trigger] wanted@[j])@,
            ) by {
                assert(holds(wanted@, wanted@[j]@));
                assert(!holds(missing@, wanted@[j]@));
            }
        } else {
            let name = missing@[0]@;
            assert(holds(missing@, name));
            let j = choose|j: int| 0 <= j < wanted@.len() && (#[trigger] wanted@[j])@ == name;
            assert(!holds(known@, wanted@[j]@));
        }
    }
    missing
}

/// Puts `name` in its place, unless it is there.
fn insert_once(names: &mut Vec<String>, name: &String)
    requires
        ascending(old(names)@),
    ensures
        ascending(final(names)@),
        forall|other: Seq<char>|
            holds(final(names)@, other) <==> holds(old(names)@, other) || other == name@,
{
    let ghost was = names@;
    let mut place: usize = 0;
    while place < names.len() && before(names[place].as_str(), name.as_str())
        invariant
            place <= names@.len(),
            names@ == was,
            forall|j: int| 0 <= j < place ==> precedes((#[trigger] names@[j])@, name@),
        decreases names@.len() - place,
    {
        place += 1;
    }
    if place < names.len() && same(names[place].as_str(), name.as_str()) {
        proof {
            assert(was[place as int]@ == name@);
            assert(holds(was, name@));
        }
        return ;
    }
    names.insert(place, name.clone());
    proof {
        let now = names@;
        assert(now == was.insert(place as int, *name));
        assert forall|j: int| place < j < now.len() implies precedes(name@, (#[trigger] now[j])@) by {
            assert(now[j] == was[j - 1]);
            lemma_precedes_total(name@, was[place as int]@);
            if j - 1 > place {
                assert(precedes(was[place as int]@, was[j - 1]@));
                lemma_precedes_transitive(name@, was[place as int]@, was[j - 1]@);
            }
        }
        assert forall|a: int, b: int| 0 <= a < b < now.len() implies precedes(
            (#[trigger] now[a])@,
            (#[trigger] now[b])@,
        ) by {
            if a < place {
                assert(now[a] == was[a]);
                if b < place {
                    assert(now[b] == was[b]);
                } else if b > place {
                    assert(precedes(name@, now[b]@));
                    lemma_precedes_transitive(now[a]@, name@, now[b]@);
                }
            } else if a > place {
                assert(now[a] == was[a - 1]);
                assert(now[b] == was[b - 1]);
            }
        }
        assert forall|other: Seq<char>|
            holds(now, other) <==> holds(was, other) || other == name@ by {
            if holds(was, other) {
                let j = choose|j: int| 0 <= j < was.len() && (#[trigger] was[j])@ == other;
                if j < place {
                    assert(now[j]@ == other);
                } else {
                    assert(now[j + 1]@ == other);
                }
            }
            if other == name@ {
                assert(now[place as int]@ == other);
            }
            if holds(now, other) && other != name@ {
                let j = choose|j: int| 0 <= j < now.len() && (#[trigger] now[j])@ == other;
                if j < place {
                    assert(was[j]@ == other);
                } else {
                    assert(was[j - 1]@ == other);
                }
            }
        }
    }
}

/// Refuses role names this tenant does not define.
pub fn check_roles(wanted: &Vec<String>, known: &Vec<String>) -> (checked: Result<(), MemberRefusal>)
    ensures
        checked is Ok <==> forall|i: int|
            0 <= i < wanted@.len() ==> holds(known@, (#[trigger] wanted@[i])@),
        checked matches Err(refusal) ==> {
            &&& refusal matches MemberRefusal::UnknownRoles(missing)
            &&& ascending(missing@)
            &&& forall|name: Seq<char>|
                holds(missing@, name) <==> holds(wanted@, name) && !holds(known@, name)
        },
{
    let missing = unknown_roles(wanted, known);
    if missing.len() == 0 {
        Ok(())
    } else {
        Err(MemberRefusal::UnknownRoles(missing))
    }
}

/// Somebody to add.
#[derive(Debug, Clone)]
pub struct NewMember {
    pub email: String,
    pub display_name: Option<String>,
    pub role_names: Vec<String>,
    pub is_tenant_admin: bool,
}

/// What adding somebody produced.
#[derive(Debug)]
pub struct Added {
    pub identity_id: Uuid,
    /// The credential, in readable form, once. There is no login flow: the key is the invitation.
    pub api_key: String,
    /// Whether the person already had an identity. For the caller's own log, not for a response.
    pub identity_existed: bool,
}

/// Whether a disabled identity is brought back, and on whose authority.
#[derive(Debug, Clone, Copy, PartialEq, Eq, Structural)]
pub enum Reactivate {
    /// A person adding somebody by hand. An account the identity provider owns is left alone.
    UnlessProviderOwned,
    /// The identity provider itself, which is the authority for an account it owns.
    Always,
}

/// A membership, without a credential.
#[derive(Debug, Clone, Copy, PartialEq, Eq, Structural)]
pub struct Attached {
    pub identity_id: Uuid,
    pub identity_existed: bool,
}

/// An address worth storing: an `@`, with something on both sides.
///
/// Shallow on purpose. A full grammar rejects addresses that work; this catches the typo that would otherwise
/// become a permanent row.
pub open spec fn email_plausible(email: Seq<char>) -> bool {
    &&& email.contains('@')
    &&& email[0] != '@'
    &&& email.last() != '@'
}

/// The address to store, without the white space around it.
pub fn address(new: &NewMember) -> (email: Result<String, MemberRefusal>)
    ensures
        email is Ok <==> email_plausible(trimmed(new.email@)),
        email matches Ok(inner) ==> inner@ == trimmed(new.email@),
        email matches Err(refusal) ==> refusal matches MemberRefusal::EmailInvalid(given) && given@
            == trimmed(new.email@),
        email matches Ok(inner) ==> inner@.contains('@') && inner@[0] != '@' && inner@.last() != '@',
{
    let email = trim(new.email.as_str());
    let len: usize = email.unicode_len();
    let mut found = false;
    for c in chars: email.chars()
        invariant
            chars.seq() == email@,
            found == exists|i: int| 0 <= i < chars.index() && #[trigger] email@[i] == '@',
    {
        if c == '@' {
            proof {
                assert(email@[chars.index()] == '@');
            }
            found = true;
        }
    }
    proof {
        if found {
            let i = choose|i: int| 0 <= i < email@.len() && #[trigger] email@[i] == '@';
            assert(email@.contains('@'));
        }
    }
    if found && email.get_char(0) != '@' && email.get_char(len - 1) != '@' {
        Ok(email.to_owned())
    } else {
        Err(MemberRefusal::EmailInvalid(email.to_owned()))
    }
}

/// Attaches somebody to a tenant, under the identity found for their address or under `fresh`.
///
/// `already` is whether that identity is a member of the tenant. No credential comes of it.
pub fn attach(
    new: &NewMember,
    existing: Option<Uuid>,
    fresh: Uuid,
    already: bool,
) -> (attached: Result<Attached, MemberRefusal>)
    ensures
        match attached {
            Ok(inner) => {
                &&& email_plausible(trimmed(new.email@))
                &&& !already
                &&& inner.identity_existed == (existing is Some)
                &&& inner.identity_id == match existing {
                    Some(id) => id,
                    None => fresh,
                }
            },
            Err(MemberRefusal::EmailInvalid(given)) => {
                &&& !email_plausible(trimmed(new.email@))
                &&& given@ == trimmed(new.email@)
            },
            Err(MemberRefusal::AlreadyAMember) => email_plausible(trimmed(new.email@)) && already,
            Err(_) => false,
        },
{
    match address(new) {
        Err(refusal) => Err(refusal),
        Ok(_) => if already {
            Err(MemberRefusal::AlreadyAMember)
        } else {
            match existing {
                Some(id) => Ok(Attached { identity_id: id, identity_existed: true }),
                None => Ok(Attached { identity_id: fresh, identity_existed: false }),
            }
        },
    }
}

/// Whether attaching somebody also re-enables their identity.
pub fn reactivates(reactivate: Reactivate, provider_owned: bool) -> (yes: bool)
    ensures
        yes == (reactivate == Reactivate::Always || !provider_owned),
        reactivate == Reactivate::Always ==> yes,
        reactivate == Reactivate::UnlessProviderOwned ==> (yes <==> !provider_owned),
{
    match reactivate {
        Reactivate::Always => true,
        Reactivate::UnlessProviderOwned => !provider_owned,
    }
}

/// The name of the key issued with a membership.
pub fn key_name(new: &NewMember) -> (name: String)
    ensures
        name@ == "issued with access for "@ + trimmed(new.email@),
{
    let mut name = "issued with access for ".to_owned();
    name.append(trim(new.email.as_str()));
    name
}

/// What adding somebody produced, with the key they were issued.
pub fn added(attached: Attached, api_key: String) -> (added: Added)
    ensures
        added == (Added {
            identity_id: attached.identity_id,
            api_key,
            identity_existed: attached.identity_existed,
        }),
{
    Added {
        identity_id: attached.identity_id,
        api_key,
        identity_existed: attached.identity_existed,
    }
}

/// A membership as stored.
#[derive(Debug, Clone, PartialEq, Eq)]
pub struct MembershipRow {
    pub role_names: Vec<String>,
    pub is_tenant_admin: bool,
    pub scim_managed: bool,
}

/// What somebody held before a change.
#[derive(Debug, Clone, PartialEq, Eq)]
pub struct Held {
    pub role_names: Vec<String>,
    pub is_tenant_admin: bool,
}

/// Whether giving a member the administrator flag `is_tenant_admin` would leave nobody with it.
pub open spec fn strands(was_admin: bool, is_tenant_admin: bool, admins: int) -> bool {
    was_admin && !is_tenant_admin && admins <= 1
}

/// Whether a member's roles and administrator flag may be replaced, and what they held until now.
///
/// `admins` is how many administrators the tenant has, counted while membership changes are serialised.
/// Demotion reaches the same state as removal, so it is refused for the same reason.
pub fn set_roles(
    row: Option<MembershipRow>,
    is_tenant_admin: bool,
    admins: i64,
) -> (held: Result<Held, MemberRefusal>)
    ensures
        match held {
            Ok(inner) => {
                &&& row matches Some(found)
                &&& !found.scim_managed
                &&& !strands(found.is_tenant_admin, is_tenant_admin, admins as int)
                &&& inner.role_names == found.role_names
                &&& inner.is_tenant_admin == found.is_tenant_admin
            },
            Err(MemberRefusal::NotAMember) => row is None,
            Err(MemberRefusal::ScimManaged) => row matches Some(found) && found.scim_managed,
            Err(MemberRefusal::LastAdmin) => {
                &&& row matches Some(found)
                &&& !found.scim_managed
                &&& strands(found.is_tenant_admin, is_tenant_admin, admins as int)
            },
            Err(_) => false,
        },
        held is Ok ==> (row matches Some(found) && !found.scim_managed && (!found.is_tenant_admin || is_tenant_admin
            || admins > 1)),
        row matches Some(found) ==> !found.scim_managed && (!found.is_tenant_admin || is_tenant_admin || admins > 1)
            ==> held is Ok,
{
    match row {
        None => Err(MemberRefusal::NotAMember),
        Some(found) => if found.scim_managed {
            Err(MemberRefusal::ScimManaged)
        } else if found.is_tenant_admin && !is_tenant_admin && admins <= 1 {
            Err(MemberRefusal::LastAdmin)
        } else {
            Ok(Held { role_names: found.role_names, is_tenant_admin: found.is_tenant_admin })
        },
    }
}

/// What removing somebody actually did.
#[derive(Debug, Clone, PartialEq, Eq)]
pub struct Removed {
    /// Keys revoked for this tenant. The number that makes "removed" mean something.
    pub keys_revoked: u64,
    /// Whether the identity itself was disabled, which happens only when this was their last tenant.
    pub identity_disabled: bool,
    pub roles_held: Vec<String>,
    pub was_tenant_admin: bool,
}

/// Whether somebody's access to a tenant may be removed, and what they held.
pub fn remove(row: Option<MembershipRow>, admins: i64) -> (held: Result<Held, MemberRefusal>)
    ensures
        match held {
            Ok(inner) => {
                &&& row matches Some(found)
                &&& !strands(found.is_tenant_admin, false, admins as int)
                &&& inner.role_names == found.role_names
                &&& inner.is_tenant_admin == found.is_tenant_admin
            },
            Err(MemberRefusal::NotAMember) => row is None,
            Err(MemberRefusal::LastAdmin) => row matches Some(found) && strands(
                found.is_tenant_admin,
                false,
                admins as int,
            ),
            Err(_) => false,
        },
        held is Ok ==> (row matches Some(found) && (!found.is_tenant_admin || admins > 1)),
        row matches Some(found) ==> !found.is_tenant_admin || admins > 1 ==> held is Ok,
{
    match row {
        None => Err(MemberRefusal::NotAMember),
        Some(found) => if found.is_tenant_admin && admins <= 1 {
            Err(MemberRefusal::LastAdmin)
        } else {
            Ok(Held { role_names: found.role_names, is_tenant_admin: found.is_tenant_admin })
        },
    }
}

/// Whether removing somebody also disables their identity: only when they have no other tenant.
pub fn disables_identity(elsewhere: bool) -> (yes: bool)
    ensures
        yes == !elsewhere,
{
    !elsewhere
}

/// What a removal did, from what was held, how many keys were revoked and whether they are a member elsewhere.
pub fn removed(held: Held, keys_revoked: u64, elsewhere: bool) -> (removed: Removed)
    ensures
        removed == (Removed {
            keys_revoked,
            identity_disabled: !elsewhere,
            roles_held: held.role_names,
            was_tenant_admin: held.is_tenant_admin,
        }),
{
    Removed {
        keys_revoked,
        identity_disabled: disables_identity(elsewhere),
        roles_held: held.role_names,
        was_tenant_admin: held.is_tenant_admin,
    }
}

/// How many of a tenant's members are administrators.
pub open spec fn admin_count(flags: Seq<bool>) -> int
    decreases flags.len(),
{
    if flags.len() == 0 {
        0
    } else {
        admin_count(flags.drop_last()) + if flags.last() {
            1int
        } else {
            0int
        }
    }
}

proof fn lemma_admin_count_update(flags: Seq<bool>, i: int, flag: bool)
    requires
        0 <= i < flags.len(),
    ensures
        admin_count(flags.update(i, flag)) == admin_count(flags) - (if flags[i] {
            1int
        } else {
            0int
        }) + (if flag {
            1int
        } else {
            0int
        }),
    decreases flags.len(),
{
    let now = flags.update(i, flag);
    if i == flags.len() - 1 {
        assert(now.drop_last() =~= flags.drop_last());
    } else {
        assert(now.drop_last() =~= flags.drop_last().update(i, flag));
        lemma_admin_count_update(flags.drop_last(), i, flag);
    }
}

proof fn lemma_admin_count_remove(flags: Seq<bool>, i: int)
    requires
        0 <= i < flags.len(),
    ensures
        admin_count(flags.remove(i)) == admin_count(flags) - (if flags[i] {
            1int
        } else {
            0int
        }),
    decreases flags.len(),
{
    let now = flags.remove(i);
    if i == flags.len() - 1 {
        assert(now =~= flags.drop_last());
    } else {
        assert(now.drop_last() =~= flags.drop_last().remove(i));
        assert(now.last() == flags.last());
        lemma_admin_count_remove(flags.drop_last(), i);
    }
}

/// A tenant that has an administrator keeps one: no change of flags that is allowed, and no removal that is
/// allowed, leaves a tenant without any. `flags` says of each member whether they are an administrator, and the
/// change concerns the member at `i`.
pub proof fn an_administrator_always_remains(flags: Seq<bool>, i: int, is_tenant_admin: bool)
    requires
        0 <= i < flags.len(),
        admin_count(flags) >= 1,
    ensures
        !strands(flags[i], is_tenant_admin, admin_count(flags)) ==> admin_count(
            flags.update(i, is_tenant_admin),
        ) >= 1,
        !strands(flags[i], false, admin_count(flags)) ==> admin_count(flags.remove(i)) >= 1,
{
    lemma_admin_count_update(flags, i, is_tenant_admin);
    lemma_admin_count_remove(flags, i);
}

/// Nobody is kept from stepping down for nothing: a change is refused only where it would leave a tenant without an
/// administrator. Whoever is none, and whoever stays one, is never refused.
pub proof fn only_the_last_administrator_is_kept(flags: Seq<bool>, i: int, is_tenant_admin: bool)
    requires
        0 <= i < flags.len(),
    ensures
        strands(flags[i], is_tenant_admin, admin_count(flags)) ==> admin_count(flags.update(i, is_tenant_admin)) <= 0,
        strands(flags[i], false, admin_count(flags)) ==> admin_count(flags.remove(i)) <= 0,
        !flags[i] || is_tenant_admin ==> !strands(flags[i], is_tenant_admin, admin_count(flags)),
        admin_count(flags) >= 2 ==> !strands(flags[i], is_tenant_admin, admin_count(flags)),
{
    lemma_admin_count_update(flags, i, is_tenant_admin);
    lemma_admin_count_remove(flags, i);
}

/// An address has something before its sign and something behind it.
pub proof fn an_address_has_two_sides(email: Seq<char>)
    ensures
        email_plausible(email) ==> exists|i: int| 0 < i < email.len() - 1 && #[trigger] email[i] == '@',
        email_plausible(email) ==> email[0] != '@' && email.last() != '@',
        (exists|i: int| 0 < i < email.len() - 1 && #[trigger] email[i] == '@') && email[0] != '@' && email.last()
            != '@' ==> email_plausible(email),
{
    if email_plausible(email) {
        let i = choose|i: int| 0 <= i < email.len() && email[i] == '@';
        assert(email[i] == '@');
    }
    if exists|i: int| 0 < i < email.len() - 1 && #[trigger] email[i] == '@' {
        let i = choose|i: int| 0 < i < email.len() - 1 && #[trigger] email[i] == '@';
        assert(email.contains(email[i]));
    }
}

// ----------------------------------------------------------------------------------------------------
// Commands
// ----------------------------------------------------------------------------------------------------

/// One person's access to one tenant.
#[derive(Debug, Clone, PartialEq, Eq)]
pub struct Member {
    pub identity_id: Uuid,
    pub email: String,
    pub display_name: Option<String>,
    pub role_names: Vec<String>,
    pub is_tenant_admin: bool,
    /// The identity's own status. Anything but `active` means that their keys do not work.
    pub status: String,
    pub scim_managed: bool,
    pub last_login_at: Option<Instant>,
    /// How many of their keys for this tenant still work.
    pub live_keys: i64,
    pub joined_at: Instant,
}

pub const LIST: &'static str =
    "SELECT i.id, i.email, i.display_name, m.role_names, m.is_tenant_admin, i.status, m.scim_managed, \
     i.last_login_at, m.created_at, (SELECT count(*) FROM dam_global.api_keys k WHERE k.identity_id = i.id \
     AND i.status = 'active' AND k.tenant_id = m.tenant_id AND k.revoked_at IS NULL AND (k.expires_at IS NULL OR \
     k.expires_at > now())) AS live_keys FROM dam_global.tenant_members m JOIN dam_global.identities i ON i.id = \
     m.identity_id WHERE m.tenant_id = $1 AND NOT EXISTS ( SELECT 1 FROM connectors c JOIN \
     dam_global.api_keys ck ON ck.id = c.api_key_id WHERE ck.identity_id = i.id) ORDER BY i.email_lower";

/// Everyone with access to a tenant, alphabetically by address. A connected site's account is not a colleague.
pub fn list(tenant_id: Uuid) -> (command: Command)
    ensures
        command.says(
            "SELECT i.id, i.email, i.display_name, m.role_names, m.is_tenant_admin, i.status, m.scim_managed, \
             i.last_login_at, m.created_at, (SELECT count(*) FROM dam_global.api_keys k WHERE k.identity_id = i.id \
             AND i.status = 'active' AND k.tenant_id = m.tenant_id AND k.revoked_at IS NULL AND (k.expires_at IS NULL OR \
             k.expires_at > now())) AS live_keys FROM dam_global.tenant_members m JOIN dam_global.identities i ON i.id = \
             m.identity_id WHERE m.tenant_id = $1 AND NOT EXISTS ( SELECT 1 FROM connectors c JOIN \
             dam_global.api_keys ck ON ck.id = c.api_key_id WHERE ck.identity_id = i.id) ORDER BY i.email_lower"@,
            seq![Given::Id(tenant_id)],
        ),
{
    Command::new(LIST, vec![Value::Id(tenant_id)])
}

pub const KNOWN_ROLES: &'static str = "SELECT key FROM roles WHERE key NOT LIKE $1 || '%' ORDER BY key";

/// The role keys a person can be given: a connected site's own role is none.
pub fn known_roles() -> (command: Command)
    ensures
        command.says(
            "SELECT key FROM roles WHERE key NOT LIKE $1 || '%' ORDER BY key"@,
            seq![Given::Text("connector:"@)],
        ),
{
    Command::new(KNOWN_ROLES, vec![as_text(CONNECTOR_ROLE_PREFIX)])
}

pub const ISSUE_KEY: &'static str =
    "INSERT INTO dam_global.api_keys (id, tenant_id, identity_id, name, key_prefix, key_hash, scopes) \
     VALUES (gen_random_uuid(), $1, $2, $3, $4, $5, '{}')";

/// A credential for a new member. What is stored of it is its prefix and its digest.
pub fn issue_key(
    tenant_id: Uuid,
    identity_id: Uuid,
    new: &NewMember,
    key: &ApiKey,
) -> (command: Command)
    ensures
        command.says(
            "INSERT INTO dam_global.api_keys (id, tenant_id, identity_id, name, key_prefix, key_hash, scopes) \
             VALUES (gen_random_uuid(), $1, $2, $3, $4, $5, '{}')"@,
            seq![
                Given::Id(tenant_id), Given::Id(identity_id),
                Given::Text("issued with access for "@ + trimmed(new.email@)),
                Given::Text(key.prefix_chars()), Given::Text(key.hash_chars()),
            ],
        ),
{
    Command::new(
        ISSUE_KEY,
        vec![
            Value::Id(tenant_id), Value::Id(identity_id), as_text(key_name(new).as_str()),
            as_text(key.prefix()), as_text(key.hash()),
        ],
    )
}

pub const IDENTITY_OF: &'static str = "SELECT id FROM dam_global.identities WHERE email_lower = lower($1)";

/// The identity with an address, whatever the case it is written in.
pub fn identity_of(email: &str) -> (command: Command)
    ensures
        command.says("SELECT id FROM dam_global.identities WHERE email_lower = lower($1)"@, seq![Given::Text(email@)]),
{
    Command::new(IDENTITY_OF, vec![as_text(email)])
}

pub const IS_MEMBER: &'static str =
    "SELECT EXISTS (SELECT 1 FROM dam_global.tenant_members WHERE tenant_id = $1 AND identity_id = $2)";

/// Whether an identity is a member of a tenant.
pub fn is_member(tenant_id: Uuid, identity_id: Option<Uuid>) -> (command: Command)
    ensures
        command.says(
            "SELECT EXISTS (SELECT 1 FROM dam_global.tenant_members WHERE tenant_id = $1 AND identity_id = $2)"@,
            seq![Given::Id(tenant_id), Given::MaybeId(identity_id)],
        ),
{
    Command::new(IS_MEMBER, vec![Value::Id(tenant_id), Value::MaybeId(identity_id)])
}

pub const INSERT_IDENTITY: &'static str =
    "INSERT INTO dam_global.identities (id, email, display_name) VALUES ($1, $2, $3)";

/// A person this deployment has never seen.
pub fn insert_identity(
    identity_id: Uuid,
    email: &str,
    display_name: &Option<String>,
) -> (command: Command)
    ensures
        command.says(
            "INSERT INTO dam_global.identities (id, email, display_name) VALUES ($1, $2, $3)"@,
            seq![
                Given::Id(identity_id), Given::Text(email@), Given::MaybeText(opt_chars(*display_name)),
            ],
        ),
{
    Command::new(
        INSERT_IDENTITY,
        vec![
            Value::Id(identity_id), as_text(email), as_maybe_text(&*display_name),
        ],
    )
}

pub const INSERT_MEMBER: &'static str =
    "INSERT INTO dam_global.tenant_members (tenant_id, identity_id, role_names, is_tenant_admin) VALUES \
     ($1, $2, $3, $4)";

/// A new membership.
pub fn insert_member(tenant_id: Uuid, identity_id: Uuid, new: &NewMember) -> (command: Command)
    ensures
        command.says(
            "INSERT INTO dam_global.tenant_members (tenant_id, identity_id, role_names, is_tenant_admin) VALUES \
             ($1, $2, $3, $4)"@,
            seq![
                Given::Id(tenant_id), Given::Id(identity_id),
                Given::Texts(crate::text::all_chars(new.role_names@)), Given::Flag(new.is_tenant_admin),
            ],
        ),
{
    Command::new(
        INSERT_MEMBER,
        vec![
            Value::Id(tenant_id), Value::Id(identity_id), as_texts(&new.role_names),
            Value::Flag(new.is_tenant_admin),
        ],
    )
}

pub const PROVIDER_OWNED: &'static str =
    "SELECT coalesce(bool_or(scim_managed), false) FROM dam_global.tenant_members WHERE tenant_id = $1 AND \
     identity_id = $2";

/// Whether an identity provider manages a membership.
pub fn provider_owned(tenant_id: Uuid, identity_id: Uuid) -> (command: Command)
    ensures
        command.says(
            "SELECT coalesce(bool_or(scim_managed), false) FROM dam_global.tenant_members WHERE tenant_id = $1 AND \
             identity_id = $2"@,
            seq![Given::Id(tenant_id), Given::Id(identity_id)],
        ),
{
    Command::new(PROVIDER_OWNED, vec![Value::Id(tenant_id), Value::Id(identity_id)])
}

pub const WRITE_ACTIVE: &'static str =
    "UPDATE dam_global.identities SET status = 'active', deprovisioned_at = NULL, updated_at = now() WHERE \
     id = $1";

/// An identity that may sign in again.
pub fn write_active(identity_id: Uuid) -> (command: Command)
    ensures
        command.says(
            "UPDATE dam_global.identities SET status = 'active', deprovisioned_at = NULL, updated_at = now() WHERE \
             id = $1"@,
            seq![Given::Id(identity_id)],
        ),
{
    Command::new(WRITE_ACTIVE, vec![Value::Id(identity_id)])
}

pub const MEMBERSHIP: &'static str =
    "SELECT role_names, is_tenant_admin, scim_managed FROM dam_global.tenant_members WHERE tenant_id = $1 \
     AND identity_id = $2";

/// A membership, with whether an identity provider manages it.
pub fn membership(tenant_id: Uuid, identity_id: Uuid) -> (command: Command)
    ensures
        command.says(
            "SELECT role_names, is_tenant_admin, scim_managed FROM dam_global.tenant_members WHERE tenant_id = $1 \
             AND identity_id = $2"@,
            seq![Given::Id(tenant_id), Given::Id(identity_id)],
        ),
{
    Command::new(MEMBERSHIP, vec![Value::Id(tenant_id), Value::Id(identity_id)])
}

pub const WRITE_ROLES: &'static str =
    "UPDATE dam_global.tenant_members SET role_names = $3, is_tenant_admin = $4, updated_at = now() WHERE \
     tenant_id = $1 AND identity_id = $2";

/// A member's roles and administrator flag.
pub fn write_roles(
    tenant_id: Uuid,
    identity_id: Uuid,
    role_names: &Vec<String>,
    is_tenant_admin: bool,
) -> (command: Command)
    ensures
        command.says(
            "UPDATE dam_global.tenant_members SET role_names = $3, is_tenant_admin = $4, updated_at = now() WHERE \
             tenant_id = $1 AND identity_id = $2"@,
            seq![
                Given::Id(tenant_id), Given::Id(identity_id),
                Given::Texts(crate::text::all_chars(role_names@)), Given::Flag(is_tenant_admin),
            ],
        ),
{
    Command::new(
        WRITE_ROLES,
        vec![
            Value::Id(tenant_id), Value::Id(identity_id), as_texts(role_names),
            Value::Flag(is_tenant_admin),
        ],
    )
}

pub const REVOKE_KEYS: &'static str =
    "UPDATE dam_global.api_keys SET revoked_at = now() WHERE tenant_id = $1 AND identity_id = $2 AND \
     revoked_at IS NULL";

/// A member's keys for this tenant, revoked.
pub fn revoke_keys(tenant_id: Uuid, identity_id: Uuid) -> (command: Command)
    ensures
        command.says(
            "UPDATE dam_global.api_keys SET revoked_at = now() WHERE tenant_id = $1 AND identity_id = $2 AND \
             revoked_at IS NULL"@,
            seq![Given::Id(tenant_id), Given::Id(identity_id)],
        ),
{
    Command::new(REVOKE_KEYS, vec![Value::Id(tenant_id), Value::Id(identity_id)])
}

pub const DELETE_MEMBER: &'static str =
    "DELETE FROM dam_global.tenant_members WHERE tenant_id = $1 AND identity_id = $2";

/// A membership, gone.
pub fn delete_member(tenant_id: Uuid, identity_id: Uuid) -> (command: Command)
    ensures
        command.says(
            "DELETE FROM dam_global.tenant_members WHERE tenant_id = $1 AND identity_id = $2"@,
            seq![Given::Id(tenant_id), Given::Id(identity_id)],
        ),
{
    Command::new(DELETE_MEMBER, vec![Value::Id(tenant_id), Value::Id(identity_id)])
}

pub const ELSEWHERE: &'static str =
    "SELECT EXISTS (SELECT 1 FROM dam_global.tenant_members WHERE identity_id = $1)";

/// Whether an identity is a member of any tenant.
pub fn elsewhere(identity_id: Uuid) -> (command: Command)
    ensures
        command.says(
            "SELECT EXISTS (SELECT 1 FROM dam_global.tenant_members WHERE identity_id = $1)"@,
            seq![Given::Id(identity_id)],
        ),
{
    Command::new(ELSEWHERE, vec![Value::Id(identity_id)])
}

pub const WRITE_DISABLED: &'static str =
    "UPDATE dam_global.identities SET status = 'disabled', deprovisioned_at = now(), updated_at = now() \
     WHERE id = $1";

/// An identity that no tenant holds any more.
pub fn write_disabled(identity_id: Uuid) -> (command: Command)
    ensures
        command.says(
            "UPDATE dam_global.identities SET status = 'disabled', deprovisioned_at = now(), updated_at = now() \
             WHERE id = $1"@,
            seq![Given::Id(identity_id)],
        ),
{
    Command::new(WRITE_DISABLED, vec![Value::Id(identity_id)])
}

pub const LOCK_MEMBERSHIPS: &'static str =
    "SELECT pg_advisory_xact_lock(hashtext('dam_global.tenant_members'), hashtext($1::text))";

/// A tenant's memberships, held until the transaction ends: that an administrator remains is a rule about all of them.
pub fn lock_memberships(tenant_id: Uuid) -> (command: Command)
    ensures
        command.says(
            "SELECT pg_advisory_xact_lock(hashtext('dam_global.tenant_members'), hashtext($1::text))"@,
            seq![Given::Id(tenant_id)],
        ),
{
    Command::new(LOCK_MEMBERSHIPS, vec![Value::Id(tenant_id)])
}

pub const ADMINISTRATORS: &'static str =
    "SELECT count(*) FROM dam_global.tenant_members WHERE tenant_id = $1 AND is_tenant_admin";

/// How many administrators a tenant has.
pub fn administrators(tenant_id: Uuid) -> (command: Command)
    ensures
        command.says(
            "SELECT count(*) FROM dam_global.tenant_members WHERE tenant_id = $1 AND is_tenant_admin"@,
            seq![Given::Id(tenant_id)],
        ),
{
    Command::new(ADMINISTRATORS, vec![Value::Id(tenant_id)])
}

} // verus!
