//! Memberships.

use dam_db::members::{
    added, address, attach, check_roles, disables_identity, key_name, reactivates, remove, removed, set_roles,
    unknown_roles, Attached, Held, MemberRefusal, MembershipRow, NewMember, Reactivate, Removed,
};

fn names(list: &[&str]) -> Vec<String> {
    list.iter().map(|name| (*name).to_owned()).collect()
}

fn member(email: &str) -> NewMember {
    NewMember {
        email: email.to_owned(),
        display_name: None,
        role_names: vec![],
        is_tenant_admin: false,
    }
}

#[test]
fn unknown_roles_come_back_sorted_and_once() {
    let wanted = names(&["viewer", "zeta", "editors", "zeta", "alpha"]);
    let known = names(&["viewer", "editor"]);
    assert_eq!(unknown_roles(&wanted, &known), names(&["alpha", "editors", "zeta"]));
    assert!(unknown_roles(&names(&["viewer"]), &known).is_empty());
    assert!(check_roles(&names(&["viewer"]), &known).is_ok());
    assert_eq!(
        check_roles(&wanted, &known).unwrap_err().message(),
        "no such role: alpha, editors, zeta"
    );
}

#[test]
fn an_address_needs_something_on_both_sides() {
    assert_eq!(address(&member("  a@b ")), Ok("a@b".to_owned()));
    assert_eq!(address(&member("a@b@c")), Ok("a@b@c".to_owned()));
    for bad in ["", "ab", "@b", "a@", " @ ", "a@b@"] {
        assert_eq!(
            address(&member(bad)),
            Err(MemberRefusal::EmailInvalid(bad.trim().to_owned())),
            "{bad:?}"
        );
    }
    assert_eq!(key_name(&member(" a@b ")), "issued with access for a@b");
}

#[test]
fn attaching_finds_or_creates() {
    let new = member("a@b");
    assert_eq!(attach(&new, Some(5), 9, false), Ok(Attached { identity_id: 5, identity_existed: true }));
    assert_eq!(attach(&new, None, 9, false), Ok(Attached { identity_id: 9, identity_existed: false }));
    assert_eq!(attach(&new, Some(5), 9, true), Err(MemberRefusal::AlreadyAMember));
    assert_eq!(attach(&member("ab"), Some(5), 9, true), Err(MemberRefusal::EmailInvalid("ab".to_owned())));
    assert!(reactivates(Reactivate::Always, true));
    assert!(!reactivates(Reactivate::UnlessProviderOwned, true));
    assert!(reactivates(Reactivate::UnlessProviderOwned, false));
    let made = added(Attached { identity_id: 5, identity_existed: true }, "key".to_owned());
    assert_eq!((made.identity_id, made.api_key.as_str(), made.identity_existed), (5, "key", true));
}

fn membership(is_tenant_admin: bool, scim_managed: bool) -> Option<MembershipRow> {
    Some(MembershipRow { role_names: names(&["viewer"]), is_tenant_admin, scim_managed })
}

#[test]
fn the_last_administrator_cannot_step_down() {
    let held = Held { role_names: names(&["viewer"]), is_tenant_admin: true };
    assert_eq!(set_roles(membership(true, false), false, 1), Err(MemberRefusal::LastAdmin));
    assert_eq!(set_roles(membership(true, false), false, 2), Ok(held.clone()));
    assert_eq!(set_roles(membership(true, false), true, 1), Ok(held));
    assert!(set_roles(membership(false, false), false, 1).is_ok());
    assert_eq!(set_roles(membership(true, true), false, 1), Err(MemberRefusal::ScimManaged));
    assert_eq!(set_roles(None, true, 5), Err(MemberRefusal::NotAMember));
}

#[test]
fn the_last_administrator_cannot_be_removed() {
    assert_eq!(remove(membership(true, false), 1), Err(MemberRefusal::LastAdmin));
    assert_eq!(remove(None, 1), Err(MemberRefusal::NotAMember));
    assert!(remove(membership(false, true), 1).is_ok());
    let held = remove(membership(true, false), 2).unwrap();
    assert_eq!(
        removed(held.clone(), 3, true),
        Removed {
            keys_revoked: 3,
            identity_disabled: false,
            roles_held: names(&["viewer"]),
            was_tenant_admin: true,
        }
    );
    assert!(removed(held, 0, false).identity_disabled);
    assert!(disables_identity(false) && !disables_identity(true));
}

#[test]
fn member_refusals_are_plain_sentences() {
    assert_eq!(MemberRefusal::EmailInvalid("ab".to_owned()).message(), "`ab` is not an email address");
    assert_eq!(
        MemberRefusal::AlreadyAMember.message(),
        "that person is already a member of this tenant"
    );
    assert_eq!(MemberRefusal::NotAMember.message(), "no such member");
    assert_eq!(MemberRefusal::LastAdmin.message(), "this is the tenant's only administrator");
    assert_eq!(
        MemberRefusal::ScimManaged.message(),
        "this account is managed by your identity provider; change it there"
    );
}
