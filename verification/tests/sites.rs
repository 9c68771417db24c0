//! Connected sites and what they use.

use dam_db::connector_refs::{
    horizon, list_limit, reference_of, refresh_overdue, report, set_state, stored_usage, sweep_absent,
    version_drifted, Held, ReferenceRow, STALE_AFTER,
};
use dam_db::connectors::{
    self, associated_data, classify, hydrate, rotate, stored_label, stored_site_url, Connector, ConnectorRefusal,
    ConnectorRow, Kind, Secrets, Status, SECRET_GRACE,
};
use dam_db::json::Json;
use dam_db::Error;

fn row(kind: &str, status: &str) -> ConnectorRow {
    ConnectorRow {
        id: 1,
        kind: kind.to_owned(),
        label: "Site".to_owned(),
        site_url: "https://example.org".to_owned(),
        remote_version: None,
        api_key_id: None,
        signing_secret: "new".to_owned(),
        previous_signing_secret: Some("old".to_owned()),
        secret_rotated_at: Some(100),
        asset_group_ids: vec![],
        allow_all_groups: false,
        allow_original: false,
        allow_restore: false,
        config: Json::Null,
        status: status.to_owned(),
        last_seen_at: None,
        last_error: None,
        created_at: 0,
    }
}

fn connector() -> Connector {
    hydrate(row("drupal", "active")).unwrap()
}

#[test]
fn a_connector_this_build_cannot_read_is_reported() {
    let read = connector();
    assert_eq!((read.kind, read.status, read.sealed_secret.as_str()), (Kind::Drupal, Status::Active, "new"));
    assert_eq!(
        hydrate(row("joomla", "gone")).unwrap_err(),
        Error::Inconsistent("connectors.kind holds \"joomla\"".to_owned())
    );
    assert_eq!(
        hydrate(row("drupal", "gone")).unwrap_err(),
        Error::Inconsistent("connectors.status holds \"gone\"".to_owned())
    );
    for kind in [
        Kind::Drupal,
        Kind::WordPress,
        Kind::AdobeCc,
        Kind::Figma,
        Kind::HubSpot,
        Kind::Salesforce,
        Kind::Generic,
    ] {
        assert_eq!(Kind::parse(kind.as_str()), Some(kind));
    }
    for status in [Status::Active, Status::Paused, Status::Error, Status::Revoked] {
        assert_eq!(Status::parse(status.as_str()), Some(status));
        assert_eq!(status.may_render(), matches!(status, Status::Active | Status::Error));
    }
}

#[test]
fn a_superseded_secret_lives_for_the_grace_window() {
    let mut found = connector();
    assert!(found.previous_is_live(100));
    assert_eq!(found.live_previous(100 + SECRET_GRACE - 1), Some("old"));
    assert_eq!(found.live_previous(100 + SECRET_GRACE), None);
    found.secret_rotated_at = None;
    assert!(!found.previous_is_live(0));
    found.secret_rotated_at = Some(i64::MAX);
    assert!(found.previous_is_live(i64::MAX));
    found.previous_sealed_secret = None;
    assert_eq!(found.live_previous(100), None);
}

#[test]
fn a_secret_is_bound_to_its_tenant_and_its_connector() {
    assert_eq!(
        associated_data("acme", 0x2a),
        "acme:connector:00000000-0000-0000-0000-00000000002a"
    );
    assert_eq!(
        connector().associated_data("acme"),
        "acme:connector:00000000-0000-0000-0000-000000000001"
    );
    assert_ne!(associated_data("acme", 1), associated_data("acme", 2));
    assert_ne!(associated_data("acme", 1), associated_data("other", 1));
}

#[test]
fn rotating_keeps_the_old_secret_only_when_asked() {
    let secrets = Secrets { current: "one".to_owned(), previous: None, rotated_at: None };
    let kept = rotate(1, Some(Status::Paused), secrets.clone(), "two".to_owned(), true, 9).unwrap();
    assert_eq!(
        kept,
        Secrets { current: "two".to_owned(), previous: Some("one".to_owned()), rotated_at: Some(9) }
    );
    let leaked = rotate(1, Some(Status::Active), kept.clone(), "three".to_owned(), false, 10).unwrap();
    assert_eq!(leaked.previous, None);
    assert_eq!(
        rotate(1, Some(Status::Revoked), kept.clone(), "x".to_owned(), false, 10).unwrap_err().message(),
        "connector 00000000-0000-0000-0000-000000000001 is revoked; register a new one"
    );
    assert_eq!(
        rotate(1, None, kept, "x".to_owned(), false, 10).unwrap_err().message(),
        "no connector 00000000-0000-0000-0000-000000000001"
    );
}

#[test]
fn revocation_is_final_and_clears_both_secrets() {
    let secrets =
        Secrets { current: "one".to_owned(), previous: Some("zero".to_owned()), rotated_at: Some(3) };
    let (status, after) = connectors::set_status(Status::Active, secrets.clone(), Status::Revoked).unwrap();
    assert_eq!(status, Status::Revoked);
    assert_eq!(after, Secrets { current: String::new(), previous: None, rotated_at: Some(3) });
    assert_eq!(
        connectors::set_status(Status::Paused, secrets.clone(), Status::Active),
        Some((Status::Active, secrets.clone()))
    );
    assert_eq!(connectors::set_status(Status::Revoked, secrets, Status::Active), None);
}

#[test]
fn a_registration_is_stored_in_one_spelling() {
    assert_eq!(stored_label("  Main site "), "Main site");
    assert_eq!(stored_site_url("https://example.org///"), "https://example.org");
    assert_eq!(stored_site_url("///"), "");
    let refused = classify(Some("connectors_site_idx".to_owned()), Kind::WordPress, "https://example.org/").unwrap();
    assert_eq!(refused.message(), "wordpress is already connected to https://example.org");
    assert_eq!(
        classify(Some("connectors_kind_check".to_owned()), Kind::WordPress, "x"),
        Some(ConnectorRefusal::Invalid("connectors_kind_check".to_owned()))
    );
    assert_eq!(classify(None, Kind::WordPress, "x"), None);
}

#[test]
fn two_kinds_of_stale_are_derived() {
    assert!(version_drifted(Some(1), Some(2)));
    assert!(!version_drifted(Some(2), Some(2)) && !version_drifted(None, Some(2)) && !version_drifted(Some(1), None));
    let now = STALE_AFTER * 2;
    assert!(refresh_overdue(None, now));
    assert!(refresh_overdue(Some(now - STALE_AFTER), now));
    assert!(!refresh_overdue(Some(now - STALE_AFTER + 1), now));
    assert_eq!(horizon(now), STALE_AFTER);
    let read = reference_of(
        ReferenceRow {
            connector_id: 1,
            connector_label: "Site".to_owned(),
            asset_id: 2,
            remote_entity_type: "media".to_owned(),
            remote_entity_id: "9".to_owned(),
            remote_url: None,
            usage_count: 3,
            usage_sample: Json::List(vec![]),
            synced_version_no: Some(1),
            synced_at: Some(now),
            state: "linked".to_owned(),
            current_version_no: Some(4),
        },
        now,
    );
    assert!(read.version_drifted && !read.refresh_overdue);
    assert_eq!((read.asset_id, read.usage_count, read.state.as_str()), (2, 3, "linked"));
}

#[test]
fn a_full_report_sweeps_what_it_leaves_out() {
    let held = |id: &str, state: &str| Held { remote_entity_id: id.to_owned(), state: state.to_owned() };
    let rows = vec![held("1", "linked"), held("2", "linked"), held("3", "orphaned"), held("4", "expired")];
    let swept = sweep_absent(&rows, &vec!["2".to_owned(), "5".to_owned()]);
    assert_eq!(swept, vec![held("1", "linked"), held("4", "expired")]);
    assert!(set_state("linked", "expired"));
    assert!(!set_state("orphaned", "expired") && !set_state("expired", "expired"));
    assert_eq!(report(&vec![1, 0, 2]).written, 3);
    assert_eq!((stored_usage(-4), stored_usage(7)), (0, 7));
    assert_eq!((list_limit(0), list_limit(20), list_limit(9000)), (1, 20, 500));
}
