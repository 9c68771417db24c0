//! Derivatives, integrity and metering.

use dam_db::derivatives::{
    record, recorded, replace_proxy, replaced, served_horizon, superseded, Derivative, NewDerivative, ProxyRow,
    ProxyWrite, SERVED_RESOLUTION,
};
use dam_db::integrity::{
    checkable_of, kept_checksum, CheckableRow, PlacementState, Standing, Verdict,
};
use dam_db::json::Json;
use dam_db::metering::{check_day, measure, DayTotals, Measured, Refusal};
use dam_db::Error;

fn new<'a>(role: &'a str, op_hash: &'a str) -> NewDerivative<'a> {
    NewDerivative {
        asset_id: 1,
        role,
        profile: "p",
        op_hash,
        object_key: "key",
        mime: "image/jpeg",
        bytes: 1,
        width: None,
        height: None,
        regen_cost_ms: None,
    }
}

fn stored(op_hash: &str) -> Derivative {
    Derivative {
        id: 9,
        asset_id: 1,
        role: "proxy".to_owned(),
        profile: "p".to_owned(),
        op_hash: op_hash.to_owned(),
        object_key: "key".to_owned(),
        mime: "image/jpeg".to_owned(),
        bytes: 1,
        width: None,
        height: None,
    }
}

#[test]
fn a_second_proxy_recipe_is_refused() {
    assert!(record(&new("proxy", "h2"), &None).is_ok());
    assert!(record(&new("proxy", "h1"), &Some(stored("h1"))).is_ok());
    assert!(record(&new("thumbnail", "h2"), &Some(stored("h1"))).is_ok());
    assert_eq!(
        record(&new("proxy", "h2"), &Some(stored("h1"))),
        Err(Error::Unsupported(
            "asset 00000000-0000-0000-0000-000000000001 already has a master proxy under recipe h1; an asset has \
             exactly one (D5), so a redefined proxy must go through `replace_proxy`, which reports the object it \
             supersedes"
                .to_owned()
        ))
    );
    assert_eq!(recorded(Some(stored("h1")), &new("proxy", "h1")), Ok(stored("h1")));
    assert_eq!(
        recorded(None, &new("proxy", "h1")),
        Err(Error::Inconsistent(
            "derivative h1 for asset 00000000-0000-0000-0000-000000000001 vanished immediately after being recorded"
                .to_owned()
        ))
    );
}

#[test]
fn a_swap_hands_back_what_it_leaves_unreferenced() {
    let row = ProxyRow { id: 4, op_hash: "h1".to_owned(), object_key: "old".to_owned() };
    assert_eq!(replace_proxy(&new("proxy", "h2"), None), Ok(ProxyWrite::Insert));
    assert_eq!(replace_proxy(&new("proxy", "h1"), Some(row.clone())), Ok(ProxyWrite::Keep));
    let swap = replace_proxy(&new("proxy", "h2"), Some(row.clone())).unwrap();
    assert_eq!(swap, ProxyWrite::Swap { id: 4, orphaned: Some("old".to_owned()) });
    // A new recipe under the old key leaves nothing behind: the row still names that object.
    let renamed = NewDerivative { object_key: "old", ..new("proxy", "h2") };
    let kept = replace_proxy(&renamed, Some(row.clone())).unwrap();
    assert_eq!(kept, ProxyWrite::Swap { id: 4, orphaned: None });
    assert_eq!(replaced(kept, Some(stored("h2")), &renamed), Ok((stored("h2"), None)));
    assert_eq!(
        replace_proxy(&new("thumbnail", "h2"), Some(row)),
        Err(Error::Unsupported(
            "replace_proxy is for the master proxy; \"thumbnail\" is an ordinary derivative and can simply be \
             recorded alongside its predecessors"
                .to_owned()
        ))
    );
    assert_eq!(
        replaced(swap.clone(), Some(stored("h2")), &new("proxy", "h2")),
        Ok((stored("h2"), Some("old".to_owned())))
    );
    assert_eq!(replaced(ProxyWrite::Keep, Some(stored("h2")), &new("proxy", "h2")), Ok((stored("h2"), None)));
    assert_eq!(
        replaced(swap, None, &new("proxy", "h2")),
        Err(Error::Inconsistent(
            "master proxy h2 for asset 00000000-0000-0000-0000-000000000001 vanished immediately after being written"
                .to_owned()
        ))
    );
}

#[test]
fn an_empty_profile_set_evicts_nothing() {
    assert!(superseded(&vec!["h".to_owned()], 5).is_ok());
    assert_eq!(
        superseded(&vec![], 5),
        Err(Error::Unsupported(
            "refusing to list superseded derivatives against an empty profile set; every derivative would qualify, \
             which is a configuration failure rather than an eviction plan"
                .to_owned()
        ))
    );
    assert_eq!(served_horizon(SERVED_RESOLUTION + 5), 5);
}

// ---- integrity --------------------------------------------------------------------------------------

fn placement(state: &str) -> CheckableRow {
    CheckableRow {
        object_key: "k".to_owned(),
        pool_id: 1,
        asset_id: Some(2),
        derivative_id: None,
        size_bytes: 3,
        remote_checksum: None,
        state: state.to_owned(),
    }
}

#[test]
fn a_verdict_decides_the_state() {
    assert_eq!(Verdict::Present.state(), PlacementState::Present);
    assert_eq!(Verdict::Missing.state(), PlacementState::Missing);
    assert_eq!(Verdict::Corrupt.state(), PlacementState::Corrupt);
    assert!(!Verdict::Present.is_finding() && Verdict::Missing.is_finding() && Verdict::Corrupt.is_finding());
    assert_eq!(Standing { present: 9, missing: 2, corrupt: 3, unverified: 4 }.findings(), 5);
    for state in [
        PlacementState::Uploading,
        PlacementState::Present,
        PlacementState::Transitioning,
        PlacementState::Missing,
        PlacementState::Corrupt,
        PlacementState::Deleting,
    ] {
        assert_eq!(PlacementState::parse(state.as_str()), Some(state));
        assert_eq!(checkable_of(placement(state.as_str())).unwrap().state, state);
    }
    assert_eq!(
        checkable_of(placement("lost")),
        Err(Error::Inconsistent("placement state holds \"lost\"".to_owned()))
    );
}

#[test]
fn a_checksum_is_never_erased() {
    let sum = |text: &str| Some(text.to_owned());
    assert_eq!(kept_checksum(sum("b"), sum("a")), sum("b"));
    assert_eq!(kept_checksum(None, sum("a")), sum("a"));
    assert_eq!(kept_checksum(None, None), None);
}

// ---- metering ---------------------------------------------------------------------------------------

fn measured(by_class: Vec<(String, i64)>, restore_cents: i64, ai_cents: i64) -> Measured {
    Measured {
        asset_count: 1,
        by_class,
        downloads: 2,
        restores: 3,
        restore_bytes: 4,
        restore_cents,
        ai_input_tokens: 5,
        ai_output_tokens: 6,
        ai_cached_tokens: 7,
        ai_cents,
    }
}

#[test]
fn only_an_observable_day_is_measured() {
    assert!(check_day(100, 100).is_ok() && check_day(100, 101).is_ok() && check_day(105, 100).is_ok());
    assert_eq!(check_day(100, 102), Err(Refusal::LevelUnobservable { day: 100, today: 102 }));
    assert!(check_day(i32::MIN, i32::MAX).is_err());
    assert_eq!(
        Refusal::LevelUnobservable { day: 0, today: 20_000 }.message(),
        "1970-01-01 is before 2024-10-04 minus 1 day(s), and object_placements only knows what is stored now \
         \u{2014} measuring it would record today's storage against a past day"
    );
    assert!(measure(100, 102, measured(vec![], 0, 0)).is_err());
}

#[test]
fn a_day_adds_up() {
    let totals = measure(
        100,
        101,
        measured(vec![("STANDARD".to_owned(), 10), ("GLACIER".to_owned(), 32)], 40, 2),
    )
    .unwrap();
    assert_eq!(totals.stored_bytes(), 42);
    assert_eq!(totals.est_cost_cents, 42);
    assert_eq!(
        totals.bytes_by_pool,
        Json::Object(vec![("STANDARD".to_owned(), Json::Int(10)), ("GLACIER".to_owned(), Json::Int(32))])
    );
    assert_eq!((totals.asset_count, totals.downloads, totals.restores, totals.restore_bytes), (1, 2, 3, 4));
    assert_eq!((totals.ai_input_tokens, totals.ai_output_tokens, totals.ai_cached_tokens), (5, 6, 7));
    let dear = measure(100, 100, measured(vec![], i64::MAX, 1)).unwrap();
    assert_eq!(dear.est_cost_cents, i64::MAX);
    let refund = measure(100, 100, measured(vec![], i64::MIN, -1)).unwrap();
    assert_eq!(refund.est_cost_cents, i64::MIN);
}

#[test]
fn a_malformed_class_counts_nothing() {
    let plain = DayTotals::default();
    assert_eq!(plain.bytes_by_pool, Json::Object(vec![]));
    assert_eq!(plain.stored_bytes(), 0);
    let odd = DayTotals {
        bytes_by_pool: Json::Object(vec![
            ("a".to_owned(), Json::Int(5)),
            ("b".to_owned(), Json::Text("6".to_owned())),
            ("c".to_owned(), Json::Number("7.5".to_owned())),
        ]),
        ..DayTotals::default()
    };
    assert_eq!(odd.stored_bytes(), 5);
    assert_eq!(DayTotals { bytes_by_pool: Json::Null, ..DayTotals::default() }.stored_bytes(), 0);
}
