use dam_db::jobs;
use dam_db::jobs::{ClaimOptions, Job, JobSpec, Lease, State, Waiting};
use dam_db::json::Json;
use dam_db::Error;

fn waiting(id: u128, tenant_id: u128, priority: i16, run_after: i64) -> Waiting {
    Waiting { id, tenant_id, priority, run_after }
}

fn batch(limit: i64) -> ClaimOptions {
    ClaimOptions { limit, ..ClaimOptions::default() }
}

fn running(worker: &str, expires_at: i64) -> Lease {
    Lease {
        state: State::Running,
        locked_by: Some(worker.to_string()),
        expires_at: Some(expires_at),
        attempts: 1,
        max_attempts: 5,
        last_error: None,
    }
}

#[test]
fn a_spec_starts_with_the_defaults() {
    let spec = JobSpec::new(7, "derive".to_string());
    assert_eq!(spec.tenant_id, 7);
    assert_eq!(spec.kind, "derive");
    assert!(matches!(&spec.payload, Json::Object(members) if members.is_empty()));
    assert_eq!(spec.priority, 100);
    assert_eq!(spec.run_after, None);
    assert_eq!(spec.max_attempts, 5);
    assert_eq!(spec.dedupe_key, None);
}

#[test]
fn each_builder_changes_its_own_field() {
    let spec = JobSpec::new(7, "derive".to_string())
        .payload(Json::Int(3))
        .priority(40)
        .run_after(99)
        .max_attempts(2)
        .dedupe_key("k".to_string());
    assert_eq!(spec.tenant_id, 7);
    assert_eq!(spec.kind, "derive");
    assert!(matches!(spec.payload, Json::Int(3)));
    assert_eq!(spec.priority, 40);
    assert_eq!(spec.run_after, Some(99));
    assert_eq!(spec.max_attempts, 2);
    assert_eq!(spec.dedupe_key, Some("k".to_string()));
}

#[test]
fn the_last_attempt_is_known() {
    let job = |attempts: i32| Job {
        id: 1,
        tenant_id: 2,
        kind: "derive".to_string(),
        payload: Json::Null,
        attempts,
        max_attempts: 3,
    };
    assert!(!job(2).is_final_attempt());
    assert!(job(3).is_final_attempt());
    assert!(job(4).is_final_attempt());
}

#[test]
fn a_claim_takes_ten_for_a_minute_by_default() {
    let options = ClaimOptions::default();
    assert_eq!(options.limit, 10);
    assert_eq!(options.per_tenant, None);
    assert_eq!(options.lease, 60_000_000);
}

#[test]
fn a_quarter_is_reserved_but_never_the_last_slot() {
    assert_eq!(jobs::reserve(-1), 0);
    assert_eq!(jobs::reserve(0), 0);
    assert_eq!(jobs::reserve(1), 0);
    assert_eq!(jobs::reserve(2), 1);
    assert_eq!(jobs::reserve(4), 1);
    assert_eq!(jobs::reserve(8), 2);
    assert_eq!(jobs::reserve(100), 25);
}

#[test]
fn a_quiet_tenant_is_not_stuck_behind_a_backlog() {
    let mut queue: Vec<Waiting> = Vec::new();
    for n in 0..200u128 {
        queue.push(waiting(n + 1, 1, 40, n as i64));
    }
    queue.push(waiting(900, 2, 40, 5_000));
    let picked = jobs::claim(&queue, batch(10));
    assert_eq!(picked.len(), 10);
    assert!(picked.contains(&900));
    assert!(picked.contains(&1));
    assert!(!picked.contains(&10));
}

#[test]
fn one_tenant_alone_fills_the_batch() {
    let queue: Vec<Waiting> = (0..50u128).map(|n| waiting(n + 1, 1, 40, n as i64)).collect();
    let mut picked = jobs::claim(&queue, batch(10));
    picked.sort();
    assert_eq!(picked, (1..=10u128).collect::<Vec<u128>>());
}

#[test]
fn tenants_are_served_in_turn() {
    let queue = vec![
        waiting(1, 1, 10, 0),
        waiting(2, 1, 10, 1),
        waiting(3, 1, 10, 2),
        waiting(4, 2, 45, 7),
        waiting(5, 3, 45, 8),
        waiting(6, 3, 45, 9),
    ];
    let mut picked = jobs::claim(&queue, batch(4));
    picked.sort();
    assert_eq!(picked, vec![1, 2, 4, 5]);
}

#[test]
fn background_work_gets_the_reserve_and_the_oldest_of_it_first() {
    let mut queue: Vec<Waiting> = (0..20u128).map(|n| waiting(n + 1, 1, 40, n as i64)).collect();
    queue.push(waiting(101, 1, 200, 3));
    queue.push(waiting(102, 1, 60, 9));
    let mut picked = jobs::claim(&queue, batch(4));
    picked.sort();
    assert_eq!(picked, vec![1, 2, 3, 101]);
    let mut single = jobs::claim(&queue, batch(1));
    single.sort();
    assert_eq!(single, vec![1]);
}

#[test]
fn the_band_begins_at_fifty() {
    let queue = vec![waiting(1, 1, 10, 0), waiting(2, 1, 20, 1), waiting(3, 1, 50, 2)];
    let mut picked = jobs::claim(&queue, batch(2));
    picked.sort();
    assert_eq!(picked, vec![1, 3]);
    let queue = vec![waiting(1, 1, 10, 0), waiting(2, 1, 20, 1), waiting(3, 1, 49, 2)];
    let mut picked = jobs::claim(&queue, batch(2));
    picked.sort();
    assert_eq!(picked, vec![1, 2]);
}

#[test]
fn a_cap_per_tenant_binds_before_the_limit() {
    let queue: Vec<Waiting> = (0..50u128).map(|n| waiting(n + 1, n % 2, 40, n as i64)).collect();
    let options = ClaimOptions { limit: 10, per_tenant: Some(2), lease: 1 };
    let mut picked = jobs::claim(&queue, options);
    picked.sort();
    assert_eq!(picked, vec![1, 2, 3, 4]);
}

#[test]
fn an_empty_queue_and_an_empty_batch_take_nothing() {
    assert_eq!(jobs::claim(&vec![], batch(10)), Vec::<u128>::new());
    assert_eq!(jobs::claim(&vec![waiting(1, 1, 40, 0)], batch(0)), Vec::<u128>::new());
    assert_eq!(jobs::claim(&vec![waiting(1, 1, 40, 0)], batch(-5)), Vec::<u128>::new());
}

#[test]
fn states_read_back() {
    for state in [State::Queued, State::Running, State::Succeeded, State::Dead] {
        assert_eq!(State::parse(state.as_str()), Some(state));
    }
    assert_eq!(State::Succeeded.as_str(), "succeeded");
    assert_eq!(State::parse("Queued"), None);
}

#[test]
fn a_failure_backs_off_and_then_dies() {
    let first = jobs::fail(1, 5);
    assert_eq!(first.state, State::Queued);
    assert_eq!(first.wait, 2);
    assert!(!first.finished);
    assert_eq!(jobs::fail(0, 5).wait, 1);
    assert_eq!(jobs::fail(11, 20).wait, 2048);
    assert_eq!(jobs::fail(12, 20).wait, 3600);
    assert_eq!(jobs::fail(500, 1000).wait, 3600);
    let last = jobs::fail(5, 5);
    assert_eq!(last.state, State::Dead);
    assert!(last.finished);
}

#[test]
fn a_lapsed_lease_comes_back() {
    let reclaimed = jobs::reclaim_expired(&running("w1", 99), 100).unwrap();
    assert_eq!(reclaimed.state, State::Queued);
    assert_eq!(reclaimed.last_error, "lease expired; worker presumed dead");
    assert!(!reclaimed.finished);
    assert_eq!(jobs::reclaim_expired(&running("w1", 100), 100), None);
    let spent = Lease {
        attempts: 5,
        last_error: Some("boom".to_string()),
        ..running("w1", 99)
    };
    let reclaimed = jobs::reclaim_expired(&spent, 100).unwrap();
    assert_eq!(reclaimed.state, State::Dead);
    assert_eq!(reclaimed.last_error, "boom");
    assert!(reclaimed.finished);
    let queued = Lease { state: State::Queued, ..running("w1", 99) };
    assert_eq!(jobs::reclaim_expired(&queued, 100), None);
    let endless = Lease { expires_at: None, ..running("w1", 99) };
    assert_eq!(jobs::reclaim_expired(&endless, 100), None);
}

#[test]
fn only_the_holder_extends_a_lease() {
    assert_eq!(jobs::heartbeat(9, "w1", Some(&running("w1", 1))), Ok(()));
    let lost = Error::LeaseLost { job_id: 9, worker: "w2".to_string() };
    assert_eq!(jobs::heartbeat(9, "w2", Some(&running("w1", 1))), Err(lost.clone()));
    assert_eq!(jobs::heartbeat(9, "w2", None), Err(lost));
    let queued = Lease { state: State::Queued, locked_by: None, ..running("w1", 1) };
    assert!(jobs::heartbeat(9, "w1", Some(&queued)).is_err());
}

#[test]
fn a_job_is_taken_once() {
    assert_eq!(jobs::take(State::Queued, 0), Some(1));
    assert_eq!(jobs::take(State::Running, 1), None);
    assert_eq!(jobs::take(State::Dead, 5), None);
    assert_eq!(jobs::take(State::Succeeded, 5), None);
}

#[test]
fn an_enqueue_stands_for_the_incumbent() {
    assert_eq!(jobs::enqueued(Some(1), None), Ok(1));
    assert_eq!(jobs::enqueued(None, Some(2)), Ok(2));
    assert_eq!(
        jobs::enqueued(None, None),
        Err(Error::Migrate(
            "job insert conflicted but no in-flight job found; retry the enqueue".to_string()
        ))
    );
}
