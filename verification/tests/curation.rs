//! Collections and bulk operations.

use dam_db::bulk::{
    self, dry_run, present, record_outcome, samples, started_at, Counters, ItemOutcome, Operation, State, ERROR_SAMPLE,
};
use dam_db::collections::{
    self, add, by_key, check_deletable, check_visibility, created, move_item, pins, renumber, Collection, Move, Pin,
    Shift,
};
use dam_db::json::Json;
use dam_db::{Error, ResourceKind};

/// What a move does to a list of assets by position.
fn moved(order: &[u128], from: usize, to: i32) -> Vec<u128> {
    let count = order.len() as i64;
    let Some(planned) = move_item(1, order[from], Some(from as i32), count, to).unwrap() else {
        return order.to_vec();
    };
    let mut after = vec![0; order.len()];
    for (position, asset) in order.iter().enumerate() {
        let position = position as i32;
        let place = if position as usize == from {
            planned.target
        } else {
            match planned.shift {
                Shift::Later { from, before } if from <= position && position < before => position + 1,
                Shift::Earlier { after, through } if after < position && position <= through => position - 1,
                _ => position,
            }
        };
        after[place as usize] = *asset;
    }
    after
}

#[test]
fn a_move_shifts_everything_between() {
    let order = [10, 11, 12, 13, 14];
    assert_eq!(moved(&order, 3, 1), vec![10, 13, 11, 12, 14]);
    assert_eq!(moved(&order, 1, 3), vec![10, 12, 13, 11, 14]);
    assert_eq!(moved(&order, 2, 2), order.to_vec());
    // Out of range is clamped rather than refused.
    assert_eq!(moved(&order, 0, 47), vec![11, 12, 13, 14, 10]);
    assert_eq!(moved(&order, 4, -3), vec![14, 10, 11, 12, 13]);
    // Sent back, a move is undone.
    let there = moved(&order, 1, 3);
    assert_eq!(moved(&there, 3, 1), order.to_vec());
}

#[test]
fn a_move_is_planned_as_one_shift() {
    assert_eq!(
        move_item(1, 2, Some(3), 5, 1),
        Ok(Some(Move { shift: Shift::Later { from: 1, before: 3 }, target: 1 }))
    );
    assert_eq!(
        move_item(1, 2, Some(1), 5, 3),
        Ok(Some(Move { shift: Shift::Earlier { after: 1, through: 3 }, target: 3 }))
    );
    assert_eq!(
        move_item(1, 2, None, 5, 1),
        Err(Error::NotFound {
            kind: ResourceKind::Asset,
            id: "00000000-0000-0000-0000-000000000002 is not in collection \
                 00000000-0000-0000-0000-000000000001"
                .to_owned(),
        })
    );
}

#[test]
fn adding_appends_and_adding_again_changes_nothing() {
    assert_eq!(add(false, None), Some(0));
    assert_eq!(add(false, Some(4)), Some(5));
    assert_eq!(add(true, Some(4)), None);
}

#[test]
fn removal_closes_the_gap() {
    assert_eq!(renumber(&vec![(7, 0), (8, 2), (9, 3)]), vec![(8, 1), (9, 2)]);
    assert!(renumber(&vec![(7, 0), (8, 1)]).is_empty());
    assert!(renumber(&vec![]).is_empty());
}

#[test]
fn a_pin_names_every_collection() {
    let rows = vec![
        (1, "launch".to_owned()),
        (1, "press".to_owned()),
        (2, "press".to_owned()),
        (1, "zoo".to_owned()),
    ];
    let pinned = pins(rows);
    assert_eq!(pinned.len(), 2);
    assert_eq!(pinned[0].asset_id, 1);
    assert_eq!(pinned[0].reason(), "pin_hot collection(s): launch, press, zoo");
    assert_eq!(pinned[1], Pin { asset_id: 2, collections: vec!["press".to_owned()] });
}

#[test]
fn collection_refusals_name_the_value() {
    for word in ["private", "shared", "public"] {
        assert!(check_visibility(word).is_ok());
    }
    assert_eq!(
        check_visibility("Public"),
        Err(Error::Unsupported(
            "\"Public\" is not a collection visibility; use private, shared or public".to_owned()
        ))
    );
    assert_eq!(created(Some(4), "k"), Ok(4));
    assert_eq!(
        created(None, "k"),
        Err(Error::Unsupported("a collection with the key \"k\" already exists".to_owned()))
    );
    assert!(check_deletable(0).is_ok());
    assert_eq!(
        check_deletable(2),
        Err(Error::Unsupported(
            "2 portal(s) publish this collection; delete or repoint them first".to_owned()
        ))
    );
}

#[test]
fn a_collection_is_found_by_its_key() {
    let collection = |id: u128, key: &str| Collection {
        id,
        key: key.to_owned(),
        label: String::new(),
        description: None,
        visibility: "private".to_owned(),
        pin_hot: false,
        item_count: 0,
    };
    let all = || vec![collection(1, "a"), collection(2, "b"), collection(3, "b")];
    assert_eq!(by_key(all(), "b").unwrap().id, 2);
    assert!(by_key(all(), "c").is_none());
    assert_eq!(collections::by_key(all(), "a").unwrap().id, 1);
}

// ---- bulk -------------------------------------------------------------------------------------------

const ALL: [State; 7] = [
    State::Queued,
    State::Running,
    State::Paused,
    State::Completed,
    State::Partial,
    State::Failed,
    State::Cancelled,
];

fn operation(state: &str) -> Operation {
    Operation {
        id: 1,
        kind: "tag".to_owned(),
        actor_id: None,
        target_count: 2,
        state: state.to_owned(),
        done_count: 0,
        failed_count: 0,
        resume_after: None,
        params: Json::Null,
        started_at: None,
        finished_at: None,
    }
}

#[test]
fn bulk_states_move_only_where_they_may() {
    for state in ALL {
        assert_eq!(State::parse(state.as_str()), Some(state));
        let live = matches!(state, State::Queued | State::Running | State::Paused);
        assert_eq!(operation(state.as_str()).is_terminal(), !live);
        assert_eq!(state.cancel(), if live { Some(State::Cancelled) } else { None });
        assert_eq!(state.finish(1, 0).is_some(), live);
        assert_eq!(state.start().is_some(), matches!(state, State::Queued | State::Paused));
        assert_eq!(state.pause().is_some(), state == State::Running);
    }
    assert_eq!(State::parse("done"), None);
    assert!(!operation("done").is_terminal());
    assert_eq!(started_at(Some(3), 9), 3);
    assert_eq!(started_at(None, 9), 9);
}

#[test]
fn the_terminal_state_is_derived_from_the_counters() {
    assert_eq!(State::Running.finish(5, 0), Some(State::Completed));
    assert_eq!(State::Running.finish(5, 1), Some(State::Partial));
    assert_eq!(State::Running.finish(0, 1), Some(State::Failed));
    assert_eq!(State::Queued.finish(0, 0), Some(State::Completed));
    assert_eq!(State::Completed.finish(0, 1), None);
}

#[test]
fn an_operation_over_nothing_is_refused() {
    assert_eq!(bulk::create("tag", &vec![3, 1, 3, 2]), Ok(vec![1, 2, 3]));
    assert_eq!(
        bulk::create("tag", &vec![]),
        Err(Error::Unsupported(
            "a tag operation over zero assets is a mis-built selection rather than an empty job".to_owned()
        ))
    );
    let targets: Vec<u128> = (0..30).collect();
    let run = dry_run("tag", &targets);
    assert_eq!((run.kind.as_str(), run.target_count, run.sample.len()), ("tag", 30, 20));
    assert_eq!(run.sample[19], 19);
    // What a confirmation shows is what creating the operation materialises.
    assert_eq!(dry_run("tag", &vec![1, 1]).target_count, 1);
    assert_eq!(dry_run("tag", &vec![3, 1, 3, 2]).target_count, 3);
    assert_eq!(dry_run("tag", &vec![]).target_count, 0);
}

#[test]
fn an_outcome_counts_once() {
    let none = Counters { done: 0, failed: 0, resume_after: None, sampled: 0 };
    let done = record_outcome(none, 9, ItemOutcome::Done, true);
    assert_eq!(done, Counters { done: 1, failed: 0, resume_after: Some(9), sampled: 0 });
    // Out of order, the marker does not go back.
    let failed = record_outcome(done, 4, ItemOutcome::Failed("no"), true);
    assert_eq!(failed, Counters { done: 1, failed: 1, resume_after: Some(9), sampled: 1 });
    // Recorded again, nothing changes.
    assert_eq!(record_outcome(failed, 4, ItemOutcome::Failed("no"), false), failed);
    let skipped = record_outcome(failed, 12, ItemOutcome::Skipped("there already"), true);
    assert_eq!(skipped, Counters { done: 1, failed: 1, resume_after: Some(12), sampled: 1 });
    let full = Counters { sampled: ERROR_SAMPLE, ..none };
    assert_eq!(record_outcome(full, 1, ItemOutcome::Failed("no"), true).sampled, ERROR_SAMPLE);
    assert_eq!(samples(none, ItemOutcome::Failed("no")), Some("no"));
    assert_eq!(samples(full, ItemOutcome::Failed("no")), None);
    assert_eq!(samples(none, ItemOutcome::Skipped("no")), None);
    assert_eq!(ItemOutcome::Done.written(), ("done", None));
    assert_eq!(ItemOutcome::Skipped("s").written(), ("skipped", Some("s")));
    assert_eq!(ItemOutcome::Failed("f").written(), ("failed", Some("f")));
}

#[test]
fn a_vanished_operation_is_an_inconsistency() {
    assert!(present(Some(operation("queued")), 1, "while finishing").is_ok());
    assert_eq!(
        present(None, 1, "while finishing"),
        Err(Error::Inconsistent(
            "bulk operation 00000000-0000-0000-0000-000000000001 vanished while finishing".to_owned()
        ))
    );
}
