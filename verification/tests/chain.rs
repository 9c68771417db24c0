//! The governance chain.

use dam_db::audit::{
    export_entry, page_limit, Action, ActorKind, Break, Checked, Entry, NewEntry, Verification, Walk, VERIFY_BATCH,
};
use dam_db::json::Json;

/// A stand-in digest: what matters is that it covers the columns and the predecessor.
fn digest(entry: &Entry) -> String {
    let columns = format!("{}|{}|{:?}|{:?}", entry.seq, entry.action, entry.target_id, entry.prev_hash);
    blake3::hash(columns.as_bytes()).to_hex().to_string()
}

fn append(chain: &mut Vec<Entry>, seq: i64) {
    let prev_hash = chain.last().map(|entry| entry.hash.clone());
    let entry = NewEntry::by_person(Action::RoleGranted, 7, "role".to_owned())
        .on(format!("r{seq}"))
        .chained(seq, seq * 10, Json::Object(vec![]), prev_hash);
    let hash = digest(&entry);
    chain.push(entry.sealed(hash));
}

fn chain(seqs: &[i64]) -> Vec<Entry> {
    let mut entries = vec![];
    for seq in seqs {
        append(&mut entries, *seq);
    }
    entries
}

fn checked(entries: Vec<Entry>) -> Vec<Checked> {
    entries
        .into_iter()
        .map(|entry| {
            let recomputed = digest(&entry);
            Checked { entry, recomputed }
        })
        .collect()
}

fn verify(from_seq: i64, before: Option<String>, entries: Vec<Entry>) -> Verification {
    Walk::start(from_seq, before).absorb(checked(entries)).expect("the batch is not full")
}

#[test]
fn an_intact_chain_verifies_even_with_gaps() {
    let verification = verify(1, None, chain(&[1, 2, 5, 9]));
    assert!(verification.is_intact());
    assert_eq!(
        verification,
        Verification { checked: 4, from_seq: 1, through_seq: Some(9), first_break: None }
    );
    assert_eq!(
        verify(1, None, vec![]),
        Verification { checked: 0, from_seq: 1, through_seq: None, first_break: None }
    );
}

#[test]
fn an_edited_entry_is_reported_as_altered() {
    let mut entries = chain(&[1, 2, 3]);
    let stored = entries[1].hash.clone();
    entries[1].target_id = Some("elsewhere".to_owned());
    let recomputed = digest(&entries[1]);
    let verification = verify(1, None, entries);
    assert!(!verification.is_intact());
    assert_eq!(verification.checked, 2);
    assert_eq!(verification.through_seq, Some(2));
    let found = verification.first_break.unwrap();
    assert_eq!(found.seq(), 2);
    assert_eq!(found, Break::Altered { seq: 2, stored, recomputed });
}

#[test]
fn a_deleted_entry_is_reported_as_unlinked() {
    let mut entries = chain(&[1, 2, 3]);
    let gone = entries.remove(1);
    let first = entries[0].hash.clone();
    let verification = verify(1, None, entries);
    let found = verification.first_break.unwrap();
    assert_eq!(found.seq(), 3);
    assert_eq!(
        found,
        Break::Unlinked { seq: 3, claimed_prev: Some(gone.hash), actual_prev: Some(first) }
    );
}

#[test]
fn the_link_into_the_start_is_checked() {
    let mut entries = chain(&[1, 2, 3]);
    let rest = entries.split_off(1);
    let before = entries[0].hash.clone();
    assert!(verify(2, Some(before), rest).is_intact());
    let mut entries = chain(&[1, 2, 3]);
    let rest = entries.split_off(1);
    let verification = verify(2, Some("forged".to_owned()), rest);
    assert_eq!(verification.first_break.unwrap().seq(), 2);
}

#[test]
fn full_batches_go_on_where_the_last_stopped() {
    let seqs: Vec<i64> = (1..=VERIFY_BATCH as i64 + 3).collect();
    let mut first = chain(&seqs);
    let second = first.split_off(VERIFY_BATCH);
    let mut walk = Walk::start(1, None);
    assert_eq!(walk.cursor(), 1);
    assert!(walk.absorb(checked(first)).is_none());
    assert_eq!(walk.cursor(), VERIFY_BATCH as i64 + 1);
    let verification = walk.absorb(checked(second)).unwrap();
    assert!(verification.is_intact());
    assert_eq!(verification.checked, VERIFY_BATCH as u64 + 3);
    // The cursor saturates at the last number there is.
    let mut walk = Walk::start(i64::MAX, None);
    walk.absorb(checked(chain(&[i64::MAX / 10 - 1])));
    assert_eq!(walk.cursor(), i64::MAX / 10);
}

#[test]
fn a_new_entry_names_its_actor() {
    let entry = NewEntry::by_person(Action::KeyIssued, 3, "api_key".to_owned())
        .on("k".to_owned())
        .as_kind(ActorKind::Support)
        .with(Json::Bool(true));
    assert_eq!(entry.actor_id, Some(3));
    assert_eq!(entry.actor_kind, ActorKind::Support);
    assert_eq!(entry.payload, Json::Bool(true));
    let stored = entry.chained(4, 9, Json::Null, Some("p".to_owned()));
    assert_eq!(
        (stored.actor_kind.as_str(), stored.action.as_str(), stored.hash.as_str()),
        ("support", "key.issued", "")
    );
    assert_eq!((stored.seq, stored.at, stored.payload), (4, 9, Json::Null));
    let system = NewEntry::by_system(Action::RetentionChanged, "asset".to_owned());
    assert_eq!((system.actor_id, system.actor_kind), (None, ActorKind::System));
    for kind in [ActorKind::User, ActorKind::ApiKey, ActorKind::Connector, ActorKind::System, ActorKind::Support] {
        assert_eq!(ActorKind::parse(kind.as_str()), Some(kind));
    }
    assert_eq!(ActorKind::parse("root"), None);
}

#[test]
fn an_export_records_the_range_it_took() {
    let entries = chain(&[5, 6, 8]);
    let entry = export_entry(5, 3, Some(2), ActorKind::User, &entries);
    assert_eq!(entry.action, Action::AuditExported);
    assert_eq!(entry.target_kind, "audit_log");
    assert_eq!(
        entry.payload,
        Json::Object(vec![
            ("from_seq".to_owned(), Json::Int(5)),
            ("entries".to_owned(), Json::Int(3)),
            ("through_seq".to_owned(), Json::Int(8)),
            ("truncated".to_owned(), Json::Bool(true)),
        ])
    );
    let empty = export_entry(5, 4, None, ActorKind::System, &vec![]);
    assert_eq!(
        empty.payload,
        Json::Object(vec![
            ("from_seq".to_owned(), Json::Int(5)),
            ("entries".to_owned(), Json::Int(0)),
            ("through_seq".to_owned(), Json::Null),
            ("truncated".to_owned(), Json::Bool(false)),
        ])
    );
    assert_eq!((page_limit(0), page_limit(50), page_limit(50_000)), (1, 50, 10_000));
}
