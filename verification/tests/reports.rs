use dam_db::events;
use dam_db::events::{ActorKind, NewEvent};
use dam_db::judgements;
use dam_db::judgements::JudgementRow;
use dam_db::json::Json;

fn row(query: &str, asset_id: u128, grade: i16) -> JudgementRow {
    JudgementRow { query_text: query.to_string(), asset_id, grade }
}

#[test]
fn an_event_a_person_caused_names_them_and_the_asset() {
    let event = NewEvent::by_person(events::Kind::Edited, 5, 6);
    assert_eq!(event.kind, events::Kind::Edited);
    assert_eq!(event.asset_id, Some(5));
    assert_eq!(event.actor_id, Some(6));
    assert_eq!(event.actor_kind, ActorKind::User);
    assert!(matches!(&event.context, Json::Object(members) if members.is_empty()));
    assert_eq!(event.bytes, None);
    let event = event.with(Json::Text("label".to_string()));
    assert!(matches!(&event.context, Json::Text(text) if text == "label"));
    assert_eq!(event.asset_id, Some(5));
}

#[test]
fn events_are_spelled_as_the_column_spells_them() {
    assert_eq!(events::Kind::Uploaded.as_str(), "upload");
    assert_eq!(events::Kind::Edited.as_str(), "edit");
    assert_eq!(events::Kind::Shared.as_str(), "share");
    assert_eq!(events::Kind::Commented.as_str(), "comment");
    assert_eq!(events::Kind::Downloaded.as_str(), "download");
    assert_eq!(events::Kind::Deleted.as_str(), "delete");
    assert_eq!(events::Kind::RestoreRequested.as_str(), "restore");
    assert_eq!(ActorKind::User.as_str(), "user");
    assert_eq!(ActorKind::ApiKey.as_str(), "api_key");
    assert_eq!(ActorKind::ShareLink.as_str(), "share_link");
    assert_eq!(ActorKind::System.as_str(), "system");
    assert_eq!(ActorKind::Connector.as_str(), "connector");
}

#[test]
fn an_empty_library_counts_nothing() {
    let summary = events::Summary::default();
    assert_eq!(summary.assets, 0);
    assert_eq!(summary.uploads_this_week, 0);
    assert_eq!(summary.downloads_this_week, 0);
    assert_eq!(summary.comments_this_week, 0);
    assert_eq!(summary.without_metadata, 0);
}

#[test]
fn a_corpus_groups_judgements_by_query() {
    let corpus = judgements::corpus(vec![
        row("cat", 1, 3),
        row("cat", 2, -1),
        row("dog", 1, 300),
        row("dog", 3, 2),
    ]);
    assert_eq!(corpus.len(), 2);
    assert_eq!(corpus[0].query_text, "cat");
    assert_eq!(corpus[0].grades.len(), 2);
    assert_eq!(corpus[0].grades.get(&1), Some(&3));
    assert_eq!(corpus[0].grades.get(&2), Some(&0));
    assert_eq!(corpus[1].query_text, "dog");
    assert_eq!(corpus[1].grades.get(&1), Some(&0));
    assert_eq!(corpus[1].grades.get(&3), Some(&2));
    assert!(judgements::corpus(vec![]).is_empty());
}

#[test]
fn asking_for_one_query_agrees_with_the_corpus() {
    let alone = judgements::for_query("cat", &vec![(1, 3), (2, -1)]).unwrap();
    let corpus = judgements::corpus(vec![row("cat", 1, 3), row("cat", 2, -1), row("dog", 1, 1)]);
    assert_eq!(alone.query_text, corpus[0].query_text);
    assert_eq!(alone.grades, corpus[0].grades);
}

#[test]
fn an_unjudged_query_is_none_and_not_an_empty_set() {
    assert!(judgements::for_query("cat", &vec![]).is_none());
}
