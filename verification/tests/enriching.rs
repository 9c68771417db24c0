//! What a model wrote, and what a person decided about it.

use dam_db::enrichment::{
    fields_to_review, forget_provenance, machine_field, marked, proposed_by, save_settings, settings, tag_step,
    write_values, wrote_anything, Attribution, MachineValue, Marked, MarkedRow, Outcome, Settings, Source, TagStep,
    Tagged, Verdict,
};
use dam_db::json::{Document, Json};

fn names(list: &[&str]) -> Vec<String> {
    list.iter().map(|name| (*name).to_owned()).collect()
}

fn text(words: &str) -> Json {
    Json::Text(words.to_owned())
}

fn document(entries: &[(&str, &str)]) -> Document {
    Document::from_entries(entries.iter().map(|(key, value)| ((*key).to_owned(), text(value))).collect())
}

fn produced(entries: &[(&str, &str)]) -> Vec<MachineValue> {
    entries
        .iter()
        .map(|(key, value)| MachineValue { key: (*key).to_owned(), value: text(value), marking: text("llm") })
        .collect()
}

#[test]
fn a_model_never_overwrites_a_person() {
    let existing = Marked {
        values: document(&[("title", "typed"), ("alt_text", "old machine text")]),
        provenance: document(&[("alt_text", "llm v1")]),
    };
    let (after, written) = write_values(
        &names(&["title", "alt_text", "description"]),
        existing,
        produced(&[("title", "t"), ("alt_text", "new"), ("copyright", "c"), ("description", "d")]),
    );
    assert_eq!(written.written, names(&["alt_text", "description"]));
    assert_eq!(written.refused, names(&["copyright"]));
    assert_eq!(written.kept_human, names(&["title"]));
    assert!(wrote_anything(&written));
    assert_eq!(after.values.get("title"), Some(&text("typed")));
    assert_eq!(after.values.get("alt_text"), Some(&text("new")));
    assert_eq!(after.values.get("description"), Some(&text("d")));
    assert!(!after.values.contains_key("copyright"));
    assert!(!after.provenance.contains_key("title"));
    assert_eq!(after.provenance.get("alt_text"), Some(&text("llm")));
    assert!(after.provenance.contains_key("description"));
}

#[test]
fn a_key_produced_twice_takes_the_later_value() {
    let existing = Marked { values: Document::new(), provenance: Document::new() };
    let (after, written) = write_values(&names(&["a"]), existing, produced(&[("a", "1"), ("a", "2")]));
    assert_eq!(written.written, names(&["a", "a"]));
    assert_eq!(after.values.get("a"), Some(&text("2")));
    let existing = Marked { values: document(&[("a", "typed")]), provenance: Document::new() };
    let (_, written) = write_values(&names(&["a"]), existing, produced(&[("a", "1")]));
    assert!(!wrote_anything(&written));
}

#[test]
fn a_marking_says_what_wrote_the_value() {
    let attribution = Attribution {
        source: Source::Llm,
        model: "m-1".to_owned(),
        model_version: "7".to_owned(),
        confidence: "0.5".to_owned(),
    };
    let values = marked(vec![("title".to_owned(), text("t"))], &attribution, 1_700_000_000_250_000);
    assert_eq!((values[0].key.as_str(), &values[0].value), ("title", &text("t")));
    let field = |key: &str, value: Json| (key.to_owned(), value);
    assert_eq!(
        values[0].marking,
        Json::Object(vec![
            field("source", text("llm")),
            field("model", text("m-1")),
            field("model_version", text("7")),
            field("confidence", Json::Number("0.5".to_owned())),
            field("at", text("2023-11-14T22:13:20.250+00:00")),
            field("reviewed_by", Json::Null),
        ])
    );
    let read = machine_field("title".to_owned(), text("t"), &values[0].marking);
    assert_eq!((read.model.as_str(), read.confidence.as_deref(), read.reviewed), ("m-1", Some("0.5"), false));
    assert_eq!((Source::Llm.as_str(), Source::Local.as_str(), Source::Embedded.as_str()), ("llm", "local", "embedded"));
}

#[test]
fn a_machine_field_is_read_from_its_marking() {
    let field = |key: &str, value: Json| (key.to_owned(), value);
    let looked = Json::Object(vec![
        field("confidence", Json::Int(1)),
        field("model", Json::Int(3)),
        field("reviewed_by", text("somebody")),
    ]);
    let read = machine_field("k".to_owned(), Json::Null, &looked);
    assert_eq!((read.model.as_str(), read.confidence.as_deref(), read.reviewed), ("unknown", Some("1"), true));
    let bare = machine_field("k".to_owned(), Json::Null, &Json::Null);
    assert_eq!((bare.model.as_str(), bare.confidence, bare.reviewed), ("unknown", None, false));
}

#[test]
fn a_rewritten_value_is_a_persons() {
    let left = forget_provenance(document(&[("a", "llm"), ("b", "llm")]), &names(&["b", "c"]));
    assert!(left.contains_key("a") && !left.contains_key("b"));
    let same = forget_provenance(document(&[("a", "llm")]), &vec![]);
    assert!(same.contains_key("a"));
}

#[test]
fn a_decided_term_is_not_proposed_again() {
    let state = |word: &str| Some(word.to_owned());
    assert_eq!(tag_step(None, &None), TagStep::Unknown);
    assert_eq!(tag_step(Some(1), &None), TagStep::Suggest(1));
    assert_eq!(tag_step(Some(1), &state("suggested")), TagStep::Second(1));
    assert_eq!(tag_step(Some(1), &state("rejected")), TagStep::Leave(1));
    assert_eq!(tag_step(Some(1), &state("confirmed")), TagStep::Leave(1));
    let mut tagged = Tagged::new();
    for (slug, step) in [
        ("a", TagStep::Suggest(1)),
        ("b", TagStep::Second(2)),
        ("c", TagStep::Leave(3)),
        ("d", TagStep::Unknown),
        ("e", TagStep::Suggest(4)),
    ] {
        tagged.note(&slug.to_owned(), step);
    }
    assert_eq!((tagged.suggested, tagged.seconded, tagged.decided), (vec![1, 4], vec![2], vec![3]));
    assert_eq!(tagged.unknown, names(&["d"]));
}

#[test]
fn a_decision_is_spelled_for_both_tables() {
    assert_eq!((Verdict::Accept.state(), Verdict::Accept.feedback()), ("confirmed", "accept"));
    assert_eq!((Verdict::Reject.state(), Verdict::Reject.feedback()), ("rejected", "reject"));
    for source in ["zero_shot", "probe", "llm"] {
        assert_eq!(proposed_by(source), Some(source));
    }
    assert_eq!(proposed_by("human"), None);
    let spelled: Vec<&str> = [Outcome::Succeeded, Outcome::Partial, Outcome::Failed, Outcome::Skipped]
        .iter()
        .map(|outcome| outcome.as_str())
        .collect();
    assert_eq!(spelled, vec!["succeeded", "partial", "failed", "skipped"]);
}

#[test]
fn nothing_runs_until_somebody_turns_it_on() {
    let plain = settings(None);
    assert_eq!(plain, Settings::default());
    assert!(!plain.is_enabled && plain.suggest_tags && !plain.natural_language_search);
    assert_eq!(plain.language, "English");
    assert_eq!(plain.alt_text_field.as_deref(), Some("alt_text"));
    let wanted = Settings {
        is_enabled: true,
        guidance: "  kept as typed ".to_owned(),
        language: " French ".to_owned(),
        model: Some(" m ".to_owned()),
        alt_text_field: None,
        ..plain
    };
    let stored = save_settings(&wanted);
    assert_eq!((stored.guidance.as_str(), stored.language.as_str()), ("  kept as typed ", "French"));
    assert_eq!((stored.model.as_deref(), stored.alt_text_field.as_deref()), (Some("m"), None));
    assert_eq!(stored.description_field.as_deref(), Some("description"));
    assert_eq!(settings(Some(stored.clone())), stored);
}

#[test]
fn only_what_nobody_has_reviewed_is_queued() {
    let row = |key: &str, reviewed_by: Json| MarkedRow {
        key: key.to_owned(),
        value: Json::Null,
        marking: Json::Object(vec![("reviewed_by".to_owned(), reviewed_by)]),
    };
    let rows = vec![
        row("alt", Json::Null),
        row("title", Json::Text("ada".to_owned())),
        MarkedRow { key: "bare".to_owned(), value: Json::Null, marking: Json::Object(vec![]) },
    ];
    let fields = fields_to_review(rows);
    let keys: Vec<&str> = fields.iter().map(|field| field.key.as_str()).collect();
    assert_eq!(keys, vec!["alt", "bare"]);
    assert!(fields.iter().all(|field| !field.reviewed));
}
