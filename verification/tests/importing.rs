//! Importing embedded metadata, and migrating a library.

use dam_db::auto_import::{
    candidates, coerce, create, field_kind, float_texts, nothing, propose, review, settle, source_is_shaped, touched,
    Candidate, Float, Mapping, MappingRefusal, NewMapping, Next, Proposal, Reading, Validated,
};
use dam_db::fields::{FieldDef, FieldKind, Rejection};
use dam_db::imports::{
    self, advance, batch_limit, classify, failed, migrated, note, phase_of, report_limit, set_crosswalk, Counters,
    ImportRefusal, Phase, RecordState, Stage,
};
use dam_db::json::{Document, Json};
use dam_db::Error;

fn names(list: &[&str]) -> Vec<String> {
    list.iter().map(|name| (*name).to_owned()).collect()
}

fn mapping(source: &str, field_key: &str, enabled: bool, overwrite: bool) -> Mapping {
    Mapping {
        id: 1,
        source: source.to_owned(),
        field_key: field_key.to_owned(),
        priority: 0,
        overwrite,
        enabled,
    }
}

fn embedded(entries: &[(&str, &str)]) -> Vec<(String, String)> {
    entries.iter().map(|(key, value)| ((*key).to_owned(), (*value).to_owned())).collect()
}

#[test]
fn a_source_has_a_namespace_and_a_name() {
    for good in ["exif.artist", "x.y", "iptc.by_line2"] {
        assert!(source_is_shaped(good), "{good}");
    }
    for bad in ["exif", "exif.", ".artist", "Exif.artist", "exif.Artist", "exif.a.b", "1x.y", "exif.2", "exif.a b", ""] {
        assert!(!source_is_shaped(bad), "{bad}");
    }
}

#[test]
fn a_mapping_needs_a_writable_target() {
    let spec = |source: &str| NewMapping {
        source: source.to_owned(),
        field_key: "credit".to_owned(),
        priority: 3,
        overwrite: true,
        enabled: false,
    };
    let stored = create(spec("exif.artist"), 7, Some(false), false).unwrap();
    assert_eq!((stored.id, stored.priority, stored.overwrite, stored.enabled), (7, 3, true, false));
    assert_eq!(
        create(spec("artist"), 7, None, false).unwrap_err().message(),
        "`artist` is not a usable source: a source is `namespace.name`, lower-case, like `exif.artist`"
    );
    assert_eq!(
        create(spec("exif.artist"), 7, None, false).unwrap_err().message(),
        "no field is defined with the key `credit`"
    );
    assert_eq!(
        create(spec("exif.artist"), 7, Some(true), true).unwrap_err().message(),
        "`credit` is read-only: it describes the file, so an import must not write it"
    );
    assert_eq!(
        create(spec("exif.artist"), 7, Some(false), true).unwrap_err().message(),
        "`exif.artist` already maps to `credit`"
    );
    assert!(touched(1, 4).is_ok());
    assert_eq!(
        touched(0, 4).unwrap_err().message(),
        "no mapping 00000000-0000-0000-0000-000000000004 exists"
    );
    assert_eq!(touched(0, 4), Err(MappingRefusal::UnknownMapping(4)));
}

#[test]
fn the_first_mapping_that_applies_wins() {
    let mappings = vec![
        mapping("xmp.creator", "credit", true, false),
        mapping("exif.artist", "credit", false, false),
        mapping("iptc.by_line", "credit", true, true),
        mapping("exif.copyright", "credit", true, false),
        mapping("exif.iso", "iso", true, false),
    ];
    let found = candidates(
        &mappings,
        &embedded(&[("exif.artist", "A"), ("exif.copyright", "C"), ("iptc.by_line", "B"), ("exif.iso", "400")]),
    );
    let candidate = |field: &str, value: &str, overwrite: bool| Candidate {
        field: field.to_owned(),
        value: value.to_owned(),
        overwrite,
    };
    assert_eq!(found, vec![candidate("credit", "B", true), candidate("iso", "400", false)]);
    assert!(candidates(&mappings, &vec![]).is_empty());
}

fn read(value: &str, kind: FieldKind) -> Json {
    let floats: Vec<Float> = float_texts(value, Some(kind))
        .iter()
        .map(|text| match text.parse::<f64>() {
            Ok(number) if number.is_finite() => Float::Finite(format!("{number:?}")),
            _ => Float::Unreadable,
        })
        .collect();
    let at = |place: usize| floats.get(place).cloned().unwrap_or(Float::Unreadable);
    coerce(value, Some(kind), &Reading { first: at(0), second: at(1) })
}

fn text(words: &str) -> Json {
    Json::Text(words.to_owned())
}

fn number(words: &str) -> Json {
    Json::Number(words.to_owned())
}

#[test]
fn a_value_takes_the_shape_of_its_field() {
    assert_eq!(read(" 400 ", FieldKind::Int), Json::Int(400));
    assert_eq!(read("ISO 400", FieldKind::Int), text("ISO 400"));
    assert_eq!(read(" 2.8 ", FieldKind::Decimal), number("2.8"));
    assert_eq!(read("inf", FieldKind::Decimal), text("inf"));
    assert_eq!(read("f/2.8", FieldKind::Decimal), text("f/2.8"));
    for word in ["true", "YES", " 1 "] {
        assert_eq!(read(word, FieldKind::Bool), Json::Bool(true));
    }
    for word in ["False", "no", "0"] {
        assert_eq!(read(word, FieldKind::Bool), Json::Bool(false));
    }
    assert_eq!(read("maybe", FieldKind::Bool), text("maybe"));
    assert_eq!(read(" 2026-03-14T10:00:00 ", FieldKind::Date), text("2026-03-14"));
    assert_eq!(read(" 2026-03-14 ", FieldKind::Date), text("2026-03-14"));
    assert_eq!(read(" kept ", FieldKind::Other), text(" kept "));
    assert_eq!(coerce("x", None, &Reading { first: Float::Unreadable, second: Float::Unreadable }), text("x"));
}

#[test]
fn a_coordinate_is_two_numbers() {
    let place = |lat: Json, lon: Json| Json::Object(vec![("lat".to_owned(), lat), ("lon".to_owned(), lon)]);
    assert_eq!(float_texts(" 51.5 , -0.1 ", Some(FieldKind::Geo)), names(&["51.5", "-0.1"]));
    assert_eq!(read(" 51.5 , -0.1 ", FieldKind::Geo), place(number("51.5"), number("-0.1")));
    assert_eq!(read("nan,0", FieldKind::Geo), text("nan,0"));
    assert_eq!(read("1.5,inf", FieldKind::Geo), text("1.5,inf"));
    assert_eq!(read("51.5", FieldKind::Geo), text("51.5"));
    assert_eq!(read("51.5,north", FieldKind::Geo), text("51.5,north"));
}

fn def(key: &str, kind: FieldKind) -> FieldDef {
    FieldDef {
        key: key.to_owned(),
        kind,
        taxonomy_id: None,
        multivalued: false,
        required: false,
        read_only: false,
        ai_writable: false,
        facetable: false,
    }
}

fn rejection(key: &str) -> Rejection {
    Rejection { key: key.to_owned(), code: "bad", detail: String::new() }
}

fn document(entries: &[(&str, Json)]) -> Document {
    let copy = |value: &Json| match value {
        Json::Int(number) => Json::Int(*number),
        Json::Text(words) => Json::Text(words.clone()),
        _ => Json::Null,
    };
    Document::from_entries(entries.iter().map(|(key, value)| ((*key).to_owned(), copy(value))).collect())
}

#[test]
fn a_held_value_is_left_alone_unless_the_mapping_overwrites() {
    let candidate = |field: &str, overwrite: bool| Candidate {
        field: field.to_owned(),
        value: "7".to_owned(),
        overwrite,
    };
    let found = vec![candidate("a", false), candidate("b", true), candidate("c", false), candidate("d", false)];
    let existing = document(&[("a", Json::Int(1)), ("b", Json::Int(1)), ("c", Json::Null)]);
    let reading = || Reading { first: Float::Unreadable, second: Float::Unreadable };
    let readings = vec![reading(), reading(), reading(), reading()];
    let proposal = propose(&found, &existing, &vec![def("b", FieldKind::Int), def("c", FieldKind::Other)], &readings);
    assert_eq!(proposal.skipped, names(&["a"]));
    assert!(!proposal.values.contains_key("a"));
    assert_eq!(proposal.values.get("b"), Some(&Json::Int(7)));
    assert_eq!(proposal.values.get("c"), Some(&text("7")));
    assert_eq!(proposal.values.get("d"), Some(&text("7")));
    assert_eq!(field_kind(&vec![def("b", FieldKind::Int)], "b"), Some(FieldKind::Int));
    assert_eq!(field_kind(&vec![], "b"), None);
}

#[test]
fn one_refused_value_does_not_stop_the_others() {
    let proposal = || Proposal {
        values: document(&[("a", Json::Int(1)), ("b", Json::Int(2))]),
        skipped: names(&["s"]),
    };
    match review(proposal(), Validated::Accepted(document(&[("a", Json::Int(9))]))) {
        Next::Done(plan) => {
            assert_eq!(plan.values.get("a"), Some(&Json::Int(9)));
            assert_eq!((plan.skipped, plan.rejected.len()), (names(&["s"]), 0));
        }
        other => panic!("{other:?}"),
    }
    match review(proposal(), Validated::Rejected(vec![rejection("a"), rejection("b")])) {
        Next::Done(plan) => assert!(plan.values.is_empty() && plan.rejected.len() == 2),
        other => panic!("{other:?}"),
    }
    match review(proposal(), Validated::Rejected(vec![rejection("a")])) {
        Next::Retry { survivors, skipped, rejected } => {
            assert!(!survivors.contains_key("a") && survivors.contains_key("b"));
            let again = settle(skipped, rejected, Validated::Rejected(vec![rejection("b")]));
            assert!(again.values.is_empty());
            assert_eq!(again.rejected, vec![rejection("a"), rejection("b")]);
        }
        other => panic!("{other:?}"),
    }
    let plan = settle(vec![], vec![rejection("a")], Validated::Accepted(document(&[("b", Json::Int(2))])));
    assert!(plan.values.contains_key("b"));
    assert_eq!(plan.rejected, vec![rejection("a")]);
    let idle = nothing(names(&["s"]));
    assert!(idle.values.is_empty() && idle.rejected.is_empty());
    assert_eq!(idle.skipped, names(&["s"]));
}

// ---- migrations of a library ------------------------------------------------------------------------

const PIPELINE: [Phase; 6] = [
    Phase::Discover,
    Phase::CrosswalkReview,
    Phase::DryRun,
    Phase::Transfer,
    Phase::Verify,
    Phase::Complete,
];

#[test]
fn the_pipeline_moves_one_step_with_one_loop() {
    for (from, phase) in PIPELINE.iter().enumerate() {
        for (to, next) in PIPELINE.iter().enumerate() {
            let step = from < 5 && to == from + 1;
            let back = *phase == Phase::Verify && *next == Phase::Transfer;
            assert_eq!(phase.may_become(*next), step || back, "{phase:?} {next:?}");
        }
        for earlier in &PIPELINE[..from] {
            assert!(earlier < phase);
        }
        let open = *phase != Phase::Complete;
        assert_eq!(phase.may_become(Phase::Failed), open);
        assert_eq!(phase.may_become(Phase::RolledBack), open);
        assert_eq!(Phase::Failed.may_become(*phase), *phase == Phase::CrosswalkReview);
        assert!(!Phase::RolledBack.may_become(*phase));
        assert_eq!(phase.next(), PIPELINE.get(from + 1).copied());
        assert_eq!(phase.is_terminal(), !open);
        assert_eq!(phase_of(phase.as_str()), Ok(*phase));
        assert_eq!(Phase::parse(phase.as_str()), Some(*phase));
    }
    assert!(Phase::Failed.may_become(Phase::Failed) && Phase::Failed.may_become(Phase::RolledBack));
    assert!(Phase::RolledBack.is_terminal() && !Phase::Failed.is_terminal());
    assert_eq!(
        phase_of("paused"),
        Err(Error::Inconsistent("import_jobs.phase holds \"paused\"".to_owned()))
    );
}

#[test]
fn a_run_is_stamped_once() {
    let stage = |phase: Phase, started_at: Option<i64>, finished_at: Option<i64>| Stage {
        phase,
        started_at,
        finished_at,
    };
    let first = advance(1, Some(stage(Phase::Discover, None, None)), Phase::CrosswalkReview, 5).unwrap();
    assert_eq!(first, stage(Phase::CrosswalkReview, Some(5), None));
    let second = advance(1, Some(first), Phase::DryRun, 6).unwrap();
    assert_eq!(second, stage(Phase::DryRun, Some(5), None));
    let over = advance(1, Some(second), Phase::RolledBack, 7).unwrap();
    assert_eq!(over, stage(Phase::RolledBack, Some(5), Some(7)));
    assert_eq!(
        advance(1, Some(over), Phase::Failed, 8).unwrap_err().message(),
        "an import in rolled_back cannot become failed"
    );
    assert_eq!(
        advance(1, None, Phase::Failed, 8).unwrap_err().message(),
        "no import job 00000000-0000-0000-0000-000000000001"
    );
}

#[test]
fn a_crosswalk_is_editable_until_the_run_is_final() {
    assert!(set_crosswalk(1, Some(Phase::Failed)).is_ok());
    assert!(set_crosswalk(1, Some(Phase::Verify)).is_ok());
    assert_eq!(
        set_crosswalk(1, Some(Phase::Complete)).unwrap_err().message(),
        "an import in complete cannot become crosswalk_review"
    );
    assert_eq!(set_crosswalk(1, None), Err(ImportRefusal::Unknown(1)));
    assert_eq!(imports::create("  Widen ", 0), Ok(("Widen".to_owned(), 1)));
    assert_eq!(imports::create("Widen", 50_000), Ok(("Widen".to_owned(), 10_000)));
    assert_eq!(
        imports::create("  ", 5).unwrap_err().message(),
        "an import needs a label; it is how an operator tells two runs apart"
    );
    assert_eq!(classify(Some("c".to_owned())), Some(ImportRefusal::Invalid("c".to_owned())));
    assert_eq!(classify(None), None);
}

#[test]
fn a_record_that_arrived_stays_arrived() {
    assert_eq!(note(None, false), Some(RecordState::Pending));
    assert_eq!(note(None, true), Some(RecordState::Failed));
    assert_eq!(note(Some(RecordState::Failed), false), Some(RecordState::Pending));
    assert_eq!(note(Some(RecordState::Skipped), true), Some(RecordState::Failed));
    assert_eq!(note(Some(RecordState::Migrated), true), None);
    assert_eq!(note(Some(RecordState::Migrated), false), None);
    let counters = Counters { migrated: 2, failed: 3 };
    assert_eq!(migrated(RecordState::Pending, counters), Some(Counters { migrated: 3, failed: 3 }));
    assert_eq!(migrated(RecordState::Migrated, counters), None);
    assert_eq!(failed(RecordState::Pending, counters), Some(Counters { migrated: 2, failed: 4 }));
    assert_eq!(failed(RecordState::Migrated, counters), None);
    for state in [
        RecordState::Pending,
        RecordState::Migrated,
        RecordState::Failed,
        RecordState::Skipped,
        RecordState::RolledBack,
    ] {
        assert_eq!(RecordState::parse(state.as_str()), Some(state));
    }
    assert_eq!((batch_limit(-4), batch_limit(9)), (1, 9));
    assert_eq!((report_limit(0), report_limit(50), report_limit(50_000)), (1, 50, 10_000));
}

#[test]
fn an_arrival_counts_once_however_often_it_is_reported() {
    let none = imports::Counters { migrated: 0, failed: 0 };
    let missed = imports::failed(imports::RecordState::Pending, none).unwrap();
    assert_eq!((missed.migrated, missed.failed), (0, 1));
    let arrived = imports::migrated(imports::RecordState::Failed, missed).unwrap();
    assert_eq!((arrived.migrated, arrived.failed), (1, 1));
    assert_eq!(imports::migrated(imports::RecordState::Migrated, arrived), None);
    assert_eq!(imports::failed(imports::RecordState::Migrated, arrived), None);
}

#[test]
fn a_copy_of_a_document_is_the_document() {
    let nested = Json::Object(vec![
        ("a".to_owned(), Json::List(vec![Json::Null, Json::Bool(true), Json::Int(-3), Json::List(vec![])])),
        ("b".to_owned(), Json::Number("1.5".to_owned())),
        ("c".to_owned(), Json::Object(vec![("d".to_owned(), Json::Text("e".to_owned()))])),
    ]);
    assert_eq!(nested.clone(), nested);
    let mut document = Document::default();
    assert!(document.is_empty());
    document.insert("k".to_owned(), nested);
    let copy = document.clone();
    assert_eq!(copy, document);
    document.remove("k");
    assert!(copy.contains_key("k") && !document.contains_key("k"));
    assert_eq!(document, Document::new());
}
