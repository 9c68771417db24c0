//! Portals.

use dam_db::portals::{
    constraint_or_database, create, into_portal, present, stored_lower, touched, written, Kind, NewPortal, Portal,
    PortalRefusal, PortalRow, Presentation, Source, SourceColumns,
};
use dam_db::Error;

fn columns(collection_id: Option<u128>, saved_search_id: Option<u128>, media_class: Option<&str>) -> SourceColumns {
    SourceColumns {
        collection_id,
        saved_search_id,
        media_class: media_class.map(str::to_owned),
    }
}

fn row(source: SourceColumns) -> PortalRow {
    PortalRow {
        id: 0,
        key: "press".to_owned(),
        title: "Press".to_owned(),
        intro: String::new(),
        kind: "standard".to_owned(),
        source,
        logo_asset_id: None,
        accent: "#2563eb".to_owned(),
        is_public: true,
        allow_search: true,
        created_at: 0,
        retired_at: None,
    }
}

#[test]
fn an_unknown_kind_is_refused_rather_than_guessed() {
    assert_eq!(Kind::parse("brand"), Some(Kind::Brand));
    assert_eq!(Kind::parse("microsite"), None);
}

#[test]
fn a_row_with_two_sources_is_reported_rather_than_resolved() {
    assert!(into_portal(row(columns(Some(0), Some(0), None))).is_err());
}

#[test]
fn a_portal_has_exactly_one_source() {
    for source in [Source::Collection(4), Source::SavedSearch(5), Source::MediaClass("video".to_owned())] {
        let portal = into_portal(row(source.clone().into_columns())).unwrap();
        assert_eq!(portal.source, source);
        assert_eq!(portal.kind(), Some(Kind::Standard));
        assert!(portal.is_live());
    }
    assert_eq!(
        into_portal(row(columns(None, None, None))),
        Err(Error::Inconsistent(
            "portal 00000000-0000-0000-0000-000000000000 does not have exactly one source".to_owned()
        ))
    );
    assert!(into_portal(row(columns(Some(1), None, Some("video")))).is_err());
    assert!(into_portal(row(columns(None, Some(1), Some("video")))).is_err());
    assert!(into_portal(row(columns(Some(1), Some(1), Some("video")))).is_err());
    let retired = Portal {
        retired_at: Some(3),
        kind: "microsite".to_owned(),
        ..into_portal(row(columns(Some(1), None, None))).unwrap()
    };
    assert!(!retired.is_live());
    assert_eq!(retired.kind(), None);
}

#[test]
fn a_portal_is_stored_trimmed_and_its_accent_lowered() {
    let stored = create(NewPortal {
        key: " press ".to_owned(),
        title: "\tPress".to_owned(),
        intro: " kept ".to_owned(),
        kind: Kind::Channel,
        source: Source::MediaClass("video".to_owned()),
        logo_asset_id: Some(2),
        accent: " #2563EB ".to_owned(),
        is_public: true,
        allow_search: false,
    });
    assert_eq!((stored.key.as_str(), stored.title.as_str(), stored.intro.as_str()), ("press", "Press", " kept "));
    assert_eq!((stored.kind, stored.accent.as_str()), ("channel", "#2563eb"));
    assert_eq!(stored.source, columns(None, None, Some("video")));
    let shown = present(Presentation {
        title: " New ".to_owned(),
        intro: String::new(),
        kind: Kind::Video,
        logo_asset_id: None,
        accent: "#ABCDEF".to_owned(),
        is_public: false,
        allow_search: true,
    });
    assert_eq!((shown.title.as_str(), shown.kind, shown.accent.as_str()), ("New", "video", "#abcdef"));
    assert_eq!((shown.is_public, shown.allow_search), (false, true));
    assert_eq!(stored_lower(" \u{c9}COLE "), "\u{e9}cole");
}

#[test]
fn portal_refusals_are_plain_sentences() {
    assert_eq!(
        constraint_or_database(true, Some("portals_key_key".to_owned()), "press"),
        Some(PortalRefusal::Taken("press".to_owned()))
    );
    assert_eq!(
        constraint_or_database(false, Some("portals_one_source".to_owned()), "press"),
        Some(PortalRefusal::Invalid("portals_one_source".to_owned()))
    );
    assert_eq!(constraint_or_database(false, None, "press"), None);
    assert_eq!(touched(0, 1), Err(PortalRefusal::Unknown(1)));
    assert_eq!(touched(1, 1), Ok(()));
    assert_eq!(
        written(1, None).unwrap_err().message(),
        "no portal 00000000-0000-0000-0000-000000000001"
    );
    assert!(written(1, into_portal(row(columns(Some(1), None, None))).ok()).is_ok());
    assert_eq!(
        PortalRefusal::Taken("press".to_owned()).message(),
        "the name `press` is already taken by another portal"
    );
    assert_eq!(PortalRefusal::Invalid("c".to_owned()).message(), "c");
    for kind in [Kind::Standard, Kind::Brand, Kind::Video, Kind::Channel] {
        assert_eq!(Kind::parse(kind.as_str()), Some(kind));
    }
}
