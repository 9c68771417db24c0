//! Field definitions, metadata edits and metadata types.

use dam_db::fields::{
    amend, amended, changes_the_index, check_dependency, check_taxonomy, check_taxonomy_refs, conclude, define,
    newly_required, one, removed, reorder, wanted_terms, AmendFacts, Amendment, Catalogued, DefineFacts, Dependency,
    FieldDef, FieldKind, NewField, SchemaRefusal, TaxonomyRef, ValidationOutcome,
};
use dam_db::json::{Document, Json};
use dam_db::metadata::merge;
use dam_db::metadata_types::{
    self, fields_for, for_mime, resolve, set_fields, touched, Contender, NewType, TypeRefusal,
};
use dam_db::Error;

fn names(list: &[&str]) -> Vec<String> {
    list.iter().map(|name| (*name).to_owned()).collect()
}

fn new_field(key: &str) -> NewField {
    NewField {
        key: key.to_owned(),
        label: "Label".to_owned(),
        kind: "text".to_owned(),
        taxonomy_id: None,
        multivalued: false,
        required: false,
        read_only: false,
        searchable: true,
        facetable: false,
        ai_writable: false,
        search_alias: Some("b".to_owned()),
        validation: Json::Null,
    }
}

fn plain() -> DefineFacts {
    DefineFacts {
        kind: Some(FieldKind::Other),
        taxonomy_exists: false,
        dependency: None,
        key_exists: false,
        alias_taken: false,
    }
}

fn depends(key: &str, parent_depends: Option<bool>) -> Option<Dependency> {
    Some(Dependency { key: key.to_owned(), parent_depends })
}

#[test]
fn a_field_is_defined_only_when_every_rule_holds() {
    assert!(define(&new_field("brand"), &plain()).is_ok());
    let refused = |spec: NewField, facts: DefineFacts| define(&spec, &facts).unwrap_err();
    assert_eq!(refused(new_field("or"), plain()), SchemaRefusal::ReservedKey("or".to_owned()));
    assert_eq!(
        refused(new_field("brand"), DefineFacts { kind: None, ..plain() }).message(),
        "`text` is not a field kind this build knows"
    );
    let taxonomy = DefineFacts { kind: Some(FieldKind::TaxonomyRef), ..plain() };
    assert_eq!(
        refused(new_field("brand"), taxonomy.clone()).message(),
        "a taxonomy field needs the taxonomy it is bound to"
    );
    let bound = || NewField { taxonomy_id: Some(1), ..new_field("brand") };
    assert_eq!(
        refused(bound(), taxonomy.clone()).message(),
        "no taxonomy 00000000-0000-0000-0000-000000000001 exists"
    );
    assert!(define(&bound(), &DefineFacts { taxonomy_exists: true, ..taxonomy }).is_ok());
    assert_eq!(
        refused(new_field("brand"), DefineFacts { key_exists: true, alias_taken: true, ..plain() }).message(),
        "a field with the key `brand` is already defined"
    );
    assert_eq!(
        refused(new_field("brand"), DefineFacts { alias_taken: true, ..plain() }).message(),
        "the search alias `b` already belongs to another field"
    );
    let no_alias = NewField { search_alias: None, ..new_field("brand") };
    assert!(define(&no_alias, &DefineFacts { alias_taken: true, ..plain() }).is_ok());
}

#[test]
fn a_dependency_is_one_level() {
    assert!(check_dependency("a", &None).is_ok());
    assert!(check_dependency("a", &depends("b", Some(false))).is_ok());
    assert_eq!(
        check_dependency("a", &depends("a", Some(false))).unwrap_err().message(),
        "`a` cannot depend on itself"
    );
    assert_eq!(check_dependency("a", &depends("b", None)).unwrap_err().message(), "no field `b` to depend on");
    assert_eq!(
        check_dependency("a", &depends("b", Some(true))).unwrap_err().message(),
        "`b` is itself dependent, and a dependency is one level: a chain needs cycle detection, an evaluation \
         order, and an answer to what a field two hops from a cleared parent means"
    );
    let facts = DefineFacts { dependency: depends("brand", Some(false)), ..plain() };
    assert_eq!(define(&new_field("brand"), &facts), Err(SchemaRefusal::SelfDependency("brand".to_owned())));
    assert!(check_taxonomy(FieldKind::Int, None, false).is_ok());
}

fn catalogued(key: &str) -> Catalogued {
    Catalogued {
        key: key.to_owned(),
        label: "Label".to_owned(),
        kind: "text".to_owned(),
        multivalued: false,
        required: false,
        read_only: false,
        ai_writable: false,
        facetable: false,
        searchable: false,
        search_alias: None,
        validation: Json::Null,
        taxonomy_id: Some(4),
    }
}

fn nothing() -> Amendment {
    Amendment {
        label: None,
        kind: None,
        taxonomy_id: None,
        multivalued: None,
        required: None,
        read_only: None,
        searchable: None,
        facetable: None,
        ai_writable: None,
        search_alias: None,
        validation: None,
    }
}

fn amending() -> AmendFacts {
    AmendFacts {
        kind: Some(FieldKind::Int),
        stored_kind: Some(FieldKind::Other),
        stored_values: 0,
        taxonomy_exists: true,
        dependency: None,
        alias_taken: false,
    }
}

#[test]
fn a_kind_with_values_is_locked() {
    let before = catalogued("brand");
    assert_eq!(amend(&before, &nothing(), &amending()), Ok(Some(4)));
    let to = |kind: &str| Amendment { kind: Some(kind.to_owned()), ..nothing() };
    assert!(amend(&before, &to("int"), &amending()).is_ok());
    let held = AmendFacts { stored_values: 3, ..amending() };
    assert_eq!(
        amend(&before, &to("int"), &held).unwrap_err().message(),
        "`brand` cannot change kind: 3 asset(s) already carry a value stored under the current kind"
    );
    assert!(amend(&before, &to("text"), &held).is_ok());
    assert_eq!(
        amend(&before, &to("odd"), &AmendFacts { kind: None, ..held }),
        Err(SchemaRefusal::UnknownKind("odd".to_owned()))
    );
    assert_eq!(
        amend(&before, &nothing(), &AmendFacts { stored_kind: None, ..amending() }),
        Err(SchemaRefusal::UnknownKind("text".to_owned()))
    );
}

#[test]
fn an_amendment_is_checked_like_a_definition() {
    let before = catalogued("brand");
    let facts = AmendFacts { dependency: depends("brand", Some(false)), ..amending() };
    let validated = Amendment { validation: Some(Json::Null), ..nothing() };
    assert_eq!(amend(&before, &validated, &facts), Err(SchemaRefusal::SelfDependency("brand".to_owned())));
    assert!(amend(&before, &nothing(), &facts).is_ok());
    let cleared = Amendment { taxonomy_id: Some(None), kind: Some("term".to_owned()), ..nothing() };
    let term = AmendFacts { kind: Some(FieldKind::TaxonomyRef), ..amending() };
    assert_eq!(amend(&before, &cleared, &term), Err(SchemaRefusal::TaxonomyRequired));
    let moved = Amendment { taxonomy_id: Some(Some(9)), ..nothing() };
    assert_eq!(amend(&before, &moved, &amending()), Ok(Some(9)));
    let alias = Amendment { search_alias: Some(Some("b".to_owned())), ..nothing() };
    assert_eq!(
        amend(&before, &alias, &AmendFacts { alias_taken: true, ..amending() }),
        Err(SchemaRefusal::DuplicateAlias("b".to_owned()))
    );
    let dropped = Amendment { search_alias: Some(None), ..nothing() };
    assert!(amend(&before, &dropped, &AmendFacts { alias_taken: true, ..amending() }).is_ok());
}

#[test]
fn an_amendment_reports_its_consequences() {
    let before = catalogued("brand");
    let after = Catalogued { required: true, facetable: true, ..catalogued("brand") };
    assert!(changes_the_index(&before, &after) && newly_required(&before, &after));
    let outcome = amended(&before, after, 12);
    assert!(outcome.reindex_required);
    assert_eq!(outcome.assets_now_incomplete, 12);
    let quiet = amended(&before, Catalogued { label: "Other".to_owned(), ..catalogued("brand") }, 12);
    assert!(!quiet.reindex_required);
    assert_eq!(quiet.assets_now_incomplete, 0);
    assert!(changes_the_index(&before, &Catalogued { kind: "int".to_owned(), ..catalogued("brand") }));
    let gone = removed(Catalogued { searchable: true, ..catalogued("brand") }, 7);
    assert_eq!((gone.key.as_str(), gone.assets_with_values, gone.reindex_required), ("brand", 7, true));
    assert!(!removed(catalogued("brand"), 0).reindex_required);
    assert_eq!(one(vec![catalogued("a"), catalogued("b")], "b").unwrap().key, "b");
    assert_eq!(
        one(vec![catalogued("a")], "b").unwrap_err().message(),
        "no field is defined with the key `b`"
    );
}

#[test]
fn an_order_names_every_field_once() {
    let existing = names(&["a", "b", "c"]);
    assert!(reorder(&existing, &names(&["c", "a", "b"])).is_ok());
    assert_eq!(
        reorder(&existing, &names(&["c", "a"])).unwrap_err().message(),
        "a reorder must list all 3 fields exactly once; got 2"
    );
    assert!(matches!(
        reorder(&existing, &names(&["c", "a", "a"])),
        Err(SchemaRefusal::IncompleteOrder { expected: 3, given: 3 })
    ));
    assert_eq!(
        reorder(&existing, &names(&["c", "a", "d"])),
        Err(SchemaRefusal::UnknownField("d".to_owned()))
    );
}

#[test]
fn a_reference_names_a_term_of_its_own_taxonomy() {
    let reference = |key: &str, term_id: u128, taxonomy_id: u128| TaxonomyRef {
        key: key.to_owned(),
        term_id,
        taxonomy_id,
    };
    let refs = vec![reference("a", 2, 10), reference("b", 1, 10), reference("c", 3, 10), reference("d", 2, 11)];
    assert_eq!(wanted_terms(&refs), vec![1, 2, 3]);
    let rejections = check_taxonomy_refs(&refs, &vec![(1, 10), (2, 10)]);
    let codes: Vec<(&str, &str)> = rejections.iter().map(|r| (r.key.as_str(), r.code)).collect();
    assert_eq!(codes, vec![("c", "term_not_found"), ("d", "wrong_taxonomy")]);
    assert_eq!(rejections[0].detail, "no taxonomy term 00000000-0000-0000-0000-000000000003");
    assert_eq!(
        rejections[1].detail,
        "term 00000000-0000-0000-0000-000000000002 belongs to taxonomy 00000000-0000-0000-0000-00000000000a, but \
         this field is bound to 00000000-0000-0000-0000-00000000000b"
    );
    let refused = conclude(rejections).unwrap_err();
    assert_eq!(refused.message(), "2 field(s) refused: c=term_not_found, d=wrong_taxonomy");
    assert!(conclude(vec![]).is_ok());
    assert_eq!(
        ValidationOutcome::Failed(Error::Migrate("x".to_owned())).message(),
        "validation could not be completed: migration error: x"
    );
}

// ---- metadata edits ---------------------------------------------------------------------------------

#[test]
fn a_null_clears_and_an_absent_key_is_left_alone() {
    let entry = |key: &str, value: Json| (key.to_owned(), value);
    let stored = Document::from_entries(vec![entry("a", Json::Int(1)), entry("b", Json::Int(2))]);
    let merged = merge(Some(stored), vec![entry("b", Json::Null), entry("c", Json::Int(3))]);
    assert_eq!(merged.edited, names(&["b", "c"]));
    assert_eq!(merged.values.get("a"), Some(&Json::Int(1)));
    assert_eq!(merged.values.get("b"), None);
    assert_eq!(merged.values.get("c"), Some(&Json::Int(3)));
    let first = merge(None, vec![entry("a", Json::Int(1)), entry("a", Json::Null)]);
    assert!(first.values.is_empty());
    assert_eq!(first.edited, names(&["a", "a"]));
    assert_eq!(merge(None, vec![]).values.into_entries(), vec![]);
}

// ---- metadata types ---------------------------------------------------------------------------------

fn def(key: &str) -> FieldDef {
    FieldDef {
        key: key.to_owned(),
        kind: FieldKind::Other,
        taxonomy_id: None,
        multivalued: false,
        required: false,
        read_only: false,
        ai_writable: false,
        facetable: false,
    }
}

#[test]
fn a_type_is_a_selection_and_an_order() {
    let vocabulary = || vec![def("a"), def("b"), def("c")];
    let keys = |defs: Vec<FieldDef>| defs.into_iter().map(|one| one.key).collect::<Vec<_>>();
    assert_eq!(keys(fields_for(&Some(names(&["c", "gone", "a"])), vocabulary())), names(&["c", "a"]));
    assert_eq!(keys(fields_for(&None, vocabulary())), names(&["a", "b", "c"]));
    assert!(fields_for(&Some(vec![]), vocabulary()).is_empty());
}

#[test]
fn resolution_ends_somewhere() {
    assert_eq!(resolve(Some(Some(1)), Some(2)), Some(1));
    assert_eq!(resolve(Some(None), Some(2)), Some(2));
    assert_eq!(resolve(None, Some(2)), Some(2));
    assert_eq!(resolve(Some(None), None), None);
}

#[test]
fn a_mime_picks_the_first_type_that_claims_its_class() {
    let contender = |id: u128, applies_to: &[&str], is_default: bool| Contender {
        id,
        applies_to: names(applies_to),
        is_default,
    };
    let types = vec![
        contender(1, &[], true),
        contender(2, &["image"], false),
        contender(3, &["image", "archive"], false),
    ];
    assert_eq!(for_mime(&types, "image/png"), Some(2));
    assert_eq!(for_mime(&types, "application/zip"), Some(3));
    assert_eq!(for_mime(&types, "video/mp4"), Some(1));
    assert_eq!(for_mime(&vec![contender(2, &["image"], false), contender(3, &[], false)], "video/mp4"), Some(2));
    assert_eq!(for_mime(&vec![], "video/mp4"), None);
}

#[test]
fn a_type_names_defined_fields() {
    let spec = NewType {
        key: "photo".to_owned(),
        label: "Photo".to_owned(),
        applies_to: names(&["image"]),
        is_default: false,
        field_keys: names(&["a", "x", "y"]),
    };
    assert_eq!(
        metadata_types::define(&spec, true, &vec![]).unwrap_err().message(),
        "a metadata type with the key `photo` already exists"
    );
    assert_eq!(
        metadata_types::define(&spec, false, &names(&["a", "y"])).unwrap_err().message(),
        "no field is defined with the key `x`"
    );
    assert!(metadata_types::define(&spec, false, &names(&["a", "x", "y"])).is_ok());
    assert!(set_fields(1, true, &names(&["a"]), &names(&["a"])).is_ok());
    assert_eq!(
        set_fields(1, true, &names(&["b"]), &names(&["a"])),
        Err(TypeRefusal::UnknownField("b".to_owned()))
    );
    assert_eq!(
        set_fields(1, false, &names(&["b"]), &names(&["a"])).unwrap_err().message(),
        "no metadata type 00000000-0000-0000-0000-000000000001 exists"
    );
    assert!(touched(1, 1).is_ok());
    assert_eq!(touched(0, 1), Err(TypeRefusal::UnknownType(1)));
}
