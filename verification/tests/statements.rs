//! Statements: the access filter, pages, facets and lists.

use dam_db::access::{check_groups_are_renderable, push_asset_filter, AccessPredicate};
use dam_db::assets::{
    detail, kept_among, page, page_matching, page_narrowed, page_offset, total, unreadable, visible_among, Order,
};
use dam_db::attachments;
use dam_db::categories;
use dam_db::comments;
use dam_db::connector_refs;
use dam_db::engagement;
use dam_db::enrichment;
use dam_db::events;
use dam_db::facets;
use dam_db::fields::{FieldDef, FieldKind};
use dam_db::insights;
use dam_db::orders;
use dam_db::portals;
use dam_db::proofing;
use dam_db::query_sql::{push_where, Part, Planned};
use dam_db::sql::Statement;
use dam_db::{Error, ResourceKind};
use sqlx::Arguments;

fn predicate_for(groups: &[u128], all: bool) -> AccessPredicate {
    AccessPredicate {
        all_groups: all,
        allowed_groups: groups.to_vec(),
    }
}

fn rendered(predicate: &AccessPredicate) -> String {
    let mut statement = Statement::new("SELECT 1 WHERE ");
    push_asset_filter(&mut statement, predicate);
    statement.sql()
}

fn planned() -> Planned {
    Planned {
        condition: vec![
            Part::Sql("(assets.deleted_at IS NULL AND assets.bytes > ".to_owned()),
            Part::Int(7),
            Part::Sql(")".to_owned()),
        ],
    }
}

fn def(key: &str, kind: FieldKind, facetable: bool) -> FieldDef {
    FieldDef {
        key: key.to_owned(),
        kind,
        taxonomy_id: None,
        multivalued: false,
        required: false,
        read_only: false,
        ai_writable: false,
        facetable,
    }
}

#[test]
fn an_empty_predicate_renders_a_false_condition_not_an_empty_string() {
    let sql = rendered(&predicate_for(&[], false));
    assert!(sql.contains("(false)"), "got {sql}");
}

#[test]
fn no_uuid_is_ever_interpolated_into_the_sql() {
    let group = uuid::Uuid::from_u128(0x1234);
    let sql = rendered(&predicate_for(&[group.as_u128()], false));
    assert!(!sql.contains(&group.to_string()), "got {sql}");
    assert!(sql.contains('$'), "expected a bind placeholder in {sql}");
}

#[test]
fn the_fragment_is_parenthesised_so_appending_and_is_safe() {
    let sql = rendered(&predicate_for(&[1], false));
    let fragment = sql
        .strip_prefix("SELECT 1 WHERE ")
        .expect("the harness builds this prefix");
    assert!(fragment.starts_with('('), "got {fragment}");
    assert!(fragment.trim_end().ends_with(')'), "got {fragment}");
}

#[test]
fn an_administrator_gets_no_group_clause_at_all() {
    let sql = rendered(&predicate_for(&[], true));
    assert!(!sql.contains("asset_group_members"), "got {sql}");
    assert!(sql.contains("deleted_at IS NULL"), "got {sql}");
}

#[test]
fn release_and_expiry_never_appear_in_a_visibility_filter() {
    let sql = rendered(&predicate_for(&[1], false));
    assert!(!sql.contains("release_at"), "got {sql}");
    assert!(!sql.contains("expires_at"), "got {sql}");
}

#[test]
fn the_filter_is_exactly_one_clause_with_one_array() {
    assert_eq!(
        rendered(&predicate_for(&[1, 2, 3], false)),
        "SELECT 1 WHERE (assets.deleted_at IS NULL AND assets.id IN (SELECT asset_id FROM \
         asset_group_members WHERE group_id = ANY($1)))"
    );
    assert_eq!(
        rendered(&predicate_for(&[], true)),
        "SELECT 1 WHERE (assets.deleted_at IS NULL)"
    );
    // All groups wins over a list of some.
    assert_eq!(
        rendered(&predicate_for(&[9], true)),
        "SELECT 1 WHERE (assets.deleted_at IS NULL)"
    );
}

#[test]
fn which_groups_are_named_leaves_no_trace_in_the_text() {
    assert_eq!(
        rendered(&predicate_for(&[1], false)),
        rendered(&predicate_for(&[2, 3, 4], false))
    );
}

#[test]
fn rule_based_groups_are_refused_by_name() {
    let none: Vec<String> = vec![];
    let some = vec!["press".to_owned(), "web".to_owned()];
    assert!(check_groups_are_renderable(&predicate_for(&[1], false), &none).is_ok());
    assert!(check_groups_are_renderable(&predicate_for(&[1], true), &some).is_ok());
    assert!(check_groups_are_renderable(&predicate_for(&[], false), &some).is_ok());
    let refused = check_groups_are_renderable(&predicate_for(&[1], false), &some).unwrap_err();
    assert_eq!(
        refused,
        Error::Unsupported(
            "asset group(s) press, web carry a rule predicate, and evaluating one needs the query IR \
             (task 2.4). Refusing rather than ignoring it: ignoring would silently grant less access \
             than configured."
                .to_owned()
        )
    );
}

#[test]
fn a_finished_statement_carries_its_values() {
    let mut statement = Statement::new("SELECT ");
    push_where(
        &mut statement,
        &Planned {
            condition: vec![
                Part::Id(5),
                Part::Sql(", ".to_owned()),
                Part::Ids(vec![1, 2]),
                Part::Sql(", ".to_owned()),
                Part::Int(-3),
                Part::Sql(", ".to_owned()),
                Part::Text("a'b".to_owned()),
                Part::Sql(", ".to_owned()),
                Part::Texts(vec!["x".to_owned(), "y".to_owned()]),
                Part::Sql(", ".to_owned()),
                Part::At(1_700_000_000_000_000),
            ],
        },
    );
    assert_eq!(statement.sql(), "SELECT $1, $2, $3, $4, $5, $6");
    let (sql, arguments) = statement.finish();
    assert_eq!(sql, "SELECT $1, $2, $3, $4, $5, $6");
    assert_eq!(arguments.len(), 6);
}

#[test]
fn a_page_clamps_its_limit_and_its_offset() {
    let (sql, arguments) = page(&predicate_for(&[1], false), Order::Newest, -5, 100_000).finish();
    assert!(sql.starts_with("WITH matching AS (SELECT assets.id, assets.filename,"), "{sql}");
    assert!(sql.contains("assets.created_at FROM assets LEFT JOIN LATERAL ("));
    assert!(sql.contains(
        "WHERE (assets.deleted_at IS NULL AND assets.id IN (SELECT asset_id FROM asset_group_members \
         WHERE group_id = ANY($1))) AND assets.is_current AND assets.attached_to IS NULL) SELECT assets.id,"
    ));
    assert!(sql.ends_with(
        "counted.total FROM (SELECT count(*) AS total FROM matching) counted \
         LEFT JOIN (SELECT * FROM matching assets ORDER BY assets.created_at DESC, assets.id DESC \
         LIMIT $2 OFFSET $3) assets ON true ORDER BY assets.created_at DESC, assets.id DESC"
    ));
    assert_eq!(arguments.len(), 3);
    assert_eq!(page_offset(-5), 0);
    assert_eq!(page_offset(12), 12);
}

#[test]
fn a_narrowing_stands_behind_the_access_filter() {
    let sql = page_narrowed(&predicate_for(&[], true), Some("assets.bytes = 0"), Order::Oldest, 0, 10).sql();
    assert!(sql.contains("(assets.deleted_at IS NULL) AND assets.bytes = 0 AND assets.is_current"));
    assert!(sql.contains("ORDER BY assets.created_at ASC, assets.id ASC LIMIT $1 OFFSET $2) assets ON true"));
}

#[test]
fn favourites_first_binds_whose_favourites() {
    let sql = page(&predicate_for(&[], true), Order::FavouritesFirst(77), 0, 10).sql();
    assert!(sql.contains("f.identity_id = $1) DESC, assets.created_at DESC, assets.id DESC LIMIT $2 OFFSET $3)"));
    assert!(sql.ends_with("f.identity_id = $4) DESC, assets.created_at DESC, assets.id DESC"));
    assert!(!sql.contains("77"));
    assert_eq!(Order::default(), Order::Newest);
}

#[test]
fn every_order_ends_in_the_identifier() {
    for order in [
        Order::Newest,
        Order::Oldest,
        Order::FilenameAsc,
        Order::FilenameDesc,
        Order::LargestFirst,
        Order::FavouritesFirst(1),
    ] {
        let mut statement = Statement::new("");
        order.push(&mut statement);
        let sql = statement.sql();
        assert!(sql.ends_with("assets.id DESC") || sql.ends_with("assets.id ASC"), "{sql}");
    }
}

#[test]
fn a_planned_page_numbers_its_placeholders_after_the_plan() {
    let sql = page_matching(&planned(), Order::LargestFirst, 20, 10).sql();
    assert!(sql.contains("LEFT JOIN asset_metadata ON asset_metadata.asset_id = assets.id LEFT JOIN LATERAL"));
    assert!(sql.contains("WHERE (assets.deleted_at IS NULL AND assets.bytes > $1) AND assets.is_current"));
    assert!(sql.contains("LIMIT $2 OFFSET $3) assets ON true"));
}

#[test]
fn a_page_past_the_end_still_carries_the_count() {
    // The rows are joined to the count and not the other way round, so the count has a row of its own.
    let sql = page(&predicate_for(&[], true), Order::Newest, 1_000, 10).sql();
    let count = sql.find("FROM (SELECT count(*) AS total FROM matching) counted").unwrap();
    let rows = sql.find("LEFT JOIN (SELECT * FROM matching assets").unwrap();
    assert!(count < rows);
    assert!(!sql[..count].contains("LIMIT $"));
    assert_eq!(total(&vec![7]), 7);
}

#[test]
fn a_detail_asks_under_the_same_filter() {
    let sql = detail(&predicate_for(&[4], false), 9).sql();
    assert!(sql.ends_with(
        "WHERE assets.id = $1 AND (assets.deleted_at IS NULL AND assets.id IN (SELECT asset_id FROM \
         asset_group_members WHERE group_id = ANY($2)))"
    ));
}

#[test]
fn hydration_keeps_the_ranking() {
    assert!(visible_among(&predicate_for(&[], true), &vec![]).is_none());
    let sql = visible_among(&predicate_for(&[], true), &vec![3, 1]).unwrap().sql();
    assert_eq!(
        sql,
        "SELECT assets.id FROM assets WHERE assets.id = ANY($1) AND (assets.deleted_at IS NULL)"
    );
    assert_eq!(kept_among(&vec![5, 3, 9, 1, 3], &vec![1, 3, 7]), vec![3, 1, 3]);
    assert_eq!(total(&vec![]), 0);
    assert_eq!(total(&vec![41, 2]), 41);
}

#[test]
fn an_unknown_word_names_its_column() {
    assert_eq!(
        unreadable("assets.rights_state", "a\"b"),
        Error::Inconsistent("assets.rights_state holds \"a\\\"b\"".to_owned())
    );
}

#[test]
fn a_facet_needs_a_facetable_field() {
    let defs = vec![
        def("brand", FieldKind::Other, true),
        def("notes", FieldKind::Other, false),
        def("place", FieldKind::Geo, true),
    ];
    assert!(matches!(
        facets::count_field(&planned(), &defs, "colour", 10),
        Err(Error::NotFound { kind: ResourceKind::FieldDef, id }) if id == "colour"
    ));
    assert!(matches!(
        facets::count_field(&planned(), &defs, "notes", 10),
        Err(Error::Unsupported(detail)) if detail.starts_with("field \"notes\" is not marked facetable;")
    ));
    assert!(matches!(
        facets::count_field(&planned(), &defs, "place", 10),
        Err(Error::Unsupported(detail)) if detail.starts_with("a coordinate has no discrete values")
    ));
    let sql = match facets::count_field(&planned(), &defs, "brand", 10) {
        Ok(statement) => statement.sql(),
        Err(error) => panic!("{error:?}"),
    };
    assert!(sql.contains("assets.bytes > $1) AND assets.is_current), exploded AS"));
    assert!(sql.contains("visible.values -> $2) = 'array' THEN (SELECT array_agg(v)"));
    assert!(sql.contains("jsonb_array_elements_text(visible.values -> $3) AS v) ELSE ARRAY[visible.values ->> $4] END"));
    assert!(sql.ends_with("ORDER BY n DESC, value LIMIT $5"));
}

#[test]
fn a_taxonomy_facet_rolls_up() {
    let sql = facets::count_taxonomy(&planned(), 8, 0).sql();
    assert!(sql.contains("WHERE tagged.taxonomy_id = $2 GROUP BY ancestor.id, ancestor.label"));
    assert!(sql.ends_with("LIMIT $3"));
}

#[test]
fn attachments_filter_the_documents_too() {
    let sql = attachments::on_asset(6, &predicate_for(&[2], false)).sql();
    assert!(sql.contains("WHERE a.attached_to = $1 AND a.id IN (SELECT assets.id FROM assets LEFT JOIN"));
    assert!(sql.ends_with("WHERE group_id = ANY($2)))) ORDER BY a.created_at DESC, a.id DESC"));
    assert!(attachments::which_have(&vec![], &predicate_for(&[], true)).is_none());
    let sql = attachments::which_have(&vec![1], &predicate_for(&[], true)).unwrap().sql();
    assert!(sql.starts_with("SELECT DISTINCT a.attached_to FROM assets a WHERE a.attached_to = ANY($1) AND"));
    assert!(sql.ends_with("WHERE (assets.deleted_at IS NULL))"));
}

#[test]
fn a_comment_read_starts_with_the_visible_assets() {
    let sql = comments::on_asset(1, 2, &planned()).sql();
    assert!(sql.starts_with("WITH visible AS (SELECT assets.id FROM assets LEFT JOIN asset_metadata"));
    assert!(sql.contains("assets.bytes > $1)) SELECT c.id, c.asset_id,"));
    assert!(sql.contains("WHERE c.asset_id = $2 AND (c.visibility = 'public' OR c.author_id = $3 OR EXISTS"));
    assert!(sql.ends_with(
        "r.identity_id = $4)) ORDER BY coalesce((SELECT p.created_at FROM asset_comments p WHERE p.id = c.parent_id), \
         c.created_at), coalesce(c.parent_id, c.id), c.parent_id IS NOT NULL, c.created_at, c.id"
    ));
    let sql = comments::read(1, 2, &planned()).sql();
    assert!(sql.contains("WHERE c.id = $2 AND (c.visibility = 'public' OR c.author_id = $3"));
    let sql = comments::require_visible_asset(3, &planned()).sql();
    assert!(sql.ends_with("WHERE assets.id = $1 AND (assets.deleted_at IS NULL AND assets.bytes > $2)"));
}

#[test]
fn an_impact_counts_only_what_is_live() {
    assert!(connector_refs::impact(&vec![], 0).is_none());
    let (sql, arguments) = connector_refs::impact(&vec![1, 2], 1_700_000_000_000_000).unwrap().finish();
    assert!(sql.contains("WHERE r.asset_id = ANY($1) AND r.state = 'linked' AND r.usage_count > 0"));
    assert!(sql.ends_with("r.synced_at > $2 GROUP BY r.asset_id"));
    assert_eq!(arguments.len(), 2);
}

#[test]
fn engagement_is_read_under_the_plan() {
    assert!(engagement::many(&vec![], 1, &planned()).is_none());
    let sql = engagement::many(&vec![4], 1, &planned()).unwrap().sql();
    assert!(sql.contains("WHERE assets.id = ANY($1) AND (assets.deleted_at IS NULL AND assets.bytes > $2)) SELECT visible.id,"));
    assert!(sql.contains("AND r.identity_id = $3), EXISTS"));
    assert!(sql.contains("AND f.identity_id = $4), EXISTS"));
    assert!(sql.ends_with("AND w.identity_id = $5) FROM visible"));
    let sql = engagement::visible(4, &planned()).sql();
    assert!(sql.ends_with("assets.id = $1 AND (assets.deleted_at IS NULL AND assets.bytes > $2)"));
    let list = engagement::mine(engagement::List::Watches, 1, &planned(), 10_000, -1).sql();
    assert!(list.contains("JOIN asset_watches mine ON mine.asset_id = assets.id AND mine.identity_id = $1"));
    assert!(list.ends_with("ORDER BY created_at DESC, id LIMIT $3 OFFSET $4"));
    let count = engagement::mine_total(engagement::List::Favourites, 1, &planned()).sql();
    assert!(count.starts_with("SELECT count(*) FROM assets JOIN asset_favourites mine ON"));
}

#[test]
fn the_review_queue_is_scoped_and_limited() {
    let sql = enrichment::review_queue(&predicate_for(&[3], false), 25).sql();
    assert!(sql.contains("WHERE group_id = ANY($1))) AND assets.is_current AND assets.attached_to IS NULL AND (asset_tags.term_id"));
    assert!(sql.contains("WHERE entry.value ->> 'reviewed_by' IS NULL)) "));
    assert!(enrichment::marked_on(1).text.contains("AND entry.value ->> 'reviewed_by' IS NULL ORDER BY"));
    assert!(sql.ends_with("ORDER BY votes DESC, confidence DESC, assets.created_at DESC LIMIT $2"));
}

#[test]
fn a_feed_is_narrowed_only_when_kinds_are_named() {
    let all = events::feed(&planned(), 10, &vec![]).sql();
    assert!(!all.contains("e.kind = ANY("));
    assert!(all.ends_with("ORDER BY e.occurred_at DESC, e.id DESC LIMIT $2"));
    let some = events::feed(&planned(), 10, &vec![events::Kind::Uploaded, events::Kind::Deleted]).sql();
    assert!(some.contains("ON visible.id = e.asset_id WHERE e.kind = ANY($2) ORDER BY"));
    assert!(some.ends_with("LIMIT $3"));
    let counts = events::summary(&planned()).sql();
    assert!(counts.contains("assets.bytes > $1) AND assets.is_current) SELECT (SELECT count(*) FROM visible)"));
}

#[test]
fn insights_start_from_what_the_reader_sees() {
    let reader = predicate_for(&[1], false);
    for sql in [
        insights::series(&reader, 30).sql(),
        insights::most_downloaded(&reader, 30, 10).sql(),
        insights::never_downloaded(&reader, 10).sql(),
        insights::never_downloaded_count(&reader).sql(),
        insights::by_class(&reader).sql(),
        insights::contributors(&reader, 30, 10).sql(),
    ] {
        assert!(
            sql.starts_with(
                "WITH visible AS (SELECT assets.id, assets.filename, assets.mime, assets.bytes, \
                 assets.created_at FROM assets WHERE (assets.deleted_at IS NULL AND assets.id IN \
                 (SELECT asset_id FROM asset_group_members WHERE group_id = ANY($1))) \
                 AND assets.is_current AND assets.attached_to IS NULL) SELECT "
            ),
            "{sql}"
        );
    }
    assert_eq!(insights::window(0), 1);
    assert_eq!(insights::window(40_000), 366);
    assert_eq!(insights::window(30), 30);
    assert_eq!(insights::rows(-1), 1);
    assert_eq!(insights::rows(201), 200);
    let (_, arguments) = insights::series(&reader, 30).finish();
    assert_eq!(arguments.len(), 4);
}

#[test]
fn order_lists_share_their_columns() {
    for sql in [
        orders::read(1).sql(),
        orders::placed_by(1, 10).sql(),
        orders::awaiting_decision(10).sql(),
        orders::for_share(1).sql(),
    ] {
        assert!(sql.starts_with("SELECT o.id, o.reference, o.requested_by, o.purpose,"), "{sql}");
    }
    assert!(orders::placed_by(1, 10).sql().ends_with("WHERE o.requested_by = $1 ORDER BY o.created_at DESC LIMIT $2"));
    assert!(orders::awaiting_decision(10).sql().ends_with("ORDER BY o.created_at LIMIT $1"));
}

#[test]
fn portal_rows_and_count_share_a_condition() {
    let rows = portals::members(7, Some("harbour"), Some("video"), 12).sql();
    let count = portals::member_count(7, Some("harbour"), Some("video")).sql();
    let condition = count.strip_prefix("SELECT count(*)").unwrap();
    assert!(rows.contains(condition));
    assert!(condition.ends_with(
        "AND assets.mime LIKE $2 AND (assets.filename ILIKE $3 OR coalesce(asset_metadata.values, \
         '{}'::jsonb)::text ILIKE $4)"
    ));
    assert!(rows.ends_with("ORDER BY collection_items.position, assets.filename LIMIT $5"));
    assert!(portals::member_count(7, None, None).sql().ends_with(
        "WHERE collection_items.collection_id = $1 AND assets.deleted_at IS NULL AND assets.is_current \
         AND assets.attached_to IS NULL"
    ));
    assert!(portals::read(1).sql().ends_with("FROM portals WHERE id = $1"));
    let public = portals::by_public_key("press").unwrap().sql();
    assert!(public.ends_with("WHERE key = $1 AND is_public AND retired_at IS NULL"));
    assert!(portals::all().sql().ends_with("ORDER BY retired_at IS NOT NULL, created_at DESC"));
}

#[test]
fn category_statements_count_under_the_plan() {
    let counts = categories::counts(3, &planned()).sql();
    assert!(counts.contains("WHERE ancestor.taxonomy_id = $2 GROUP BY ancestor.id"));
    let unfiled = categories::uncategorised(3, &planned()).sql();
    assert!(unfiled.contains("WHERE t.taxonomy_id = $2 AND at.state = 'confirmed') SELECT visible.id"));
}

#[test]
fn a_rounds_assets_are_read_in_snapshot_order() {
    assert_eq!(
        proofing::assets_in(4).sql(),
        "SELECT a.asset_id FROM proof_round_assets a WHERE a.round_id = $1 ORDER BY a.position, a.asset_id"
    );
}

#[test]
fn what_is_listed_comes_in_one_order() {
    assert!(orders::READ_ITEMS.ends_with("WHERE order_id = $1 ORDER BY filename, asset_id"));
    assert!(orders::READ_ALL_ITEMS.ends_with("WHERE order_id = ANY($1) ORDER BY filename, asset_id"));
    assert!(orders::INSERT_ITEM.starts_with("INSERT INTO order_items (order_id, asset_id, filename) SELECT $1,"));
    assert!(categories::TREES.ends_with("WHERE kind = 'category' ORDER BY key"));
    assert!(dam_db::integrity::DUE.ends_with("last_verified_at ASC NULLS FIRST, object_key, pool_id LIMIT $1"));
    assert!(dam_db::imports::CREATED_ASSETS
        .ends_with("AND a.deleted_at IS NULL AND a.is_current ORDER BY r.source_id"));
    assert!(dam_db::imports::WRITE_NOTE.ends_with("WHERE import_records.state <> 'migrated'"));
    assert!(dam_db::auth::LOOKUP.contains("LEFT JOIN dam_global.identities i ON i.id = k.identity_id"));
}
