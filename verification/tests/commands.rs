use dam_db::access;
use dam_db::assets;
use dam_db::attachments;
use dam_db::audit;
use dam_db::auth;
use dam_db::auto_import;
use dam_db::branding;
use dam_db::bulk;
use dam_db::categories;
use dam_db::collections;
use dam_db::comments;
use dam_db::connector_refs;
use dam_db::connectors;
use dam_db::conversions;
use dam_db::derivatives;
use dam_db::engagement;
use dam_db::enrichment;
use dam_db::events;
use dam_db::fields;
use dam_db::imports;
use dam_db::integrity;
use dam_db::jobs;
use dam_db::judgements;
use dam_db::members;
use dam_db::metadata;
use dam_db::metadata_types;
use dam_db::metering;
use dam_db::orders;
use dam_db::paths;
use dam_db::portals;
use dam_db::proofing;
use dam_db::provision;
use dam_db::commands::{Command, Value};
use dam_db::json::{Document, Json};
use dam_db::migrate::TenantSlug;

/// The highest placeholder a text holds, every lower one being there too.
fn placeholders(text: &str) -> usize {
    let mut highest = 0;
    while text.contains(&format!("${}", highest + 1)) {
        highest += 1;
    }
    highest
}

fn check(command: Command) {
    assert_eq!(placeholders(command.text), command.values.len(), "{}", command.text);
    assert!(!command.text.contains(&format!("${}", command.values.len() + 1)), "{}", command.text);
    assert!(!command.text.contains("  "), "{}", command.text);
}

fn word() -> String {
    "word".to_string()
}

fn member() -> members::NewMember {
    members::NewMember {
        email: " ada@example.org ".to_string(),
        display_name: None,
        role_names: vec![word()],
        is_tenant_admin: true,
    }
}

fn branding_row() -> branding::Branding {
    branding::Branding { site_name: word(), logo_asset_id: None, accent: "#112233".to_string(), support_email: None }
}

fn filter() -> audit::Filter {
    audit::Filter {
        action: None,
        actor_id: None,
        target_kind: Some(word()),
        target_id: None,
        before_seq: Some(9),
    }
}

fn entry() -> audit::Entry {
    audit::Entry {
        seq: 1,
        at: 2,
        actor_id: None,
        actor_kind: word(),
        action: word(),
        target_kind: word(),
        target_id: None,
        payload: Json::Null,
        prev_hash: None,
        hash: word(),
    }
}

fn mapping() -> auto_import::Mapping {
    auto_import::Mapping { id: 7, source: word(), field_key: word(), priority: 1, overwrite: true, enabled: false }
}

fn category() -> categories::NewCategory {
    categories::NewCategory { taxonomy_id: 1, parent_id: None, slug: word(), label: word() }
}

fn collection() -> collections::NewCollection<'static> {
    collections::NewCollection {
        key: "k",
        label: "l",
        description: None,
        visibility: "shared",
        pin_hot: false,
        owner_id: None,
    }
}

fn portal_columns() -> portals::NewColumns {
    portals::create(portals::NewPortal {
        key: " Key ".to_string(),
        title: word(),
        intro: word(),
        kind: portals::Kind::Standard,
        source: portals::Source::Collection(4),
        logo_asset_id: None,
        accent: "#112233".to_string(),
        is_public: true,
        allow_search: false,
    })
}

fn presentation() -> portals::PresentationColumns {
    let row = portal_columns();
    portals::PresentationColumns {
        title: row.title,
        intro: row.intro,
        kind: row.kind,
        logo_asset_id: None,
        accent: row.accent,
        is_public: true,
        allow_search: false,
    }
}

fn comment() -> comments::NewComment {
    comments::NewComment {
        asset_id: 1,
        author_id: 2,
        body: word(),
        visibility: comments::Visibility::parse("public").unwrap(),
        recipients: vec![],
        parent_id: None,
    }
}

fn conversion() -> conversions::NewConversion {
    conversions::NewConversion {
        key: " web ".to_string(),
        label: " Web ".to_string(),
        description: String::new(),
        media_class: "image".to_string(),
        max_width: 1,
        max_height: 2,
        format: "jpeg".to_string(),
        quality: 80,
        fit: "contain".to_string(),
        background: "#ffffff".to_string(),
        required_permission: None,
        sort_order: 3,
    }
}

fn derivative() -> derivatives::NewDerivative<'static> {
    derivatives::NewDerivative {
        asset_id: 1,
        role: "proxy",
        profile: "p",
        op_hash: "h",
        object_key: "k",
        mime: "image/jpeg",
        bytes: 10,
        width: Some(1),
        height: None,
        regen_cost_ms: None,
    }
}

fn placed(state: &str) -> Option<orders::Order> {
    let row = orders::OrderRow {
        id: 7,
        reference: "ORD-000007".to_string(),
        requested_by: 1,
        purpose: word(),
        channel: None,
        territory: None,
        conversion_key: None,
        include_metadata: false,
        recipients: vec![],
        state: state.to_string(),
        decided_by: None,
        decided_at: None,
        decision_note: None,
        expires_at: None,
        share_link_id: None,
        created_at: 0,
    };
    Some(orders::into_order(row, vec![orders::Item { asset_id: 4, filename: word() }]))
}

fn standings() -> Vec<attachments::Standing> {
    vec![
        attachments::Standing { id: 1, attached_to: None, is_current: true },
        attachments::Standing { id: 2, attached_to: None, is_current: true },
    ]
}

fn posted() -> Option<comments::Comment> {
    let row = comments::CommentRow {
        id: 7,
        asset_id: 1,
        author_id: 2,
        body: word(),
        visibility: "public".to_string(),
        status: "open".to_string(),
        parent_id: None,
        status_by: None,
        created_at: 0,
        edited_at: None,
    };
    Some(comments::comment(row, vec![]).unwrap())
}

fn order() -> orders::NewOrder {
    orders::NewOrder {
        requested_by: 1,
        purpose: " print run ".to_string(),
        channel: None,
        territory: Some(word()),
        conversion_key: None,
        include_metadata: true,
        recipients: vec![word()],
        asset_ids: vec![4],
    }
}

fn round() -> proofing::NewRound<'static> {
    proofing::NewRound {
        title: "t",
        brief: "b",
        asset_ids: vec![1],
        reviewer_ids: vec![2],
        due_at: Some(3),
        requested_by: None,
        supersedes: None,
    }
}

fn opened() -> proofing::OpenedRound {
    proofing::OpenedRound { title: word(), brief: word(), number: 1, assets: vec![(1, 0)] }
}

fn new_type() -> metadata_types::NewType {
    metadata_types::NewType {
        key: word(),
        label: word(),
        applies_to: vec![word()],
        is_default: true,
        field_keys: vec![word()],
    }
}

fn path() -> paths::Path {
    paths::Path {
        id: 1,
        name: word(),
        trigger_kind: "expiry".to_string(),
        lead_days: None,
        channels: vec![],
        digest_window: None,
        throttle_per_asset: None,
    }
}

fn reclaimed() -> jobs::Reclaimed {
    jobs::Reclaimed { state: jobs::State::Dead, last_error: word(), finished: true }
}

fn pool() -> provision::PoolSeed<'static> {
    provision::hot_pool(provision::StoragePool {
        endpoint: Some("http://localhost"),
        region: "r",
        bucket: "b",
        force_path_style: true,
        credentials_ref: "env:KEY",
    })
}

fn slug() -> TenantSlug {
    TenantSlug::new("acme").unwrap()
}

fn secrets() -> connectors::Secrets {
    connectors::Secrets { current: word(), previous: None, rotated_at: Some(5) }
}

fn connector() -> connectors::NewConnector<'static> {
    connectors::NewConnector {
        id: 1,
        kind: connectors::Kind::Drupal,
        label: " Site ",
        site_url: "https://example.org//",
        remote_version: None,
        api_key_id: None,
        sealed_secret: "s",
        asset_group_ids: vec![4, 5],
        allow_all_groups: false,
        allow_original: true,
        allow_restore: false,
        config: Json::Null,
    }
}

fn reference() -> connector_refs::NewRef<'static> {
    connector_refs::NewRef {
        asset_id: 1,
        remote_entity_type: "node",
        remote_entity_id: "9",
        remote_uuid: None,
        remote_url: None,
        usage_count: -4,
        usage_sample: Json::Null,
        synced_version_no: Some(2),
    }
}

fn marked() -> enrichment::Marked {
    enrichment::Marked {
        values: Document::from_entries(vec![(word(), Json::Int(1))]),
        provenance: Document::from_entries(vec![]),
    }
}

fn amendment() -> fields::Amendment {
    fields::Amendment {
        label: Some(word()),
        kind: None,
        taxonomy_id: None,
        multivalued: None,
        required: Some(true),
        read_only: None,
        searchable: None,
        facetable: None,
        ai_writable: None,
        search_alias: Some(None),
        validation: None,
    }
}

fn field() -> fields::NewField {
    fields::NewField {
        key: word(),
        label: word(),
        kind: "text".to_string(),
        taxonomy_id: None,
        multivalued: false,
        required: true,
        read_only: false,
        searchable: true,
        facetable: false,
        ai_writable: true,
        search_alias: None,
        validation: Json::Null,
    }
}

fn operation() -> bulk::OperationSpec<'static> {
    bulk::OperationSpec { kind: "tag", actor_id: Some(3), predicate: None, params: Json::Bool(true) }
}

fn import() -> imports::NewImport<'static> {
    imports::NewImport { id: 1, source: "s", label: "l", config: Json::Null, batch_size: 5, created_by: None }
}

fn stage() -> imports::Stage {
    imports::Stage { phase: imports::Phase::Verify, started_at: Some(1), finished_at: None }
}

#[test]
fn a_job_is_stored_as_it_was_specified() {
    let spec = jobs::JobSpec::new(3, "derive".to_string()).priority(40).dedupe_key("k".to_string());
    let command = jobs::insert(9, spec);
    assert_eq!(
        command.values,
        vec![
            Value::Id(9),
            Value::Id(3),
            Value::Text("derive".to_string()),
            Value::Json(Json::Object(vec![])),
            Value::Small(40),
            Value::MaybeAt(None),
            Value::Whole(5),
            Value::MaybeText(Some("k".to_string())),
        ]
    );
}

#[test]
fn what_is_stored_is_trimmed_where_it_should_be() {
    assert_eq!(orders::insert(1, &order()).values[2], Value::Text("print run".to_string()));
    let site = connectors::register(connector());
    assert_eq!(site.values[2], Value::Text("Site".to_string()));
    assert_eq!(site.values[3], Value::Text("https://example.org".to_string()));
    assert_eq!(connector_refs::write_reference(1, reference(), 2).values[6], Value::Whole(0));
    let format = conversions::insert(&conversion(), None);
    assert_eq!(format.values[0], Value::Text("web".to_string()));
    assert_eq!(format.values[1], Value::Text("Web".to_string()));
    let key = auth::ApiKey::from_secret(&[1; 32]);
    let issued = members::issue_key(1, 2, &member(), &key);
    assert_eq!(issued.values[2], Value::Text("issued with access for ada@example.org".to_string()));
    assert_eq!(issued.values[4], Value::Text(auth::ApiKey::hash_of(key.plaintext())));
    let said = proofing::write_verdict(1, 2, proofing::Verdict::Approved, "  fine ");
    assert_eq!(said.values[3], Value::Text("fine".to_string()));
}

#[test]
fn a_key_is_looked_up_by_its_digest_only() {
    let command = auth::lookup("dam_secret");
    assert_eq!(command.values, vec![Value::Text(auth::ApiKey::hash_of("dam_secret"))]);
}

#[test]
fn an_amendment_says_whether_it_sets_the_alias() {
    let command = fields::write_amended("k", amendment(), Some(4));
    assert_eq!(command.values[3], Value::MaybeId(Some(4)));
    assert_eq!(command.values[5], Value::MaybeFlag(Some(true)));
    assert_eq!(command.values[10], Value::Flag(true));
    assert_eq!(command.values[11], Value::MaybeText(None));
    let silent = fields::Amendment { search_alias: None, ..amendment() };
    assert_eq!(fields::write_amended("k", silent, None).values[10], Value::Flag(false));
    let named = fields::Amendment { search_alias: Some(Some("kw".to_string())), ..amendment() };
    assert_eq!(fields::write_amended("k", named, None).values[11], Value::MaybeText(Some("kw".to_string())));
}

#[test]
fn commands_are_refused_where_their_decision_is() {
    assert!(collections::delete(7, 1).is_err());
    assert!(collections::rename(7, "l", None, "secret", true).is_err());
    let odd = collections::NewCollection { visibility: "secret", ..collection() };
    assert!(collections::create(7, &odd).is_err());
    assert_eq!(engagement::rate(1, None, 2, 6), Err(engagement::EngagementRefusal::OutOfRange(6)));
    assert_eq!(engagement::rate(1, Some(1), 2, 0), Err(engagement::EngagementRefusal::OutOfRange(0)));
    assert_eq!(engagement::rate(1, None, 2, 5), Err(engagement::EngagementRefusal::UnknownAsset(1)));
    assert_eq!(engagement::watch(1, None, 2), Err(engagement::EngagementRefusal::UnknownAsset(1)));
    assert_eq!(attachments::detach(2, &vec![]), Err(attachments::AttachmentRefusal::UnknownAsset(2)));
    assert_eq!(
        comments::set_status(3, &None, comments::Status::Open, 2),
        Err(comments::CommentRefusal::UnknownComment(3))
    );
    assert!(derivatives::superseded(&vec![], 5).is_err());
    assert_eq!(derivatives::write_proxy(&derivatives::ProxyWrite::Keep, &derivative()), None);
}

#[test]
fn an_order_is_decided_once_and_picked_up_only_after_an_approval() {
    for decided in ["approved", "rejected", "cancelled", "ready", "collected"] {
        assert!(orders::approve(7, &placed(decided), &vec![4], 5, 9, None, 0).is_err());
        assert!(orders::reject(7, &placed(decided), 9, None, 0).is_err());
        assert!(orders::cancel(7, &placed(decided), 1).is_err());
    }
    for unapproved in ["submitted", "rejected", "cancelled"] {
        assert!(orders::mark_ready(7, &placed(unapproved), 3).is_err());
        assert_eq!(orders::mark_collected(7, &placed(unapproved)), None);
    }
    let command = orders::approve(7, &placed("submitted"), &vec![4], 5, 9, Some("yes"), 3).unwrap();
    assert_eq!(
        command.values,
        vec![
            Value::Id(7),
            Value::Id(9),
            Value::At(3),
            Value::MaybeText(Some("yes".to_string())),
            Value::Whole(5),
        ]
    );
}

#[test]
fn a_move_parks_the_asset_first() {
    let planned = collections::move_item(1, 2, Some(4), 6, 0).unwrap().unwrap();
    let commands = collections::moving(1, 2, planned);
    assert_eq!(commands.len(), 3);
    assert_eq!(commands[0].values[2], Value::Whole(-1));
    assert!(commands[1].text.contains("position + 1"));
    assert_eq!(commands[1].values, vec![Value::Id(1), Value::Whole(0), Value::Whole(4)]);
    assert_eq!(commands[2].values[2], Value::Whole(0));
}

#[test]
fn opening_a_round_writes_its_assets_and_those_it_asks() {
    let opened = proofing::OpenedRound { title: word(), brief: word(), number: 2, assets: vec![(5, 0), (6, 1)] };
    let new = proofing::NewRound { reviewer_ids: vec![8, 9], ..round() };
    let commands = proofing::opening(7, &opened, &new);
    assert_eq!(commands.len(), 5);
    assert_eq!(commands[0].values[3], Value::Whole(2));
    assert_eq!(commands[2].values, vec![Value::Id(7), Value::Id(6), Value::Whole(1)]);
    assert_eq!(commands[4].values, vec![Value::Id(7), Value::Id(9)]);
    for command in commands {
        check(command);
    }
}

#[test]
fn the_others_step_aside_the_right_way() {
    let later = collections::write_shift(1, collections::Shift::Later { from: 2, before: 5 });
    assert!(later.text.contains("position + 1"));
    assert_eq!(later.values, vec![Value::Id(1), Value::Whole(2), Value::Whole(5)]);
    let earlier = collections::write_shift(1, collections::Shift::Earlier { after: 2, through: 5 });
    assert!(earlier.text.contains("position - 1"));
    assert_eq!(earlier.values, vec![Value::Id(1), Value::Whole(2), Value::Whole(5)]);
}

#[test]
fn a_proxy_that_takes_anothers_place_has_not_been_served() {
    let swap = derivatives::ProxyWrite::Swap { id: 6, orphaned: Some(word()) };
    let command = derivatives::write_proxy(&swap, &derivative()).unwrap();
    assert!(command.text.contains("last_served_at = NULL"));
    assert_eq!(command.values[0], Value::Id(6));
    assert_eq!(derivatives::mark_served(1, 3_600_000_000).values[1], Value::At(3_600_000_000));
}

#[test]
fn a_review_names_the_person_in_the_provenance() {
    let command = enrichment::write_reviewed(1, "title", Some(0xab));
    assert_eq!(
        command.values[2],
        Value::MaybeText(Some("00000000-0000-0000-0000-0000000000ab".to_string()))
    );
    assert_eq!(enrichment::write_reviewed(1, "title", None).values[2], Value::MaybeText(None));
}

#[test]
fn every_placeholder_has_its_value_in_people() {
    check(access::rule_based(&vec![7]));
    check(auth::lookup("word"));
    check(auth::touch(7));
    check(auth::membership(7, 7));
    check(auth::roles(&vec!["word".to_string()]));
    check(members::list(7));
    check(members::known_roles());
    check(members::issue_key(7, 7, &member(), &dam_db::auth::ApiKey::from_secret(&[1; 32])));
    check(members::identity_of("word"));
    check(members::is_member(7, Some(8)));
    check(members::insert_identity(7, "word", &Some("word".to_string())));
    check(members::insert_member(7, 7, &member()));
    check(members::provider_owned(7, 7));
    check(members::write_active(7));
    check(members::membership(7, 7));
    check(members::write_roles(7, 7, &vec!["word".to_string()], true));
    check(members::revoke_keys(7, 7));
    check(members::delete_member(7, 7));
    check(members::elsewhere(7));
    check(members::write_disabled(7));
    check(members::lock_memberships(7));
    check(members::administrators(7));
    check(audit::lock());
    check(audit::prepare(Json::Null));
    check(audit::append(entry()));
    check(audit::page(&filter(), 5));
    check(audit::hash_before(5));
    check(audit::from(5, 5));
    check(comments::post(7, &comment(), Some(1), &None).unwrap());
    check(comments::amend(7, &posted(), 2, "word").unwrap());
    check(comments::remove(7, &posted(), 2).unwrap());
    check(comments::read_recipients(7));
    check(comments::insert_recipient(7, 7));
    check(comments::read_all_recipients(&vec![7]));
    check(comments::set_status(7, &posted(), comments::Status::Open, 3).unwrap());
    check(engagement::rate(7, Some(7), 8, 3).unwrap());
    check(engagement::unrate(7, Some(7), 8).unwrap());
    check(engagement::favourite(7, Some(7), 8).unwrap());
    check(engagement::unfavourite(7, Some(7), 8).unwrap());
    check(engagement::watch(7, Some(7), 8).unwrap());
    check(engagement::unwatch(7, Some(7), 8).unwrap());
    check(engagement::watchers(7));
    check(proofing::number_of(Some(8)));
    check(proofing::insert(7, &opened(), &round()));
    check(proofing::insert_asset(7, 7, 5));
    check(proofing::insert_approver(7, 7));
    check(proofing::closed_at(7));
    check(proofing::write_verdict(7, 7, dam_db::proofing::Verdict::Approved, "word"));
    check(proofing::verdicts(7));
    check(proofing::close(7));
    check(proofing::held_ending(7));
    check(
        proofing::write_ending(7, Some(8), dam_db::proofing::Ending { closed_at: None, cancelled_at: Some(9) }),
    );
    check(proofing::asked(7));
    check(proofing::read(7));
    check(proofing::list(5));
    check(proofing::waiting_on(7));
    check(proofing::items(7));
    check(events::record(7, dam_db::events::NewEvent::by_person(dam_db::events::Kind::Edited, 1, 2)));
    check(judgements::record("word", 7, 2, Some(8)));
    check(judgements::all_judged());
    check(judgements::judged_for("word"));
    check(judgements::remove("word", 7));
}

#[test]
fn every_placeholder_has_its_value_in_library() {
    check(assets::held_mark(7));
    check(assets::write_mark(7, Some(9)));
    check(assets::touch(7));
    check(attachments::attach(1, 2, attachments::Kind::Permit, &vec![1, 2], &standings()).unwrap());
    check(attachments::detach(2, &vec![2]).unwrap());
    check(attachments::standings(&vec![7]));
    check(categories::file(7, 7, Some(None), None).unwrap());
    check(categories::create_tree("word", "word"));
    check(categories::trees());
    check(categories::kind_of(7));
    check(categories::parent_of(Some(8)));
    check(categories::path_taken(7, "word"));
    check(categories::insert(&category(), "word"));
    check(categories::nodes(7));
    check(categories::by_path(7, "word"));
    check(categories::by_id(7));
    check(categories::deprecation(7));
    check(categories::unfile(7, 7));
    check(categories::of_asset(7));
    check(categories::assets_in(7));
    check(collections::hold(7));
    check(collections::membership(7, 7));
    check(collections::position_of(7, 7));
    check(collections::size_of(7));
    check(collections::held_positions(7));
    check(collections::portals_showing(7));
    check(collections::insert_item(7, 7, 5, Some(8)));
    check(collections::remove(7, 7));
    check(collections::write_position(7, 7, 5));
    check(collections::write_shift(7, dam_db::collections::Shift::Later { from: 1, before: 2 }));
    check(collections::write_positions(7, &vec![7], vec![5]));
    check(collections::items(7));
    check(collections::pinned(&vec![7]));
    check(collections::all());
    check(collections::create(7, &collection()).unwrap());
    check(collections::rename(7, "word", None, "shared", true).unwrap());
    check(collections::delete(7, 0).unwrap());
    check(derivatives::by_op_hash(7, "word"));
    check(derivatives::insert(&derivative()));
    check(derivatives::current_proxy(7));
    check(derivatives::held_proxy(7));
    check(derivatives::write_proxy(&dam_db::derivatives::ProxyWrite::Insert, &derivative()).unwrap());
    check(derivatives::mark_served(7, 9));
    check(derivatives::superseded(&vec!["word".to_string()], 5).unwrap());
    check(integrity::due(5));
    check(integrity::placements("word"));
    check(
        integrity::record_verdict("word", 7, dam_db::integrity::Verdict::Missing, Some("word".to_string()), Some("word".to_string()), 9),
    );
    check(integrity::standing());
    check(integrity::findings(5));
    check(orders::approve(7, &placed("submitted"), &vec![4], 5, 7, Some("word"), 9).unwrap());
    check(orders::reject(7, &placed("submitted"), 7, Some("word"), 9).unwrap());
    check(orders::cancel(7, &placed("submitted"), 1).unwrap());
    check(orders::mark_ready(7, &placed("approved"), 7).unwrap());
    check(orders::mark_collected(7, &placed("ready")).unwrap());
    check(orders::insert(7, &order()));
    check(orders::insert_item(7, 7));
    check(orders::hold(7));
    check(orders::read_items(7));
    check(orders::read_all_items(&vec![7]));
    check(metering::level());
    check(metering::stored_by_class());
    check(metering::flows(3));
    check(metering::ai_spend(3));
    check(metering::upsert(7, 3, dam_db::metering::DayTotals::default()));
    check(metering::window(7, 3, 3));
}

#[test]
fn every_placeholder_has_its_value_in_schema() {
    check(fields::load());
    check(fields::catalog());
    check(fields::aliases());
    check(fields::category_paths());
    check(fields::stored_values(7));
    check(fields::vocabularies_of(&vec![7]));
    check(fields::alias_taken(Some("word"), Some("word")));
    check(fields::taxonomy_exists(Some(8)));
    check(fields::validation_of("word"));
    check(fields::key_exists("word"));
    check(fields::insert(field()));
    check(fields::values_under("word"));
    check(fields::write_amended("word", amendment(), Some(8)));
    check(fields::remove("word"));
    check(fields::keys());
    check(fields::write_order(&vec!["word".to_string()]));
    check(fields::usage("word"));
    check(fields::missing("word"));
    check(metadata::stored(7));
    check(metadata::write_values(7, Document::from_entries(vec![])));
    check(metadata_types::defined());
    check(metadata_types::clear_default());
    check(metadata_types::insert_members(7, &vec!["word".to_string()]));
    check(metadata_types::key_taken("word"));
    check(metadata_types::insert(7, &new_type()));
    check(metadata_types::known(7));
    check(metadata_types::clear_members(7));
    check(metadata_types::set_default(7));
    check(metadata_types::remove(7));
    check(metadata_types::assign(7, Some(8)));
    check(metadata_types::list());
    check(metadata_types::by_key("word"));
    check(metadata_types::contenders());
    check(metadata_types::assigned(7));
    check(metadata_types::fallback());
    check(metadata_types::selection(7));
    check(metadata_types::load(7));
    check(enrichment::writable());
    check(enrichment::held(7));
    check(enrichment::write_marked(7, marked()));
    check(enrichment::held_provenance(7));
    check(enrichment::write_provenance(7, Document::from_entries(vec![])));
    check(enrichment::machine_written(7));
    check(enrichment::term_of("word"));
    check(enrichment::tag_state(7, Some(8)));
    check(enrichment::register_model(7, "word", "word", "word", "word", Json::Null));
    check(enrichment::start_run(7, 7, "word", 5));
    check(
        enrichment::finish_run(7, dam_db::enrichment::Outcome::Partial, dam_db::enrichment::Cost { input_tokens: 1, output_tokens: 2, cached_tokens: 3, micro_cents: 4 }, Json::Null, Some("word"), true),
    );
    check(enrichment::stored_settings());
    check(enrichment::write_settings(&dam_db::enrichment::settings(None)));
    check(enrichment::vocabulary_size());
    check(enrichment::vocabulary(5));
    check(enrichment::clear_disclosure(7, "word"));
    check(enrichment::disclose(7, 7, "word", 7, "word", "word"));
    check(enrichment::write_oversight(7, "word", "word", Some(8)));
    check(enrichment::write_reviewed(7, "word", Some(8)));
    check(enrichment::suggested_on(7));
    check(enrichment::marked_on(7));
    check(enrichment::suggestion(7, 7));
    check(enrichment::decide_tag(7, 7, dam_db::enrichment::Verdict::Accept, Some(8)));
    check(enrichment::needing_description("word", 5, 5));
    check(enrichment::backfill_progress("word", 5));
    check(enrichment::mark_batched(7, "word"));
    check(enrichment::attach_batch(&vec![7], "word"));
    check(enrichment::runs_in_batch("word"));
    check(auto_import::target("word"));
    check(auto_import::clash("word", "word"));
    check(auto_import::insert(&mapping()));
    check(auto_import::list());
    check(auto_import::mapping(7));
    check(auto_import::set_enabled(7, true));
    check(auto_import::set_overwrite(7, true));
    check(auto_import::remove(7));
    check(imports::insert(import(), "word", 5));
    check(imports::by_id(7));
    check(imports::all());
    check(imports::write_crosswalk(7, Json::Null, Json::Null, Json::Null));
    check(imports::held_stage(7));
    check(imports::write_stage(7, stage()));
    check(imports::set_report(7, 5, Json::Null));
    check(imports::held_record(7, "word"));
    check(
        imports::write_note(7, "word", Some("word"), dam_db::imports::RecordState::Failed, Json::Null, Some("word")),
    );
    check(imports::state_of(7, "word"));
    check(imports::held_counters(7));
    check(imports::write_counters(7, dam_db::imports::Counters { migrated: 1, failed: 2 }));
    check(imports::write_migrated(7, "word", 7));
    check(imports::write_failed(7, "word", "word"));
    check(imports::pending(7, 5));
    check(imports::records(7, 5));
    check(imports::recount(7));
    check(imports::created_assets(7));
    check(imports::mark_rolled_back(7));
    check(bulk::insert(7, operation(), 5));
    check(bulk::insert_items(7, &vec![7]));
    check(bulk::load(7));
    check(bulk::next_batch(7, 5));
    check(bulk::held_state(7));
    check(bulk::held_counters(7));
    check(bulk::write_started(7, dam_db::bulk::State::Running, 9));
    check(bulk::write_item(7, 7, "word", Some("word")));
    check(
        bulk::write_counters(7, dam_db::bulk::Counters { done: 1, failed: 2, resume_after: None, sampled: 0 }, 7, Some("word")),
    );
    check(bulk::write_finished(7, dam_db::bulk::State::Running, 9));
    check(bulk::write_state(7, dam_db::bulk::State::Running));
    check(bulk::failures(7, 5));
    check(bulk::items(7, 5));
}

#[test]
fn every_placeholder_has_its_value_in_sites() {
    check(branding::stored());
    check(branding::write_row(&branding_row()));
    check(connectors::register(connector()));
    check(connectors::all());
    check(connectors::by_id(7));
    check(connectors::write_secrets(7, dam_db::connectors::Status::Paused, &secrets()));
    check(connectors::seen(7, Some("word"), 9));
    check(connectors::record_error(7, "word"));
    check(connector_refs::write_reference(7, reference(), 9));
    check(connector_refs::held(7, "word"));
    check(connector_refs::write_orphaned(7, "word", &vec!["word".to_string()]));
    check(connector_refs::write_state(7, "word", &vec!["word".to_string()]));
    check(connector_refs::states_of(7));
    check(connector_refs::for_asset(7));
    check(connector_refs::for_connector(7, 5));
    check(conversions::insert(&conversion(), Some(8)));
    check(conversions::redefine(7, &conversion()));
    check(conversions::set_active(7, true));
    check(conversions::all());
    check(conversions::of_class("word"));
    check(conversions::by_key("word"));
    check(portals::insert(7, &portal_columns(), Some(8)));
    check(portals::share_of(7));
    check(portals::write_presentation(7, &presentation()));
    check(portals::retire(7));
    check(portals::revoke_share(7));
    check(jobs::insert(7, dam_db::jobs::JobSpec::new(7, "derive".to_string())));
    check(jobs::in_flight(7, "word", &Some("word".to_string())));
    check(jobs::waiting());
    check(jobs::held_jobs(&vec![7]));
    check(jobs::write_claimed(7, "word", 5, 5));
    check(jobs::expired());
    check(jobs::write_reclaimed(7, &reclaimed()));
    check(jobs::complete(7));
    check(jobs::attempts(7));
    check(jobs::write_setback(7, "word", dam_db::jobs::fail(1, 5)));
    check(jobs::held_lease(7));
    check(jobs::write_extended(7, 5));
    check(jobs::depth());
    check(paths::last_fired(7, Some(8), 9));
    check(paths::insert(7, &path(), Some(8), &dam_db::paths::Subject::Event { id: 4 }, 5, 9));
    check(paths::write_fired(7, 9));
    check(paths::by_key(7, "word"));
    check(paths::due_for_delivery(5));
    check(paths::mark_sent(7));
    check(paths::mark_failed(7, "word"));
    check(paths::enabled_for("word"));
    check(provision::insert_tenant(&dam_db::provision::tenant(7, &slug()), "word"));
    check(provision::insert_pool(7, pool()));
    check(provision::find(&slug()));
    check(provision::insert_flag(7, dam_db::provision::seed_feature_flags()[0]));
    check(provision::insert_group(7, dam_db::provision::seed_tenant_schema().groups[0]));
    check(provision::insert_role(7, &dam_db::provision::seed_tenant_schema().roles[0]));
    check(provision::insert_field(7, dam_db::provision::seed_tenant_schema().fields[0]));
}
