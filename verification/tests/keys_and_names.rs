//! Keys, slugs, colours, classes, money and text.

use dam_db::auth::{
    authenticate, grants_for, touch_is_due, ApiKey, Grant, KeyRow, Membership, Role,
};
use dam_db::branding::{self, is_hex_colour, Branding, DEFAULT_ACCENT};
use dam_db::conversions::{class_of, hex_rgb, Conversion, Fit, OutputFormat};
use dam_db::conversions;
use dam_db::enrichment::cents;
use dam_db::fields::{check_key, SchemaRefusal};
use dam_db::metadata_types::media_class;
use dam_db::migrate::{
    create_schema, global_migration_count, search_path, tenant_migration_count, validate_schema_name, TenantSlug,
};
use dam_db::provision::Step;
use dam_db::paths::{
    digest_bucket, digest_key, fired, interval_to_duration, throttle_since, throttled, FireOutcome, Firing, Path,
    Subject,
};
use dam_db::text;
use dam_db::{sorted_once, Error};

// ---- migrations -------------------------------------------------------------------------------------

#[test]
fn the_template_schema_is_accepted() {
    assert!(validate_schema_name("tenant_template").is_ok());
}

#[test]
fn well_formed_tenant_schemas_are_accepted() {
    for s in ["t_acme", "t_a", "t_acme_corp_2", "t_x9"] {
        assert!(validate_schema_name(s).is_ok(), "{s} should be valid");
    }
}

#[test]
fn injection_shaped_and_malformed_names_are_rejected() {
    for s in [
        "t_acme; DROP SCHEMA dam_global CASCADE",
        "t_Acme",
        "t_1acme",
        "t_",
        "acme",
        "public",
        "",
        "t_acme-corp",
        "t_acme\"",
    ] {
        assert!(
            validate_schema_name(s).is_err(),
            "{s:?} should have been rejected"
        );
    }
}

#[test]
fn a_slug_at_the_length_limit_is_accepted_and_one_past_is_not() {
    let ok = format!("t_a{}", "b".repeat(37)); // slug = 38 chars
    assert!(validate_schema_name(&ok).is_ok(), "{ok}");
    let too_long = format!("t_a{}", "b".repeat(38)); // slug = 39 chars
    assert!(validate_schema_name(&too_long).is_err(), "{too_long}");
}

#[test]
fn the_embedded_migration_counts_match_the_files_on_disk() {
    assert_eq!(global_migration_count(), 3);
    assert_eq!(tenant_migration_count(), 29);
}

#[test]
fn a_refused_schema_name_says_which_rule_it_breaks() {
    assert_eq!(
        validate_schema_name("acme"),
        Err(Error::Migrate(
            "invalid tenant schema name \"acme\": must be `tenant_template` or start with `t_`".to_owned()
        ))
    );
    assert_eq!(
        validate_schema_name("t_A\n"),
        Err(Error::Migrate(
            "invalid tenant schema name \"t_A\\n\": slug must match ^[a-z][a-z0-9_]{1,38}$".to_owned()
        ))
    );
    assert_eq!(
        create_schema("t_acme"),
        Ok("CREATE SCHEMA IF NOT EXISTS \"t_acme\"".to_owned())
    );
    assert!(create_schema("t_acme\"").is_err());
    assert_eq!(search_path("dam_global"), "\"dam_global\",extensions,public");
}

#[test]
fn a_tenant_slug_names_its_schema() {
    let slug = TenantSlug::new("acme").unwrap();
    assert_eq!(slug.as_str(), "acme");
    assert_eq!(slug.schema_name(), "t_acme");
    assert_eq!(slug.clone().as_str(), "acme");
    assert_eq!(TenantSlug::new("9x"), Err(Error::InvalidSlug("9x".to_owned())));
    let tenant = dam_db::provision::tenant(0xab, &slug);
    assert_eq!(tenant.schema_name, "t_acme");
    assert_eq!(tenant.storage_prefix, "00000000-0000-0000-0000-0000000000ab/");
    let found = dam_db::provision::found(Some((1, "t_acme".to_owned(), "p/".to_owned())), &slug).unwrap();
    assert_eq!((found.id, found.schema_name.as_str(), found.storage_prefix.as_str()), (1, "t_acme", "p/"));
    assert!(dam_db::provision::found(None, &slug).is_none());
    assert_eq!(
        dam_db::provision::scope_statement("t_acme"),
        "SET LOCAL search_path TO \"t_acme\", dam_global, extensions, public"
    );
}

#[test]
fn a_tenant_is_registered_last_and_once() {
    use_steps(false, vec![Step::Migrate, Step::Seed, Step::Register]);
    use_steps(true, vec![]);
    let pool = dam_db::provision::hot_pool(dam_db::provision::StoragePool {
        endpoint: None,
        region: "eu-west-1",
        bucket: "b",
        force_path_style: false,
        credentials_ref: "env:KEY",
    });
    assert_eq!(
        (pool.name, pool.driver, pool.storage_class, pool.latency_class),
        ("hot", "s3", "STANDARD", "instant")
    );
    assert_eq!(pool.place.bucket, "b");
}

fn use_steps(registered: bool, expected: Vec<Step>) {
    assert_eq!(dam_db::provision::steps(registered), expected);
}

#[test]
fn a_new_tenant_starts_with_identification_off() {
    let flags = dam_db::provision::seed_feature_flags();
    let listed: Vec<(&str, bool, bool)> = flags.iter().map(|f| (f.key, f.enabled, f.requires_dpia)).collect();
    assert_eq!(
        listed,
        vec![
            ("face_identify", false, true),
            ("ai_enrichment", true, false),
            ("nl_search", true, false),
            ("mcp_server", false, false),
        ]
    );
    let seed = dam_db::provision::seed_tenant_schema();
    assert_eq!(seed.groups.len(), 1);
    assert!(seed.groups[0].is_default && seed.groups[0].key == "everyone");
    let roles: Vec<(&str, Vec<&str>, bool)> = seed
        .roles
        .iter()
        .map(|r| (r.key, r.permissions.clone(), r.all_asset_groups))
        .collect();
    assert_eq!(
        roles,
        vec![
            ("admin", vec!["asset:*", "metadata:*", "tenant:*", "rights:*"], true),
            ("contributor", vec!["asset:read", "asset:create", "metadata:write"], false),
            ("viewer", vec!["asset:read"], false),
        ]
    );
    let fields: Vec<(&str, &str, bool)> = seed.fields.iter().map(|f| (f.key, f.kind, f.ai_writable)).collect();
    assert_eq!(
        fields,
        vec![
            ("title", "text", true),
            ("description", "textarea", true),
            ("alt_text", "text", true),
            ("copyright", "text", false),
            ("credit", "text", false),
        ]
    );
}

// ---- API keys and grants ----------------------------------------------------------------------------

#[test]
fn the_debug_impl_never_prints_the_secret() {
    let key = ApiKey::generate();
    let rendered = key.redacted();
    assert!(!rendered.contains(&key.plaintext()[14..]), "got {rendered}");
    assert!(rendered.contains("REDACTED"));
}

#[test]
fn the_hash_is_domain_separated() {
    let plaintext = "damrs_deadbeef";
    assert_ne!(
        ApiKey::hash_of(plaintext),
        blake3::hash(plaintext.as_bytes()).to_hex().to_string()
    );
}

#[test]
fn the_prefix_is_long_enough_to_identify_and_short_enough_to_be_useless() {
    let key = ApiKey::generate();
    assert_eq!(key.prefix().len(), 14);
    assert!(key.plaintext().len() - key.prefix().len() > 50);
}

#[test]
fn a_key_is_its_secret_in_hexadecimal() {
    let mut secret = [0u8; 32];
    secret[0] = 0xab;
    secret[3] = 0x07;
    let key = ApiKey::from_secret(&secret);
    assert_eq!(key.plaintext(), format!("damrs_ab000007{}", "0".repeat(56)));
    assert_eq!(key.prefix(), "damrs_ab000007");
    assert_eq!(
        key.hash(),
        blake3::hash(format!("damrs-api-key-v1\0{}", key.plaintext()).as_bytes())
            .to_hex()
            .to_string()
    );
    assert_eq!(
        key.redacted(),
        "ApiKey { prefix: \"damrs_ab000007\", plaintext: \"[REDACTED]\" }"
    );
    let expected = key.plaintext().to_owned();
    assert_eq!(key.into_plaintext(), expected);
    // Two keys drawn one after the other are not the same key.
    assert_ne!(ApiKey::generate().plaintext(), ApiKey::generate().plaintext());
}

#[test]
fn last_use_is_written_once_an_hour() {
    assert!(touch_is_due(None, 0));
    assert!(!touch_is_due(Some(0), 3_600_000_000));
    assert!(touch_is_due(Some(0), 3_600_000_001));
    assert!(touch_is_due(Some(i64::MIN), i64::MAX));
}

#[test]
fn a_found_key_says_who_it_is() {
    assert!(authenticate(None, 0).unwrap().is_none());
    let row = KeyRow {
        api_key_id: 1,
        tenant_id: 2,
        slug: "acme".to_owned(),
        tenant_status: "active".to_owned(),
        identity_id: Some(3),
        identity_status: Some("active".to_owned()),
        scopes: vec!["asset:read".to_owned()],
        revoked_at: None,
        expires_at: None,
    };
    let who = authenticate(Some(row.clone()), 10).unwrap().unwrap();
    assert_eq!((who.api_key_id, who.tenant_id, who.identity_id), (1, 2, Some(3)));
    assert_eq!(who.tenant_slug.as_str(), "acme");
    assert_eq!(who.clone(), who);
    assert_eq!(who.scopes, vec!["asset:read".to_owned()]);
    let bad = KeyRow { slug: "A".to_owned(), ..row.clone() };
    assert!(matches!(authenticate(Some(bad), 10), Err(Error::InvalidSlug(slug)) if slug == "A"));
    // Every reason a key does not work has one answer.
    for status in ["suspended", "provisioning", "deprovisioning", "migration_failed", "Active"] {
        let row = KeyRow { tenant_status: status.to_owned(), ..row.clone() };
        assert!(authenticate(Some(row), 10).unwrap().is_none());
    }
    for status in [Some("disabled".to_owned()), Some("invited".to_owned()), None] {
        let row = KeyRow { identity_status: status, ..row.clone() };
        assert!(authenticate(Some(row), 10).unwrap().is_none());
    }
    let nobodys = KeyRow { identity_id: None, identity_status: None, ..row.clone() };
    assert_eq!(authenticate(Some(nobodys), 10).unwrap().unwrap().identity_id, None);
    let revoked = KeyRow { revoked_at: Some(20), ..row.clone() };
    assert!(authenticate(Some(revoked), 10).unwrap().is_none());
    let expiring = KeyRow { expires_at: Some(10), ..row };
    assert!(authenticate(Some(expiring.clone()), 9).unwrap().is_some());
    assert!(authenticate(Some(expiring.clone()), 10).unwrap().is_none());
    assert!(authenticate(Some(expiring), 11).unwrap().is_none());
}

fn role(permissions: &[&str], groups: &[u128]) -> Role {
    Role {
        permissions: permissions.iter().map(|p| (*p).to_owned()).collect(),
        asset_group_ids: groups.to_vec(),
        all_asset_groups: false,
        valid_from: Some(5),
        valid_until: None,
        requires_eula: true,
    }
}

#[test]
fn scopes_narrow_what_roles_grant() {
    let member = |admin: bool, names: &[&str]| {
        Some(Membership {
            role_names: names.iter().map(|n| (*n).to_owned()).collect(),
            is_tenant_admin: admin,
        })
    };
    let roles = || vec![role(&["asset:read", "asset:download"], &[1]), role(&["metadata:write"], &[2])];
    assert!(grants_for(None, roles(), &vec![]).is_empty());
    let unscoped = grants_for(member(true, &["a"]), roles(), &vec![]);
    assert_eq!(unscoped.len(), 3);
    assert_eq!(
        unscoped[0],
        Grant {
            permissions: vec!["asset:read".into(), "asset:download".into(), "asset:manage".into()],
            asset_group_ids: vec![],
            all_asset_groups: true,
            valid_from: None,
            valid_until: None,
            requires_eula: false,
            eula_accepted: true,
        }
    );
    assert!(!unscoped[1].eula_accepted && unscoped[1].requires_eula && unscoped[1].valid_from == Some(5));
    let scoped = grants_for(member(false, &["a"]), roles(), &vec!["asset:read".to_owned(), "tenant:all".to_owned()]);
    assert_eq!(scoped.len(), 1);
    assert_eq!(scoped[0].permissions, vec!["asset:read".to_owned()]);
    assert_eq!(scoped[0].asset_group_ids, vec![1]);
    // A membership that names no role has none, whatever rows are handed over.
    assert!(grants_for(member(false, &[]), roles(), &vec![]).is_empty());
}

// ---- colours, classes, money ------------------------------------------------------------------------

#[test]
fn the_colour_rule_matches_the_check_constraint() {
    assert!(is_hex_colour("#2563eb"));
    assert!(is_hex_colour("#000000"));
    assert!(is_hex_colour("#ffffff"));
    assert!(is_hex_colour(DEFAULT_ACCENT));

    for refused in [
        "#2563EB",
        "#25e",
        "2563eb",
        "#2563eb ",
        "#2563ebb",
        "#2563e",
        "#2563eg",
        "red",
        "",
        "#000;} body{display:none",
    ] {
        assert!(!is_hex_colour(refused), "{refused:?} should be refused");
    }
}

#[test]
fn branding_is_normalised_before_it_is_stored() {
    let wanted = Branding {
        site_name: "  Acme ".to_owned(),
        logo_asset_id: Some(4),
        accent: " #2563EB\t".to_owned(),
        support_email: Some("  ".to_owned()),
    };
    let stored = branding::write(&wanted).unwrap();
    assert_eq!(stored.site_name, "Acme");
    assert_eq!(stored.accent, "#2563eb");
    assert_eq!(stored.support_email, None);
    assert_eq!(stored.logo_asset_id, Some(4));
    assert_eq!(stored.name_or("Tenant"), "Acme");
    let plain = branding::read(None);
    assert_eq!(plain.name_or("Tenant"), "Tenant");
    assert_eq!(plain.accent, DEFAULT_ACCENT);
    assert_eq!(branding::read(Some(stored.clone())), stored);
    let bad = Branding { accent: "teal".to_owned(), ..wanted };
    assert_eq!(
        branding::write(&bad),
        Err(Error::Unsupported(
            "\"teal\" is not a colour; use lowercase #rrggbb, as in #2563eb".to_owned()
        ))
    );
}

fn conversion(format: &str, fit: &str, background: &str) -> Conversion {
    Conversion {
        id: 0,
        key: "web-2048".into(),
        label: "Web JPEG".into(),
        description: "For a web page.".into(),
        media_class: "image".into(),
        max_width: 2048,
        max_height: 2048,
        format: format.into(),
        quality: 82,
        fit: fit.into(),
        background: background.into(),
        required_permission: None,
        is_active: true,
        sort_order: 0,
        created_at: 0,
    }
}

#[test]
fn a_recipe_this_build_cannot_render_is_refused_rather_than_approximated() {
    assert!(conversion("jxl", "contain", "ffffff").rendition().is_none());
    assert!(
        conversion("jpeg", "letterbox", "ffffff")
            .rendition()
            .is_none()
    );
    assert!(conversion("jpeg", "contain", "white").rendition().is_none());
    assert!(conversion("jpeg", "contain", "fff").rendition().is_none());
    assert!(conversion("jxl", "contain", "ffffff").op_hash(|recipe| format!("{recipe:?}")).is_none());
}

#[test]
fn a_recipe_this_build_knows_becomes_the_renderers_own_type() {
    let rendition = conversion("webp", "cover", "0a0b0c")
        .rendition()
        .expect("renderable");
    assert_eq!(rendition.width, 2048);
    assert_eq!(rendition.format, OutputFormat::WebP);
    assert_eq!(rendition.fit, Fit::Cover);
    assert_eq!(rendition.background, [10, 11, 12]);
    assert_eq!(rendition.quality, 82);
}

#[test]
fn an_unrestricted_conversion_is_open_and_a_restricted_one_is_not() {
    let open = conversion("jpeg", "contain", "ffffff");
    assert!(open.permitted_for(&vec![]), "no permission named means anybody");

    let mut print = open.clone();
    print.required_permission = Some("conversion:print".into());
    assert!(!print.permitted_for(&vec![]));
    assert!(!print.permitted_for(&vec!["conversion:web".to_owned()]));
    assert!(print.permitted_for(&vec!["conversion:print".to_owned()]));
    assert!(!print.permitted_for(&vec!["conversion:print-extra".to_owned()]));
}

#[test]
fn a_mime_maps_to_the_class_the_table_uses() {
    assert_eq!(class_of("image/jpeg"), "image");
    assert_eq!(class_of("video/mp4"), "video");
    assert_eq!(class_of("audio/mpeg"), "audio");
    assert_eq!(class_of("application/pdf"), "document");
    assert_eq!(class_of("nonsense"), "document");
    assert_eq!(class_of(""), "document");
}

#[test]
fn what_is_offered_is_permitted_and_renderable() {
    let mut print = conversion("png", "contain", "ffffff");
    print.required_permission = Some("conversion:print".into());
    let unknown = conversion("jxl", "contain", "ffffff");
    let web = conversion("jpeg", "contain", "ffffff");
    let all = vec![print.clone(), unknown, web.clone()];
    assert_eq!(conversions::offerable(all.clone(), &vec![]), vec![web.clone()]);
    assert_eq!(
        conversions::offerable(all, &vec!["conversion:print".to_owned()]),
        vec![print, web]
    );
}

#[test]
fn a_conversion_cache_key_is_the_digest_of_its_recipe() {
    let key = conversion("jpeg", "contain", "ffffff").op_hash(|recipe| format!("{}x{}", recipe.width, recipe.quality));
    assert_eq!(key, Some("2048x82".to_owned()));
    let mut wide = conversion("jpeg", "contain", "ffffff");
    wide.quality = 256;
    assert!(wide.rendition().is_none());
    wide.quality = 255;
    wide.max_width = -1;
    assert!(wide.rendition().is_none());
}

#[test]
fn hexadecimal_colours_are_read_byte_by_byte() {
    assert_eq!(hex_rgb("0a0b0c"), Some([10, 11, 12]));
    assert_eq!(hex_rgb("fffe00"), Some([255, 254, 0]));
    assert_eq!(hex_rgb("FFFFFF"), None);
    assert_eq!(hex_rgb("fffE00"), None);
    assert_eq!(hex_rgb("+f+f+f"), None);
    assert_eq!(hex_rgb("+a0b0c"), None);
    assert_eq!(hex_rgb("-a0b0c"), None);
    assert_eq!(hex_rgb("fffff"), None);
    assert_eq!(hex_rgb("ffffff0"), None);
    assert_eq!(hex_rgb("ffff\u{e9}"), None);
}

#[test]
fn conversions_are_stored_trimmed_and_refused_by_name() {
    let new = conversions::NewConversion {
        key: " web ".into(),
        label: " Web ".into(),
        description: "".into(),
        media_class: "image".into(),
        max_width: 1,
        max_height: 1,
        format: "jpeg".into(),
        quality: 1,
        fit: "contain".into(),
        background: "ffffff".into(),
        required_permission: None,
        sort_order: 0,
    };
    assert_eq!(conversions::stored_words(&new), ("web", "Web", ""));
    let refused = conversions::created(None, &new).unwrap_err();
    assert_eq!(refused, conversions::ConversionRefusal::DuplicateKey("web".to_owned()));
    assert_eq!(refused.message(), "a conversion named web already exists");
    let gone = conversions::changed(None, 7).unwrap_err();
    assert_eq!(gone.message(), "no conversion 00000000-0000-0000-0000-000000000007");
    assert_eq!(
        conversions::constraint_or_database(&Some("23514".to_owned()), Some("conversions_quality".to_owned())),
        Some(conversions::ConversionRefusal::Invalid("conversions_quality".to_owned()))
    );
    assert_eq!(
        conversions::constraint_or_database(&Some("23514".to_owned()), None),
        Some(conversions::ConversionRefusal::Invalid("a value the database refuses".to_owned()))
    );
    assert_eq!(conversions::constraint_or_database(&Some("23505".to_owned()), None), None);
    assert_eq!(conversions::constraint_or_database(&None, Some("x".to_owned())), None);
}

#[test]
fn every_mime_lands_in_the_class_an_administrator_would_expect() {
    for (mime, class) in [
        ("image/jpeg", "image"),
        ("image/png", "image"),
        ("image/svg+xml", "image"),
        ("image/tiff", "image"),
        ("video/mp4", "video"),
        ("video/quicktime", "video"),
        ("audio/mpeg", "audio"),
        ("audio/wav", "audio"),
        ("text/plain", "document"),
        ("text/csv", "document"),
        ("application/pdf", "document"),
        ("application/msword", "document"),
        ("application/zip", "archive"),
        ("application/x-tar", "archive"),
        ("application/gzip", "archive"),
        ("application/x-7z-compressed", "archive"),
        ("application/x-rar-compressed", "archive"),
    ] {
        assert_eq!(media_class(mime), class, "{mime}");
    }

    assert_eq!(media_class("model/gltf-binary"), "document");
    assert_eq!(media_class("application"), "document");
    assert_eq!(media_class(""), "document");
}

#[test]
fn micro_cents_become_the_columns_four_decimal_places() {
    assert_eq!(cents(2_250_000), "2.2500");
    assert_eq!(cents(450_000), "0.4500");
    assert_eq!(cents(0), "0.0000");
    assert_eq!(cents(50), "0.0001");
    assert_eq!(cents(49), "0.0000");
    assert_eq!(cents(20_000_000_000_000), "20000000.0000");
}

#[test]
fn negative_costs_keep_their_sign() {
    assert_eq!(cents(-2_250_000), "-2.2500");
    assert_eq!(cents(-50), "-0.0001");
    assert_eq!(cents(999_999), "1.0000");
    assert_eq!(cents(i64::MIN), "-9223372036854.7758");
}

// ---- field keys -------------------------------------------------------------------------------------

#[test]
fn a_field_key_is_spelled_for_every_layer() {
    assert!(check_key("title").is_ok());
    assert!(check_key("a1_b").is_ok());
    assert!(check_key(&"a".repeat(63)).is_ok());
    let details: Vec<SchemaRefusal> = ["", &"a".repeat(64), "1a", "a-b", "values", "not"]
        .iter()
        .map(|key| check_key(key).unwrap_err())
        .collect();
    assert_eq!(
        details[0].message(),
        "`` is not usable as a field key: a key cannot be empty"
    );
    assert!(details[1].message().ends_with("a key must be 63 bytes or fewer"));
    assert_eq!(
        details[2].message(),
        "`1a` is not usable as a field key: a key must start with a lower-case ASCII letter"
    );
    assert!(details[3].message().ends_with("only lower-case ASCII letters, digits and underscores"));
    assert_eq!(details[4], SchemaRefusal::ReservedKey("values".to_owned()));
    assert_eq!(details[5].message(), "`not` is reserved and cannot be a field key");
    // Length is counted in bytes, and is looked at before the first character.
    assert!(check_key(&"\u{e9}".repeat(32)).unwrap_err().message().ends_with("63 bytes or fewer"));
}

// ---- paths ------------------------------------------------------------------------------------------

fn path() -> Path {
    Path {
        id: 1,
        name: "licence expiring".to_owned(),
        trigger_kind: "license_expiring".to_owned(),
        lead_days: Some(30),
        channels: vec!["email".to_owned()],
        digest_window: None,
        throttle_per_asset: None,
    }
}

fn at(day: u32, hour: u32) -> i64 {
    chrono::NaiveDate::from_ymd_opt(2026, 8, day)
        .unwrap()
        .and_hms_opt(hour, 0, 0)
        .unwrap()
        .and_utc()
        .timestamp_micros()
}

const HOURS_6: i128 = 6 * 3_600_000_000;

#[test]
fn a_deadline_key_is_stable_across_the_whole_sweep_window() {
    let asset = Some(7);
    let expiry = at(30, 12);

    let day_one = digest_key(&path(), asset, &Subject::Deadline { at: expiry });
    let day_thirty = digest_key(&path(), asset, &Subject::Deadline { at: expiry });
    assert_eq!(
        day_one, day_thirty,
        "the key must depend on the deadline, not on when the sweep ran"
    );
}

#[test]
fn two_assets_expiring_together_are_two_notifications() {
    let expiry = at(30, 12);
    let a = digest_key(&path(), Some(1), &Subject::Deadline { at: expiry });
    let b = digest_key(&path(), Some(2), &Subject::Deadline { at: expiry });
    assert_ne!(a, b);
}

#[test]
fn a_different_deadline_on_the_same_asset_is_a_new_notification() {
    let asset = Some(7);
    let first = digest_key(&path(), asset, &Subject::Deadline { at: at(30, 12) });
    let renewed = digest_key(&path(), asset, &Subject::Deadline { at: at(31, 12) });
    assert_ne!(first, renewed);
}

#[test]
fn the_trigger_kind_is_part_of_the_key() {
    let asset = Some(7);
    let deadline = Subject::Deadline { at: at(30, 12) };
    let licence = digest_key(&path(), asset, &deadline);
    let release = digest_key(
        &Path {
            trigger_kind: "release_expiring".to_owned(),
            ..path()
        },
        asset,
        &deadline,
    );
    assert_ne!(licence, release);
}

#[test]
fn a_digest_window_buckets_every_caller_the_same_way() {
    let window = Some(HOURS_6);
    let early = digest_bucket(at(18, 1), window);
    let late = digest_bucket(at(18, 5), window);
    assert_eq!(
        early, late,
        "01:00 and 05:00 fall in the same six-hour bucket"
    );

    let next = digest_bucket(at(18, 7), window);
    assert_ne!(next, early, "07:00 is the next bucket");
}

#[test]
fn no_digest_window_means_no_collapsing() {
    let a = digest_bucket(at(18, 1), None);
    let b = digest_bucket(at(18, 2), None);
    assert_ne!(a, b);
}

#[test]
fn a_zero_window_does_not_divide_by_zero() {
    let now = at(18, 1);
    assert_eq!(digest_bucket(now, Some(0)), now);
}

#[test]
fn an_event_key_recognises_a_replay() {
    let first = digest_key(&path(), None, &Subject::Event { id: 99 });
    let replay = digest_key(&path(), None, &Subject::Event { id: 99 });
    assert_eq!(first, replay);
}

#[test]
fn a_key_spells_the_trigger_the_asset_and_the_subject() {
    assert_eq!(
        digest_key(&path(), Some(7), &Subject::Deadline { at: 1_999_999 }),
        "license_expiring|00000000-0000-0000-0000-000000000007|deadline:1"
    );
    assert_eq!(
        digest_key(&path(), None, &Subject::Event { id: 0x0123_4567_89ab_cdef_0123_4567_89ab_cdef }),
        "license_expiring|-|event:01234567-89ab-cdef-0123-456789abcdef"
    );
    assert_eq!(
        digest_key(&path(), None, &Subject::Recurring { bucket: -1 }),
        "license_expiring|-|window:-1"
    );
    let other = Path { trigger_kind: "license_expired".to_owned(), ..path() };
    assert_ne!(
        digest_key(&other, None, &Subject::Recurring { bucket: -1 }),
        digest_key(&path(), Some(1), &Subject::Recurring { bucket: -1 })
    );
}

#[test]
fn buckets_before_the_epoch_start_earlier() {
    assert_eq!(digest_bucket(-1, Some(HOURS_6)), -(HOURS_6 as i64));
    assert_eq!(digest_bucket(0, Some(HOURS_6)), 0);
    // A window of a second and a half is a window of one second, and its instant is inside it.
    assert_eq!(digest_bucket(2_999_999, Some(1_500_000)), 2_000_000);
    assert_eq!(digest_bucket(HOURS_6 as i64 - 1, Some(HOURS_6)), 0);
    // Less than a second is no window.
    assert_eq!(digest_bucket(1_234_567, Some(999_999)), 1_234_567);
    // A negative one is none either.
    assert_eq!(digest_bucket(1_234_567, Some(-5_000_000)), 1_234_567);
    // A bucket that no calendar reaches leaves the instant as it is.
    assert_eq!(digest_bucket(-1, Some(9_000_000_000_000_000_000_000)), -1);
}

#[test]
fn an_interval_counts_a_month_as_thirty_days() {
    assert_eq!(interval_to_duration(5, 2, 1), 5 + 32 * 86_400_000_000);
    assert_eq!(interval_to_duration(-1, -1, 0), -1 - 86_400_000_000);
}

#[test]
fn a_firing_is_throttled_recorded_or_recognised() {
    let quiet = Path { throttle_per_asset: Some(HOURS_6), ..path() };
    assert_eq!(throttle_since(&quiet, Some(1), at(18, 7)), Some(at(18, 1)));
    assert_eq!(throttle_since(&quiet, None, at(18, 7)), None);
    assert_eq!(throttle_since(&path(), Some(1), at(18, 7)), None);
    assert_eq!(
        throttled(&quiet, Some(at(18, 1))),
        Some(FireOutcome::Throttled { until: at(18, 7) })
    );
    assert_eq!(throttled(&quiet, None), None);
    let firing = Firing {
        id: 1,
        path_id: 1,
        asset_id: None,
        digest_key: "k".to_owned(),
        state: "queued".to_owned(),
        fired_at: 0,
    };
    assert_eq!(fired(1, "k", 1, Some(firing.clone())), Ok(FireOutcome::Recorded(firing.clone())));
    assert_eq!(fired(1, "k", 0, Some(firing.clone())), Ok(FireOutcome::AlreadyFired(firing)));
    assert_eq!(
        fired(1, "k", 1, None),
        Err(Error::Inconsistent(
            "firing k for path 00000000-0000-0000-0000-000000000001 vanished immediately after being recorded".to_owned()
        ))
    );
}

// ---- text -------------------------------------------------------------------------------------------

#[test]
fn text_helpers_agree_with_the_standard_library() {
    for number in [0i128, 7, 10, -1, -905, 18_446_744_073_709_551_615, i128::MAX] {
        assert_eq!(text::int_text(number), number.to_string());
    }
    assert_eq!(text::padded_text(70, 4), "0070");
    assert_eq!(text::padded_text(123_456, 4), "3456");
    for sample in ["", "  a b \n", "\u{3000}x\u{a0}", "none", "\t\r\n "] {
        assert_eq!(text::trim(sample), sample.trim());
    }
    for code in 0u32..0x3100 {
        if let Some(c) = char::from_u32(code) {
            let sample = format!("{c}x{c}");
            assert_eq!(text::trim(&sample), sample.trim(), "{code:x}");
        }
    }
    assert_eq!(text::ascii_lowercase("AbZ\u{c9}"), "abz\u{c9}");
    for sample in ["12", "-12", "+7", "", "-", "1a", "9223372036854775807", "9223372036854775808", "-9223372036854775808", "00012", " 1", "99999999999999999999999"] {
        assert_eq!(text::read_int(sample), sample.parse::<i64>().ok(), "{sample}");
    }
    assert_eq!(text::cut("a/b/c", '/'), Some(("a", "b/c")));
    assert_eq!(text::cut("abc", '/'), None);
    for (a, b) in [("a", "b"), ("a", "ab"), ("b", "ab"), ("", "a"), ("a", "a"), ("\u{e9}", "z"), ("\u{ffff}", "\u{10000}")] {
        assert_eq!(text::before(a, b), a < b);
    }
    assert_eq!(text::join(&vec!["a".to_owned(), "b".to_owned(), "c".to_owned()], ", "), "a, b, c");
    assert_eq!(text::join(&vec![], ", "), "");
    assert!(text::same_opt(&Some("a".to_owned()), &Some("a".to_owned())));
    assert!(!text::same_opt(&Some("a".to_owned()), &None));
    assert_eq!(text::copied(&vec!["x".to_owned()]), vec!["x".to_owned()]);
    assert_eq!(sorted_once(&vec![3, 1, 3, 2, 1]), vec![1, 2, 3]);
}

#[test]
fn errors_say_what_happened() {
    assert_eq!(Error::Migrate("x".into()).message(), "migration error: x");
    assert_eq!(Error::Harness("x".into()).message(), "test harness: x");
    assert_eq!(
        Error::TenantNotProvisioned("t_a".into()).message(),
        "tenant schema `t_a` does not exist \u{2014} tenant not provisioned"
    );
    assert_eq!(
        Error::LeaseLost { job_id: 1, worker: "w".into() }.message(),
        "lease lost for job 00000000-0000-0000-0000-000000000001 (worker w); another worker may own it"
    );
    assert_eq!(Error::UploadGone("u".into()).message(), "upload session `u` does not exist");
    assert_eq!(Error::Unsupported("x".into()).message(), "unsupported: x");
    assert_eq!(Error::Inconsistent("x".into()).message(), "inconsistent row: x");
}
