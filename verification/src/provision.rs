//! Tenant provisioning: what a new tenant starts with.
//!
//! Schema and migrations come first and the control-plane row last: a schema with no tenant row is inert, while
//! a tenant row pointing at a schema that does not exist fails deep in the stack. Biometric identification is
//! seeded off and gated, so that nobody has to remember to disable it.

use crate::commands::{as_maybe_str, as_text, as_words, Command, Given, Value};
use crate::migrate::TenantSlug;
use crate::text::{opt_str_chars, uuid_chars, uuid_text, wrapped};
use crate::Uuid;
use vstd::prelude::*;

verus! {

/// Where a new tenant's objects go.
#[derive(Debug, Clone, Copy)]
pub struct StoragePool<'a> {
    /// `None` for AWS, which resolves from the region.
    pub endpoint: Option<&'a str>,
    pub region: &'a str,
    pub bucket: &'a str,
    /// Required for every non-AWS endpoint.
    pub force_path_style: bool,
    /// Where the credential lives. Never the credential itself.
    pub credentials_ref: &'a str,
}

/// A provisioned tenant.
#[derive(Debug, Clone)]
pub struct Tenant {
    pub id: Uuid,
    pub slug: TenantSlug,
    pub schema_name: String,
    pub storage_prefix: String,
}

/// One step of provisioning.
#[derive(Debug, Clone, Copy, PartialEq, Eq, Structural)]
pub enum Step {
    /// Create the schema and apply the tenant migrations.
    Migrate,
    /// Write the schema's starting state.
    Seed,
    /// Write the control-plane row, with the feature flags and the storage pool.
    Register,
}

/// The steps that provisioning takes, in order. A tenant that is already registered is adopted as it is.
pub open spec fn steps_for(registered: bool) -> Seq<Step> {
    if registered {
        Seq::empty()
    } else {
        seq![Step::Migrate, Step::Seed, Step::Register]
    }
}

/// The steps that provisioning takes, in order.
pub fn steps(registered: bool) -> (steps: Vec<Step>)
    ensures
        steps@ == steps_for(registered),
{
    let steps = if registered {
        Vec::new()
    } else {
        vec![Step::Migrate, Step::Seed, Step::Register]
    };
    proof {
        assert(steps@ =~= steps_for(registered));
    }
    steps
}

/// A run that stops short leaves nothing that looks like a tenant: the row is written by the last step and by no
/// other, so a schema is migrated and seeded before anything points at it. A run after a registered one does
/// nothing.
pub proof fn the_row_is_written_last(registered: bool, done: int)
    requires
        0 <= done <= steps_for(registered).len(),
    ensures
        steps_for(registered).take(done).contains(Step::Register) ==> done == steps_for(registered).len()
            && steps_for(registered).take(done).contains(Step::Migrate) && steps_for(registered).take(
            done,
        ).contains(Step::Seed),
        registered ==> steps_for(registered).len() == 0,
        !registered ==> steps_for(registered).contains(Step::Register),
{
    if !registered {
        let all = steps_for(registered);
        let some = all.take(done);
        assert(all[0] == Step::Migrate && all[1] == Step::Seed && all[2] == Step::Register);
        if some.contains(Step::Register) {
            let i = choose|i: int| 0 <= i < done && some[i] == Step::Register;
            assert(all[i] == Step::Register);
            assert(some[0] == Step::Migrate && some[1] == Step::Seed);
        }
    }
}

/// The storage pool a tenant starts with.
#[derive(Debug, Clone, Copy)]
pub struct PoolSeed<'a> {
    pub name: &'static str,
    pub driver: &'static str,
    pub storage_class: &'static str,
    pub latency_class: &'static str,
    pub place: StoragePool<'a>,
}

/// The tenant's hot pool, written with the tenant row: a tenant that cannot store anything is not provisioned.
pub fn hot_pool<'a>(storage: StoragePool<'a>) -> (pool: PoolSeed<'a>)
    ensures
        pool.name@ == "hot"@,
        pool.driver@ == "s3"@,
        pool.storage_class@ == "STANDARD"@,
        pool.latency_class@ == "instant"@,
        pool.place == storage,
{
    PoolSeed {
        name: "hot",
        driver: "s3",
        storage_class: "STANDARD",
        latency_class: "instant",
        place: storage,
    }
}

/// The tenant to register under `id`.
pub fn tenant(id: Uuid, slug: &TenantSlug) -> (tenant: Tenant)
    ensures
        tenant.id == id,
        tenant.slug@ == slug@,
        tenant.schema_name@ == "t_"@ + slug@,
        tenant.storage_prefix@ == uuid_chars(id) + "/"@,
{
    let mut storage_prefix = uuid_text(id);
    storage_prefix.append("/");
    Tenant { id, slug: slug.clone(), schema_name: slug.schema_name(), storage_prefix }
}

/// The tenant a row describes.
pub fn found(
    row: Option<(Uuid, String, String)>,
    slug: &TenantSlug,
) -> (tenant: Option<Tenant>)
    ensures
        match row {
            None => tenant is None,
            Some((id, schema_name, storage_prefix)) => {
                &&& tenant matches Some(inner)
                &&& inner.id == id
                &&& inner.slug@ == slug@
                &&& inner.schema_name == schema_name
                &&& inner.storage_prefix == storage_prefix
            },
        },
{
    match row {
        None => None,
        Some((id, schema_name, storage_prefix)) => Some(
            Tenant { id, slug: slug.clone(), schema_name, storage_prefix },
        ),
    }
}

/// The statement that points a transaction at a tenant's schema.
pub fn scope_statement(schema: &str) -> (sql: String)
    ensures
        sql@ == "SET LOCAL search_path TO \""@ + schema@ + "\", dam_global, extensions, public"@,
{
    wrapped("SET LOCAL search_path TO \"", schema, "\", dam_global, extensions, public")
}

/// A feature flag a tenant starts with.
#[derive(Debug, Clone, Copy)]
pub struct FlagSeed {
    pub key: &'static str,
    pub enabled: bool,
    /// Whether the feature cannot be enabled without an impact assessment on record.
    pub requires_dpia: bool,
}

/// Whether a flag is the one described.
pub open spec fn flag_is(flag: FlagSeed, key: Seq<char>, enabled: bool, requires_dpia: bool) -> bool {
    flag.key@ == key && flag.enabled == enabled && flag.requires_dpia == requires_dpia
}

/// The feature flags created with the tenant row, so that the gated ones cannot be missing.
pub fn seed_feature_flags() -> (flags: Vec<FlagSeed>)
    ensures
        flags@.len() == 4,
        flag_is(flags@[0], "face_identify"@, false, true),
        flag_is(flags@[1], "ai_enrichment"@, true, false),
        flag_is(flags@[2], "nl_search"@, true, false),
        flag_is(flags@[3], "mcp_server"@, false, false),
        forall|i: int| 0 <= i < flags@.len() && (#[trigger] flags@[i]).requires_dpia ==> !flags@[i].enabled,
{
    let mut flags: Vec<FlagSeed> = Vec::new();
    flags.push(FlagSeed { key: "face_identify", enabled: false, requires_dpia: true });
    flags.push(FlagSeed { key: "ai_enrichment", enabled: true, requires_dpia: false });
    flags.push(FlagSeed { key: "nl_search", enabled: true, requires_dpia: false });
    flags.push(FlagSeed { key: "mcp_server", enabled: false, requires_dpia: false });
    flags
}

/// An asset group a tenant starts with.
#[derive(Debug, Clone, Copy)]
pub struct GroupSeed {
    pub key: &'static str,
    pub label: &'static str,
    pub is_default: bool,
}

/// A role a tenant starts with.
#[derive(Debug, Clone)]
pub struct RoleSeed {
    pub key: &'static str,
    pub label: &'static str,
    pub permissions: Vec<&'static str>,
    pub all_asset_groups: bool,
}

impl RoleSeed {
    /// The permissions, in characters.
    pub open spec fn permission_chars(self) -> Seq<Seq<char>> {
        Seq::new(self.permissions@.len(), |i: int| self.permissions@[i]@)
    }
}

/// A metadata field a tenant starts with.
#[derive(Debug, Clone, Copy)]
pub struct FieldSeed {
    pub key: &'static str,
    pub label: &'static str,
    pub kind: &'static str,
    pub searchable: bool,
    pub ai_writable: bool,
}

/// Whether a field is the one described.
pub open spec fn field_is(
    field: FieldSeed,
    key: Seq<char>,
    label: Seq<char>,
    kind: Seq<char>,
    open: bool,
) -> bool {
    &&& field.key@ == key
    &&& field.label@ == label
    &&& field.kind@ == kind
    &&& field.searchable == open
    &&& field.ai_writable == open
}

/// A tenant schema's starting state.
#[derive(Debug, Clone)]
pub struct SchemaSeed {
    pub groups: Vec<GroupSeed>,
    pub roles: Vec<RoleSeed>,
    pub fields: Vec<FieldSeed>,
}

/// Whether the groups are the one default group, which an unscoped grant resolves through.
pub open spec fn groups_seeded(groups: Seq<GroupSeed>) -> bool {
    &&& groups.len() == 1
    &&& groups[0].key@ == "everyone"@
    &&& groups[0].label@ == "Everyone"@
    &&& groups[0].is_default
}

/// Whether the roles are the built-in three. The administrator reaches all groups rather than an enumerated
/// list, so that a new group does not silently fall outside their reach.
pub open spec fn roles_seeded(roles: Seq<RoleSeed>) -> bool {
    &&& roles.len() == 3
    &&& roles[0].key@ == "admin"@ && roles[0].label@ == "Administrator"@
    &&& roles[0].permission_chars() == seq!["asset:*"@, "metadata:*"@, "tenant:*"@, "rights:*"@]
    &&& roles[0].all_asset_groups
    &&& roles[1].key@ == "contributor"@ && roles[1].label@ == "Contributor"@
    &&& roles[1].permission_chars() == seq!["asset:read"@, "asset:create"@, "metadata:write"@]
    &&& !roles[1].all_asset_groups
    &&& roles[2].key@ == "viewer"@ && roles[2].label@ == "Viewer"@
    &&& roles[2].permission_chars() == seq!["asset:read"@]
    &&& !roles[2].all_asset_groups
}

/// Whether the fields are the minimal schema: three a model may write and search reads, and two that are the
/// customer's own words about rights.
pub open spec fn fields_seeded(fields: Seq<FieldSeed>) -> bool {
    &&& fields.len() == 5
    &&& field_is(fields[0], "title"@, "Title"@, "text"@, true)
    &&& field_is(fields[1], "description"@, "Description"@, "textarea"@, true)
    &&& field_is(fields[2], "alt_text"@, "Alt text"@, "text"@, true)
    &&& field_is(fields[3], "copyright"@, "Copyright"@, "text"@, false)
    &&& field_is(fields[4], "credit"@, "Credit"@, "text"@, false)
}

/// A tenant schema's starting state. Deliberately small: the field set is the customer's to define.
pub fn seed_tenant_schema() -> (seed: SchemaSeed)
    ensures
        groups_seeded(seed.groups@),
        roles_seeded(seed.roles@),
        fields_seeded(seed.fields@),
{
    let mut groups: Vec<GroupSeed> = Vec::new();
    groups.push(GroupSeed { key: "everyone", label: "Everyone", is_default: true });
    let mut roles: Vec<RoleSeed> = Vec::new();
    let admin = RoleSeed {
        key: "admin",
        label: "Administrator",
        permissions: vec!["asset:*", "metadata:*", "tenant:*", "rights:*"],
        all_asset_groups: true,
    };
    let contributor = RoleSeed {
        key: "contributor",
        label: "Contributor",
        permissions: vec!["asset:read", "asset:create", "metadata:write"],
        all_asset_groups: false,
    };
    let viewer = RoleSeed {
        key: "viewer",
        label: "Viewer",
        permissions: vec!["asset:read"],
        all_asset_groups: false,
    };
    proof {
        assert(admin.permission_chars() =~= seq!["asset:*"@, "metadata:*"@, "tenant:*"@, "rights:*"@]);
        assert(contributor.permission_chars() =~= seq![
            "asset:read"@,
            "asset:create"@,
            "metadata:write"@,
        ]);
        assert(viewer.permission_chars() =~= seq!["asset:read"@]);
    }
    roles.push(admin);
    roles.push(contributor);
    roles.push(viewer);
    let mut fields: Vec<FieldSeed> = Vec::new();
    fields.push(field("title", "Title", "text", true));
    fields.push(field("description", "Description", "textarea", true));
    fields.push(field("alt_text", "Alt text", "text", true));
    fields.push(field("copyright", "Copyright", "text", false));
    fields.push(field("credit", "Credit", "text", false));
    SchemaSeed { groups, roles, fields }
}

fn field(
    key: &'static str,
    label: &'static str,
    kind: &'static str,
    open: bool,
) -> (seed: FieldSeed)
    ensures
        field_is(seed, key@, label@, kind@, open),
{
    FieldSeed { key, label, kind, searchable: open, ai_writable: open }
}

/// Only the administrator's role reaches every group; whoever contributes may read, and whoever only reads may do nothing
/// else.
pub proof fn only_the_administrator_reaches_everything(roles: Seq<RoleSeed>, i: int)
    requires
        roles_seeded(roles),
        0 <= i < roles.len(),
    ensures
        roles[i].all_asset_groups <==> i == 0,
        roles[0].key@ == "admin"@ && roles[1].key@ == "contributor"@ && roles[2].key@ == "viewer"@,
        roles[0].label@ == "Administrator"@ && roles[1].label@ == "Contributor"@ && roles[2].label@ == "Viewer"@,
        i == 0 ==> roles[i].permission_chars() == seq!["asset:*"@, "metadata:*"@, "tenant:*"@, "rights:*"@],
        i == 1 ==> roles[i].permission_chars() == seq!["asset:read"@, "asset:create"@, "metadata:write"@],
        i == 2 ==> roles[i].permission_chars() == seq!["asset:read"@],
{
}

/// A tenant starts with five fields. The three that describe what is seen can be searched and written by a model; the two
/// that say whose it is cannot. Everybody is in the one group there is.
pub proof fn a_model_never_writes_whose_it_is(fields: Seq<FieldSeed>, groups: Seq<GroupSeed>, i: int)
    requires
        fields_seeded(fields),
        groups_seeded(groups),
        0 <= i < fields.len(),
    ensures
        fields.len() == 5,
        fields[i].ai_writable <==> i < 3,
        fields[i].searchable <==> i < 3,
        fields[3].key@ == "copyright"@ && fields[4].key@ == "credit"@,
        fields[0].key@ == "title"@ && fields[1].key@ == "description"@ && fields[2].key@ == "alt_text"@,
        fields[0].label@ == "Title"@ && fields[1].label@ == "Description"@ && fields[2].label@ == "Alt text"@,
        fields[3].label@ == "Copyright"@ && fields[4].label@ == "Credit"@,
        groups[0].label@ == "Everyone"@,
        fields[1].kind@ == "textarea"@,
        i != 1 ==> fields[i].kind@ == "text"@,
        groups.len() == 1 && groups[0].is_default && groups[0].key@ == "everyone"@,
{
}

/// A flag and a field of the seed are what they are said to be, each in every part.
pub proof fn a_seed_is_what_it_is_said_to_be(
    flag: FlagSeed,
    field: FieldSeed,
    key: Seq<char>,
    label: Seq<char>,
    kind: Seq<char>,
    on: bool,
    guarded: bool,
)
    ensures
        flag_is(flag, key, on, guarded) <==> flag.key@ == key && flag.enabled == on && flag.requires_dpia == guarded,
        field_is(field, key, label, kind, on) <==> field.key@ == key && field.label@ == label && field.kind@ == kind
            && field.searchable == on && field.ai_writable == on,
{
}

/// A tenant is seeded only once its schema is there, and registered only once it is seeded; one that is registered needs
/// nothing done.
pub proof fn a_tenant_is_made_in_order(i: int, j: int)
    requires
        0 <= i < steps_for(false).len(),
        0 <= j < steps_for(false).len(),
    ensures
        steps_for(false).len() == 3,
        steps_for(false)[i] == Step::Migrate && steps_for(false)[j] == Step::Seed ==> i < j,
        steps_for(false)[i] == Step::Seed && steps_for(false)[j] == Step::Register ==> i < j,
        steps_for(false)[i] == steps_for(false)[j] ==> i == j,
        steps_for(true).len() == 0,
{
}

// ----------------------------------------------------------------------------------------------------
// Commands
// ----------------------------------------------------------------------------------------------------

pub const INSERT_TENANT: &'static str =
    "INSERT INTO dam_global.tenants (id, slug, schema_name, display_name, storage_prefix, status) VALUES \
     ($1, $2, $3, $4, $5, 'active')";

/// A tenant's control-plane row, active.
pub fn insert_tenant(tenant: &Tenant, display_name: &str) -> (command: Command)
    ensures
        command.says(
            "INSERT INTO dam_global.tenants (id, slug, schema_name, display_name, storage_prefix, status) VALUES \
             ($1, $2, $3, $4, $5, 'active')"@,
            seq![
                Given::Id(tenant.id), Given::Text(tenant.slug@), Given::Text(tenant.schema_name@),
                Given::Text(display_name@), Given::Text(tenant.storage_prefix@),
            ],
        ),
{
    Command::new(
        INSERT_TENANT,
        vec![
            Value::Id(tenant.id), as_text(tenant.slug.as_str()), as_text(tenant.schema_name.as_str()),
            as_text(display_name), as_text(tenant.storage_prefix.as_str()),
        ],
    )
}

pub const INSERT_POOL: &'static str =
    "INSERT INTO dam_global.storage_pools (id, tenant_id, name, driver, endpoint, region, bucket, \
     force_path_style, credentials_ref, storage_class, latency_class) VALUES (gen_random_uuid(), $1, $2, \
     $3, $4, $5, $6, $7, $8, $9, $10)";

/// A tenant's storage pool.
pub fn insert_pool(tenant_id: Uuid, seed: PoolSeed) -> (command: Command)
    ensures
        command.says(
            "INSERT INTO dam_global.storage_pools (id, tenant_id, name, driver, endpoint, region, bucket, \
             force_path_style, credentials_ref, storage_class, latency_class) VALUES (gen_random_uuid(), $1, $2, \
             $3, $4, $5, $6, $7, $8, $9, $10)"@,
            seq![
                Given::Id(tenant_id), Given::Text(seed.name@), Given::Text(seed.driver@),
                Given::MaybeText(opt_str_chars(seed.place.endpoint)), Given::Text(seed.place.region@),
                Given::Text(seed.place.bucket@), Given::Flag(seed.place.force_path_style),
                Given::Text(seed.place.credentials_ref@), Given::Text(seed.storage_class@),
                Given::Text(seed.latency_class@),
            ],
        ),
{
    Command::new(
        INSERT_POOL,
        vec![
            Value::Id(tenant_id), as_text(seed.name), as_text(seed.driver),
            as_maybe_str(seed.place.endpoint), as_text(seed.place.region), as_text(seed.place.bucket),
            Value::Flag(seed.place.force_path_style), as_text(seed.place.credentials_ref),
            as_text(seed.storage_class), as_text(seed.latency_class),
        ],
    )
}

pub const FIND: &'static str =
    "SELECT id, schema_name, storage_prefix FROM dam_global.tenants WHERE slug = $1";

/// A tenant by its slug.
pub fn find(slug: &TenantSlug) -> (command: Command)
    ensures
        command.says(
            "SELECT id, schema_name, storage_prefix FROM dam_global.tenants WHERE slug = $1"@,
            seq![Given::Text(slug@)],
        ),
{
    Command::new(FIND, vec![as_text(slug.as_str())])
}

pub const INSERT_FLAG: &'static str =
    "INSERT INTO dam_global.feature_flags (tenant_id, key, enabled, requires_dpia) VALUES ($1, $2, $3, $4) \
     ON CONFLICT (tenant_id, key) DO NOTHING";

/// A feature flag, unless the tenant has it.
pub fn insert_flag(tenant_id: Uuid, flag: FlagSeed) -> (command: Command)
    ensures
        command.says(
            "INSERT INTO dam_global.feature_flags (tenant_id, key, enabled, requires_dpia) VALUES ($1, $2, $3, $4) \
             ON CONFLICT (tenant_id, key) DO NOTHING"@,
            seq![
                Given::Id(tenant_id), Given::Text(flag.key@), Given::Flag(flag.enabled),
                Given::Flag(flag.requires_dpia),
            ],
        ),
{
    Command::new(
        INSERT_FLAG,
        vec![
            Value::Id(tenant_id), as_text(flag.key), Value::Flag(flag.enabled),
            Value::Flag(flag.requires_dpia),
        ],
    )
}

pub const INSERT_GROUP: &'static str =
    "INSERT INTO asset_groups (id, key, label, is_default) VALUES ($1, $2, $3, $4) ON CONFLICT (key) DO \
     NOTHING";

/// An asset group, unless the schema has it.
pub fn insert_group(id: Uuid, group: GroupSeed) -> (command: Command)
    ensures
        command.says(
            "INSERT INTO asset_groups (id, key, label, is_default) VALUES ($1, $2, $3, $4) ON CONFLICT (key) DO \
             NOTHING"@,
            seq![
                Given::Id(id), Given::Text(group.key@), Given::Text(group.label@),
                Given::Flag(group.is_default),
            ],
        ),
{
    Command::new(
        INSERT_GROUP,
        vec![
            Value::Id(id), as_text(group.key), as_text(group.label), Value::Flag(group.is_default),
        ],
    )
}

pub const INSERT_ROLE: &'static str =
    "INSERT INTO roles (id, key, label, permissions, all_asset_groups, is_builtin) VALUES ($1, $2, $3, $4, \
     $5, true) ON CONFLICT (key) DO NOTHING";

/// A built-in role, unless the schema has it.
pub fn insert_role(id: Uuid, role: &RoleSeed) -> (command: Command)
    ensures
        command.says(
            "INSERT INTO roles (id, key, label, permissions, all_asset_groups, is_builtin) VALUES ($1, $2, $3, $4, \
             $5, true) ON CONFLICT (key) DO NOTHING"@,
            seq![
                Given::Id(id), Given::Text(role.key@), Given::Text(role.label@),
                Given::Texts(role.permission_chars()), Given::Flag(role.all_asset_groups),
            ],
        ),
{
    Command::new(
        INSERT_ROLE,
        vec![
            Value::Id(id), as_text(role.key), as_text(role.label), as_words(&role.permissions),
            Value::Flag(role.all_asset_groups),
        ],
    )
}

pub const INSERT_FIELD: &'static str =
    "INSERT INTO field_defs (id, key, label, kind, searchable, ai_writable) VALUES ($1, $2, $3, $4, $5, $6) \
     ON CONFLICT (key) DO NOTHING";

/// A metadata field, unless the schema has it.
pub fn insert_field(id: Uuid, field: FieldSeed) -> (command: Command)
    ensures
        command.says(
            "INSERT INTO field_defs (id, key, label, kind, searchable, ai_writable) VALUES ($1, $2, $3, $4, $5, $6) \
             ON CONFLICT (key) DO NOTHING"@,
            seq![
                Given::Id(id), Given::Text(field.key@), Given::Text(field.label@),
                Given::Text(field.kind@), Given::Flag(field.searchable), Given::Flag(field.ai_writable),
            ],
        ),
{
    Command::new(
        INSERT_FIELD,
        vec![
            Value::Id(id), as_text(field.key), as_text(field.label), as_text(field.kind),
            Value::Flag(field.searchable), Value::Flag(field.ai_writable),
        ],
    )
}

} // verus!
