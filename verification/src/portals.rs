//! Named, branded shares of a set.
//!
//! A portal is content and presentation; the share link pointing at it is access. Each has exactly one source, and
//! the code does not choose: a row with none or two is reported rather than resolved.

use crate::commands::{as_maybe_text, as_text, Command, Given, Value};
use crate::sql::{push, push_bind_id, push_bind_int, push_bind_text, query, text_fits, Bind, Query, Statement, MAX_BYTES};
use crate::text::{
    lowercase, lowercase_chars, opt_chars, opt_str_chars, same, trim, trimmed, uuid_chars,
    uuid_text, wrapped,
};
use crate::versions::LIBRARY_ROWS;
use crate::{Error, Instant, Uuid};
use vstd::prelude::*;

verus! {

/// Why a portal could not be written.
#[derive(Debug, Clone, PartialEq, Eq)]
pub enum PortalRefusal {
    Unknown(Uuid),
    /// A field the database refuses. Carries the constraint's name.
    Invalid(String),
    /// That slug is taken: the fix is a different name rather than a different value.
    Taken(String),
}

impl PortalRefusal {
    /// The text of this refusal.
    pub open spec fn message_chars(self) -> Seq<char> {
        match self {
            PortalRefusal::Unknown(given) => "no portal "@ + uuid_chars(given),
            PortalRefusal::Invalid(given) => given@,
            PortalRefusal::Taken(given) => "the name `"@ + given@ + "` is already taken by another portal"@,
        }
    }

    /// The sentence whoever was refused reads.
    pub fn message(&self) -> (out: String)
        ensures
            out@ == self.message_chars(),
    {
        match self {
            PortalRefusal::Unknown(given) => {
                let mut out = "no portal ".to_owned();
                out.append(uuid_text(*given).as_str());
                out
            },
            PortalRefusal::Invalid(given) => given.as_str().to_owned(),
            PortalRefusal::Taken(given) => {
                let mut out = "the name `".to_owned();
                out.append(given.as_str());
                out.append("` is already taken by another portal");
                out
            },
        }
    }
}

/// Which layout a portal wears. Presentation, never permission.
#[derive(Debug, Clone, Copy, PartialEq, Eq, Structural)]
pub enum Kind {
    Standard,
    Brand,
    Video,
    Channel,
}

impl Kind {
    /// The column's spelling.
    pub open spec fn chars(self) -> Seq<char> {
        match self {
            Kind::Standard => "standard"@,
            Kind::Brand => "brand"@,
            Kind::Video => "video"@,
            Kind::Channel => "channel"@,
        }
    }

    /// The column's spelling.
    pub fn as_str(self) -> (text: &'static str)
        ensures
            text@ == self.chars(),
            text@ == match self {
                Kind::Standard => "standard"@,
                Kind::Brand => "brand"@,
                Kind::Video => "video"@,
                Kind::Channel => "channel"@,
            },
    {
        match self {
            Kind::Standard => "standard",
            Kind::Brand => "brand",
            Kind::Video => "video",
            Kind::Channel => "channel",
        }
    }

    /// The layout a stored value names. A layout this build does not know is a newer schema read by an older binary,
    /// and guessing one would show a tenant a portal they did not design.
    pub fn parse(text: &str) -> (parsed: Option<Kind>)
        ensures
            match parsed {
                Some(value) => text@ == value.chars(),
                None => forall|value: Kind| text@ != #[trigger] value.chars(),
            },
            parsed == Some(Kind::Standard) ==> text@ == "standard"@,
            parsed == Some(Kind::Brand) ==> text@ == "brand"@,
            parsed == Some(Kind::Video) ==> text@ == "video"@,
            parsed == Some(Kind::Channel) ==> text@ == "channel"@,
            parsed is None ==> text@ != "standard"@ && text@ != "brand"@ && text@ != "video"@ && text@ != "channel"@,
    {
        if same(text, "standard") {
            Some(Kind::Standard)
        } else if same(text, "brand") {
            Some(Kind::Brand)
        } else if same(text, "video") {
            Some(Kind::Video)
        } else if same(text, "channel") {
            Some(Kind::Channel)
        } else {
            None
        }
    }
}

/// Two values with one spelling are one value, so a spelling that is written reads back as what was written.
pub proof fn kind_spellings_are_distinct(a: Kind, b: Kind)
    requires
        a.chars() == b.chars(),
    ensures
        a == b,
{
    reveal_strlit("standard");
    reveal_strlit("brand");
    reveal_strlit("video");
    reveal_strlit("channel");
    assert("standard"@.len() == 8);
    assert("brand"@.len() == 5);
    assert("video"@.len() == 5);
    assert("channel"@.len() == 7);
    assert("brand"@[0] != "video"@[0]);
}

/// Where a portal's assets come from.
#[derive(Debug, Clone, PartialEq, Eq)]
pub enum Source {
    Collection(Uuid),
    SavedSearch(Uuid),
    /// Everything of one media class.
    MediaClass(String),
}

/// The three columns a source is stored in.
#[derive(Debug, Clone, PartialEq, Eq)]
pub struct SourceColumns {
    pub collection_id: Option<Uuid>,
    pub saved_search_id: Option<Uuid>,
    pub media_class: Option<String>,
}

impl Source {
    /// The columns this source is stored in: one of them.
    pub open spec fn columns(self) -> SourceColumns {
        match self {
            Source::Collection(id) => SourceColumns {
                collection_id: Some(id),
                saved_search_id: None,
                media_class: None,
            },
            Source::SavedSearch(id) => SourceColumns {
                collection_id: None,
                saved_search_id: Some(id),
                media_class: None,
            },
            Source::MediaClass(class) => SourceColumns {
                collection_id: None,
                saved_search_id: None,
                media_class: Some(class),
            },
        }
    }

    /// The columns this source is stored in.
    pub fn into_columns(self) -> (columns: SourceColumns)
        ensures
            columns == self.columns(),
            columns.collection_id == match self {
                Source::Collection(id) => Some(id),
                _ => None,
            },
            columns.saved_search_id == match self {
                Source::SavedSearch(id) => Some(id),
                _ => None,
            },
            columns.media_class == match self {
                Source::MediaClass(class) => Some(class),
                _ => None,
            },
    {
        match self {
            Source::Collection(id) => SourceColumns {
                collection_id: Some(id),
                saved_search_id: None,
                media_class: None,
            },
            Source::SavedSearch(id) => SourceColumns {
                collection_id: None,
                saved_search_id: Some(id),
                media_class: None,
            },
            Source::MediaClass(class) => SourceColumns {
                collection_id: None,
                saved_search_id: None,
                media_class: Some(class),
            },
        }
    }
}

/// The source that columns hold: `None` unless exactly one is set.
pub open spec fn source_of(columns: SourceColumns) -> Option<Source> {
    match (columns.collection_id, columns.saved_search_id, columns.media_class) {
        (Some(id), None, None) => Some(Source::Collection(id)),
        (None, Some(id), None) => Some(Source::SavedSearch(id)),
        (None, None, Some(class)) => Some(Source::MediaClass(class)),
        _ => None,
    }
}

/// One portal, as everything but the share machinery sees it.
#[derive(Debug, Clone, PartialEq, Eq)]
pub struct Portal {
    pub id: Uuid,
    /// The slug. Resolves as a URL only when the portal is public: a slug is guessable and a token is not.
    pub key: String,
    pub title: String,
    pub intro: String,
    pub kind: String,
    pub source: Source,
    pub logo_asset_id: Option<Uuid>,
    pub accent: String,
    pub is_public: bool,
    pub allow_search: bool,
    pub created_at: Instant,
    pub retired_at: Option<Instant>,
}

impl Portal {
    /// The layout, when this build knows it.
    pub fn kind(&self) -> (kind: Option<Kind>)
        ensures
            match kind {
                Some(known) => self.kind@ == known.chars(),
                None => forall|known: Kind| self.kind@ != #[trigger] known.chars(),
            },
    {
        Kind::parse(self.kind.as_str())
    }

    /// Whether this portal still answers.
    pub fn is_live(&self) -> (live: bool)
        ensures
            live == (self.retired_at is None),
    {
        self.retired_at.is_none()
    }
}

/// A portal's row.
#[derive(Debug, Clone, PartialEq, Eq)]
pub struct PortalRow {
    pub id: Uuid,
    pub key: String,
    pub title: String,
    pub intro: String,
    pub kind: String,
    pub source: SourceColumns,
    pub logo_asset_id: Option<Uuid>,
    pub accent: String,
    pub is_public: bool,
    pub allow_search: bool,
    pub created_at: Instant,
    pub retired_at: Option<Instant>,
}

/// The portal a row describes. A row without exactly one source is a database somebody edited by hand: every
/// default would show somebody a set they did not configure.
pub fn into_portal(row: PortalRow) -> (portal: Result<Portal, Error>)
    ensures
        match portal {
            Ok(inner) => source_of(row.source) == Some(inner.source) && inner == (Portal {
                id: row.id,
                key: row.key,
                title: row.title,
                intro: row.intro,
                kind: row.kind,
                source: inner.source,
                logo_asset_id: row.logo_asset_id,
                accent: row.accent,
                is_public: row.is_public,
                allow_search: row.allow_search,
                created_at: row.created_at,
                retired_at: row.retired_at,
            }),
            Err(error) => source_of(row.source) is None && (error matches Error::Inconsistent(
                detail,
            ) && detail@ == "portal "@ + uuid_chars(row.id) + " does not have exactly one source"@),
        },
{
    let SourceColumns { collection_id, saved_search_id, media_class } = row.source;
    let source = match (collection_id, saved_search_id, media_class) {
        (Some(id), None, None) => Source::Collection(id),
        (None, Some(id), None) => Source::SavedSearch(id),
        (None, None, Some(class)) => Source::MediaClass(class),
        _ => return Err(
            Error::Inconsistent(
                wrapped(
                    "portal ",
                    uuid_text(row.id).as_str(),
                    " does not have exactly one source",
                ),
            ),
        ),
    };
    Ok(
        Portal {
            id: row.id,
            key: row.key,
            title: row.title,
            intro: row.intro,
            kind: row.kind,
            source,
            logo_asset_id: row.logo_asset_id,
            accent: row.accent,
            is_public: row.is_public,
            allow_search: row.allow_search,
            created_at: row.created_at,
            retired_at: row.retired_at,
        },
    )
}

/// A source that is written reads back: the columns of a source hold that source and nothing else.
pub proof fn a_written_source_reads_back(source: Source)
    ensures
        source_of(source.columns()) == Some(source),
{
}

/// A portal and the token that reaches it.
#[derive(Debug, Clone)]
pub struct Created {
    pub portal: Portal,
    /// The share link's id, for revocation.
    pub share_id: Uuid,
    /// The token, readable exactly once: it is stored as a digest.
    pub token: String,
}

/// A portal to create.
#[derive(Debug, Clone, PartialEq, Eq)]
pub struct NewPortal {
    pub key: String,
    pub title: String,
    pub intro: String,
    pub kind: Kind,
    pub source: Source,
    pub logo_asset_id: Option<Uuid>,
    pub accent: String,
    pub is_public: bool,
    pub allow_search: bool,
}

/// What a portal shows and says. Never what it permits.
#[derive(Debug, Clone, PartialEq, Eq)]
pub struct Presentation {
    pub title: String,
    pub intro: String,
    pub kind: Kind,
    pub logo_asset_id: Option<Uuid>,
    pub accent: String,
    pub is_public: bool,
    pub allow_search: bool,
}

/// A colour, or a slug to look up, as it is stored: trimmed and in lower case.
pub fn stored_lower(text: &str) -> (stored: String)
    ensures
        stored@ == lowercase_chars(trimmed(text@)),
{
    lowercase(trim(text))
}

/// A new portal's columns.
#[derive(Debug, Clone, PartialEq, Eq)]
pub struct NewColumns {
    pub key: String,
    pub title: String,
    pub intro: String,
    pub kind: &'static str,
    pub source: SourceColumns,
    pub logo_asset_id: Option<Uuid>,
    pub accent: String,
    pub is_public: bool,
    pub allow_search: bool,
}

/// The columns a new portal is stored in: the key and the title trimmed, the accent trimmed and in lower case, and
/// one of the three sources set.
pub fn create(new: NewPortal) -> (row: NewColumns)
    ensures
        row.key@ == trimmed(new.key@),
        row.title@ == trimmed(new.title@),
        row.intro == new.intro,
        row.kind@ == new.kind.chars(),
        row.source == new.source.columns(),
        row.logo_asset_id == new.logo_asset_id,
        row.accent@ == lowercase_chars(trimmed(new.accent@)),
        row.is_public == new.is_public,
        row.allow_search == new.allow_search,
{
    NewColumns {
        key: trim(new.key.as_str()).to_owned(),
        title: trim(new.title.as_str()).to_owned(),
        intro: new.intro,
        kind: new.kind.as_str(),
        source: new.source.into_columns(),
        logo_asset_id: new.logo_asset_id,
        accent: stored_lower(new.accent.as_str()),
        is_public: new.is_public,
        allow_search: new.allow_search,
    }
}

/// The columns a changed presentation is stored in. The key and the source are not among them: a portal that
/// swapped its set would be a new portal wearing an old name.
#[derive(Debug, Clone, PartialEq, Eq)]
pub struct PresentationColumns {
    pub title: String,
    pub intro: String,
    pub kind: &'static str,
    pub logo_asset_id: Option<Uuid>,
    pub accent: String,
    pub is_public: bool,
    pub allow_search: bool,
}

/// The columns a changed presentation is stored in.
pub fn present(presentation: Presentation) -> (row: PresentationColumns)
    ensures
        row.title@ == trimmed(presentation.title@),
        row.intro == presentation.intro,
        row.kind@ == presentation.kind.chars(),
        row.logo_asset_id == presentation.logo_asset_id,
        row.accent@ == lowercase_chars(trimmed(presentation.accent@)),
        row.is_public == presentation.is_public,
        row.allow_search == presentation.allow_search,
{
    PresentationColumns {
        title: trim(presentation.title.as_str()).to_owned(),
        intro: presentation.intro,
        kind: presentation.kind.as_str(),
        logo_asset_id: presentation.logo_asset_id,
        accent: stored_lower(presentation.accent.as_str()),
        is_public: presentation.is_public,
        allow_search: presentation.allow_search,
    }
}

/// What a database error means for a portal named `key`: a taken name, or the constraint that was violated.
pub fn constraint_or_database(
    unique_violation: bool,
    constraint: Option<String>,
    key: &str,
) -> (refusal: Option<PortalRefusal>)
    ensures
        if unique_violation {
            refusal matches Some(PortalRefusal::Taken(name)) && name@ == key@
        } else {
            refusal == match constraint {
                Some(name) => Some(PortalRefusal::Invalid(name)),
                None => None,
            }
        },
{
    if unique_violation {
        return Some(PortalRefusal::Taken(key.to_owned()));
    }
    match constraint {
        Some(name) => Some(PortalRefusal::Invalid(name)),
        None => None,
    }
}

/// Whether a change reached a live portal. A retired portal is not a thing to edit, and is answered as unknown.
pub fn touched(rows: u64, id: Uuid) -> (outcome: Result<(), PortalRefusal>)
    ensures
        outcome == if rows == 0 {
            Err::<(), PortalRefusal>(PortalRefusal::Unknown(id))
        } else {
            Ok(())
        },
{
    if rows == 0 {
        Err(PortalRefusal::Unknown(id))
    } else {
        Ok(())
    }
}

/// The portal as it stands after it was written.
pub fn written(id: Uuid, portal: Option<Portal>) -> (found: Result<Portal, PortalRefusal>)
    ensures
        found == match portal {
            Some(inner) => Ok::<Portal, PortalRefusal>(inner),
            None => Err(PortalRefusal::Unknown(id)),
        },
{
    match portal {
        Some(inner) => Ok(inner),
        None => Err(PortalRefusal::Unknown(id)),
    }
}

pub const SELECT: &'static str =
    "SELECT id, key, title, intro, kind, collection_id, saved_search_id, media_class, \
            logo_asset_id, accent, is_public, allow_search, created_at, retired_at \
     FROM portals";

/// One portal by identifier.
pub fn read(id: Uuid) -> (statement: Statement)
    ensures
        query(statement) == Query::new(
            "SELECT id, key, title, intro, kind, collection_id, saved_search_id, media_class, \
             logo_asset_id, accent, is_public, allow_search, created_at, retired_at \
             FROM portals"@,
        ).push(" WHERE id = "@).bind(Bind::Id(id)),
{
    let mut statement = Statement::new(SELECT);
    push(&mut statement, " WHERE id = ");
    push_bind_id(&mut statement, id);
    statement
}

/// The statement for one public, live portal with the stored slug `key`.
pub open spec fn public_query(key: Seq<char>) -> Query {
    Query::new(SELECT@).push(" WHERE key = "@).bind(Bind::Text(key)).push(
        " AND is_public AND retired_at IS NULL"@,
    )
}

/// One public, live portal by the slug a visitor gave. Narrower than [`read`]: a private portal is reachable only
/// by its token, and a retired one not at all. `None` for a slug that no argument can carry.
pub fn by_public_key(key: &str) -> (statement: Option<Statement>)
    ensures
        statement is Some <==> text_fits(lowercase_chars(trimmed(key@))),
        statement matches Some(inner) ==> query(inner) == public_query(lowercase_chars(trimmed(key@))),
        statement matches Some(inner) ==> query(inner) == Query::new(SELECT@).push(" WHERE key = "@).bind(
            Bind::Text(lowercase_chars(trimmed(key@))),
        ).push(" AND is_public AND retired_at IS NULL"@),
{
    let stored = stored_lower(key);
    if stored.as_str().as_bytes().len() > MAX_BYTES {
        return None;
    }
    let mut statement = Statement::new(SELECT);
    push(&mut statement, " WHERE key = ");
    push_bind_text(&mut statement, stored.as_str());
    push(&mut statement, " AND is_public AND retired_at IS NULL");
    Some(statement)
}

/// Every portal, live ones first.
pub fn all() -> (statement: Statement)
    ensures
        query(statement) == Query::new(SELECT@).push(
            " ORDER BY retired_at IS NOT NULL, created_at DESC"@,
        ),
{
    let mut statement = Statement::new(SELECT);
    push(&mut statement, " ORDER BY retired_at IS NOT NULL, created_at DESC");
    statement
}

/// One asset a portal shows.
#[derive(Debug, Clone, PartialEq, Eq)]
pub struct Member {
    pub asset_id: Uuid,
    pub filename: String,
    pub mime: String,
    pub bytes: i64,
}

pub const MEMBERS_FROM: &'static str =
    " FROM collection_items \
      JOIN assets ON assets.id = collection_items.asset_id \
      LEFT JOIN asset_metadata ON asset_metadata.asset_id = assets.id \
      WHERE collection_items.collection_id = ";

pub const MEMBERS_METADATA: &'static str =
    " OR coalesce(asset_metadata.values, '{}'::jsonb)::text ILIKE ";

/// The statement with the class condition appended, where a class is named. Matched on the mime's type, so that
/// `video` covers every codec.
pub open spec fn of_class(before: Query, media_class: Option<Seq<char>>) -> Query {
    match media_class {
        Some(class) => before.push(" AND assets.mime LIKE "@).bind(Bind::Text(class + "/%"@)),
        None => before,
    }
}

/// The statement with the search condition appended, where a term is given: in the filename or any metadata value.
pub open spec fn searched(before: Query, search: Option<Seq<char>>) -> Query {
    match search {
        Some(term) => before.push(" AND (assets.filename ILIKE "@).bind(
            Bind::Text("%"@ + term + "%"@),
        ).push(
            " OR coalesce(asset_metadata.values, '{}'::jsonb)::text ILIKE "@,
        ).bind(Bind::Text("%"@ + term + "%"@)).push(")"@),
        None => before,
    }
}

/// The shared condition of both reads of a portal's members, so that the count and the rows cannot disagree.
pub open spec fn member_condition(
    before: Query,
    collection_id: Uuid,
    search: Option<Seq<char>>,
    media_class: Option<Seq<char>>,
) -> Query {
    searched(
        of_class(
            before.push(
                " FROM collection_items \
                 JOIN assets ON assets.id = collection_items.asset_id \
                 LEFT JOIN asset_metadata ON asset_metadata.asset_id = assets.id \
                 WHERE collection_items.collection_id = "@,
            ).bind(Bind::Id(collection_id)).push(
                " AND assets.deleted_at IS NULL"@,
            ).push(LIBRARY_ROWS@),
            media_class,
        ),
        search,
    )
}

/// Whether an argument can carry the search term and the class.
pub open spec fn member_fits(search: Option<Seq<char>>, media_class: Option<Seq<char>>) -> bool {
    &&& search matches Some(term) ==> text_fits("%"@ + term + "%"@)
    &&& media_class matches Some(class) ==> text_fits(class + "/%"@)
}

fn member_query(
    select: &str,
    collection_id: Uuid,
    search: Option<&str>,
    media_class: Option<&str>,
) -> (statement: Statement)
    requires
        member_fits(opt_str_chars(search), opt_str_chars(media_class)),
    ensures
        query(statement) == member_condition(
            Query::new(select@),
            collection_id,
            opt_str_chars(search),
            opt_str_chars(media_class),
        ),
{
    let mut statement = Statement::new(select);
    push(&mut statement, MEMBERS_FROM);
    push_bind_id(&mut statement, collection_id);
    push(&mut statement, " AND assets.deleted_at IS NULL");
    push(&mut statement, LIBRARY_ROWS);
    match media_class {
        Some(class) => {
            let mut pattern = class.to_owned();
            pattern.append("/%");
            push(&mut statement, " AND assets.mime LIKE ");
            push_bind_text(&mut statement, pattern.as_str());
        },
        None => {},
    }
    match search {
        Some(term) => {
            let pattern = wrapped("%", term, "%");
            push(&mut statement, " AND (assets.filename ILIKE ");
            push_bind_text(&mut statement, pattern.as_str());
            push(&mut statement, MEMBERS_METADATA);
            push_bind_text(&mut statement, pattern.as_str());
            push(&mut statement, ")");
        },
        None => {},
    }
    statement
}

pub const MEMBERS_SELECT: &'static str = "SELECT assets.id, assets.filename, assets.mime, assets.bytes";

pub const MEMBERS_ORDER: &'static str = " ORDER BY collection_items.position, assets.filename LIMIT ";

/// The assets a collection-backed portal lists. There is no access predicate: putting an asset in the collection is
/// the tenant's own act of publishing it.
pub fn members(
    collection_id: Uuid,
    search: Option<&str>,
    media_class: Option<&str>,
    limit: i64,
) -> (statement: Statement)
    requires
        member_fits(opt_str_chars(search), opt_str_chars(media_class)),
    ensures
        query(statement) == member_condition(
            Query::new("SELECT assets.id, assets.filename, assets.mime, assets.bytes"@),
            collection_id,
            opt_str_chars(search),
            opt_str_chars(media_class),
        ).push(" ORDER BY collection_items.position, assets.filename LIMIT "@).bind(Bind::Int(limit)),
{
    let mut statement = member_query(MEMBERS_SELECT, collection_id, search, media_class);
    push(&mut statement, MEMBERS_ORDER);
    push_bind_int(&mut statement, limit);
    statement
}

/// How many assets the set holds, after any search.
pub fn member_count(
    collection_id: Uuid,
    search: Option<&str>,
    media_class: Option<&str>,
) -> (statement: Statement)
    requires
        member_fits(opt_str_chars(search), opt_str_chars(media_class)),
    ensures
        query(statement) == member_condition(
            Query::new("SELECT count(*)"@),
            collection_id,
            opt_str_chars(search),
            opt_str_chars(media_class),
        ),
{
    member_query("SELECT count(*)", collection_id, search, media_class)
}

/// The count and the rows cannot disagree: behind what each selects, both have the same text and bind the same
/// values.
pub proof fn the_count_and_the_rows_share_a_condition(
    collection_id: Uuid,
    search: Option<Seq<char>>,
    media_class: Option<Seq<char>>,
)
    ensures
        ({
            let rows = member_condition(
                Query::new(MEMBERS_SELECT@),
                collection_id,
                search,
                media_class,
            );
            let count = member_condition(
                Query::new("SELECT count(*)"@),
                collection_id,
                search,
                media_class,
            );
            &&& rows.binds == count.binds
            &&& rows.sql.skip(MEMBERS_SELECT@.len() as int) == count.sql.skip(
                "SELECT count(*)"@.len() as int,
            )
        }),
{
    let rows = member_condition(Query::new(MEMBERS_SELECT@), collection_id, search, media_class);
    let count = member_condition(
        Query::new("SELECT count(*)"@),
        collection_id,
        search,
        media_class,
    );
    assert(rows.sql.skip(MEMBERS_SELECT@.len() as int) =~= count.sql.skip(
        "SELECT count(*)"@.len() as int,
    ));
}

/// A portal shows the one thing its row names: a collection where the row names a collection, a saved search where it
/// names one, a class of media where it names one, and nothing where it names none of them or more than one.
pub proof fn a_portal_has_one_source(columns: SourceColumns, id: Uuid, class: String)
    ensures
        source_of(columns) == Some(Source::Collection(id)) <==> columns.collection_id == Some(id)
            && columns.saved_search_id is None && columns.media_class is None,
        source_of(columns) == Some(Source::SavedSearch(id)) <==> columns.saved_search_id == Some(id)
            && columns.collection_id is None && columns.media_class is None,
        source_of(columns) == Some(Source::MediaClass(class)) <==> columns.media_class == Some(class)
            && columns.collection_id is None && columns.saved_search_id is None,
        Source::Collection(id).columns().collection_id == Some(id),
        Source::SavedSearch(id).columns().saved_search_id == Some(id),
        Source::MediaClass(class).columns().media_class == Some(class),
{
}

/// What a search for a portal's members is given: the collection, then the class of media, which a mime has to start
/// with, then the word searched for, which a name or a text has to hold.
pub proof fn members_are_found_by_what_was_asked(
    before: Query,
    collection_id: Uuid,
    term: Seq<char>,
    class: Seq<char>,
)
    ensures
        member_condition(before, collection_id, None, None).binds == before.binds + seq![Bind::Id(collection_id)],
        member_condition(before, collection_id, None, Some(class)).binds == before.binds + seq![
            Bind::Id(collection_id),
            Bind::Text(class + "/%"@),
        ],
        member_condition(before, collection_id, Some(term), None).binds == before.binds + seq![
            Bind::Id(collection_id),
            Bind::Text("%"@ + term + "%"@),
            Bind::Text("%"@ + term + "%"@),
        ],
        member_condition(before, collection_id, Some(term), Some(class)).binds == before.binds + seq![
            Bind::Id(collection_id),
            Bind::Text(class + "/%"@),
            Bind::Text("%"@ + term + "%"@),
            Bind::Text("%"@ + term + "%"@),
        ],
{
    assert(member_condition(before, collection_id, None, None).binds =~= before.binds + seq![Bind::Id(collection_id)]);
    assert(member_condition(before, collection_id, None, Some(class)).binds =~= before.binds + seq![
        Bind::Id(collection_id),
        Bind::Text(class + "/%"@),
    ]);
    assert(member_condition(before, collection_id, Some(term), None).binds =~= before.binds + seq![
        Bind::Id(collection_id),
        Bind::Text("%"@ + term + "%"@),
        Bind::Text("%"@ + term + "%"@),
    ]);
    assert(member_condition(before, collection_id, Some(term), Some(class)).binds =~= before.binds + seq![
        Bind::Id(collection_id),
        Bind::Text(class + "/%"@),
        Bind::Text("%"@ + term + "%"@),
        Bind::Text("%"@ + term + "%"@),
    ]);
}

// ----------------------------------------------------------------------------------------------------
// Commands
// ----------------------------------------------------------------------------------------------------

pub const INSERT: &'static str =
    "INSERT INTO portals (id, key, title, intro, kind, collection_id, saved_search_id, media_class, \
     logo_asset_id, accent, is_public, allow_search, created_by) VALUES ($1, $2, $3, $4, $5, $6, $7, $8, \
     $9, $10, $11, $12, $13)";

/// A new portal.
pub fn insert(id: Uuid, row: &NewColumns, created_by: Option<Uuid>) -> (command: Command)
    ensures
        command.says(
            "INSERT INTO portals (id, key, title, intro, kind, collection_id, saved_search_id, media_class, \
             logo_asset_id, accent, is_public, allow_search, created_by) VALUES ($1, $2, $3, $4, $5, $6, $7, $8, \
             $9, $10, $11, $12, $13)"@,
            seq![
                Given::Id(id), Given::Text(row.key@), Given::Text(row.title@), Given::Text(row.intro@),
                Given::Text(row.kind@), Given::MaybeId(row.source.collection_id),
                Given::MaybeId(row.source.saved_search_id),
                Given::MaybeText(opt_chars(row.source.media_class)), Given::MaybeId(row.logo_asset_id),
                Given::Text(row.accent@), Given::Flag(row.is_public), Given::Flag(row.allow_search),
                Given::MaybeId(created_by),
            ],
        ),
{
    Command::new(
        INSERT,
        vec![
            Value::Id(id), as_text(row.key.as_str()), as_text(row.title.as_str()),
            as_text(row.intro.as_str()), as_text(row.kind), Value::MaybeId(row.source.collection_id),
            Value::MaybeId(row.source.saved_search_id), as_maybe_text(&row.source.media_class),
            Value::MaybeId(row.logo_asset_id), as_text(row.accent.as_str()), Value::Flag(row.is_public),
            Value::Flag(row.allow_search), Value::MaybeId(created_by),
        ],
    )
}

pub const SHARE_OF: &'static str =
    "SELECT id FROM share_links WHERE kind = 'portal' AND target_id = $1 AND revoked_at IS NULL ORDER BY \
     created_at DESC LIMIT 1";

/// A portal's live share link.
pub fn share_of(portal_id: Uuid) -> (command: Command)
    ensures
        command.says(
            "SELECT id FROM share_links WHERE kind = 'portal' AND target_id = $1 AND revoked_at IS NULL ORDER BY \
             created_at DESC LIMIT 1"@,
            seq![Given::Id(portal_id)],
        ),
{
    Command::new(SHARE_OF, vec![Value::Id(portal_id)])
}

pub const WRITE_PRESENTATION: &'static str =
    "UPDATE portals SET title = $2, intro = $3, kind = $4, logo_asset_id = $5, accent = $6, is_public = $7, \
     allow_search = $8, updated_at = now() WHERE id = $1 AND retired_at IS NULL";

/// How a portal looks, unless it is retired. What it shows stays.
pub fn write_presentation(id: Uuid, row: &PresentationColumns) -> (command: Command)
    ensures
        command.says(
            "UPDATE portals SET title = $2, intro = $3, kind = $4, logo_asset_id = $5, accent = $6, is_public = $7, \
             allow_search = $8, updated_at = now() WHERE id = $1 AND retired_at IS NULL"@,
            seq![
                Given::Id(id), Given::Text(row.title@), Given::Text(row.intro@), Given::Text(row.kind@),
                Given::MaybeId(row.logo_asset_id), Given::Text(row.accent@), Given::Flag(row.is_public),
                Given::Flag(row.allow_search),
            ],
        ),
{
    Command::new(
        WRITE_PRESENTATION,
        vec![
            Value::Id(id), as_text(row.title.as_str()), as_text(row.intro.as_str()), as_text(row.kind),
            Value::MaybeId(row.logo_asset_id), as_text(row.accent.as_str()), Value::Flag(row.is_public),
            Value::Flag(row.allow_search),
        ],
    )
}

pub const RETIRE: &'static str =
    "UPDATE portals SET retired_at = now(), updated_at = now() WHERE id = $1 AND retired_at IS NULL";

/// A portal, retired.
pub fn retire(id: Uuid) -> (command: Command)
    ensures
        command.says(
            "UPDATE portals SET retired_at = now(), updated_at = now() WHERE id = $1 AND retired_at IS NULL"@,
            seq![Given::Id(id)],
        ),
{
    Command::new(RETIRE, vec![Value::Id(id)])
}

pub const REVOKE_SHARE: &'static str =
    "UPDATE share_links SET revoked_at = now() WHERE kind = 'portal' AND target_id = $1 AND revoked_at IS \
     NULL";

/// A portal's share links, revoked with it.
pub fn revoke_share(id: Uuid) -> (command: Command)
    ensures
        command.says(
            "UPDATE share_links SET revoked_at = now() WHERE kind = 'portal' AND target_id = $1 AND revoked_at IS \
             NULL"@,
            seq![Given::Id(id)],
        ),
{
    Command::new(REVOKE_SHARE, vec![Value::Id(id)])
}

} // verus!
