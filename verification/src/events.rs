//! What happened, and who did it.
//!
//! An event names an asset, so every read starts from the visible-assets set. Events with no asset are excluded
//! from the asset feed rather than shown to everybody.

use crate::commands::{as_text, Command, Given, Value};
use crate::json::Json;
use crate::query_sql::{push_where, Planned};
use crate::sql::{push, push_bind_int, push_bind_texts, query, texts_size, Bind, Query, Statement};
use crate::text::all_chars;
use crate::versions::CURRENT_ONLY;
use crate::{clamp, clamped, Instant, Uuid};
use vstd::prelude::*;

verus! {

/// What kind of thing happened.
///
/// A closed set over an open column: everything written here is a value a screen knows how to phrase.
#[derive(Debug, Clone, Copy, PartialEq, Eq, Structural)]
pub enum Kind {
    /// An upload became an asset.
    Uploaded,
    /// Metadata was edited.
    Edited,
    /// A share link was created.
    Shared,
    /// A comment was posted.
    Commented,
    /// An original or rendition was delivered.
    Downloaded,
    /// An asset was soft-deleted.
    Deleted,
    /// An archived asset was asked for.
    RestoreRequested,
}

impl Kind {
    /// The column's spelling.
    pub open spec fn chars(self) -> Seq<char> {
        match self {
            Kind::Uploaded => "upload"@,
            Kind::Edited => "edit"@,
            Kind::Shared => "share"@,
            Kind::Commented => "comment"@,
            Kind::Downloaded => "download"@,
            Kind::Deleted => "delete"@,
            Kind::RestoreRequested => "restore"@,
        }
    }

    /// The column's spelling.
    pub fn as_str(self) -> (text: &'static str)
        ensures
            text@ == self.chars(),
            text@ == match self {
                Kind::Uploaded => "upload"@,
                Kind::Edited => "edit"@,
                Kind::Shared => "share"@,
                Kind::Commented => "comment"@,
                Kind::Downloaded => "download"@,
                Kind::Deleted => "delete"@,
                Kind::RestoreRequested => "restore"@,
            },
    {
        match self {
            Kind::Uploaded => "upload",
            Kind::Edited => "edit",
            Kind::Shared => "share",
            Kind::Commented => "comment",
            Kind::Downloaded => "download",
            Kind::Deleted => "delete",
            Kind::RestoreRequested => "restore",
        }
    }
}

/// Two values with one spelling are one value, so a spelling that is written reads back as what was written.
pub proof fn kind_spellings_are_distinct(a: Kind, b: Kind)
    requires
        a.chars() == b.chars(),
    ensures
        a == b,
{
    reveal_strlit("upload");
    reveal_strlit("edit");
    reveal_strlit("share");
    reveal_strlit("comment");
    reveal_strlit("download");
    reveal_strlit("delete");
    reveal_strlit("restore");
    assert("upload"@.len() == 6);
    assert("edit"@.len() == 4);
    assert("share"@.len() == 5);
    assert("comment"@.len() == 7);
    assert("download"@.len() == 8);
    assert("delete"@.len() == 6);
    assert("restore"@.len() == 7);
    assert("upload"@[0] != "delete"@[0]);
    assert("comment"@[0] != "restore"@[0]);
}

/// Who did it.
#[derive(Debug, Clone, Copy, PartialEq, Eq, Structural)]
pub enum ActorKind {
    User,
    ApiKey,
    ShareLink,
    System,
    Connector,
}

impl ActorKind {
    /// The column's spelling.
    pub open spec fn chars(self) -> Seq<char> {
        match self {
            ActorKind::User => "user"@,
            ActorKind::ApiKey => "api_key"@,
            ActorKind::ShareLink => "share_link"@,
            ActorKind::System => "system"@,
            ActorKind::Connector => "connector"@,
        }
    }

    /// The column's spelling.
    pub fn as_str(self) -> (text: &'static str)
        ensures
            text@ == self.chars(),
            text@ == match self {
                ActorKind::User => "user"@,
                ActorKind::ApiKey => "api_key"@,
                ActorKind::ShareLink => "share_link"@,
                ActorKind::System => "system"@,
                ActorKind::Connector => "connector"@,
            },
    {
        match self {
            ActorKind::User => "user",
            ActorKind::ApiKey => "api_key",
            ActorKind::ShareLink => "share_link",
            ActorKind::System => "system",
            ActorKind::Connector => "connector",
        }
    }
}

/// Two values with one spelling are one value, so a spelling that is written reads back as what was written.
pub proof fn actor_kind_spellings_are_distinct(a: ActorKind, b: ActorKind)
    requires
        a.chars() == b.chars(),
    ensures
        a == b,
{
    reveal_strlit("user");
    reveal_strlit("api_key");
    reveal_strlit("share_link");
    reveal_strlit("system");
    reveal_strlit("connector");
    assert("user"@.len() == 4);
    assert("api_key"@.len() == 7);
    assert("share_link"@.len() == 10);
    assert("system"@.len() == 6);
    assert("connector"@.len() == 9);
}

/// An event to record.
#[derive(Debug, Clone)]
pub struct NewEvent {
    pub kind: Kind,
    /// The asset it concerns. `None` for something that is not about one asset.
    pub asset_id: Option<Uuid>,
    pub actor_id: Option<Uuid>,
    pub actor_kind: ActorKind,
    /// Anything the phrasing needs that is not a column.
    pub context: Json,
    /// Bytes moved, for a download.
    pub bytes: Option<i64>,
}

impl NewEvent {
    /// An event a person caused, about an asset.
    pub fn by_person(kind: Kind, asset_id: Uuid, actor_id: Uuid) -> (event: NewEvent)
        ensures
            event.kind == kind,
            event.asset_id == Some(asset_id),
            event.actor_id == Some(actor_id),
            event.actor_kind == ActorKind::User,
            event.context matches Json::Object(members) && members@.len() == 0,
            event.bytes is None,
    {
        NewEvent {
            kind,
            asset_id: Some(asset_id),
            actor_id: Some(actor_id),
            actor_kind: ActorKind::User,
            context: Json::Object(Vec::new()),
            bytes: None,
        }
    }

    /// The same event, with this context.
    pub fn with(self, context: Json) -> (event: NewEvent)
        ensures
            event == (NewEvent { context, ..self }),
    {
        NewEvent { context, ..self }
    }
}

/// One entry in the feed.
#[derive(Debug, Clone, PartialEq, Eq)]
pub struct Entry {
    pub id: Uuid,
    pub occurred_at: Instant,
    /// The stored kind, as text: a row something else wrote is reported as itself.
    pub kind: String,
    pub asset_id: Option<Uuid>,
    /// The asset's filename at read time.
    pub filename: Option<String>,
    pub actor_id: Option<Uuid>,
    pub actor_kind: String,
    pub context: Json,
    pub bytes: Option<i64>,
}

/// The largest feed page.
pub const MAX_FEED: i64 = 200;

/// The most kinds a feed can be narrowed to: their array has to fit an argument.
pub const MAX_KINDS: usize = 178_956_968;

pub const FEED_VISIBLE: &'static str =
    "WITH visible AS (SELECT assets.id, assets.filename FROM assets \
     LEFT JOIN asset_metadata ON asset_metadata.asset_id = assets.id WHERE ";

pub const FEED_SELECT: &'static str =
    ") SELECT e.id, e.occurred_at, e.kind, e.asset_id, visible.filename, e.actor_id, \
              e.actor_kind, e.context, e.bytes \
      FROM events e JOIN visible ON visible.id = e.asset_id";

pub const FEED_ORDER: &'static str = " ORDER BY e.occurred_at DESC, e.id DESC LIMIT ";

/// The spellings of a list of kinds.
pub open spec fn spellings(kinds: Seq<Kind>) -> Seq<Seq<char>> {
    Seq::new(kinds.len(), |i: int| kinds[i].chars())
}

/// The most recent activity on what `planned` lets through, narrowed to `kinds` where any are named.
pub open spec fn feed_query(planned: Planned, limit: int, kinds: Seq<Kind>) -> Query {
    let all = planned.after(Query::new(
        "WITH visible AS (SELECT assets.id, assets.filename FROM assets \
         LEFT JOIN asset_metadata ON asset_metadata.asset_id = assets.id WHERE "@,
    )).push(
        ") SELECT e.id, e.occurred_at, e.kind, e.asset_id, visible.filename, e.actor_id, \
         e.actor_kind, e.context, e.bytes \
         FROM events e JOIN visible ON visible.id = e.asset_id"@,
    );
    let narrowed = if kinds.len() > 0 {
        all.push(" WHERE e.kind = ANY("@).bind(Bind::Texts(spellings(kinds))).push(")"@)
    } else {
        all
    };
    narrowed.push(
        " ORDER BY e.occurred_at DESC, e.id DESC LIMIT "@,
    ).bind(Bind::Int(clamped(limit, 1, MAX_FEED as int) as i64))
}

/// The statement that reads the most recent activity on assets this caller may see, newest first.
pub fn feed(planned: &Planned, limit: i64, kinds: &Vec<Kind>) -> (statement: Statement)
    requires
        planned.fits(),
        kinds@.len() <= MAX_KINDS,
    ensures
        query(statement) == feed_query(*planned, limit as int, kinds@),
{
    let mut statement = Statement::new(FEED_VISIBLE);
    push_where(&mut statement, planned);
    push(&mut statement, FEED_SELECT);
    if kinds.len() > 0 {
        let mut words: Vec<String> = Vec::new();
        let mut i: usize = 0;
        while i < kinds.len()
            invariant
                i <= kinds@.len(),
                words@.len() == i,
                forall|j: int| 0 <= j < i ==> (#[trigger] words@[j])@ == kinds@[j].chars(),
            decreases kinds@.len() - i,
        {
            words.push(kinds[i].as_str().to_owned());
            i += 1;
        }
        proof {
            assert(all_chars(words@) =~= spellings(kinds@));
            lemma_spellings_fit(kinds@);
        }
        push(&mut statement, " WHERE e.kind = ANY(");
        push_bind_texts(&mut statement, &words);
        push(&mut statement, ")");
    }
    push(&mut statement, FEED_ORDER);
    push_bind_int(&mut statement, clamp(limit, 1, MAX_FEED));
    statement
}

proof fn lemma_spelling_size(kind: Kind)
    ensures
        vstd::utf8::encode_utf8(kind.chars()).len() <= 8,
{
    reveal_strlit("upload");
    reveal_strlit("edit");
    reveal_strlit("share");
    reveal_strlit("comment");
    reveal_strlit("download");
    reveal_strlit("delete");
    reveal_strlit("restore");
    let text = kind.chars();
    assert(text.len() <= 8);
    assert(vstd::utf8::is_ascii_chars(text)) by {
        assert(forall|i: int| 0 <= i < text.len() ==> 0 <= #[trigger] text[i] as u32 <= 127);
    }
    vstd::utf8::is_ascii_chars_encode_utf8(text);
}

proof fn lemma_spellings_fit(kinds: Seq<Kind>)
    ensures
        texts_size(spellings(kinds)) <= 20 + 12 * kinds.len(),
    decreases kinds.len(),
{
    let words = spellings(kinds);
    if kinds.len() > 0 {
        lemma_spellings_fit(kinds.drop_last());
        assert(words.drop_last() =~= spellings(kinds.drop_last()));
        lemma_spelling_size(kinds.last());
        assert(words.last() == kinds.last().chars());
    }
}

/// What a dashboard counts.
#[derive(Debug, Clone, Copy, PartialEq, Eq, Structural)]
pub struct Summary {
    /// Assets the caller can see.
    pub assets: i64,
    pub uploads_this_week: i64,
    pub downloads_this_week: i64,
    pub comments_this_week: i64,
    /// Assets with no metadata values at all.
    pub without_metadata: i64,
}

impl Default for Summary {
    /// An empty library.
    fn default() -> (summary: Summary)
        ensures
            summary == (Summary {
                assets: 0,
                uploads_this_week: 0,
                downloads_this_week: 0,
                comments_this_week: 0,
                without_metadata: 0,
            }),
    {
        Summary {
            assets: 0,
            uploads_this_week: 0,
            downloads_this_week: 0,
            comments_this_week: 0,
            without_metadata: 0,
        }
    }
}

pub const SUMMARY_VISIBLE: &'static str =
    "WITH visible AS (SELECT assets.id FROM assets \
     LEFT JOIN asset_metadata ON asset_metadata.asset_id = assets.id WHERE ";

pub const SUMMARY_COUNTS: &'static str =
    ") SELECT \
        (SELECT count(*) FROM visible), \
        (SELECT count(*) FROM events e JOIN visible v ON v.id = e.asset_id \
         WHERE e.kind = 'upload' AND e.occurred_at > now() - interval '7 days'), \
        (SELECT count(*) FROM events e JOIN visible v ON v.id = e.asset_id \
         WHERE e.kind = 'download' AND e.occurred_at > now() - interval '7 days'), \
        (SELECT count(*) FROM events e JOIN visible v ON v.id = e.asset_id \
         WHERE e.kind = 'comment' AND e.occurred_at > now() - interval '7 days'), \
        (SELECT count(*) FROM visible v \
         LEFT JOIN asset_metadata m ON m.asset_id = v.id \
         WHERE m.asset_id IS NULL OR m.values = '{}'::jsonb)";

/// The statement for the dashboard's counts, every one under the caller's plan. One statement rather than five:
/// five are five snapshots.
pub fn summary(planned: &Planned) -> (statement: Statement)
    requires
        planned.fits(),
    ensures
        query(statement) == planned.after(Query::new(
            "WITH visible AS (SELECT assets.id FROM assets \
             LEFT JOIN asset_metadata ON asset_metadata.asset_id = assets.id WHERE "@,
        )).push(" AND assets.is_current"@).push(
            ") SELECT \
             (SELECT count(*) FROM visible), \
             (SELECT count(*) FROM events e JOIN visible v ON v.id = e.asset_id \
             WHERE e.kind = 'upload' AND e.occurred_at > now() - interval '7 days'), \
             (SELECT count(*) FROM events e JOIN visible v ON v.id = e.asset_id \
             WHERE e.kind = 'download' AND e.occurred_at > now() - interval '7 days'), \
             (SELECT count(*) FROM events e JOIN visible v ON v.id = e.asset_id \
             WHERE e.kind = 'comment' AND e.occurred_at > now() - interval '7 days'), \
             (SELECT count(*) FROM visible v \
             LEFT JOIN asset_metadata m ON m.asset_id = v.id \
             WHERE m.asset_id IS NULL OR m.values = '{}'::jsonb)"@,
        ),
{
    let mut statement = Statement::new(SUMMARY_VISIBLE);
    push_where(&mut statement, planned);
    push(&mut statement, CURRENT_ONLY);
    push(&mut statement, SUMMARY_COUNTS);
    statement
}

/// No feed is longer than a screenful, and none is empty by its limit.
pub proof fn a_feed_is_bounded(planned: Planned, limit: int, kinds: Seq<Kind>)
    ensures
        feed_query(planned, limit, kinds).binds.last() matches Bind::Int(effective) && 1 <= effective
            <= MAX_FEED,
{
}

/// A feed is narrowed to the kinds asked for, by their stored words in the order given, and is as long as was asked, one
/// row at least and 200 at most.
pub proof fn a_feed_is_what_was_asked_for(planned: Planned, limit: int, kinds: Seq<Kind>)
    ensures
        ({
            let all = planned.after(Query::new(FEED_VISIBLE@)).binds;
            let binds = feed_query(planned, limit, kinds).binds;
            &&& all.is_prefix_of(binds)
            &&& kinds.len() == 0 ==> binds.len() == all.len() + 1
            &&& kinds.len() > 0 ==> binds.len() == all.len() + 2 && (binds[all.len() as int] matches Bind::Texts(words)
                && words.len() == kinds.len() && forall|i: int|
                0 <= i < kinds.len() ==> #[trigger] words[i] == kinds[i].chars())
            &&& 1 <= limit <= 200 ==> binds.last() == Bind::Int(limit as i64)
            &&& limit < 1 ==> binds.last() == Bind::Int(1)
            &&& limit > 200 ==> binds.last() == Bind::Int(200)
        }),
{
    let all = planned.after(Query::new(FEED_VISIBLE@)).binds;
    let binds = feed_query(planned, limit, kinds).binds;
    assert(all =~= binds.take(all.len() as int));
    if kinds.len() > 0 {
        assert(binds[all.len() as int] == Bind::Texts(spellings(kinds)));
    }
}

// ----------------------------------------------------------------------------------------------------
// Commands
// ----------------------------------------------------------------------------------------------------

pub const RECORD: &'static str =
    "INSERT INTO events (id, kind, asset_id, actor_id, actor_kind, context, bytes) VALUES ($1, $2, $3, $4, \
     $5, $6, $7)";

/// An event.
pub fn record(id: Uuid, event: NewEvent) -> (command: Command)
    ensures
        command.says(
            "INSERT INTO events (id, kind, asset_id, actor_id, actor_kind, context, bytes) VALUES ($1, $2, $3, $4, \
             $5, $6, $7)"@,
            seq![
                Given::Id(id), Given::Text(event.kind.chars()), Given::MaybeId(event.asset_id),
                Given::MaybeId(event.actor_id), Given::Text(event.actor_kind.chars()),
                Given::Json(event.context), Given::MaybeInt(event.bytes),
            ],
        ),
{
    Command::new(
        RECORD,
        vec![
            Value::Id(id), as_text(event.kind.as_str()), Value::MaybeId(event.asset_id),
            Value::MaybeId(event.actor_id), as_text(event.actor_kind.as_str()),
            Value::Json(event.context), Value::MaybeInt(event.bytes),
        ],
    )
}

} // verus!
