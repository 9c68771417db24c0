//! Comments on assets: public and private, routed to people, carrying a status.
//!
//! A read passes through the caller's asset predicate first and the comment's own visibility second. Private
//! means the author and the people named. Naming somebody is routing and widens nothing. A reply to a reply is
//! refused.

use crate::commands::{as_ids, as_text, Command, Given, Value};
use crate::query_sql::{push_where, Planned};
use crate::sql::{push, push_bind_id, query, Bind, Query, Statement};
use crate::text::{int_chars, int_text, quoted, quoted_chars, same, uuid_chars, uuid_text};
use crate::{Error, Instant, Uuid};
use vstd::prelude::*;

verus! {

/// The longest a comment may be.
pub const MAX_BODY_CHARS: usize = 10_000;

/// Who may read a comment.
#[derive(Debug, Clone, Copy, PartialEq, Eq, Structural)]
pub enum Visibility {
    /// Anybody who can see the asset.
    Public,
    /// The author and the named recipients.
    Private,
}

impl Visibility {
    /// The column's spelling.
    pub open spec fn chars(self) -> Seq<char> {
        match self {
            Visibility::Public => "public"@,
            Visibility::Private => "private"@,
        }
    }

    /// The column's spelling.
    pub fn as_str(self) -> (text: &'static str)
        ensures
            text@ == self.chars(),
            text@ == match self {
                Visibility::Public => "public"@,
                Visibility::Private => "private"@,
            },
    {
        match self {
            Visibility::Public => "public",
            Visibility::Private => "private",
        }
    }

    /// The value a spelling stands for; `None` for a spelling nothing has.
    pub fn parse(text: &str) -> (parsed: Option<Visibility>)
        ensures
            match parsed {
                Some(value) => text@ == value.chars(),
                None => forall|value: Visibility| text@ != #[trigger] value.chars(),
            },
            parsed == Some(Visibility::Public) ==> text@ == "public"@,
            parsed == Some(Visibility::Private) ==> text@ == "private"@,
            parsed is None ==> text@ != "public"@ && text@ != "private"@,
    {
        if same(text, "public") {
            Some(Visibility::Public)
        } else if same(text, "private") {
            Some(Visibility::Private)
        } else {
            None
        }
    }
}

/// Two values with one spelling are one value, so a spelling that is written reads back as what was written.
pub proof fn visibility_spellings_are_distinct(a: Visibility, b: Visibility)
    requires
        a.chars() == b.chars(),
    ensures
        a == b,
{
    reveal_strlit("public");
    reveal_strlit("private");
    assert("public"@.len() == 6);
    assert("private"@.len() == 7);
}

/// What a comment currently says about itself.
#[derive(Debug, Clone, Copy, PartialEq, Eq, Structural)]
pub enum Status {
    Open,
    Resolved,
    Approved,
    ChangesRequested,
}

impl Status {
    /// The column's spelling.
    pub open spec fn chars(self) -> Seq<char> {
        match self {
            Status::Open => "open"@,
            Status::Resolved => "resolved"@,
            Status::Approved => "approved"@,
            Status::ChangesRequested => "changes_requested"@,
        }
    }

    /// The column's spelling.
    pub fn as_str(self) -> (text: &'static str)
        ensures
            text@ == self.chars(),
            text@ == match self {
                Status::Open => "open"@,
                Status::Resolved => "resolved"@,
                Status::Approved => "approved"@,
                Status::ChangesRequested => "changes_requested"@,
            },
    {
        match self {
            Status::Open => "open",
            Status::Resolved => "resolved",
            Status::Approved => "approved",
            Status::ChangesRequested => "changes_requested",
        }
    }

    /// The value a spelling stands for; `None` for a spelling nothing has.
    pub fn parse(text: &str) -> (parsed: Option<Status>)
        ensures
            match parsed {
                Some(value) => text@ == value.chars(),
                None => forall|value: Status| text@ != #[trigger] value.chars(),
            },
            parsed == Some(Status::Open) ==> text@ == "open"@,
            parsed == Some(Status::Resolved) ==> text@ == "resolved"@,
            parsed == Some(Status::Approved) ==> text@ == "approved"@,
            parsed == Some(Status::ChangesRequested) ==> text@ == "changes_requested"@,
            parsed is None ==> text@ != "open"@ && text@ != "resolved"@ && text@ != "approved"@
                && text@ != "changes_requested"@,
    {
        if same(text, "open") {
            Some(Status::Open)
        } else if same(text, "resolved") {
            Some(Status::Resolved)
        } else if same(text, "approved") {
            Some(Status::Approved)
        } else if same(text, "changes_requested") {
            Some(Status::ChangesRequested)
        } else {
            None
        }
    }
}

/// Two values with one spelling are one value, so a spelling that is written reads back as what was written.
pub proof fn status_spellings_are_distinct(a: Status, b: Status)
    requires
        a.chars() == b.chars(),
    ensures
        a == b,
{
    reveal_strlit("open");
    reveal_strlit("resolved");
    reveal_strlit("approved");
    reveal_strlit("changes_requested");
    assert("open"@.len() == 4);
    assert("resolved"@.len() == 8);
    assert("approved"@.len() == 8);
    assert("changes_requested"@.len() == 17);
    assert("resolved"@[0] != "approved"@[0]);
}

/// Why a comment operation was refused.
#[derive(Debug, Clone, PartialEq, Eq)]
pub enum CommentRefusal {
    /// No such asset, or not one this caller may see. One refusal for both.
    UnknownAsset(Uuid),
    /// No such comment, or not one this caller may read.
    UnknownComment(Uuid),
    BadLength(usize),
    TooDeep,
    /// Editing or deleting somebody else's comment.
    NotYours,
    /// A private comment addressed to nobody would be a note only its author could ever read.
    PrivateWithNoRecipients,
}

impl CommentRefusal {
    /// The text of this refusal.
    pub open spec fn message_chars(self) -> Seq<char> {
        match self {
            CommentRefusal::UnknownAsset(given) => "no asset "@ + uuid_chars(given),
            CommentRefusal::UnknownComment(given) => "no comment "@ + uuid_chars(given),
            CommentRefusal::BadLength(given) => "a comment needs between 1 and 10000 characters; this one has "@ + int_chars(given as int),
            CommentRefusal::TooDeep => "a reply cannot itself be replied to; reply to the comment it is under"@,
            CommentRefusal::NotYours => "only the author can change the words of a comment"@,
            CommentRefusal::PrivateWithNoRecipients => "a private comment needs at least one recipient, or nobody but you will see it"@,
        }
    }

    /// The sentence whoever was refused reads.
    pub fn message(&self) -> (out: String)
        ensures
            out@ == self.message_chars(),
    {
        match self {
            CommentRefusal::UnknownAsset(given) => {
                let mut out = "no asset ".to_owned();
                out.append(uuid_text(*given).as_str());
                out
            },
            CommentRefusal::UnknownComment(given) => {
                let mut out = "no comment ".to_owned();
                out.append(uuid_text(*given).as_str());
                out
            },
            CommentRefusal::BadLength(given) => {
                let mut out = "a comment needs between 1 and 10000 characters; this one has ".to_owned();
                out.append(int_text(*given as i128).as_str());
                out
            },
            CommentRefusal::TooDeep => "a reply cannot itself be replied to; reply to the comment it is under".to_owned(),
            CommentRefusal::NotYours => "only the author can change the words of a comment".to_owned(),
            CommentRefusal::PrivateWithNoRecipients => "a private comment needs at least one recipient, or nobody but you will see it".to_owned(),
        }
    }
}

/// A comment to post.
#[derive(Debug, Clone)]
pub struct NewComment {
    pub asset_id: Uuid,
    pub author_id: Uuid,
    pub body: String,
    pub visibility: Visibility,
    /// Who this is for. Required for a private comment; routing only for a public one.
    pub recipients: Vec<Uuid>,
    /// The comment this replies to, if any.
    pub parent_id: Option<Uuid>,
}

/// A comment as stored.
#[derive(Debug, Clone, PartialEq, Eq)]
pub struct Comment {
    pub id: Uuid,
    pub asset_id: Uuid,
    pub author_id: Uuid,
    pub body: String,
    pub visibility: Visibility,
    pub status: Status,
    pub parent_id: Option<Uuid>,
    pub recipients: Vec<Uuid>,
    pub status_by: Option<Uuid>,
    pub created_at: Instant,
    /// Set when the words changed after posting.
    pub edited_at: Option<Instant>,
}

/// A comment's row, without its recipients.
#[derive(Debug, Clone, PartialEq, Eq)]
pub struct CommentRow {
    pub id: Uuid,
    pub asset_id: Uuid,
    pub author_id: Uuid,
    pub body: String,
    pub visibility: String,
    pub status: String,
    pub parent_id: Option<Uuid>,
    pub status_by: Option<Uuid>,
    pub created_at: Instant,
    pub edited_at: Option<Instant>,
}

/// What is wrong with a row, if anything: a word the column's check should have refused.
pub open spec fn row_complaint(row: CommentRow) -> Option<Seq<char>> {
    if forall|visibility: Visibility| row.visibility@ != #[trigger] visibility.chars() {
        Some("unknown comment visibility "@ + quoted_chars(row.visibility@))
    } else if forall|status: Status| row.status@ != #[trigger] status.chars() {
        Some("unknown comment status "@ + quoted_chars(row.status@))
    } else {
        None
    }
}

/// Whether a comment is what its row says, with these recipients.
pub open spec fn reads_row(comment: Comment, row: CommentRow, recipients: Seq<Uuid>) -> bool {
    &&& row.visibility@ == comment.visibility.chars()
    &&& row.status@ == comment.status.chars()
    &&& comment.recipients@ == recipients
    &&& comment == (Comment {
        id: row.id,
        asset_id: row.asset_id,
        author_id: row.author_id,
        body: row.body,
        visibility: comment.visibility,
        status: comment.status,
        parent_id: row.parent_id,
        recipients: comment.recipients,
        status_by: row.status_by,
        created_at: row.created_at,
        edited_at: row.edited_at,
    })
}

/// The comment a row describes.
pub fn comment(row: CommentRow, recipients: Vec<Uuid>) -> (read: Result<Comment, Error>)
    ensures
        match read {
            Ok(comment) => row_complaint(row) is None && reads_row(comment, row, recipients@),
            Err(error) => error matches Error::Migrate(detail) && row_complaint(row) == Some(
                detail@,
            ),
        },
{
    let visibility = match Visibility::parse(row.visibility.as_str()) {
        Some(visibility) => visibility,
        None => {
            let mut detail = "unknown comment visibility ".to_owned();
            detail.append(quoted(row.visibility.as_str()).as_str());
            return Err(Error::Migrate(detail));
        },
    };
    proof {
        assert(row.visibility@ == visibility.chars());
    }
    let status = match Status::parse(row.status.as_str()) {
        Some(status) => status,
        None => {
            let mut detail = "unknown comment status ".to_owned();
            detail.append(quoted(row.status.as_str()).as_str());
            return Err(Error::Migrate(detail));
        },
    };
    proof {
        assert(row.status@ == status.chars());
    }
    Ok(
        Comment {
            id: row.id,
            asset_id: row.asset_id,
            author_id: row.author_id,
            body: row.body,
            visibility,
            status,
            parent_id: row.parent_id,
            recipients,
            status_by: row.status_by,
            created_at: row.created_at,
            edited_at: row.edited_at,
        },
    )
}

/// The people one comment is for, among the routing of many, each a comment and a person, in their order.
pub open spec fn routed_to(routed: Seq<(Uuid, Uuid)>, comment: Uuid) -> Seq<Uuid>
    decreases routed.len(),
{
    if routed.len() == 0 {
        Seq::empty()
    } else if routed.last().0 == comment {
        routed_to(routed.drop_last(), comment).push(routed.last().1)
    } else {
        routed_to(routed.drop_last(), comment)
    }
}

fn recipients_of(routed: &Vec<(Uuid, Uuid)>, comment: Uuid) -> (recipients: Vec<Uuid>)
    ensures
        recipients@ == routed_to(routed@, comment),
{
    let mut recipients: Vec<Uuid> = Vec::new();
    let mut i: usize = 0;
    proof {
        assert(routed@.take(0) =~= Seq::<(Uuid, Uuid)>::empty());
    }
    while i < routed.len()
        invariant
            i <= routed@.len(),
            recipients@ == routed_to(routed@.take(i as int), comment),
        decreases routed@.len() - i,
    {
        proof {
            assert(routed@.take(i + 1).drop_last() =~= routed@.take(i as int));
            assert(routed@.take(i + 1).last() == routed@[i as int]);
        }
        if routed[i].0 == comment {
            recipients.push(routed[i].1);
        }
        i += 1;
    }
    proof {
        assert(routed@.take(i as int) =~= routed@);
    }
    recipients
}

/// A page of comments with the people each is for, from one read of each; or the first row's complaint.
pub fn thread(
    rows: Vec<CommentRow>,
    routed: &Vec<(Uuid, Uuid)>,
) -> (read: Result<Vec<Comment>, Error>)
    ensures
        match read {
            Ok(comments) => {
                &&& comments@.len() == rows@.len()
                &&& forall|i: int|
                    0 <= i < rows@.len() ==> reads_row(
                        #[trigger] comments@[i],
                        rows@[i],
                        routed_to(routed@, rows@[i].id),
                    )
                &&& forall|i: int| 0 <= i < rows@.len() ==> row_complaint(#[trigger] rows@[i]) is None
            },
            Err(error) => error matches Error::Migrate(detail) && exists|i: int|
                {
                    &&& 0 <= i < rows@.len()
                    &&& row_complaint(#[trigger] rows@[i]) == Some(detail@)
                    &&& forall|j: int| 0 <= j < i ==> row_complaint(#[trigger] rows@[j]) is None
                },
        },
{
    let ghost all = rows@;
    let mut comments: Vec<Comment> = Vec::new();
    for row in each: rows
        invariant
            each.seq() == all,
            comments@.len() == each.index(),
            forall|i: int|
                0 <= i < each.index() ==> reads_row(
                    #[trigger] comments@[i],
                    all[i],
                    routed_to(routed@, all[i].id),
                ),
            forall|i: int| 0 <= i < each.index() ==> row_complaint(#[trigger] all[i]) is None,
    {
        proof {
            assert(all[each.index()] == row);
        }
        let recipients = recipients_of(routed, row.id);
        match comment(row, recipients) {
            Ok(read) => comments.push(read),
            Err(error) => return Err(error),
        }
    }
    Ok(comments)
}

/// Whether a comment may be this long.
pub open spec fn length_allowed(length: nat) -> bool {
    1 <= length <= MAX_BODY_CHARS
}

/// Refuses a body that is empty or too long.
fn check_body(body: &str) -> (checked: Result<(), CommentRefusal>)
    ensures
        checked == if length_allowed(body@.len()) {
            Ok::<(), CommentRefusal>(())
        } else {
            Err(CommentRefusal::BadLength(body@.len() as usize))
        },
{
    let length: usize = body.unicode_len();
    if length == 0 || length > MAX_BODY_CHARS {
        Err(CommentRefusal::BadLength(length))
    } else {
        Ok(())
    }
}

/// Why a comment may not be posted, if it may not. `asset_seen` is whether the caller sees the asset, and `parent`
/// is the comment replied to as far as the caller may read it.
///
/// A private note nobody but its author can read is a comment that failed silently. A reply is to a comment on the
/// same asset that is not itself a reply; a parent on another asset is answered as unknown, so that its existence
/// is not confirmed.
pub open spec fn post_refusal(
    spec: NewComment,
    asset_seen: bool,
    parent: Option<Comment>,
) -> Option<CommentRefusal> {
    if !length_allowed(spec.body@.len()) {
        Some(CommentRefusal::BadLength(spec.body@.len() as usize))
    } else if spec.visibility == Visibility::Private && spec.recipients@.len() == 0 {
        Some(CommentRefusal::PrivateWithNoRecipients)
    } else if !asset_seen {
        Some(CommentRefusal::UnknownAsset(spec.asset_id))
    } else {
        match spec.parent_id {
            None => None,
            Some(parent_id) => match parent {
                None => Some(CommentRefusal::UnknownComment(parent_id)),
                Some(above) => if above.parent_id is Some {
                    Some(CommentRefusal::TooDeep)
                } else if above.asset_id != spec.asset_id {
                    Some(CommentRefusal::UnknownComment(parent_id))
                } else {
                    None
                },
            },
        }
    }
}

pub const POST: &'static str =
    "INSERT INTO asset_comments (id, asset_id, author_id, body, visibility, parent_id) VALUES ($1, $2, $3, $4, \
     $5, $6)";

/// Posts a comment, where it says something, to somebody, about an asset its author can see: `asset` is what asking for
/// it found, and `parent` the comment it replies to.
pub fn post(
    id: Uuid,
    spec: &NewComment,
    asset: Option<Uuid>,
    parent: &Option<Comment>,
) -> (posted: Result<Command, CommentRefusal>)
    ensures
        match posted {
            Ok(command) => {
                &&& post_refusal(*spec, asset is Some, *parent) is None
                &&& command.says(
                    "INSERT INTO asset_comments (id, asset_id, author_id, body, visibility, parent_id) VALUES ($1, $2, $3, $4, \
                     $5, $6)"@,
                    seq![
                        Given::Id(id), Given::Id(spec.asset_id), Given::Id(spec.author_id),
                        Given::Text(spec.body@), Given::Text(spec.visibility.chars()),
                        Given::MaybeId(spec.parent_id),
                    ],
                )
            },
            Err(refusal) => post_refusal(*spec, asset is Some, *parent) == Some(refusal),
        },
{
    match check_body(spec.body.as_str()) {
        Err(refusal) => return Err(refusal),
        Ok(()) => {},
    }
    if spec.visibility == Visibility::Private && spec.recipients.len() == 0 {
        return Err(CommentRefusal::PrivateWithNoRecipients);
    }
    match check_asset(spec.asset_id, asset) {
        Err(refusal) => return Err(refusal),
        Ok(()) => {},
    }
    match spec.parent_id {
        None => {},
        Some(parent_id) => match parent {
            None => return Err(CommentRefusal::UnknownComment(parent_id)),
            Some(above) => if above.parent_id.is_some() {
                return Err(CommentRefusal::TooDeep);
            } else if above.asset_id != spec.asset_id {
                return Err(CommentRefusal::UnknownComment(parent_id));
            },
        },
    }
    Ok(
        Command::new(
            POST,
            vec![
                Value::Id(id), Value::Id(spec.asset_id), Value::Id(spec.author_id),
                as_text(spec.body.as_str()), as_text(spec.visibility.as_str()),
                Value::MaybeId(spec.parent_id),
            ],
        ),
    )
}

/// Threads are one level deep, and a private comment reaches somebody: a reply that is accepted answers a comment
/// on the same asset that is not itself a reply, and a private comment that is accepted names a recipient.
pub proof fn threads_are_one_level_deep(spec: NewComment, asset_seen: bool, parent: Option<Comment>)
    requires
        post_refusal(spec, asset_seen, parent) is None,
    ensures
        asset_seen,
        spec.parent_id is Some ==> parent is Some && parent->0.parent_id is None && parent->0.asset_id
            == spec.asset_id,
        spec.visibility == Visibility::Private ==> spec.recipients@.len() > 0,
{
}

/// Why `actor` may not change or delete a comment, if they may not. `existing` is the comment as far as the actor
/// may read it: somebody who cannot is told that there is no such comment, and not that it is somebody else's.
pub open spec fn author_refusal(id: Uuid, existing: Option<Comment>, actor: Uuid) -> Option<CommentRefusal> {
    match existing {
        None => Some(CommentRefusal::UnknownComment(id)),
        Some(comment) => if comment.author_id == actor {
            None
        } else {
            Some(CommentRefusal::NotYours)
        },
    }
}

pub const AMEND: &'static str =
    "UPDATE asset_comments SET body = $2, edited_at = now(), updated_at = now() WHERE id = $1";

/// Rewrites a comment's words. The author only; `existing` is the comment, where the editor may read it.
pub fn amend(
    id: Uuid,
    existing: &Option<Comment>,
    editor: Uuid,
    body: &str,
) -> (amended: Result<Command, CommentRefusal>)
    ensures
        match amended {
            Ok(command) => {
                &&& length_allowed(body@.len())
                &&& author_refusal(id, *existing, editor) is None
                &&& command.says(
                    "UPDATE asset_comments SET body = $2, edited_at = now(), updated_at = now() WHERE id = $1"@,
                    seq![Given::Id(id), Given::Text(body@)],
                )
            },
            Err(refusal) => if length_allowed(body@.len()) {
                author_refusal(id, *existing, editor) == Some(refusal)
            } else {
                refusal == CommentRefusal::BadLength(body@.len() as usize)
            },
        },
        amended is Ok <==> 1 <= body@.len() <= 10_000 && *existing is Some && existing->0.author_id == editor,
{
    match check_body(body) {
        Err(refusal) => Err(refusal),
        Ok(()) => match check_author(id, existing, editor) {
            Err(refusal) => Err(refusal),
            Ok(()) => Ok(Command::new(AMEND, vec![Value::Id(id), as_text(body)])),
        },
    }
}

fn check_author(id: Uuid, existing: &Option<Comment>, actor: Uuid) -> (checked: Result<(), CommentRefusal>)
    ensures
        match checked {
            Ok(()) => author_refusal(id, *existing, actor) is None,
            Err(refusal) => author_refusal(id, *existing, actor) == Some(refusal),
        },
{
    match existing {
        None => Err(CommentRefusal::UnknownComment(id)),
        Some(comment) => if comment.author_id != actor {
            Err(CommentRefusal::NotYours)
        } else {
            Ok(())
        },
    }
}

pub const REMOVE: &'static str = "DELETE FROM asset_comments WHERE id = $1";

/// Deletes a comment, and its replies with it. The author only.
pub fn remove(
    id: Uuid,
    existing: &Option<Comment>,
    actor: Uuid,
) -> (removed: Result<Command, CommentRefusal>)
    ensures
        match removed {
            Ok(command) => author_refusal(id, *existing, actor) is None && command.says(
                "DELETE FROM asset_comments WHERE id = $1"@,
                seq![Given::Id(id)],
            ),
            Err(refusal) => author_refusal(id, *existing, actor) == Some(refusal),
        },
        removed is Ok <==> *existing is Some && existing->0.author_id == actor,
{
    match check_author(id, existing, actor) {
        Err(refusal) => Err(refusal),
        Ok(()) => Ok(Command::new(REMOVE, vec![Value::Id(id)])),
    }
}

/// The comment that was read, or the refusal when nothing readable has that identifier. Whoever may read a comment
/// may move its status: an approval is somebody else's verdict.
pub fn found(id: Uuid, comment: Option<Comment>) -> (outcome: Result<Comment, CommentRefusal>)
    ensures
        outcome == match comment {
            Some(inner) => Ok::<Comment, CommentRefusal>(inner),
            None => Err(CommentRefusal::UnknownComment(id)),
        },
{
    match comment {
        Some(inner) => Ok(inner),
        None => Err(CommentRefusal::UnknownComment(id)),
    }
}

/// Refuses an asset that asking for it did not find.
pub fn check_asset(asset_id: Uuid, found: Option<Uuid>) -> (checked: Result<(), CommentRefusal>)
    ensures
        checked == if found is Some {
            Ok::<(), CommentRefusal>(())
        } else {
            Err(CommentRefusal::UnknownAsset(asset_id))
        },
{
    match found {
        Some(_) => Ok(()),
        None => Err(CommentRefusal::UnknownAsset(asset_id)),
    }
}

// ----------------------------------------------------------------------------------------------------
// Statements
// ----------------------------------------------------------------------------------------------------

pub const COLUMNS: &'static str =
    "c.id, c.asset_id, c.author_id, c.body, c.visibility, c.status, c.parent_id, \
     c.status_by, c.created_at, c.edited_at";

pub const VISIBLE_ASSETS: &'static str =
    "WITH visible AS (SELECT assets.id FROM assets \
     LEFT JOIN asset_metadata ON asset_metadata.asset_id = assets.id WHERE ";

/// The statement with the caller's visible assets named `visible`. Every read starts with this gate.
pub open spec fn gated(before: Query, planned: Planned) -> Query {
    planned.after(before.push(
        "WITH visible AS (SELECT assets.id FROM assets \
         LEFT JOIN asset_metadata ON asset_metadata.asset_id = assets.id WHERE "@,
    )).push(") "@)
}

fn push_visible_assets(statement: &mut Statement, planned: &Planned)
    requires
        planned.fits(),
    ensures
        query(*final(statement)) == gated(query(*old(statement)), *planned),
{
    push(statement, VISIBLE_ASSETS);
    push_where(statement, planned);
    push(statement, ") ");
}

pub const READABLE_OPEN: &'static str = "(c.visibility = 'public' OR c.author_id = ";

pub const READABLE_ADDRESSED: &'static str =
    " OR EXISTS (SELECT 1 FROM asset_comment_recipients r \
       WHERE r.comment_id = c.id AND r.identity_id = ";

/// The statement with the condition that `reader` may read the comment: public, theirs, or addressed to them.
pub open spec fn readable_by(before: Query, reader: Uuid) -> Query {
    before.push(
        "(c.visibility = 'public' OR c.author_id = "@,
    ).bind(Bind::Id(reader)).push(
        " OR EXISTS (SELECT 1 FROM asset_comment_recipients r \
         WHERE r.comment_id = c.id AND r.identity_id = "@,
    ).bind(
        Bind::Id(reader),
    ).push("))"@)
}

fn push_readable(statement: &mut Statement, reader: Uuid)
    ensures
        query(*final(statement)) == readable_by(query(*old(statement)), reader),
{
    push(statement, READABLE_OPEN);
    push_bind_id(statement, reader);
    push(statement, READABLE_ADDRESSED);
    push_bind_id(statement, reader);
    push(statement, "))");
}

pub const FROM_COMMENTS_OF: &'static str =
    " FROM asset_comments c JOIN visible ON visible.id = c.asset_id WHERE c.asset_id = ";

/// Threads oldest first by their first comment, and in each that comment before its replies, oldest first.
pub const THREAD_ORDER: &'static str =
    " ORDER BY coalesce((SELECT p.created_at FROM asset_comments p WHERE p.id = c.parent_id), c.created_at), \
     coalesce(c.parent_id, c.id), c.parent_id IS NOT NULL, c.created_at, c.id";

/// The comments on one asset that `reader` may read.
pub open spec fn thread_query(asset_id: Uuid, reader: Uuid, planned: Planned) -> Query {
    readable_by(
        gated(Query::new(""@), planned).push("SELECT "@).push(
            "c.id, c.asset_id, c.author_id, c.body, c.visibility, c.status, c.parent_id, \
             c.status_by, c.created_at, c.edited_at"@,
        ).push(" FROM asset_comments c JOIN visible ON visible.id = c.asset_id WHERE c.asset_id = "@).bind(
            Bind::Id(asset_id),
        ).push(" AND "@),
        reader,
    ).push(
        " ORDER BY coalesce((SELECT p.created_at FROM asset_comments p WHERE p.id = c.parent_id), c.created_at), \
         coalesce(c.parent_id, c.id), c.parent_id IS NOT NULL, c.created_at, c.id"@,
    )
}

/// Every comment on one asset that `reader` may read, oldest first, replies after their parent.
pub fn on_asset(asset_id: Uuid, reader: Uuid, planned: &Planned) -> (statement: Statement)
    requires
        planned.fits(),
    ensures
        query(statement) == thread_query(asset_id, reader, *planned),
{
    let mut statement = Statement::new("");
    push_visible_assets(&mut statement, planned);
    push(&mut statement, "SELECT ");
    push(&mut statement, COLUMNS);
    push(&mut statement, FROM_COMMENTS_OF);
    push_bind_id(&mut statement, asset_id);
    push(&mut statement, " AND ");
    push_readable(&mut statement, reader);
    push(&mut statement, THREAD_ORDER);
    statement
}

pub const FROM_COMMENT: &'static str =
    " FROM asset_comments c JOIN visible ON visible.id = c.asset_id WHERE c.id = ";

/// One comment, if `reader` may read it.
pub open spec fn comment_query(id: Uuid, reader: Uuid, planned: Planned) -> Query {
    readable_by(
        gated(Query::new(""@), planned).push("SELECT "@).push(COLUMNS@).push(
            " FROM asset_comments c JOIN visible ON visible.id = c.asset_id WHERE c.id = "@,
        ).bind(
            Bind::Id(id),
        ).push(" AND "@),
        reader,
    )
}

/// One comment, if `reader` may read it.
pub fn read(id: Uuid, reader: Uuid, planned: &Planned) -> (statement: Statement)
    requires
        planned.fits(),
    ensures
        query(statement) == comment_query(id, reader, *planned),
{
    let mut statement = Statement::new("");
    push_visible_assets(&mut statement, planned);
    push(&mut statement, "SELECT ");
    push(&mut statement, COLUMNS);
    push(&mut statement, FROM_COMMENT);
    push_bind_id(&mut statement, id);
    push(&mut statement, " AND ");
    push_readable(&mut statement, reader);
    statement
}

pub const ONE_ASSET: &'static str =
    "SELECT assets.id FROM assets \
     LEFT JOIN asset_metadata ON asset_metadata.asset_id = assets.id WHERE assets.id = ";

/// The statement that asks for one asset under the caller's plan.
pub fn require_visible_asset(asset_id: Uuid, planned: &Planned) -> (statement: Statement)
    requires
        planned.fits(),
    ensures
        query(statement) == planned.after(
            Query::new(
                "SELECT assets.id FROM assets \
                 LEFT JOIN asset_metadata ON asset_metadata.asset_id = assets.id WHERE assets.id = "@,
            ).bind(Bind::Id(asset_id)).push(" AND "@),
        ),
{
    let mut statement = Statement::new(ONE_ASSET);
    push_bind_id(&mut statement, asset_id);
    push(&mut statement, " AND ");
    push_where(&mut statement, planned);
    statement
}

/// Two gates, in this order: every read starts with the caller's visible assets, and binds the reader's own
/// identity, and no other person's, to the condition behind them.
pub proof fn every_read_is_gated(planned: Planned, id: Uuid, reader: Uuid)
    ensures
        thread_query(id, reader, planned).extends(gated(Query::new(""@), planned)),
        comment_query(id, reader, planned).extends(gated(Query::new(""@), planned)),
        thread_query(id, reader, planned).binds == gated(Query::new(""@), planned).binds + seq![
            Bind::Id(id),
            Bind::Id(reader),
            Bind::Id(reader),
        ],
        comment_query(id, reader, planned).binds == gated(Query::new(""@), planned).binds + seq![
            Bind::Id(id),
            Bind::Id(reader),
            Bind::Id(reader),
        ],
{
    let gate = gated(Query::new(""@), planned);
    let thread = thread_query(id, reader, planned);
    let one = comment_query(id, reader, planned);
    assert(thread.sql.take(gate.sql.len() as int) =~= gate.sql);
    assert(one.sql.take(gate.sql.len() as int) =~= gate.sql);
    let tail = seq![Bind::Id(id), Bind::Id(reader), Bind::Id(reader)];
    assert(thread.binds =~= gate.binds + tail);
    assert(one.binds =~= gate.binds + tail);
    assert(thread.binds.take(gate.binds.len() as int) =~= gate.binds);
    assert(one.binds.take(gate.binds.len() as int) =~= gate.binds);
}

/// A comment is one to ten thousand characters long.
pub proof fn a_comment_has_a_length(length: nat)
    ensures
        length_allowed(length) <==> 1 <= length <= 10_000,
{
}

/// Nothing else is refused: a comment of an allowed length, addressed to somebody if it is private, on an asset its author
/// sees, at the top or under a comment at the top of the same asset, is posted. Each refusal says what was wrong.
pub proof fn a_comment_is_refused_for_a_reason(spec: NewComment, asset_seen: bool, parent: Option<Comment>)
    ensures
        1 <= spec.body@.len() <= 10_000 && (spec.visibility == Visibility::Public || spec.recipients@.len() > 0)
            && asset_seen && (spec.parent_id is None || parent is Some && parent->0.parent_id is None
            && parent->0.asset_id == spec.asset_id) ==> post_refusal(spec, asset_seen, parent) is None,
        post_refusal(spec, asset_seen, parent) matches Some(refusal) ==> match refusal {
            CommentRefusal::BadLength(_) => spec.body@.len() == 0 || spec.body@.len() > 10_000,
            CommentRefusal::PrivateWithNoRecipients => spec.visibility == Visibility::Private
                && spec.recipients@.len() == 0,
            CommentRefusal::UnknownAsset(id) => !asset_seen && id == spec.asset_id,
            CommentRefusal::UnknownComment(id) => spec.parent_id == Some(id) && (parent is None
                || parent->0.asset_id != spec.asset_id),
            CommentRefusal::TooDeep => spec.parent_id is Some && parent is Some && parent->0.parent_id is Some,
            CommentRefusal::NotYours => false,
        },
{
}

/// A comment belongs to whoever wrote it: its author, and nobody else, changes or removes it.
pub proof fn only_the_author_changes_a_comment(id: Uuid, existing: Option<Comment>, actor: Uuid)
    ensures
        author_refusal(id, existing, actor) is None <==> existing is Some && existing->0.author_id == actor,
        existing is None ==> author_refusal(id, existing, actor) == Some(CommentRefusal::UnknownComment(id)),
        existing is Some && existing->0.author_id != actor ==> author_refusal(id, existing, actor) == Some(
            CommentRefusal::NotYours,
        ),
{
}

/// A comment is read as its row says, field by field, and addressed to whom its own rows name, in their order.
pub proof fn a_comment_reads_as_its_row(
    comment: Comment,
    row: CommentRow,
    recipients: Seq<Uuid>,
    routed: Seq<(Uuid, Uuid)>,
)
    ensures
        reads_row(comment, row, recipients) ==> {
            &&& comment.id == row.id
            &&& comment.asset_id == row.asset_id
            &&& comment.author_id == row.author_id
            &&& comment.body == row.body
            &&& comment.parent_id == row.parent_id
            &&& comment.status_by == row.status_by
            &&& comment.created_at == row.created_at
            &&& comment.edited_at == row.edited_at
            &&& comment.recipients@ == recipients
            &&& comment.visibility == Visibility::Private ==> row.visibility@ == "private"@
            &&& comment.visibility == Visibility::Public ==> row.visibility@ == "public"@
        },
        routed_to(routed, row.id) == routed.filter(|one: (Uuid, Uuid)| one.0 == row.id).map_values(
            |one: (Uuid, Uuid)| one.1,
        ),
    decreases routed.len(),
{
    reveal(Seq::filter);
    let own = |one: (Uuid, Uuid)| one.0 == row.id;
    let to = |one: (Uuid, Uuid)| one.1;
    if routed.len() > 0 {
        a_comment_reads_as_its_row(comment, row, recipients, routed.drop_last());
    }
    assert(routed_to(routed, row.id) =~= routed.filter(own).map_values(to));
}

/// Comments are read under the reader's own filter: what stands in front of every read of them starts with the assets that the
/// planned query allows, closed and not added to.
pub proof fn comments_are_under_the_readers_filter(before: Query, planned: Planned)
    ensures
        gated(before, planned).extends(planned.after(before.push(VISIBLE_ASSETS@))),
        gated(before, planned).binds == planned.after(before.push(VISIBLE_ASSETS@)).binds,
        gated(before, planned).sql == planned.after(before.push(VISIBLE_ASSETS@)).sql + ") "@,
{
    let filtered = planned.after(before.push(VISIBLE_ASSETS@));
    crate::sql::lemma_extends_itself(filtered);
    crate::sql::lemma_appending_extends(filtered, filtered, ") "@, Bind::Int(0));
}

/// A row is complained of when one of its two words is not known, the visibility first.
pub proof fn a_row_is_complained_of_for_a_word(row: CommentRow)
    ensures
        row_complaint(row) is None <==> (exists|visibility: Visibility| row.visibility@ == #[trigger] visibility.chars())
            && (exists|status: Status| row.status@ == #[trigger] status.chars()),
        !(exists|visibility: Visibility| row.visibility@ == #[trigger] visibility.chars()) ==> row_complaint(row) == Some(
            "unknown comment visibility "@ + quoted_chars(row.visibility@),
        ),
        (exists|visibility: Visibility| row.visibility@ == #[trigger] visibility.chars()) && !(exists|status: Status|
            row.status@ == #[trigger] status.chars()) ==> row_complaint(row) == Some(
            "unknown comment status "@ + quoted_chars(row.status@),
        ),
{
}

/// The first thing that is wrong with a comment is what it is refused for: its length, then that it is private to nobody,
/// then an asset its author does not see, and last where it was put.
pub proof fn a_comment_is_refused_for_the_first_reason(spec: NewComment, asset_seen: bool, parent: Option<Comment>)
    ensures
        spec.body@.len() == 0 || spec.body@.len() > 10_000 ==> post_refusal(spec, asset_seen, parent) == Some(
            CommentRefusal::BadLength(spec.body@.len() as usize),
        ),
        1 <= spec.body@.len() <= 10_000 && spec.visibility == Visibility::Private && spec.recipients@.len() == 0
            ==> post_refusal(spec, asset_seen, parent) == Some(CommentRefusal::PrivateWithNoRecipients),
        1 <= spec.body@.len() <= 10_000 && (spec.visibility == Visibility::Public || spec.recipients@.len() > 0)
            && !asset_seen ==> post_refusal(spec, asset_seen, parent) == Some(CommentRefusal::UnknownAsset(spec.asset_id)),
        1 <= spec.body@.len() <= 10_000 && (spec.visibility == Visibility::Public || spec.recipients@.len() > 0)
            && asset_seen && spec.parent_id is Some && parent is Some && parent->0.parent_id is Some ==> post_refusal(
            spec,
            asset_seen,
            parent,
        ) == Some(CommentRefusal::TooDeep),
{
}

// ----------------------------------------------------------------------------------------------------
// Commands
// ----------------------------------------------------------------------------------------------------

pub const READ_RECIPIENTS: &'static str =
    "SELECT identity_id FROM asset_comment_recipients WHERE comment_id = $1 ORDER BY added_at, identity_id";

/// Who a comment is for.
pub fn read_recipients(id: Uuid) -> (command: Command)
    ensures
        command.says(
            "SELECT identity_id FROM asset_comment_recipients WHERE comment_id = $1 ORDER BY added_at, identity_id"@,
            seq![Given::Id(id)],
        ),
{
    Command::new(READ_RECIPIENTS, vec![Value::Id(id)])
}

pub const INSERT_RECIPIENT: &'static str =
    "INSERT INTO asset_comment_recipients (comment_id, identity_id) VALUES ($1, $2) ON CONFLICT \
     (comment_id, identity_id) DO NOTHING";

/// One of those a comment is for.
pub fn insert_recipient(id: Uuid, identity_id: Uuid) -> (command: Command)
    ensures
        command.says(
            "INSERT INTO asset_comment_recipients (comment_id, identity_id) VALUES ($1, $2) ON CONFLICT \
             (comment_id, identity_id) DO NOTHING"@,
            seq![Given::Id(id), Given::Id(identity_id)],
        ),
{
    Command::new(INSERT_RECIPIENT, vec![Value::Id(id), Value::Id(identity_id)])
}

pub const READ_ALL_RECIPIENTS: &'static str =
    "SELECT comment_id, identity_id FROM asset_comment_recipients WHERE comment_id = ANY($1) ORDER BY \
     added_at, identity_id";

/// Who several comments are for.
pub fn read_all_recipients(ids: &Vec<Uuid>) -> (command: Command)
    ensures
        command.says(
            "SELECT comment_id, identity_id FROM asset_comment_recipients WHERE comment_id = ANY($1) ORDER BY \
             added_at, identity_id"@,
            seq![Given::Ids(ids@)],
        ),
{
    Command::new(READ_ALL_RECIPIENTS, vec![as_ids(ids)])
}

pub const SET_STATUS: &'static str =
    "UPDATE asset_comments SET status = $2, status_by = $3, status_at = now(), updated_at = now() WHERE id = $1";

/// How a comment stands, and who said so. Anybody who may read it may say; `existing` is the comment, where the
/// actor may.
pub fn set_status(
    id: Uuid,
    existing: &Option<Comment>,
    status: Status,
    actor: Uuid,
) -> (set: Result<Command, CommentRefusal>)
    ensures
        match set {
            Ok(command) => *existing is Some && command.says(
                "UPDATE asset_comments SET status = $2, status_by = $3, status_at = now(), updated_at = now() WHERE id = $1"@,
                seq![Given::Id(id), Given::Text(status.chars()), Given::Id(actor)],
            ),
            Err(refusal) => *existing is None && refusal == CommentRefusal::UnknownComment(id),
        },
{
    match existing {
        None => Err(CommentRefusal::UnknownComment(id)),
        Some(_) => Ok(
            Command::new(
                SET_STATUS,
                vec![Value::Id(id), as_text(status.as_str()), Value::Id(actor)],
            ),
        ),
    }
}

} // verus!
