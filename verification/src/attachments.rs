//! Attached documents: the paperwork that goes with an asset.
//!
//! An attachment is an ordinary asset marked as belonging to another. Paperwork cannot have paperwork of its own,
//! and a row cannot be both a superseded version and a release form.

use crate::access::{push_asset_filter, AccessPredicate};
use crate::commands::{as_ids, as_text, Command, Given, Value};
use crate::sql::{push, push_bind_id, push_bind_ids, query, Bind, Query, Statement, MAX_IDS};
use crate::text::{same, uuid_chars, uuid_text, wrapped};
use crate::{among, Error, Instant, Uuid};
use vstd::prelude::*;

verus! {

/// What kind of paperwork.
#[derive(Debug, Clone, Copy, PartialEq, Eq, Structural)]
pub enum Kind {
    Release,
    Licence,
    Contract,
    Permit,
    Other,
}

impl Kind {
    /// The column's spelling.
    pub open spec fn chars(self) -> Seq<char> {
        match self {
            Kind::Release => "release"@,
            Kind::Licence => "licence"@,
            Kind::Contract => "contract"@,
            Kind::Permit => "permit"@,
            Kind::Other => "other"@,
        }
    }

    /// The column's spelling.
    pub fn as_str(self) -> (text: &'static str)
        ensures
            text@ == self.chars(),
            text@ == match self {
                Kind::Release => "release"@,
                Kind::Licence => "licence"@,
                Kind::Contract => "contract"@,
                Kind::Permit => "permit"@,
                Kind::Other => "other"@,
            },
    {
        match self {
            Kind::Release => "release",
            Kind::Licence => "licence",
            Kind::Contract => "contract",
            Kind::Permit => "permit",
            Kind::Other => "other",
        }
    }

    /// The value a spelling stands for; `None` for a spelling nothing has.
    pub fn parse(text: &str) -> (parsed: Option<Kind>)
        ensures
            match parsed {
                Some(value) => text@ == value.chars(),
                None => forall|value: Kind| text@ != #[trigger] value.chars(),
            },
            parsed == Some(Kind::Release) ==> text@ == "release"@,
            parsed == Some(Kind::Licence) ==> text@ == "licence"@,
            parsed == Some(Kind::Contract) ==> text@ == "contract"@,
            parsed == Some(Kind::Permit) ==> text@ == "permit"@,
            parsed == Some(Kind::Other) ==> text@ == "other"@,
            parsed is None ==> text@ != "release"@ && text@ != "licence"@ && text@ != "contract"@
                && text@ != "permit"@ && text@ != "other"@,
    {
        if same(text, "release") {
            Some(Kind::Release)
        } else if same(text, "licence") {
            Some(Kind::Licence)
        } else if same(text, "contract") {
            Some(Kind::Contract)
        } else if same(text, "permit") {
            Some(Kind::Permit)
        } else if same(text, "other") {
            Some(Kind::Other)
        } else {
            None
        }
    }
}

/// Two values with one spelling are one value, so a spelling that is written reads back as what was written.
pub proof fn kind_spellings_are_distinct(a: Kind, b: Kind)
    requires
        a.chars() == b.chars(),
    ensures
        a == b,
{
    reveal_strlit("release");
    reveal_strlit("licence");
    reveal_strlit("contract");
    reveal_strlit("permit");
    reveal_strlit("other");
    assert("release"@.len() == 7);
    assert("licence"@.len() == 7);
    assert("contract"@.len() == 8);
    assert("permit"@.len() == 6);
    assert("other"@.len() == 5);
    assert("release"@[0] != "licence"@[0]);
}

/// Why an attachment operation was refused.
#[derive(Debug, Clone, PartialEq, Eq)]
pub enum AttachmentRefusal {
    UnknownAsset(Uuid),
    /// Attaching something that is already paperwork for something else. Refused rather than re-pointed.
    AlreadyAttached(Uuid),
    /// Attaching a document to a document.
    ParentIsAttachment,
    /// Attaching something that is a version of something.
    IsAVersion(Uuid),
}

impl AttachmentRefusal {
    /// The text of this refusal.
    pub open spec fn message_chars(self) -> Seq<char> {
        match self {
            AttachmentRefusal::UnknownAsset(given) => "no asset "@ + uuid_chars(given),
            AttachmentRefusal::AlreadyAttached(given) => "asset "@ + uuid_chars(given) + " is already attached to something else"@,
            AttachmentRefusal::ParentIsAttachment => "paperwork cannot have paperwork of its own"@,
            AttachmentRefusal::IsAVersion(given) => "asset "@ + uuid_chars(given) + " is a superseded version, not a document"@,
        }
    }

    /// The sentence whoever was refused reads.
    pub fn message(&self) -> (out: String)
        ensures
            out@ == self.message_chars(),
    {
        match self {
            AttachmentRefusal::UnknownAsset(given) => {
                let mut out = "no asset ".to_owned();
                out.append(uuid_text(*given).as_str());
                out
            },
            AttachmentRefusal::AlreadyAttached(given) => {
                let mut out = "asset ".to_owned();
                out.append(uuid_text(*given).as_str());
                out.append(" is already attached to something else");
                out
            },
            AttachmentRefusal::ParentIsAttachment => "paperwork cannot have paperwork of its own".to_owned(),
            AttachmentRefusal::IsAVersion(given) => {
                let mut out = "asset ".to_owned();
                out.append(uuid_text(*given).as_str());
                out.append(" is a superseded version, not a document");
                out
            },
        }
    }
}

/// Where an asset stands: what it is attached to, and whether it is a current version.
#[derive(Debug, Clone, Copy, PartialEq, Eq, Structural)]
pub struct Standing {
    pub id: Uuid,
    pub attached_to: Option<Uuid>,
    pub is_current: bool,
}

/// The first row for `id`.
pub open spec fn standing_of(rows: Seq<Standing>, id: Uuid) -> Option<Standing>
    decreases rows.len(),
{
    if rows.len() == 0 {
        None
    } else if rows[0].id == id {
        Some(rows[0])
    } else {
        standing_of(rows.drop_first(), id)
    }
}

fn find(rows: &Vec<Standing>, id: Uuid) -> (found: Option<Standing>)
    ensures
        found == standing_of(rows@, id),
{
    let mut i: usize = 0;
    proof {
        assert(rows@.skip(0) =~= rows@);
    }
    while i < rows.len()
        invariant
            i <= rows@.len(),
            standing_of(rows@, id) == standing_of(rows@.skip(i as int), id),
        decreases rows@.len() - i,
    {
        proof {
            let rest = rows@.skip(i as int);
            assert(rest[0] == rows@[i as int]);
            assert(rest.drop_first() =~= rows@.skip(i + 1));
        }
        if rows[i].id == id {
            return Some(rows[i]);
        }
        i += 1;
    }
    None
}

/// Why a document cannot be attached to a parent, if it cannot. Both must be visible to the caller; the parent
/// must not be paperwork, nor the document somebody else's, nor a superseded version.
pub open spec fn attach_refusal(
    parent: Uuid,
    document: Uuid,
    visible: Seq<Uuid>,
    rows: Seq<Standing>,
) -> Option<AttachmentRefusal> {
    if !visible.contains(parent) {
        Some(AttachmentRefusal::UnknownAsset(parent))
    } else if !visible.contains(document) {
        Some(AttachmentRefusal::UnknownAsset(document))
    } else {
        match standing_of(rows, parent) {
            None => Some(AttachmentRefusal::UnknownAsset(parent)),
            Some(above) => if above.attached_to is Some {
                Some(AttachmentRefusal::ParentIsAttachment)
            } else {
                match standing_of(rows, document) {
                    None => Some(AttachmentRefusal::UnknownAsset(document)),
                    Some(below) => if below.attached_to matches Some(existing) && existing != parent {
                        Some(AttachmentRefusal::AlreadyAttached(document))
                    } else if !below.is_current {
                        Some(AttachmentRefusal::IsAVersion(document))
                    } else {
                        None
                    },
                }
            },
        }
    }
}

pub const ATTACH: &'static str =
    "UPDATE assets SET attached_to = $2, attachment_kind = $3, updated_at = now() WHERE id = $1";

/// Attaches an already-uploaded asset to another as paperwork.
pub fn attach(
    parent: Uuid,
    document: Uuid,
    kind: Kind,
    visible: &Vec<Uuid>,
    rows: &Vec<Standing>,
) -> (attached: Result<Command, AttachmentRefusal>)
    ensures
        match attached {
            Ok(command) => {
                &&& attach_refusal(parent, document, visible@, rows@) is None
                &&& command.says(
                    "UPDATE assets SET attached_to = $2, attachment_kind = $3, updated_at = now() WHERE id = $1"@,
                    seq![Given::Id(document), Given::Id(parent), Given::Text(kind.chars())],
                )
            },
            Err(refusal) => attach_refusal(parent, document, visible@, rows@) == Some(refusal),
        },
{
    if !among(visible, parent) {
        return Err(AttachmentRefusal::UnknownAsset(parent));
    }
    if !among(visible, document) {
        return Err(AttachmentRefusal::UnknownAsset(document));
    }
    match find(rows, parent) {
        None => return Err(AttachmentRefusal::UnknownAsset(parent)),
        Some(above) => if above.attached_to.is_some() {
            return Err(AttachmentRefusal::ParentIsAttachment);
        },
    }
    match find(rows, document) {
        None => Err(AttachmentRefusal::UnknownAsset(document)),
        Some(below) => {
            match below.attached_to {
                Some(existing) => if existing != parent {
                    return Err(AttachmentRefusal::AlreadyAttached(document));
                },
                None => {},
            }
            if !below.is_current {
                Err(AttachmentRefusal::IsAVersion(document))
            } else {
                Ok(
                    Command::new(
                        ATTACH,
                        vec![Value::Id(document), Value::Id(parent), as_text(kind.as_str())],
                    ),
                )
            }
        },
    }
}

/// Refuses an asset the caller cannot see. `visible` is what came back of asking for it alone.
pub fn check_visible(asset: Uuid, visible: &Vec<Uuid>) -> (checked: Result<(), AttachmentRefusal>)
    ensures
        checked == if visible@.len() == 0 {
            Err::<(), AttachmentRefusal>(AttachmentRefusal::UnknownAsset(asset))
        } else {
            Ok(())
        },
{
    if visible.len() == 0 {
        Err(AttachmentRefusal::UnknownAsset(asset))
    } else {
        Ok(())
    }
}

pub const DETACH: &'static str =
    "UPDATE assets SET attached_to = NULL, attachment_kind = NULL, updated_at = now() WHERE id = $1";

/// Detaches a document, which is an ordinary asset again. `visible` is what asking
/// for it alone finds of it.
pub fn detach(document: Uuid, visible: &Vec<Uuid>) -> (detached: Result<Command, AttachmentRefusal>)
    ensures
        match detached {
            Ok(command) => visible@.len() > 0 && command.says("UPDATE assets SET attached_to = NULL, attachment_kind = NULL, updated_at = now() WHERE id = $1"@, seq![Given::Id(document)]),
            Err(refusal) => visible@.len() == 0 && refusal == AttachmentRefusal::UnknownAsset(document),
        },
{
    match check_visible(document, visible) {
        Err(refusal) => Err(refusal),
        Ok(()) => Ok(Command::new(DETACH, vec![Value::Id(document)])),
    }
}

/// One attached document.
#[derive(Debug, Clone, PartialEq, Eq)]
pub struct Attachment {
    pub asset_id: Uuid,
    pub attached_to: Uuid,
    pub kind: Kind,
    pub filename: String,
    pub mime: String,
    pub bytes: i64,
    pub uploaded_by: Option<Uuid>,
    pub created_at: Instant,
}

/// An attached document's row.
#[derive(Debug, Clone, PartialEq, Eq)]
pub struct AttachmentRow {
    pub asset_id: Uuid,
    pub attached_to: Option<Uuid>,
    pub kind: Option<String>,
    pub filename: String,
    pub mime: String,
    pub bytes: i64,
    pub uploaded_by: Option<Uuid>,
    pub created_at: Instant,
}

/// Whether a row has a kind this library knows.
pub open spec fn kind_known(row: AttachmentRow) -> bool {
    row.kind matches Some(word) && exists|kind: Kind| word@ == #[trigger] kind.chars()
}

/// Whether an attachment is what its row says.
pub open spec fn reads_row(attachment: Attachment, row: AttachmentRow) -> bool {
    &&& row.attached_to == Some(attachment.attached_to)
    &&& row.kind matches Some(word)
    &&& word@ == attachment.kind.chars()
    &&& attachment == (Attachment {
        asset_id: row.asset_id,
        attached_to: attachment.attached_to,
        kind: attachment.kind,
        filename: row.filename,
        mime: row.mime,
        bytes: row.bytes,
        uploaded_by: row.uploaded_by,
        created_at: row.created_at,
    })
}

/// Why a row cannot be read, if it cannot: the parent and the kind travel together, so either missing means the
/// database and this module disagree.
pub open spec fn row_complaint(row: AttachmentRow) -> Option<Seq<char>> {
    if row.attached_to is None {
        Some("attachment "@ + uuid_chars(row.asset_id) + " has no parent"@)
    } else if !kind_known(row) {
        Some("attachment "@ + uuid_chars(row.asset_id) + " has no kind"@)
    } else {
        None
    }
}

/// The attachment a row describes.
pub fn attachment(row: AttachmentRow) -> (read: Result<Attachment, Error>)
    ensures
        match read {
            Ok(attachment) => row_complaint(row) is None && reads_row(attachment, row),
            Err(error) => error matches Error::Migrate(detail) && row_complaint(row) == Some(
                detail@,
            ),
        },
{
    let attached_to: Uuid = match row.attached_to {
        Some(parent) => parent,
        None => return Err(
            Error::Migrate(
                wrapped("attachment ", uuid_text(row.asset_id).as_str(), " has no parent"),
            ),
        ),
    };
    let kind = match &row.kind {
        Some(word) => Kind::parse(word.as_str()),
        None => None,
    };
    match kind {
        Some(kind) => {
            proof {
                assert(row.kind->0@ == kind.chars());
            }
            Ok(
                Attachment {
                    asset_id: row.asset_id,
                    attached_to,
                    kind,
                    filename: row.filename,
                    mime: row.mime,
                    bytes: row.bytes,
                    uploaded_by: row.uploaded_by,
                    created_at: row.created_at,
                },
            )
        },
        None => Err(
            Error::Migrate(
                wrapped("attachment ", uuid_text(row.asset_id).as_str(), " has no kind"),
            ),
        ),
    }
}

/// The attachments that rows describe, or the first complaint.
pub fn attachments(rows: Vec<AttachmentRow>) -> (read: Result<Vec<Attachment>, Error>)
    ensures
        match read {
            Ok(attachments) => {
                &&& attachments@.len() == rows@.len()
                &&& forall|i: int|
                    0 <= i < rows@.len() ==> reads_row(#[trigger] attachments@[i], rows@[i])
                &&& forall|i: int| 0 <= i < rows@.len() ==> row_complaint(#[trigger] rows@[i]) is None
            },
            Err(error) => error matches Error::Migrate(detail) && exists|i: int|
                {
                    &&& 0 <= i < rows@.len()
                    &&& row_complaint(#[trigger] rows@[i]) == Some(detail@)
                    &&& forall|j: int| 0 <= j < i ==> row_complaint(#[trigger] rows@[j]) is None
                },
        },
{
    let ghost all = rows@;
    let mut read: Vec<Attachment> = Vec::new();
    for row in each: rows
        invariant
            each.seq() == all,
            read@.len() == each.index(),
            forall|i: int| 0 <= i < each.index() ==> reads_row(#[trigger] read@[i], all[i]),
            forall|i: int| 0 <= i < each.index() ==> row_complaint(#[trigger] all[i]) is None,
    {
        proof {
            assert(all[each.index()] == row);
        }
        match attachment(row) {
            Ok(attachment) => read.push(attachment),
            Err(error) => return Err(error),
        }
    }
    Ok(read)
}

pub const ON_ASSET_SELECT: &'static str =
    "SELECT a.id, a.attached_to, a.attachment_kind, a.filename, a.mime, a.bytes, \
            a.uploaded_by, a.created_at \
     FROM assets a WHERE a.attached_to = ";

pub const DOCUMENTS_IN: &'static str = " AND a.id IN (SELECT assets.id FROM assets ";

pub const DOCUMENTS_JOIN: &'static str =
    "LEFT JOIN asset_metadata ON asset_metadata.asset_id = assets.id WHERE ";

/// The statement that lists everything attached to one asset, newest first. The predicate applies to the
/// documents too: an attachment can be in another group than its parent.
pub fn on_asset(parent: Uuid, predicate: &AccessPredicate) -> (statement: Statement)
    requires
        predicate.fits(),
    ensures
        query(statement) == predicate.after(
            Query::new(
                "SELECT a.id, a.attached_to, a.attachment_kind, a.filename, a.mime, a.bytes, \
                 a.uploaded_by, a.created_at \
                 FROM assets a WHERE a.attached_to = "@,
            ).bind(Bind::Id(parent)).push(" AND a.id IN (SELECT assets.id FROM assets "@).push(
                "LEFT JOIN asset_metadata ON asset_metadata.asset_id = assets.id WHERE "@,
            ),
        ).push(") ORDER BY a.created_at DESC, a.id DESC"@),
{
    let mut statement = Statement::new(ON_ASSET_SELECT);
    push_bind_id(&mut statement, parent);
    push(&mut statement, DOCUMENTS_IN);
    push(&mut statement, DOCUMENTS_JOIN);
    push_asset_filter(&mut statement, predicate);
    push(&mut statement, ") ORDER BY a.created_at DESC, a.id DESC");
    statement
}

pub const WHICH_SELECT: &'static str =
    "SELECT DISTINCT a.attached_to FROM assets a WHERE a.attached_to = ANY(";

/// The statement that asks which of `asset_ids` have paperwork. `None` when there is nothing to ask. The predicate
/// applies to the documents: an asset whose only release form is out of scope has none as far as the caller can
/// tell.
pub fn which_have(asset_ids: &Vec<Uuid>, predicate: &AccessPredicate) -> (statement: Option<Statement>)
    requires
        predicate.fits(),
        asset_ids@.len() <= MAX_IDS,
    ensures
        statement is None <==> asset_ids@.len() == 0,
        statement matches Some(inner) ==> query(inner) == predicate.after(
            Query::new(
                "SELECT DISTINCT a.attached_to FROM assets a WHERE a.attached_to = ANY("@,
            ).bind(Bind::Ids(asset_ids@)).push(
                ") AND a.id IN (SELECT assets.id FROM assets "@,
            ).push(DOCUMENTS_JOIN@),
        ).push(")"@),
{
    if asset_ids.len() == 0 {
        return None;
    }
    let mut statement = Statement::new(WHICH_SELECT);
    push_bind_ids(&mut statement, asset_ids);
    push(&mut statement, ") AND a.id IN (SELECT assets.id FROM assets ");
    push(&mut statement, DOCUMENTS_JOIN);
    push_asset_filter(&mut statement, predicate);
    push(&mut statement, ")");
    Some(statement)
}

/// The assets named, without the gaps.
pub open spec fn named(found: Seq<Option<Uuid>>) -> Seq<Uuid>
    decreases found.len(),
{
    if found.len() == 0 {
        Seq::empty()
    } else {
        match found.last() {
            Some(id) => named(found.drop_last()).push(id),
            None => named(found.drop_last()),
        }
    }
}

/// The assets a read named.
pub fn flatten(found: &Vec<Option<Uuid>>) -> (ids: Vec<Uuid>)
    ensures
        ids@ == named(found@),
{
    let mut ids: Vec<Uuid> = Vec::new();
    let mut i: usize = 0;
    proof {
        assert(found@.take(0) =~= Seq::<Option<Uuid>>::empty());
    }
    while i < found.len()
        invariant
            i <= found@.len(),
            ids@ == named(found@.take(i as int)),
        decreases found@.len() - i,
    {
        proof {
            assert(found@.take(i + 1).drop_last() =~= found@.take(i as int));
            assert(found@.take(i + 1).last() == found@[i as int]);
        }
        match found[i] {
            Some(id) => ids.push(id),
            None => {},
        }
        i += 1;
    }
    proof {
        assert(found@.take(i as int) =~= found@);
    }
    ids
}

/// Paperwork is one level deep: whatever is accepted, the parent is not itself paperwork, and the document was
/// attached to nothing or to that same parent.
pub proof fn paperwork_is_one_level_deep(
    parent: Uuid,
    document: Uuid,
    visible: Seq<Uuid>,
    rows: Seq<Standing>,
)
    requires
        attach_refusal(parent, document, visible, rows) is None,
    ensures
        standing_of(rows, parent) matches Some(above) && above.attached_to is None,
        standing_of(rows, document) matches Some(below) && below.is_current && (below.attached_to
            is None || below.attached_to == Some(parent)),
        visible.contains(parent) && visible.contains(document),
{
}

/// Each refusal says what was wrong, and nothing else is refused: a document that is seen, is current and hangs on nothing
/// else goes on an asset that is seen and hangs on nothing.
pub proof fn paperwork_is_refused_for_a_reason(
    parent: Uuid,
    document: Uuid,
    visible: Seq<Uuid>,
    rows: Seq<Standing>,
)
    ensures
        visible.contains(parent) && visible.contains(document) && standing_of(rows, parent) is Some && standing_of(
            rows,
            document,
        ) is Some && standing_of(rows, parent)->0.attached_to is None && standing_of(rows, document)->0.is_current && (
        standing_of(rows, document)->0.attached_to is None || standing_of(rows, document)->0.attached_to == Some(
            parent,
        )) ==> attach_refusal(parent, document, visible, rows) is None,
        attach_refusal(parent, document, visible, rows) matches Some(refusal) ==> match refusal {
            AttachmentRefusal::UnknownAsset(id) => (id == parent || id == document) && (!visible.contains(id)
                || standing_of(rows, id) is None),
            AttachmentRefusal::ParentIsAttachment => standing_of(rows, parent) is Some && standing_of(
                rows,
                parent,
            )->0.attached_to is Some,
            AttachmentRefusal::AlreadyAttached(id) => id == document && standing_of(rows, document) is Some
                && standing_of(rows, document)->0.attached_to is Some && standing_of(
                rows,
                document,
            )->0.attached_to != Some(parent),
            AttachmentRefusal::IsAVersion(id) => id == document && standing_of(rows, document) is Some
                && !standing_of(rows, document)->0.is_current,
        },
{
}

/// An asset stands as its own row says, the first of them, and not at all where it has none.
pub proof fn an_asset_stands_as_its_row_says(rows: Seq<Standing>, id: Uuid)
    ensures
        standing_of(rows, id) matches Some(row) ==> row.id == id && rows.contains(row),
        standing_of(rows, id) is None <==> forall|i: int| 0 <= i < rows.len() ==> (#[trigger] rows[i]).id != id,
    decreases rows.len(),
{
    if rows.len() > 0 {
        let rest = rows.drop_first();
        an_asset_stands_as_its_row_says(rest, id);
        assert(rows.contains(rows[0]));
        if rows[0].id != id {
            if let Some(row) = standing_of(rest, id) {
                let i = choose|i: int| 0 <= i < rest.len() && rest[i] == row;
                assert(rows[i + 1] == row);
            } else {
                assert forall|i: int| 0 <= i < rows.len() implies (#[trigger] rows[i]).id != id by {
                    if i > 0 {
                        assert(rest[i - 1].id != id);
                    }
                }
            }
        }
    }
}

/// A document is read as its row says, field by field, under the kind that the row's word names.
pub proof fn a_document_reads_as_its_row(attachment: Attachment, row: AttachmentRow)
    requires
        reads_row(attachment, row),
    ensures
        attachment.asset_id == row.asset_id,
        row.attached_to == Some(attachment.attached_to),
        attachment.filename == row.filename,
        attachment.mime == row.mime,
        attachment.bytes == row.bytes,
        attachment.uploaded_by == row.uploaded_by,
        attachment.created_at == row.created_at,
        row.kind is Some && row.kind->0@ == attachment.kind.chars(),
{
}

/// What is left of a list with gaps is what it names, in its order.
pub proof fn the_gaps_are_left_out(found: Seq<Option<Uuid>>)
    ensures
        named(found) == found.filter(|one: Option<Uuid>| one is Some).map_values(|one: Option<Uuid>| one->0),
    decreases found.len(),
{
    reveal(Seq::filter);
    let there = |one: Option<Uuid>| one is Some;
    let inner = |one: Option<Uuid>| one->0;
    if found.len() > 0 {
        the_gaps_are_left_out(found.drop_last());
    }
    assert(named(found) =~= found.filter(there).map_values(inner));
}

/// A row is complained of when it names no asset that it hangs on, or no kind that is known; and of nothing else.
pub proof fn a_row_is_complained_of_for_a_reason(row: AttachmentRow)
    ensures
        row_complaint(row) is None <==> row.attached_to is Some && row.kind is Some && exists|kind: Kind|
            row.kind->0@ == #[trigger] kind.chars(),
        row.attached_to is None ==> row_complaint(row) == Some(
            "attachment "@ + uuid_chars(row.asset_id) + " has no parent"@,
        ),
        row.attached_to is Some && row.kind is None ==> row_complaint(row) == Some(
            "attachment "@ + uuid_chars(row.asset_id) + " has no kind"@,
        ),
{
}

/// The first thing that is wrong is what paperwork is refused for: an asset that is not seen, the one it would hang on
/// first; then that the asset is paperwork itself; then the document, because it hangs elsewhere or is out of date.
pub proof fn paperwork_is_refused_for_the_first_reason(
    parent: Uuid,
    document: Uuid,
    visible: Seq<Uuid>,
    rows: Seq<Standing>,
)
    ensures
        !visible.contains(parent) ==> attach_refusal(parent, document, visible, rows) == Some(
            AttachmentRefusal::UnknownAsset(parent),
        ),
        visible.contains(parent) && !visible.contains(document) ==> attach_refusal(parent, document, visible, rows) == Some(
            AttachmentRefusal::UnknownAsset(document),
        ),
        visible.contains(parent) && visible.contains(document) && standing_of(rows, parent) is Some && standing_of(
            rows,
            parent,
        )->0.attached_to is Some ==> attach_refusal(parent, document, visible, rows) == Some(
            AttachmentRefusal::ParentIsAttachment,
        ),
        visible.contains(parent) && visible.contains(document) && standing_of(rows, parent) is Some && standing_of(
            rows,
            parent,
        )->0.attached_to is None && standing_of(rows, document) is Some && standing_of(rows, document)->0.attached_to
            is Some && standing_of(rows, document)->0.attached_to != Some(parent) ==> attach_refusal(
            parent,
            document,
            visible,
            rows,
        ) == Some(AttachmentRefusal::AlreadyAttached(document)),
{
}

// ----------------------------------------------------------------------------------------------------
// Commands
// ----------------------------------------------------------------------------------------------------

pub const STANDINGS: &'static str = "SELECT id, attached_to, is_current FROM assets WHERE id = ANY($1)";

/// How these assets stand to others.
pub fn standings(assets: &Vec<Uuid>) -> (command: Command)
    ensures
        command.says("SELECT id, attached_to, is_current FROM assets WHERE id = ANY($1)"@, seq![Given::Ids(assets@)]),
{
    Command::new(STANDINGS, vec![as_ids(assets)])
}

} // verus!
