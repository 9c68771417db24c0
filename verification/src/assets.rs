//! Reading assets under an access predicate.
//!
//! The predicate goes in the query, and the count comes from the same query as the rows: pagination counts alone
//! disclose that assets exist which a caller cannot see. Nothing here takes a page of rows and filters it
//! afterwards.

use crate::access::{push_asset_filter, AccessPredicate};
use crate::commands::{Command, Given, Value};
use crate::lists::{lemma_filter_ends, lemma_filter_keeps, lemma_filter_step};
use crate::query_sql::{push_where, Planned};
use crate::sql::{
    lemma_appending_extends, lemma_extends_itself, placeholder, push, push_bind_id, push_bind_ids, push_bind_int, query,
    Bind, Query, Statement, MAX_IDS,
};
use crate::text::{quoted, quoted_chars, wrapped};
use crate::versions::LIBRARY_ROWS;
use crate::{clamp, clamped, Error, Instant, Uuid};
use std::collections::HashSet;
use vstd::prelude::*;

verus! {

broadcast use vstd::std_specs::hash::group_hash_axioms;

/// How assets are ordered.
///
/// A closed set rather than a caller-supplied string. Each order ends in `assets.id`, because an offset walk over
/// an order that is not total silently skips and repeats rows between pages.
#[derive(Debug, Clone, Copy, PartialEq, Eq, Structural)]
pub enum Order {
    /// Newest first. What a grid opens on.
    Newest,
    Oldest,
    FilenameAsc,
    FilenameDesc,
    LargestFirst,
    /// The named person's favourites first, then newest within each group. The identity is in the variant, so
    /// that the order cannot be asked for without saying whose favourites.
    FavouritesFirst(Uuid),
}

impl Default for Order {
    /// Newest first.
    fn default() -> (order: Order)
        ensures
            order == Order::Newest,
    {
        Order::Newest
    }
}

pub const BY_NEWEST: &'static str = " ORDER BY assets.created_at DESC, assets.id DESC";

pub const BY_OLDEST: &'static str = " ORDER BY assets.created_at ASC, assets.id ASC";

pub const BY_FILENAME: &'static str = " ORDER BY assets.filename ASC, assets.id ASC";

pub const BY_FILENAME_DESC: &'static str = " ORDER BY assets.filename DESC, assets.id DESC";

pub const BY_LARGEST: &'static str = " ORDER BY assets.bytes DESC, assets.id DESC";

pub const BY_FAVOURITE: &'static str =
    " ORDER BY EXISTS (SELECT 1 FROM asset_favourites f                        WHERE f.asset_id = assets.id AND f.identity_id = ";

pub const BY_FAVOURITE_END: &'static str = ") DESC, assets.created_at DESC, assets.id DESC";

impl Order {
    /// The statement with this order appended.
    pub open spec fn after(self, before: Query) -> Query {
        match self {
            Order::Newest => before.push(" ORDER BY assets.created_at DESC, assets.id DESC"@),
            Order::Oldest => before.push(" ORDER BY assets.created_at ASC, assets.id ASC"@),
            Order::FilenameAsc => before.push(" ORDER BY assets.filename ASC, assets.id ASC"@),
            Order::FilenameDesc => before.push(" ORDER BY assets.filename DESC, assets.id DESC"@),
            Order::LargestFirst => before.push(" ORDER BY assets.bytes DESC, assets.id DESC"@),
            Order::FavouritesFirst(viewer) => before.push(
                " ORDER BY EXISTS (SELECT 1 FROM asset_favourites f                        WHERE f.asset_id = assets.id AND f.identity_id = "@,
            ).bind(Bind::Id(viewer)).push(
                ") DESC, assets.created_at DESC, assets.id DESC"@,
            ),
        }
    }

    /// Pushes the `ORDER BY`. Pushed rather than returned as a string, because one of these orders binds a value.
    pub fn push(self, statement: &mut Statement)
        ensures
            query(*final(statement)) == self.after(query(*old(statement))),
            query(*final(statement)) == match self {
                Order::Newest => query(*old(statement)).push(
                    " ORDER BY assets.created_at DESC, assets.id DESC"@,
                ),
                Order::Oldest => query(*old(statement)).push(
                    " ORDER BY assets.created_at ASC, assets.id ASC"@,
                ),
                Order::FilenameAsc => query(*old(statement)).push(
                    " ORDER BY assets.filename ASC, assets.id ASC"@,
                ),
                Order::FilenameDesc => query(*old(statement)).push(
                    " ORDER BY assets.filename DESC, assets.id DESC"@,
                ),
                Order::LargestFirst => query(*old(statement)).push(
                    " ORDER BY assets.bytes DESC, assets.id DESC"@,
                ),
                Order::FavouritesFirst(viewer) => query(*old(statement)).push(BY_FAVOURITE@).bind(
                    Bind::Id(viewer),
                ).push(BY_FAVOURITE_END@),
            },
    {
        match self {
            Order::Newest => push(statement, BY_NEWEST),
            Order::Oldest => push(statement, BY_OLDEST),
            Order::FilenameAsc => push(statement, BY_FILENAME),
            Order::FilenameDesc => push(statement, BY_FILENAME_DESC),
            Order::LargestFirst => push(statement, BY_LARGEST),
            Order::FavouritesFirst(viewer) => {
                push(statement, BY_FAVOURITE);
                push_bind_id(statement, viewer);
                push(statement, BY_FAVOURITE_END);
            },
        }
    }
}

/// The largest page a caller can ask for.
pub const MAX_LIMIT: i64 = 500;

/// Where a page starts when `offset` is asked for.
pub fn page_offset(offset: i64) -> (effective: i64)
    ensures
        effective == if offset < 0 {
            0
        } else {
            offset
        },
{
    if offset < 0 {
        0
    } else {
        offset
    }
}

pub const PAGE_SELECT: &'static str =
    "WITH matching AS (SELECT assets.id, assets.filename, assets.mime, assets.bytes, assets.width, \
            assets.height, assets.rights_state, assets.provenance_state, assets.published_at, \
            placement.storage_class, placement.restore_state, assets.created_at \
     FROM assets ";

pub const MATCHING_SELECT: &'static str =
    "WITH matching AS (SELECT assets.id, assets.filename, assets.mime, assets.bytes, assets.width, \
            assets.height, assets.rights_state, assets.provenance_state, assets.published_at, \
            placement.storage_class, placement.restore_state, assets.created_at \
     FROM assets \
     LEFT JOIN asset_metadata ON asset_metadata.asset_id = assets.id ";

/// The page's rows beside the count of everything that matched. The count comes first and the rows are joined to it,
/// so that a page past the end still has a row to carry the count.
pub const PAGE_ROWS: &'static str =
    ") SELECT assets.id, assets.filename, assets.mime, assets.bytes, assets.width, assets.height, \
            assets.rights_state, assets.provenance_state, assets.published_at, \
            assets.storage_class, assets.restore_state, counted.total \
     FROM (SELECT count(*) AS total FROM matching) counted \
     LEFT JOIN (SELECT * FROM matching assets";

pub const PAGE_END: &'static str = ") assets ON true";

/// The one placement a tier is derived from: the warmest present copy. A lateral with a limit, so that an asset
/// replicated across two pools is still one row.
pub const WARMEST_PLACEMENT: &'static str =
    "LEFT JOIN LATERAL ( \
        SELECT p.storage_class, p.restore_state \
        FROM object_placements p \
        WHERE p.asset_id = assets.id AND p.state = 'present' \
        ORDER BY CASE p.storage_class \
                     WHEN 'STANDARD' THEN 0 \
                     WHEN 'STANDARD_IA' THEN 1 \
                     WHEN 'ONEZONE_IA' THEN 1 \
                     WHEN 'INTELLIGENT_TIERING' THEN 1 \
                     WHEN 'GLACIER_IR' THEN 1 \
                     ELSE 2 \
                 END, \
                 CASE p.restore_state \
                     WHEN 'available' THEN 0 \
                     WHEN 'ongoing' THEN 1 \
                     WHEN 'requested' THEN 1 \
                     ELSE 2 \
                 END, \
                 p.object_key, p.pool_id \
        LIMIT 1 \
    ) placement ON true";

/// A page of what matches: the stretch of it that the offset and the limit cut out of the order, in that order, and on
/// every row the count of all that matches. There is always a row: where the stretch is empty, one without an asset.
pub open spec fn paged(matching: Query, order: Order, offset: int, limit: int) -> Query {
    let stretch = order.after(matching.push(
        ") SELECT assets.id, assets.filename, assets.mime, assets.bytes, assets.width, assets.height, \
         assets.rights_state, assets.provenance_state, assets.published_at, \
         assets.storage_class, assets.restore_state, counted.total \
         FROM (SELECT count(*) AS total FROM matching) counted \
         LEFT JOIN (SELECT * FROM matching assets"@,
    )).push(" LIMIT "@).bind(
        Bind::Int(clamped(limit, 1, MAX_LIMIT as int) as i64),
    ).push(" OFFSET "@).bind(
        Bind::Int(
            if offset < 0 {
                0i64
            } else {
                offset as i64
            },
        ),
    );
    order.after(stretch.push(") assets ON true"@))
}

/// Whether `whole` goes on behind `lead` with a limit and an offset, and binds to the placeholder behind ` LIMIT ` as many
/// as were asked for, one at least and 500 at most, and to the one behind ` OFFSET ` what was asked for, a negative
/// offset being none.
pub open spec fn cuts_out(whole: Query, lead: Query, offset: int, limit: int) -> bool {
    let before = lead.binds.len();
    let text = lead.sql + " LIMIT "@ + placeholder(before + 1) + " OFFSET "@ + placeholder(before + 2);
    &&& text.is_prefix_of(whole.sql)
    &&& lead.binds.is_prefix_of(whole.binds)
    &&& whole.binds.len() >= before + 2
    &&& whole.binds[before as int] matches Bind::Int(many) && {
        &&& 1 <= many <= 500
        &&& limit <= many || many == 500
        &&& many <= limit || many == 1
    }
    &&& whole.binds[before as int + 1] matches Bind::Int(skipped) && {
        &&& offset >= 0 ==> skipped == offset
        &&& offset < 0 ==> skipped == 0
    }
}

/// A page is the stretch that was asked for: the offset is bound behind ` OFFSET ` and the limit behind ` LIMIT `, so two
/// pages with different offsets bind different values. Its rows come in the order they were cut out in.
pub proof fn a_page_is_the_stretch_asked_for(
    matching: Query,
    order: Order,
    offset: i64,
    limit: i64,
    other: i64,
)
    ensures
        cuts_out(
            paged(matching, order, offset as int, limit as int),
            order.after(matching.push(PAGE_ROWS@)),
            offset as int,
            limit as int,
        ),
        0 <= offset && 0 <= other && offset != other ==> paged(matching, order, offset as int, limit as int).binds
            != paged(matching, order, other as int, limit as int).binds,
        1 <= limit <= 500 && 1 <= other <= 500 && limit != other ==> paged(
            matching,
            order,
            offset as int,
            limit as int,
        ).binds != paged(matching, order, offset as int, other as int).binds,
        paged(matching, order, offset as int, limit as int).sql == paged(
            matching,
            order,
            other as int,
            limit as int,
        ).sql,
        exists|cut: Query| paged(matching, order, offset as int, limit as int) == #[trigger] order.after(cut),
{
    let lead = order.after(matching.push(PAGE_ROWS@));
    let at = lead.binds.len();
    let whole = paged(matching, order, offset as int, limit as int);
    let later = paged(matching, order, other as int, limit as int);
    let longer = paged(matching, order, offset as int, other as int);
    assert(lead.binds =~= whole.binds.take(at as int));
    assert(lead.binds.is_prefix_of(whole.binds));
    let text = lead.sql + " LIMIT "@ + placeholder(at + 1) + " OFFSET "@ + placeholder(at + 2);
    assert(text =~= whole.sql.take(text.len() as int));
    assert(text.is_prefix_of(whole.sql));
    assert(whole.binds[at as int] == Bind::Int(clamped(limit as int, 1, 500) as i64));
    assert(longer.binds[at as int] == Bind::Int(clamped(other as int, 1, 500) as i64));
    assert(0 <= offset ==> whole.binds[at as int + 1] == Bind::Int(offset));
    assert(0 <= other ==> later.binds[at as int + 1] == Bind::Int(other));
    assert(whole.sql =~= later.sql);
}

/// A page shows only what the caller may see: its condition starts with the access filter, and a narrowing clause is one
/// more that has to hold beside it.
pub proof fn a_page_is_under_the_access_filter(
    before: Query,
    predicate: AccessPredicate,
    narrowing: Option<&str>,
)
    ensures
        narrowed(before, predicate, narrowing).extends(predicate.after(before)),
        narrowed(before, predicate, narrowing).binds == predicate.after(before).binds,
        narrowing is None ==> narrowed(before, predicate, narrowing).sql == predicate.after(before).sql,
        narrowing matches Some(clause) ==> narrowed(before, predicate, narrowing).sql == predicate.after(
            before,
        ).sql + (" AND "@ + clause@),
{
    let filtered = predicate.after(before);
    lemma_extends_itself(filtered);
    match narrowing {
        Some(clause) => {
            lemma_appending_extends(filtered, filtered, " AND "@, Bind::Int(0));
            lemma_appending_extends(filtered, filtered.push(" AND "@), clause@, Bind::Int(0));
            assert(filtered.sql + " AND "@ + clause@ =~= filtered.sql + (" AND "@ + clause@));
        },
        None => {},
    }
}

fn push_page(statement: &mut Statement, order: Order, offset: i64, limit: i64)
    ensures
        query(*final(statement)) == paged(
            query(*old(statement)),
            order,
            offset as int,
            limit as int,
        ),
        cuts_out(
            query(*final(statement)),
            order.after(query(*old(statement)).push(PAGE_ROWS@)),
            offset as int,
            limit as int,
        ),
{
    proof {
        a_page_is_the_stretch_asked_for(query(*old(statement)), order, offset, limit, offset);
    }
    push(statement, PAGE_ROWS);
    order.push(statement);
    push(statement, " LIMIT ");
    push_bind_int(statement, clamp(limit, 1, MAX_LIMIT));
    push(statement, " OFFSET ");
    push_bind_int(statement, page_offset(offset));
    push(statement, PAGE_END);
    order.push(statement);
}

/// The condition of a page: the access filter, and a narrowing clause where there is one.
pub open spec fn narrowed(before: Query, predicate: AccessPredicate, narrowing: Option<&str>) -> Query {
    let filtered = predicate.after(before);
    match narrowing {
        Some(clause) => filtered.push(" AND "@).push(clause@),
        None => filtered,
    }
}

/// One page of assets the caller may see, with the matching total counted under the same predicate in the same
/// statement: two statements would be two snapshots.
pub fn page(predicate: &AccessPredicate, order: Order, offset: i64, limit: i64) -> (statement: Statement)
    requires
        predicate.fits(),
    ensures
        query(statement) == paged(
            narrowed(
                Query::new(
                    "WITH matching AS (SELECT assets.id, assets.filename, assets.mime, assets.bytes, assets.width, \
                     assets.height, assets.rights_state, assets.provenance_state, assets.published_at, \
                     placement.storage_class, placement.restore_state, assets.created_at \
                     FROM assets "@,
                ).push(
                    "LEFT JOIN LATERAL ( \
                     SELECT p.storage_class, p.restore_state \
                     FROM object_placements p \
                     WHERE p.asset_id = assets.id AND p.state = 'present' \
                     ORDER BY CASE p.storage_class \
                     WHEN 'STANDARD' THEN 0 \
                     WHEN 'STANDARD_IA' THEN 1 \
                     WHEN 'ONEZONE_IA' THEN 1 \
                     WHEN 'INTELLIGENT_TIERING' THEN 1 \
                     WHEN 'GLACIER_IR' THEN 1 \
                     ELSE 2 \
                     END, \
                     CASE p.restore_state \
                     WHEN 'available' THEN 0 \
                     WHEN 'ongoing' THEN 1 \
                     WHEN 'requested' THEN 1 \
                     ELSE 2 \
                     END, \
                     p.object_key, p.pool_id \
                     LIMIT 1 \
                     ) placement ON true"@,
                ).push(" WHERE "@),
                *predicate,
                None,
            ).push(" AND assets.is_current AND assets.attached_to IS NULL"@),
            order,
            offset as int,
            limit as int,
        ),
        cuts_out(
            query(statement),
            order.after(
                predicate.after(Query::new(PAGE_SELECT@).push(WARMEST_PLACEMENT@).push(" WHERE "@)).push(
                    LIBRARY_ROWS@,
                ).push(PAGE_ROWS@),
            ),
            offset as int,
            limit as int,
        ),
{
    page_narrowed(predicate, None, order, offset, limit)
}

/// [`page`], with one extra clause on the access filter. The clause is pushed verbatim, so it must be a static
/// one with no caller-supplied text in it.
pub fn page_narrowed(
    predicate: &AccessPredicate,
    narrowing: Option<&'static str>,
    order: Order,
    offset: i64,
    limit: i64,
) -> (statement: Statement)
    requires
        predicate.fits(),
    ensures
        query(statement) == paged(
            narrowed(
                Query::new(PAGE_SELECT@).push(WARMEST_PLACEMENT@).push(" WHERE "@),
                *predicate,
                narrowing,
            ).push(LIBRARY_ROWS@),
            order,
            offset as int,
            limit as int,
        ),
        cuts_out(
            query(statement),
            order.after(
                narrowed(
                    Query::new(PAGE_SELECT@).push(WARMEST_PLACEMENT@).push(" WHERE "@),
                    *predicate,
                    narrowing,
                ).push(LIBRARY_ROWS@).push(PAGE_ROWS@),
            ),
            offset as int,
            limit as int,
        ),
{
    let mut statement = Statement::new(PAGE_SELECT);
    push(&mut statement, WARMEST_PLACEMENT);
    push(&mut statement, " WHERE ");
    push_asset_filter(&mut statement, predicate);
    match narrowing {
        Some(clause) => {
            push(&mut statement, " AND ");
            push(&mut statement, clause);
        },
        None => {},
    }
    push(&mut statement, LIBRARY_ROWS);
    push_page(&mut statement, order, offset, limit);
    statement
}

/// A page of the assets a planned query matches, ordered and counted in SQL.
pub fn page_matching(planned: &Planned, order: Order, offset: i64, limit: i64) -> (statement: Statement)
    requires
        planned.fits(),
    ensures
        query(statement) == paged(
            planned.after(
                Query::new(
                    "WITH matching AS (SELECT assets.id, assets.filename, assets.mime, assets.bytes, assets.width, \
                     assets.height, assets.rights_state, assets.provenance_state, assets.published_at, \
                     placement.storage_class, placement.restore_state, assets.created_at \
                     FROM assets \
                     LEFT JOIN asset_metadata ON asset_metadata.asset_id = assets.id "@,
                ).push(WARMEST_PLACEMENT@).push(" WHERE "@),
            ).push(LIBRARY_ROWS@),
            order,
            offset as int,
            limit as int,
        ),
        cuts_out(
            query(statement),
            order.after(
                planned.after(
                    Query::new(MATCHING_SELECT@).push(WARMEST_PLACEMENT@).push(" WHERE "@),
                ).push(LIBRARY_ROWS@).push(PAGE_ROWS@),
            ),
            offset as int,
            limit as int,
        ),
{
    let mut statement = Statement::new(MATCHING_SELECT);
    push(&mut statement, WARMEST_PLACEMENT);
    push(&mut statement, " WHERE ");
    push_where(&mut statement, planned);
    push(&mut statement, LIBRARY_ROWS);
    push_page(&mut statement, order, offset, limit);
    statement
}

/// The total a page reports: the count of what the predicate matched, which every row of the page statement carries,
/// one without an asset among them. It is not the count of what the page returned.
pub fn total(totals: &Vec<i64>) -> (total: i64)
    ensures
        total == if totals@.len() > 0 {
            totals@[0]
        } else {
            0
        },
{
    if totals.len() > 0 {
        totals[0]
    } else {
        0
    }
}

pub const DETAIL_SELECT: &'static str =
    "SELECT assets.id, assets.filename, assets.mime, assets.bytes, assets.width, assets.height, \
            assets.rights_state, assets.provenance_state, assets.published_at, \
            assets.duration_ms, assets.page_count, \
            assets.color_space, assets.has_alpha, assets.content_hash, assets.status, \
            assets.enrichment_state, assets.legal_hold, assets.release_at, assets.expires_at, \
            assets.version_no, assets.created_at, assets.updated_at, \
            coalesce(m.values, '{}'::jsonb) AS values, \
            coalesce(m.technical, '{}'::jsonb) AS technical, \
            placement.storage_class, placement.restore_state \
     FROM assets \
     LEFT JOIN asset_metadata m ON m.asset_id = assets.id ";

/// One asset, under the same predicate the list uses. No row covers "does not exist" and "not yours" alike.
pub fn detail(predicate: &AccessPredicate, asset_id: Uuid) -> (statement: Statement)
    requires
        predicate.fits(),
    ensures
        query(statement) == predicate.after(
            Query::new(
                "SELECT assets.id, assets.filename, assets.mime, assets.bytes, assets.width, assets.height, \
                 assets.rights_state, assets.provenance_state, assets.published_at, \
                 assets.duration_ms, assets.page_count, \
                 assets.color_space, assets.has_alpha, assets.content_hash, assets.status, \
                 assets.enrichment_state, assets.legal_hold, assets.release_at, assets.expires_at, \
                 assets.version_no, assets.created_at, assets.updated_at, \
                 coalesce(m.values, '{}'::jsonb) AS values, \
                 coalesce(m.technical, '{}'::jsonb) AS technical, \
                 placement.storage_class, placement.restore_state \
                 FROM assets \
                 LEFT JOIN asset_metadata m ON m.asset_id = assets.id "@,
            ).push(WARMEST_PLACEMENT@).push(" WHERE assets.id = "@).bind(
                Bind::Id(asset_id),
            ).push(" AND "@),
        ),
{
    let mut statement = Statement::new(DETAIL_SELECT);
    push(&mut statement, WARMEST_PLACEMENT);
    push(&mut statement, " WHERE assets.id = ");
    push_bind_id(&mut statement, asset_id);
    push(&mut statement, " AND ");
    push_asset_filter(&mut statement, predicate);
    statement
}

/// The statement that asks which of `candidates` the caller may see. `None` when there is nothing to ask.
pub fn visible_among(
    predicate: &AccessPredicate,
    candidates: &Vec<Uuid>,
) -> (statement: Option<Statement>)
    requires
        predicate.fits(),
        candidates@.len() <= MAX_IDS,
    ensures
        statement is None <==> candidates@.len() == 0,
        statement matches Some(inner) ==> query(inner) == predicate.after(
            Query::new("SELECT assets.id FROM assets WHERE assets.id = ANY("@).bind(
                Bind::Ids(candidates@),
            ).push(") AND "@),
        ),
{
    if candidates.len() == 0 {
        return None;
    }
    let mut statement = Statement::new("SELECT assets.id FROM assets WHERE assets.id = ANY(");
    push_bind_ids(&mut statement, candidates);
    push(&mut statement, ") AND ");
    push_asset_filter(&mut statement, predicate);
    Some(statement)
}

/// The candidates that are permitted, in the order given. The order is a ranking, and is kept.
pub fn kept_among(candidates: &Vec<Uuid>, permitted: &Vec<Uuid>) -> (kept: Vec<Uuid>)
    ensures
        kept@ == candidates@.filter(|id: Uuid| permitted@.contains(id)),
        forall|id: Uuid| kept@.contains(id) <==> candidates@.contains(id) && permitted@.contains(id),
{
    let mut set: HashSet<Uuid> = HashSet::new();
    let mut i: usize = 0;
    while i < permitted.len()
        invariant
            i <= permitted@.len(),
            forall|id: Uuid| set@.contains(id) <==> permitted@.take(i as int).contains(id),
        decreases permitted@.len() - i,
    {
        proof {
            let done = permitted@.take(i as int);
            assert(permitted@.take(i + 1) =~= done.push(permitted@[i as int]));
            assert forall|id: Uuid|
                permitted@.take(i + 1).contains(id) <==> done.contains(id) || id
                    == permitted@[i as int] by {
                crate::lists::lemma_push_contains(done, permitted@[i as int], id);
            }
        }
        set.insert(permitted[i]);
        i += 1;
    }
    proof {
        assert(permitted@.take(i as int) =~= permitted@);
    }
    let ghost keep = |id: Uuid| permitted@.contains(id);
    let mut kept: Vec<Uuid> = Vec::new();
    let mut j: usize = 0;
    proof {
        lemma_filter_ends(candidates@, keep);
    }
    while j < candidates.len()
        invariant
            j <= candidates@.len(),
            keep == (|id: Uuid| permitted@.contains(id)),
            forall|id: Uuid| set@.contains(id) <==> permitted@.contains(id),
            kept@ == candidates@.take(j as int).filter(keep),
        decreases candidates@.len() - j,
    {
        proof {
            lemma_filter_step(candidates@, keep, j as int);
        }
        if set.contains(&candidates[j]) {
            kept.push(candidates[j]);
        }
        j += 1;
    }
    proof {
        assert(candidates@.take(j as int) =~= candidates@);
    }
    proof {
        assert forall|id: Uuid| kept@.contains(id) <==> candidates@.contains(id) && permitted@.contains(id) by {
            hydration_keeps_what_is_permitted(candidates@, permitted@, id);
        }
    }
    kept
}

/// What a column that holds a word nobody knows is reported as, rather than guessed at.
pub fn unreadable(column: &str, raw: &str) -> (error: Error)
    ensures
        error matches Error::Inconsistent(detail) && detail@ == column@ + " holds "@ + quoted_chars(
            raw@,
        ),
{
    Error::Inconsistent(wrapped(column, " holds ", quoted(raw).as_str()))
}

/// A word as a column holds it, and what its vocabulary reads it as: `None` for a word it does not have.
#[derive(Debug, Clone, PartialEq, Eq)]
pub struct Word<T> {
    pub raw: String,
    pub read: Option<T>,
}

/// What a word that has to be known is read as, or the complaint that names the column.
pub open spec fn reads_word<T>(column: Seq<char>, word: Word<T>, read: Result<T, Error>) -> bool {
    match word.read {
        Some(value) => read == Ok::<T, Error>(value),
        None => read matches Err(Error::Inconsistent(detail)) && detail@ == column + " holds "@
            + quoted_chars(word.raw@),
    }
}

fn known<T>(column: &str, word: Word<T>) -> (read: Result<T, Error>)
    ensures
        reads_word(column@, word, read),
{
    match word.read {
        Some(value) => Ok(value),
        None => Err(unreadable(column, word.raw.as_str())),
    }
}

pub const RIGHTS_COLUMN: &'static str = "assets.rights_state";

pub const PROVENANCE_COLUMN: &'static str = "assets.provenance_state";

pub const CLASS_COLUMN: &'static str = "object_placements.storage_class";

pub const RESTORE_COLUMN: &'static str = "object_placements.restore_state";

/// The rights state a row holds.
pub fn parse_rights<T>(word: Word<T>) -> (read: Result<T, Error>)
    ensures
        reads_word("assets.rights_state"@, word, read),
{
    known(RIGHTS_COLUMN, word)
}

/// The provenance state a row holds.
pub fn parse_provenance<T>(word: Word<T>) -> (read: Result<T, Error>)
    ensures
        reads_word("assets.provenance_state"@, word, read),
{
    known(PROVENANCE_COLUMN, word)
}

/// What a word is read as, and `absent` where there is none.
pub open spec fn word_or<T>(word: Option<Word<T>>, absent: T) -> Option<T> {
    match word {
        Some(given) => given.read,
        None => Some(absent),
    }
}

/// The storage class and the restore state a tier is derived from. One function, so that the list and the detail
/// cannot derive it differently.
///
/// An asset with no placement is a freshly finalised upload: nothing is archived, so it counts as `standard`, with
/// a restore in state `none`. The class is looked at first.
pub fn tier_of<C, R>(
    class: Option<Word<C>>,
    restore: Option<Word<R>>,
    standard: C,
    none: R,
) -> (tier: Result<(C, R), Error>)
    ensures
        match (word_or(class, standard), word_or(restore, none)) {
            (Some(class_read), Some(restore_read)) => tier == Ok::<(C, R), Error>((class_read, restore_read)),
            (None, _) => tier matches Err(Error::Inconsistent(detail)) && detail@ == "object_placements.storage_class"@ + " holds "@
                + quoted_chars(class->0.raw@),
            (Some(_), None) => tier matches Err(Error::Inconsistent(detail)) && detail@ == "object_placements.restore_state"@
                + " holds "@ + quoted_chars(restore->0.raw@),
        },
{
    let class: C = match class {
        Some(word) => match known(CLASS_COLUMN, word) {
            Ok(read) => read,
            Err(error) => return Err(error),
        },
        None => standard,
    };
    let restore: R = match restore {
        Some(word) => match known(RESTORE_COLUMN, word) {
            Ok(read) => read,
            Err(error) => return Err(error),
        },
        None => none,
    };
    Ok((class, restore))
}

/// What publishing, or unpublishing, writes over `current`; `None` where nothing is written.
///
/// A published asset keeps the instant somebody decided on. Unpublishing writes whatever the asset was.
pub open spec fn publication(current: Option<Instant>, at: Option<Instant>) -> Option<Option<Instant>> {
    match at {
        Some(decided) => match current {
            Some(_) => None,
            None => Some(Some(decided)),
        },
        None => Some(None),
    }
}

/// Marks an asset as published at `at`, or clears the mark. `row` is the live asset's own mark, where there is
/// such an asset. The mark to write, or `None` where nothing changes.
pub fn set_published(row: Option<Option<Instant>>, at: Option<Instant>) -> (mark: Option<Option<Instant>>)
    ensures
        mark == match row {
            Some(current) => publication(current, at),
            None => None,
        },
        row is None ==> mark is None,
        row is Some && at is None ==> mark == Some(None::<Instant>),
        row == Some(None::<Instant>) && at is Some ==> mark == Some(at),
        row matches Some(current) ==> current is Some && at is Some ==> mark is None,
{
    match row {
        None => None,
        Some(current) => match at {
            Some(decided) => match current {
                Some(_) => None,
                None => Some(Some(decided)),
            },
            None => Some(None),
        },
    }
}

/// The mark an asset has after publishing or unpublishing.
pub open spec fn published_after(current: Option<Instant>, at: Option<Instant>) -> Option<Instant> {
    match publication(current, at) {
        Some(mark) => mark,
        None => current,
    }
}

/// Publishing again does not restamp: a published asset keeps its instant, and publishing twice is publishing
/// once. Unpublishing always ends unpublished.
pub proof fn publishing_is_idempotent(current: Option<Instant>, at: Instant, later: Instant)
    ensures
        published_after(current, Some(at)) is Some,
        current is Some ==> published_after(current, Some(at)) == current,
        published_after(published_after(current, Some(at)), Some(later)) == published_after(current, Some(at)),
        published_after(current, None) is None,
{
}

/// Hydration authorises and keeps the ranking: what is kept was a candidate and is permitted, and everything
/// permitted among the candidates is kept.
pub proof fn hydration_keeps_what_is_permitted(candidates: Seq<Uuid>, permitted: Seq<Uuid>, id: Uuid)
    ensures
        candidates.filter(|other: Uuid| permitted.contains(other)).contains(id) <==> candidates.contains(
            id,
        ) && permitted.contains(id),
{
    lemma_filter_keeps(candidates, |other: Uuid| permitted.contains(other), id);
}

/// The rows and the total come under one predicate: whatever the order, the offset and the limit, two pages for
/// one caller have the same text up to the end of their condition, which is where both the rows and their count
/// are decided.
pub proof fn every_page_filters_alike(
    predicate: AccessPredicate,
    order: Order,
    offset: int,
    limit: int,
)
    ensures
        ({
            let condition = narrowed(
                Query::new(PAGE_SELECT@).push(WARMEST_PLACEMENT@).push(" WHERE "@),
                predicate,
                None,
            ).push(LIBRARY_ROWS@);
            let whole = paged(condition, order, offset, limit);
            &&& whole.sql.len() >= condition.sql.len()
            &&& whole.sql.take(condition.sql.len() as int) == condition.sql
            &&& whole.binds.take(condition.binds.len() as int) == condition.binds
        }),
{
    let condition = narrowed(
        Query::new(PAGE_SELECT@).push(WARMEST_PLACEMENT@).push(" WHERE "@),
        predicate,
        None,
    ).push(LIBRARY_ROWS@);
    let whole = paged(condition, order, offset, limit);
    assert(whole.sql.take(condition.sql.len() as int) =~= condition.sql);
    assert(whole.binds.take(condition.binds.len() as int) =~= condition.binds);
}

/// Publishing stamps what is not published with the instant it was published at, and writes nothing where it is;
/// unpublishing always writes.
pub proof fn publishing_stamps_once(current: Option<Instant>, at: Instant)
    ensures
        published_after(None, Some(at)) == Some(at),
        publication(None, Some(at)) == Some(Some(at)),
        current is Some ==> publication(current, Some(at)) is None,
        publication(current, None) == Some(None::<Instant>),
{
}

/// A word is read as what it stands for, and a column that is empty as what an empty one stands for; a word that stands
/// for nothing is named with its column.
pub proof fn a_word_is_read_or_named<T>(column: Seq<char>, word: Word<T>, read: Result<T, Error>, absent: T)
    ensures
        reads_word(column, word, read) ==> (read is Ok <==> word.read is Some),
        reads_word(column, word, read) && word.read is Some ==> read->Ok_0 == word.read->0,
        reads_word(column, word, read) && word.read is None ==> (read->Err_0 matches Error::Inconsistent(detail)
            && detail@ == column + " holds "@ + quoted_chars(word.raw@)),
        word_or(None::<Word<T>>, absent) == Some(absent),
        word_or(Some(word), absent) == word.read,
{
}

// ----------------------------------------------------------------------------------------------------
// Commands
// ----------------------------------------------------------------------------------------------------

pub const HELD_MARK: &'static str =
    "SELECT published_at FROM assets WHERE id = $1 AND deleted_at IS NULL FOR UPDATE";

/// An asset's published mark, held until the transaction ends.
pub fn held_mark(asset_id: Uuid) -> (command: Command)
    ensures
        command.says(
            "SELECT published_at FROM assets WHERE id = $1 AND deleted_at IS NULL FOR UPDATE"@,
            seq![Given::Id(asset_id)],
        ),
{
    Command::new(HELD_MARK, vec![Value::Id(asset_id)])
}

pub const WRITE_MARK: &'static str =
    "UPDATE assets SET published_at = $2, updated_at = now() WHERE id = $1 AND deleted_at IS NULL";

/// An asset's published mark.
pub fn write_mark(asset_id: Uuid, mark: Option<Instant>) -> (command: Command)
    ensures
        command.says(
            "UPDATE assets SET published_at = $2, updated_at = now() WHERE id = $1 AND deleted_at IS NULL"@,
            seq![Given::Id(asset_id), Given::MaybeAt(mark)],
        ),
{
    Command::new(WRITE_MARK, vec![Value::Id(asset_id), Value::MaybeAt(mark)])
}

pub const TOUCH: &'static str = "UPDATE assets SET updated_at = now() WHERE id = $1";

/// That something about an asset changed.
pub fn touch(asset_id: Uuid) -> (command: Command)
    ensures
        command.says("UPDATE assets SET updated_at = now() WHERE id = $1"@, seq![Given::Id(asset_id)]),
{
    Command::new(TOUCH, vec![Value::Id(asset_id)])
}

} // verus!
