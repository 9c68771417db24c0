//! Facet counts over the access-filtered set.
//!
//! Counts come from the same filtered set as the rows beside them, because counts disclose. A facet says when
//! buckets were dropped: a rail that silently truncates makes "no other brands" and "ninety other brands" look
//! identical.

use crate::fields::{FieldDef, FieldKind};
use crate::query_sql::{push_where, Planned};
use crate::sql::{push, push_bind_id, push_bind_int, push_bind_text, query, text_fits, Bind, Query, Statement};
use crate::text::{quoted, quoted_chars, read_uuid, same, uuid_chars, uuid_reading, uuid_text, wrapped};
use crate::versions::CURRENT_ONLY;
use crate::{clamp, clamped, Error, ResourceKind, Uuid};
use vstd::prelude::*;

verus! {

/// The most buckets a facet returns.
pub const MAX_BUCKETS: i64 = 100;

/// What to count.
#[derive(Debug, Clone, PartialEq, Eq)]
pub enum FacetRequest {
    /// Distinct values of a metadata field.
    Field { key: String, limit: i64 },
    /// Confirmed taxonomy tags, rolled up to their ancestors.
    Taxonomy { taxonomy_id: Uuid, limit: i64 },
}

/// One bucket.
#[derive(Debug, Clone, PartialEq, Eq)]
pub struct Bucket {
    /// The value, as text.
    pub value: String,
    /// A stable identifier where one exists: a taxonomy term's. `None` for a metadata value, whose identity is
    /// its text.
    pub id: Option<Uuid>,
    pub count: i64,
}

/// The counted result for one request.
#[derive(Debug, Clone, PartialEq, Eq)]
pub struct Facet {
    /// The field key, or the taxonomy id rendered.
    pub key: String,
    pub buckets: Vec<Bucket>,
    /// Whether buckets were dropped by the limit.
    pub truncated: bool,
}

/// How many buckets a facet returns when `limit` are asked for.
pub open spec fn bucket_limit(limit: int) -> int {
    clamped(limit, 1, MAX_BUCKETS as int)
}

/// The first definition with the key `key`.
pub open spec fn definition(defs: Seq<FieldDef>, key: Seq<char>) -> Option<FieldDef>
    decreases defs.len(),
{
    if defs.len() == 0 {
        None
    } else if defs[0].key@ == key {
        Some(defs[0])
    } else {
        definition(defs.drop_first(), key)
    }
}

pub const NOT_FACETABLE: &'static str =
    " is not marked facetable; faceting it would produce one bucket per distinct \
     value, which on a large library is a response nobody asked for";

pub const NO_DISCRETE_VALUES: &'static str =
    "a coordinate has no discrete values to count; geographic faceting needs a grid, which is \
     not this";

/// Whether the field `key` can be counted by value.
pub fn check_field(defs: &Vec<FieldDef>, key: &str) -> (checked: Result<(), Error>)
    ensures
        match definition(defs@, key@) {
            None => checked matches Err(Error::NotFound { kind, id }) && kind
                == ResourceKind::FieldDef && id@ == key@,
            Some(def) => if !def.facetable {
                checked matches Err(Error::Unsupported(detail)) && detail@ == "field "@
                    + quoted_chars(key@) + " is not marked facetable; faceting it would produce one bucket per distinct \
                         value, which on a large library is a response nobody asked for"@
            } else if def.kind == FieldKind::Geo {
                checked matches Err(Error::Unsupported(detail)) && detail@ == "a coordinate has no discrete values to count; geographic faceting needs a grid, which is \
                     not this"@
            } else {
                checked is Ok
            },
        },
{
    let mut i: usize = 0;
    proof {
        assert(defs@.skip(0) =~= defs@);
    }
    while i < defs.len()
        invariant
            i <= defs@.len(),
            definition(defs@, key@) == definition(defs@.skip(i as int), key@),
        decreases defs@.len() - i,
    {
        proof {
            let rest = defs@.skip(i as int);
            assert(rest[0] == defs@[i as int]);
            assert(rest.drop_first() =~= defs@.skip(i + 1));
        }
        if same(defs[i].key.as_str(), key) {
            if !defs[i].facetable {
                return Err(
                    Error::Unsupported(wrapped("field ", quoted(key).as_str(), NOT_FACETABLE)),
                );
            }
            if defs[i].kind == FieldKind::Geo {
                return Err(Error::Unsupported(NO_DISCRETE_VALUES.to_owned()));
            }
            return Ok(());
        }
        i += 1;
    }
    Err(Error::NotFound { kind: ResourceKind::FieldDef, id: key.to_owned() })
}

pub const FIELD_VISIBLE: &'static str =
    "WITH visible AS (SELECT assets.id, asset_metadata.values FROM assets \
     LEFT JOIN asset_metadata ON asset_metadata.asset_id = assets.id WHERE ";

pub const FIELD_EXPLODED: &'static str =
    "), exploded AS (SELECT DISTINCT visible.id, value FROM visible, LATERAL (\
     SELECT CASE WHEN jsonb_typeof(visible.values -> ";

pub const FIELD_ARRAY: &'static str =
    ") = 'array' \
     THEN (SELECT array_agg(v) FROM jsonb_array_elements_text(visible.values -> ";

pub const FIELD_SCALAR: &'static str =
    ") AS v) \
     ELSE ARRAY[visible.values ->> ";

pub const FIELD_COUNT: &'static str =
    "] END AS values_out) AS shaped, \
     LATERAL unnest(shaped.values_out) AS value WHERE value IS NOT NULL) \
     SELECT value, count(*) AS n FROM exploded GROUP BY value \
     ORDER BY n DESC, value LIMIT ";

/// The statement that counts the values of the field `key`, over what `planned` lets through. One bucket more
/// than wanted is asked for: that is how truncation is told from an exact fit without a second count.
pub open spec fn field_query(planned: Planned, key: Seq<char>, limit: int) -> Query {
    planned.after(Query::new(
        "WITH visible AS (SELECT assets.id, asset_metadata.values FROM assets \
         LEFT JOIN asset_metadata ON asset_metadata.asset_id = assets.id WHERE "@,
    )).push(" AND assets.is_current"@).push(
        "), exploded AS (SELECT DISTINCT visible.id, value FROM visible, LATERAL (\
         SELECT CASE WHEN jsonb_typeof(visible.values -> "@,
    ).bind(
        Bind::Text(key),
    ).push(
        ") = 'array' \
         THEN (SELECT array_agg(v) FROM jsonb_array_elements_text(visible.values -> "@,
    ).bind(Bind::Text(key)).push(
        ") AS v) \
         ELSE ARRAY[visible.values ->> "@,
    ).bind(Bind::Text(key)).push(
        "] END AS values_out) AS shaped, \
         LATERAL unnest(shaped.values_out) AS value WHERE value IS NOT NULL) \
         SELECT value, count(*) AS n FROM exploded GROUP BY value \
         ORDER BY n DESC, value LIMIT "@,
    ).bind(Bind::Int((bucket_limit(limit) + 1) as i64))
}

/// The statement that counts the values of a field, or why it cannot be counted.
pub fn count_field(
    planned: &Planned,
    defs: &Vec<FieldDef>,
    key: &str,
    limit: i64,
) -> (statement: Result<Statement, Error>)
    requires
        planned.fits(),
        text_fits(key@),
    ensures
        statement is Ok <==> (definition(defs@, key@) matches Some(def) && def.facetable && def.kind
            != FieldKind::Geo),
        statement matches Ok(inner) ==> query(inner) == field_query(*planned, key@, limit as int),
        statement matches Err(error) ==> match definition(defs@, key@) {
            None => error matches Error::NotFound { kind, id } && kind == ResourceKind::FieldDef
                && id@ == key@,
            Some(def) => error matches Error::Unsupported(detail) && detail@ == if !def.facetable {
                "field "@ + quoted_chars(key@) + NOT_FACETABLE@
            } else {
                NO_DISCRETE_VALUES@
            },
        },
{
    match check_field(defs, key) {
        Err(error) => return Err(error),
        Ok(()) => {},
    }
    let mut statement = Statement::new(FIELD_VISIBLE);
    push_where(&mut statement, planned);
    push(&mut statement, CURRENT_ONLY);
    push(&mut statement, FIELD_EXPLODED);
    push_bind_text(&mut statement, key);
    push(&mut statement, FIELD_ARRAY);
    push_bind_text(&mut statement, key);
    push(&mut statement, FIELD_SCALAR);
    push_bind_text(&mut statement, key);
    push(&mut statement, FIELD_COUNT);
    push_bind_int(&mut statement, clamp(limit, 1, MAX_BUCKETS) + 1);
    Ok(statement)
}

pub const TAXONOMY_VISIBLE: &'static str =
    "WITH visible AS (SELECT assets.id FROM assets \
     LEFT JOIN asset_metadata ON asset_metadata.asset_id = assets.id WHERE ";

pub const TAXONOMY_COUNT: &'static str =
    ") SELECT ancestor.id::text, ancestor.label, count(DISTINCT visible.id) AS n \
     FROM visible \
     JOIN asset_tags at ON at.asset_id = visible.id AND at.state = 'confirmed' \
     JOIN taxonomy_terms tagged ON tagged.id = at.term_id \
     JOIN taxonomy_terms ancestor ON tagged.path <@ ancestor.path \
          AND ancestor.taxonomy_id = tagged.taxonomy_id \
     WHERE tagged.taxonomy_id = ";

pub const TAXONOMY_ORDER: &'static str =
    " GROUP BY ancestor.id, ancestor.label ORDER BY n DESC, ancestor.label LIMIT ";

/// The statement that counts confirmed tags, rolled up. An asset tagged with two leaves of one ancestor counts
/// once for it.
pub fn count_taxonomy(planned: &Planned, taxonomy_id: Uuid, limit: i64) -> (statement: Statement)
    requires
        planned.fits(),
    ensures
        query(statement) == planned.after(Query::new(
            "WITH visible AS (SELECT assets.id FROM assets \
             LEFT JOIN asset_metadata ON asset_metadata.asset_id = assets.id WHERE "@,
        )).push(
            ") SELECT ancestor.id::text, ancestor.label, count(DISTINCT visible.id) AS n \
             FROM visible \
             JOIN asset_tags at ON at.asset_id = visible.id AND at.state = 'confirmed' \
             JOIN taxonomy_terms tagged ON tagged.id = at.term_id \
             JOIN taxonomy_terms ancestor ON tagged.path <@ ancestor.path \
             AND ancestor.taxonomy_id = tagged.taxonomy_id \
             WHERE tagged.taxonomy_id = "@,
        ).bind(
            Bind::Id(taxonomy_id),
        ).push(
            " GROUP BY ancestor.id, ancestor.label ORDER BY n DESC, ancestor.label LIMIT "@,
        ).bind(Bind::Int((bucket_limit(limit as int) + 1) as i64)),
{
    let mut statement = Statement::new(TAXONOMY_VISIBLE);
    push_where(&mut statement, planned);
    push(&mut statement, TAXONOMY_COUNT);
    push_bind_id(&mut statement, taxonomy_id);
    push(&mut statement, TAXONOMY_ORDER);
    push_bind_int(&mut statement, clamp(limit, 1, MAX_BUCKETS) + 1);
    statement
}

/// One counted value.
#[derive(Debug, Clone, PartialEq, Eq)]
pub struct Counted {
    pub id: Option<Uuid>,
    pub value: String,
    pub count: i64,
}

/// The bucket of a counted value.
pub open spec fn bucket_of(row: Counted) -> Bucket {
    Bucket { value: row.value, id: row.id, count: row.count }
}

/// The buckets of the counted values, without the empty ones.
pub open spec fn buckets_of(rows: Seq<Counted>) -> Seq<Bucket>
    decreases rows.len(),
{
    if rows.len() == 0 {
        Seq::empty()
    } else if rows.last().count > 0 {
        buckets_of(rows.drop_last()).push(bucket_of(rows.last()))
    } else {
        buckets_of(rows.drop_last())
    }
}

/// The first `limit` of `rows`.
pub open spec fn within_limit(rows: Seq<Counted>, limit: int) -> Seq<Counted> {
    if rows.len() > limit {
        rows.take(limit)
    } else {
        rows
    }
}

/// Trims to the limit and reports whether anything was dropped. `limit` is what was asked for, before it is
/// clamped.
pub fn finish(key: String, rows: Vec<Counted>, limit: i64) -> (facet: Facet)
    ensures
        facet.key == key,
        facet.truncated == (rows@.len() > bucket_limit(limit as int)),
        facet.buckets@ == buckets_of(within_limit(rows@, bucket_limit(limit as int))),
        1 <= limit <= 100 ==> (facet.truncated <==> rows@.len() > limit),
        facet.buckets@.len() <= 100,
{
    let effective: usize = clamp(limit, 1, MAX_BUCKETS) as usize;
    let truncated = rows.len() > effective;
    let ghost given = rows@;
    let mut rows = rows;
    rows.truncate(effective);
    let ghost kept = rows@;
    proof {
        assert(kept =~= within_limit(given, effective as int));
    }
    let mut buckets: Vec<Bucket> = Vec::new();
    proof {
        assert(kept.take(0) =~= Seq::<Counted>::empty());
    }
    for row in each: rows
        invariant
            each.seq() == kept,
            buckets@ == buckets_of(kept.take(each.index())),
    {
        proof {
            let i = each.index();
            assert(kept.take(i + 1).drop_last() =~= kept.take(i));
            assert(kept.take(i + 1).last() == row);
        }
        if row.count > 0 {
            buckets.push(Bucket { value: row.value, id: row.id, count: row.count });
        }
    }
    proof {
        assert(kept.take(kept.len() as int) =~= kept);
        if buckets@.len() > 0 {
            buckets_are_bounded_and_never_empty(given, limit as int, 0);
        }
    }
    Facet { key, buckets, truncated }
}

/// One counted term, as it was read: its identifier is text.
#[derive(Debug, Clone, PartialEq, Eq)]
pub struct Tallied {
    pub id: String,
    pub label: String,
    pub count: i64,
}

/// A counted term with its identifier read; one that cannot be read is left out.
pub open spec fn tallied(row: Tallied) -> Counted {
    Counted { id: uuid_reading(row.id@), value: row.label, count: row.count }
}

/// The facet of a taxonomy, whose key is the taxonomy's identifier. Each bucket carries its term's identifier.
pub fn finish_taxonomy(taxonomy_id: Uuid, rows: Vec<Tallied>, limit: i64) -> (facet: Facet)
    ensures
        facet.key@ == uuid_chars(taxonomy_id),
        facet.truncated == (rows@.len() > bucket_limit(limit as int)),
        facet.buckets@ == buckets_of(
            within_limit(rows@.map_values(|row: Tallied| tallied(row)), bucket_limit(limit as int)),
        ),
{
    let ghost all = rows@;
    let ghost read = all.map_values(|row: Tallied| tallied(row));
    let mut counted: Vec<Counted> = Vec::new();
    for row in each: rows
        invariant
            each.seq() == all,
            read == all.map_values(|row: Tallied| tallied(row)),
            counted@ =~= read.take(each.index()),
    {
        proof {
            assert(read[each.index()] == tallied(row));
        }
        let id = read_uuid(row.id.as_str());
        counted.push(Counted { id, value: row.label, count: row.count });
    }
    proof {
        assert(read.take(all.len() as int) =~= read);
    }
    finish(uuid_text(taxonomy_id), counted, limit)
}

proof fn lemma_buckets_positive(rows: Seq<Counted>, i: int)
    requires
        0 <= i < buckets_of(rows).len(),
    ensures
        buckets_of(rows)[i].count > 0,
        buckets_of(rows).len() <= rows.len(),
    decreases rows.len(),
{
    if rows.len() > 0 {
        let front = buckets_of(rows.drop_last());
        if i < front.len() {
            lemma_buckets_positive(rows.drop_last(), i);
        } else if front.len() > 0 {
            lemma_buckets_positive(rows.drop_last(), 0);
        }
    }
}

/// Every bucket counts something, and there are never more buckets than the limit allows.
pub proof fn buckets_are_bounded_and_never_empty(rows: Seq<Counted>, limit: int, i: int)
    requires
        0 <= i < buckets_of(within_limit(rows, bucket_limit(limit))).len(),
    ensures
        buckets_of(within_limit(rows, bucket_limit(limit)))[i].count > 0,
        buckets_of(within_limit(rows, bucket_limit(limit))).len() <= MAX_BUCKETS,
{
    lemma_buckets_positive(within_limit(rows, bucket_limit(limit)), i);
}

/// A facet shows as many values as were asked for, one at least and 100 at most, and one more is read to know whether
/// there are more. The key is bound wherever the field is read.
pub proof fn a_facet_is_as_long_as_asked(planned: Planned, key: Seq<char>, limit: int)
    ensures
        1 <= limit <= 100 ==> bucket_limit(limit) == limit,
        limit < 1 ==> bucket_limit(limit) == 1,
        limit > 100 ==> bucket_limit(limit) == 100,
        1 <= limit <= 100 ==> field_query(planned, key, limit).binds == planned.after(Query::new(FIELD_VISIBLE@)).binds
            + seq![Bind::Text(key), Bind::Text(key), Bind::Text(key), Bind::Int((limit + 1) as i64)],
{
    if 1 <= limit <= 100 {
        assert(field_query(planned, key, limit).binds =~= planned.after(Query::new(FIELD_VISIBLE@)).binds + seq![
            Bind::Text(key),
            Bind::Text(key),
            Bind::Text(key),
            Bind::Int((limit + 1) as i64),
        ]);
    }
}

/// The first rows within the limit are the buckets, in their order, without those that nothing has, each with its own
/// value, identifier and count.
pub proof fn buckets_are_the_rows_that_count(rows: Seq<Counted>, limit: int)
    requires
        limit >= 0,
    ensures
        buckets_of(rows) == rows.filter(|row: Counted| row.count > 0).map_values(
            |row: Counted| Bucket { value: row.value, id: row.id, count: row.count },
        ),
        within_limit(rows, limit).is_prefix_of(rows),
        within_limit(rows, limit).len() == if rows.len() < limit {
            rows.len() as int
        } else {
            limit
        },
    decreases rows.len(),
{
    reveal(Seq::filter);
    let counts = |row: Counted| row.count > 0;
    let shown = |row: Counted| Bucket { value: row.value, id: row.id, count: row.count };
    if rows.len() > 0 {
        buckets_are_the_rows_that_count(rows.drop_last(), limit);
    }
    assert(buckets_of(rows) =~= rows.filter(counts).map_values(shown));
    assert(within_limit(rows, limit) =~= rows.take(within_limit(rows, limit).len() as int));
}

/// A key names the first definition that has it, and none where no definition has it.
pub proof fn a_key_names_the_first_definition(defs: Seq<FieldDef>, key: Seq<char>, place: int)
    ensures
        (forall|i: int| 0 <= i < defs.len() ==> (#[trigger] defs[i]).key@ != key) <==> definition(defs, key) is None,
        0 <= place < defs.len() && defs[place].key@ == key && (forall|i: int|
            0 <= i < place ==> (#[trigger] defs[i]).key@ != key) ==> definition(defs, key) == Some(defs[place]),
    decreases defs.len(),
{
    if defs.len() > 0 && defs[0].key@ != key {
        let rest = defs.drop_first();
        a_key_names_the_first_definition(rest, key, place - 1);
        assert forall|i: int| 0 <= i < rest.len() implies #[trigger] rest[i] == defs[i + 1] by {}
        if forall|i: int| 0 <= i < rest.len() ==> (#[trigger] rest[i]).key@ != key {
            assert forall|i: int| 0 <= i < defs.len() implies (#[trigger] defs[i]).key@ != key by {
                if i > 0 {
                    assert(rest[i - 1].key@ != key);
                }
            }
        }
        if forall|i: int| 0 <= i < defs.len() ==> (#[trigger] defs[i]).key@ != key {
            assert forall|i: int| 0 <= i < rest.len() implies (#[trigger] rest[i]).key@ != key by {
                assert(defs[i + 1].key@ != key);
            }
        }
        if 0 < place < defs.len() && forall|i: int| 0 <= i < place ==> (#[trigger] defs[i]).key@ != key {
            assert forall|i: int| 0 <= i < place - 1 implies (#[trigger] rest[i]).key@ != key by {
                assert(defs[i + 1].key@ != key);
            }
        }
    }
}

/// A taxonomy's row is counted as it says, under the identifier its text spells.
pub proof fn a_tally_keeps_its_row(row: Tallied)
    ensures
        tallied(row).value == row.label,
        tallied(row).count == row.count,
        tallied(row).id == uuid_reading(row.id@),
{
}

} // verus!
