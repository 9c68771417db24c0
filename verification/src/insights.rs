//! Insights: what the library is used for.
//!
//! Every number is the reader's own: each statement starts from the caller's visible assets, so two people
//! legitimately see different graphs. Downloads come from the ledger, which holds the ones taken through a share
//! link too. A day with no activity is a row of zeroes, not a gap.

use crate::access::{push_asset_filter, AccessPredicate};
use crate::sql::{lemma_appending_extends, lemma_extends_itself, push, push_bind_int, query};
use crate::sql::{Bind, Query, Statement};
use crate::versions::LIBRARY_ROWS;
use crate::{clamp, clamped, Instant, Uuid};
use vstd::prelude::*;

verus! {

/// How many days a window may cover.
pub const MAX_DAYS: i64 = 366;

/// How many rows a top-N list returns at most.
pub const MAX_ROWS: i64 = 200;

/// One day of activity.
#[derive(Debug, Clone, Copy, PartialEq, Eq, Structural)]
pub struct Day {
    /// Days since the Unix epoch.
    pub day: i32,
    pub uploads: i64,
    /// From the ledger, so that a download through a share link counts.
    pub downloads: i64,
    pub edits: i64,
    pub comments: i64,
    pub shares: i64,
}

/// An asset with a number against it.
#[derive(Debug, Clone, PartialEq, Eq)]
pub struct AssetCount {
    pub asset_id: Uuid,
    pub filename: String,
    pub mime: String,
    pub count: i64,
    /// When it was last taken. Absent in a list of things never taken at all.
    pub last_at: Option<Instant>,
}

/// What the library holds, by media class.
#[derive(Debug, Clone, PartialEq, Eq)]
pub struct ClassTotal {
    /// `image`, `video`, `audio` or `document`: the classes conversions are keyed by.
    pub class: String,
    pub assets: i64,
    pub bytes: i64,
}

/// A person and what they did.
#[derive(Debug, Clone, Copy, PartialEq, Eq, Structural)]
pub struct Contributor {
    pub identity_id: Uuid,
    pub uploads: i64,
    pub edits: i64,
    pub comments: i64,
}

pub const VISIBLE: &'static str =
    "WITH visible AS (SELECT assets.id, assets.filename, assets.mime, assets.bytes, \
                             assets.created_at FROM assets WHERE ";

/// The visible assets every statement here starts from: the library's rows under the caller's predicate.
pub open spec fn visible(predicate: AccessPredicate) -> Query {
    predicate.after(Query::new(""@).push(
        "WITH visible AS (SELECT assets.id, assets.filename, assets.mime, assets.bytes, \
         assets.created_at FROM assets WHERE "@,
    )).push(LIBRARY_ROWS@).push(") "@)
}

fn started(predicate: &AccessPredicate) -> (statement: Statement)
    requires
        predicate.fits(),
    ensures
        query(statement) == visible(*predicate),
{
    let mut statement = Statement::new("");
    push(&mut statement, VISIBLE);
    push_asset_filter(&mut statement, predicate);
    push(&mut statement, LIBRARY_ROWS);
    push(&mut statement, ") ");
    statement
}

/// How many days a window covers when `days` are asked for.
pub open spec fn window_days(days: int) -> int {
    clamped(days, 1, MAX_DAYS as int)
}

/// How many days a window covers when `days` are asked for.
pub fn window(days: i64) -> (effective: i64)
    ensures
        effective == window_days(days as int),
        1 <= effective <= MAX_DAYS,
{
    clamp(days, 1, MAX_DAYS)
}

/// How many rows a list returns when `limit` are asked for.
pub open spec fn row_limit(limit: int) -> int {
    clamped(limit, 1, MAX_ROWS as int)
}

/// How many rows a list returns when `limit` are asked for.
pub fn rows(limit: i64) -> (effective: i64)
    ensures
        effective == row_limit(limit as int),
        1 <= effective <= MAX_ROWS,
{
    clamp(limit, 1, MAX_ROWS)
}

/// The value bound for a window that ends today: how many days back its first day is.
pub open spec fn days_back(days: int) -> Bind {
    Bind::Int((window_days(days) - 1) as i64)
}

pub const SERIES_SPINE: &'static str =
    "SELECT spine.day::date, \
            coalesce(activity.uploads, 0), \
            coalesce(taken.downloads, 0), \
            coalesce(activity.edits, 0), \
            coalesce(activity.comments, 0), \
            coalesce(activity.shares, 0) \
     FROM generate_series(current_date - (";

pub const SERIES_ACTIVITY: &'static str =
    " || ' days')::interval, current_date, interval '1 day') AS spine(day) \
     LEFT JOIN ( \
         SELECT date_trunc('day', e.occurred_at) AS day, \
                count(*) FILTER (WHERE e.kind = 'upload')  AS uploads, \
                count(*) FILTER (WHERE e.kind = 'edit')    AS edits, \
                count(*) FILTER (WHERE e.kind = 'comment') AS comments, \
                count(*) FILTER (WHERE e.kind = 'share')   AS shares \
         FROM events e JOIN visible v ON v.id = e.asset_id \
         WHERE e.occurred_at >= current_date - (";

pub const SERIES_TAKEN: &'static str =
    " || ' days')::interval \
         GROUP BY 1 \
     ) AS activity ON activity.day = spine.day \
     LEFT JOIN ( \
         SELECT date_trunc('day', u.recorded_at) AS day, count(*) AS downloads \
         FROM rights_usage u JOIN visible v ON v.id = u.asset_id \
         WHERE u.source = 'download' AND u.recorded_at >= current_date - (";

pub const SERIES_END: &'static str =
    " || ' days')::interval \
         GROUP BY 1 \
     ) AS taken ON taken.day = spine.day \
     ORDER BY spine.day";

/// Activity per day for the last `days` days, ending today.
pub open spec fn series_query(predicate: AccessPredicate, days: int) -> Query {
    visible(predicate).push(
        "SELECT spine.day::date, \
         coalesce(activity.uploads, 0), \
         coalesce(taken.downloads, 0), \
         coalesce(activity.edits, 0), \
         coalesce(activity.comments, 0), \
         coalesce(activity.shares, 0) \
         FROM generate_series(current_date - ("@,
    ).bind(days_back(days)).push(
        " || ' days')::interval, current_date, interval '1 day') AS spine(day) \
         LEFT JOIN ( \
         SELECT date_trunc('day', e.occurred_at) AS day, \
         count(*) FILTER (WHERE e.kind = 'upload')  AS uploads, \
         count(*) FILTER (WHERE e.kind = 'edit')    AS edits, \
         count(*) FILTER (WHERE e.kind = 'comment') AS comments, \
         count(*) FILTER (WHERE e.kind = 'share')   AS shares \
         FROM events e JOIN visible v ON v.id = e.asset_id \
         WHERE e.occurred_at >= current_date - ("@,
    ).bind(
        days_back(days),
    ).push(
        " || ' days')::interval \
         GROUP BY 1 \
         ) AS activity ON activity.day = spine.day \
         LEFT JOIN ( \
         SELECT date_trunc('day', u.recorded_at) AS day, count(*) AS downloads \
         FROM rights_usage u JOIN visible v ON v.id = u.asset_id \
         WHERE u.source = 'download' AND u.recorded_at >= current_date - ("@,
    ).bind(days_back(days)).push(
        " || ' days')::interval \
         GROUP BY 1 \
         ) AS taken ON taken.day = spine.day \
         ORDER BY spine.day"@,
    )
}

/// Activity per day for the last `days` days, ending today. A quiet day is a row of zeroes.
pub fn series(predicate: &AccessPredicate, days: i64) -> (statement: Statement)
    requires
        predicate.fits(),
    ensures
        query(statement) == series_query(*predicate, days as int),
{
    let back: i64 = window(days) - 1;
    let mut statement = started(predicate);
    push(&mut statement, SERIES_SPINE);
    push_bind_int(&mut statement, back);
    push(&mut statement, SERIES_ACTIVITY);
    push_bind_int(&mut statement, back);
    push(&mut statement, SERIES_TAKEN);
    push_bind_int(&mut statement, back);
    push(&mut statement, SERIES_END);
    statement
}

pub const DOWNLOADED: &'static str =
    "SELECT v.id, v.filename, v.mime, count(*), max(u.recorded_at) \
     FROM visible v JOIN rights_usage u ON u.asset_id = v.id \
     WHERE u.source = 'download' AND u.recorded_at >= current_date - (";

pub const DOWNLOADED_ORDER: &'static str =
    " || ' days')::interval \
     GROUP BY v.id, v.filename, v.mime \
     ORDER BY count(*) DESC, max(u.recorded_at) DESC, v.id \
     LIMIT ";

/// The most-downloaded assets in the window.
pub open spec fn downloaded_query(predicate: AccessPredicate, days: int, limit: int) -> Query {
    visible(predicate).push(
        "SELECT v.id, v.filename, v.mime, count(*), max(u.recorded_at) \
         FROM visible v JOIN rights_usage u ON u.asset_id = v.id \
         WHERE u.source = 'download' AND u.recorded_at >= current_date - ("@,
    ).bind(days_back(days)).push(
        " || ' days')::interval \
         GROUP BY v.id, v.filename, v.mime \
         ORDER BY count(*) DESC, max(u.recorded_at) DESC, v.id \
         LIMIT "@,
    ).bind(
        Bind::Int(row_limit(limit) as i64),
    )
}

/// The most-downloaded assets in the window, most first.
pub fn most_downloaded(predicate: &AccessPredicate, days: i64, limit: i64) -> (statement: Statement)
    requires
        predicate.fits(),
    ensures
        query(statement) == downloaded_query(*predicate, days as int, limit as int),
{
    let mut statement = started(predicate);
    push(&mut statement, DOWNLOADED);
    push_bind_int(&mut statement, window(days) - 1);
    push(&mut statement, DOWNLOADED_ORDER);
    push_bind_int(&mut statement, rows(limit));
    statement
}

pub const NEVER: &'static str =
    "SELECT v.id, v.filename, v.mime, 0::bigint, NULL::timestamptz \
     FROM visible v \
     WHERE NOT EXISTS ( \
         SELECT 1 FROM rights_usage u \
         WHERE u.asset_id = v.id AND u.source = 'download' \
     ) \
     ORDER BY v.created_at, v.id \
     LIMIT ";

/// Assets nobody has ever downloaded.
pub open spec fn never_query(predicate: AccessPredicate, limit: int) -> Query {
    visible(predicate).push(
        "SELECT v.id, v.filename, v.mime, 0::bigint, NULL::timestamptz \
         FROM visible v \
         WHERE NOT EXISTS ( \
         SELECT 1 FROM rights_usage u \
         WHERE u.asset_id = v.id AND u.source = 'download' \
         ) \
         ORDER BY v.created_at, v.id \
         LIMIT "@,
    ).bind(Bind::Int(row_limit(limit) as i64))
}

/// Assets nobody has ever downloaded, oldest first.
pub fn never_downloaded(predicate: &AccessPredicate, limit: i64) -> (statement: Statement)
    requires
        predicate.fits(),
    ensures
        query(statement) == never_query(*predicate, limit as int),
{
    let mut statement = started(predicate);
    push(&mut statement, NEVER);
    push_bind_int(&mut statement, rows(limit));
    statement
}

pub const NEVER_COUNT: &'static str =
    "SELECT count(*) FROM visible v \
     WHERE NOT EXISTS ( \
         SELECT 1 FROM rights_usage u \
         WHERE u.asset_id = v.id AND u.source = 'download' \
     )";

/// How many there are in total: a capped list of unused assets does not explain its own cap.
pub fn never_downloaded_count(predicate: &AccessPredicate) -> (statement: Statement)
    requires
        predicate.fits(),
    ensures
        query(statement) == visible(*predicate).push(
            "SELECT count(*) FROM visible v \
             WHERE NOT EXISTS ( \
             SELECT 1 FROM rights_usage u \
             WHERE u.asset_id = v.id AND u.source = 'download' \
             )"@,
        ),
{
    let mut statement = started(predicate);
    push(&mut statement, NEVER_COUNT);
    statement
}

pub const BY_CLASS: &'static str =
    "SELECT CASE split_part(v.mime, '/', 1) \
                WHEN 'image' THEN 'image' \
                WHEN 'video' THEN 'video' \
                WHEN 'audio' THEN 'audio' \
                ELSE 'document' \
            END AS class, \
            count(*), coalesce(sum(v.bytes), 0)::bigint \
     FROM visible v GROUP BY 1 ORDER BY coalesce(sum(v.bytes), 0) DESC, 1";

/// What the library holds, by media class, largest first. The classes are those of [`crate::conversions::class_of`].
pub fn by_class(predicate: &AccessPredicate) -> (statement: Statement)
    requires
        predicate.fits(),
    ensures
        query(statement) == visible(*predicate).push(
            "SELECT CASE split_part(v.mime, '/', 1) \
             WHEN 'image' THEN 'image' \
             WHEN 'video' THEN 'video' \
             WHEN 'audio' THEN 'audio' \
             ELSE 'document' \
             END AS class, \
             count(*), coalesce(sum(v.bytes), 0)::bigint \
             FROM visible v GROUP BY 1 ORDER BY coalesce(sum(v.bytes), 0) DESC, 1"@,
        ),
{
    let mut statement = started(predicate);
    push(&mut statement, BY_CLASS);
    statement
}

pub const CONTRIBUTED: &'static str =
    "SELECT e.actor_id, \
            count(*) FILTER (WHERE e.kind = 'upload'), \
            count(*) FILTER (WHERE e.kind = 'edit'), \
            count(*) FILTER (WHERE e.kind = 'comment') \
     FROM events e JOIN visible v ON v.id = e.asset_id \
     WHERE e.actor_id IS NOT NULL AND e.actor_kind = 'user' \
       AND e.occurred_at >= current_date - (";

pub const CONTRIBUTED_ORDER: &'static str =
    " || ' days')::interval \
     GROUP BY e.actor_id \
     HAVING count(*) FILTER (WHERE e.kind IN ('upload', 'edit', 'comment')) > 0 \
     ORDER BY count(*) FILTER (WHERE e.kind IN ('upload', 'edit', 'comment')) DESC, e.actor_id \
     LIMIT ";

/// Who did what in the window.
pub open spec fn contributors_query(predicate: AccessPredicate, days: int, limit: int) -> Query {
    visible(predicate).push(
        "SELECT e.actor_id, \
         count(*) FILTER (WHERE e.kind = 'upload'), \
         count(*) FILTER (WHERE e.kind = 'edit'), \
         count(*) FILTER (WHERE e.kind = 'comment') \
         FROM events e JOIN visible v ON v.id = e.asset_id \
         WHERE e.actor_id IS NOT NULL AND e.actor_kind = 'user' \
         AND e.occurred_at >= current_date - ("@,
    ).bind(days_back(days)).push(
        " || ' days')::interval \
         GROUP BY e.actor_id \
         HAVING count(*) FILTER (WHERE e.kind IN ('upload', 'edit', 'comment')) > 0 \
         ORDER BY count(*) FILTER (WHERE e.kind IN ('upload', 'edit', 'comment')) DESC, e.actor_id \
         LIMIT "@,
    ).bind(
        Bind::Int(row_limit(limit) as i64),
    )
}

/// Who did what in the window, busiest first. Not a performance measure: every count is scoped to what the reader
/// can see.
pub fn contributors(predicate: &AccessPredicate, days: i64, limit: i64) -> (statement: Statement)
    requires
        predicate.fits(),
    ensures
        query(statement) == contributors_query(*predicate, days as int, limit as int),
{
    let mut statement = started(predicate);
    push(&mut statement, CONTRIBUTED);
    push_bind_int(&mut statement, window(days) - 1);
    push(&mut statement, CONTRIBUTED_ORDER);
    push_bind_int(&mut statement, rows(limit));
    statement
}

/// Every number is the reader's own: each statement starts with the reader's visible assets and reads from nothing
/// but them and what happened to them.
pub proof fn every_number_is_the_readers_own(predicate: AccessPredicate, days: int, limit: int)
    ensures
        series_query(predicate, days).extends(visible(predicate)),
        downloaded_query(predicate, days, limit).extends(visible(predicate)),
        never_query(predicate, limit).extends(visible(predicate)),
        visible(predicate).push(NEVER_COUNT@).extends(visible(predicate)),
        visible(predicate).push(BY_CLASS@).extends(visible(predicate)),
        contributors_query(predicate, days, limit).extends(visible(predicate)),
{
    let start = visible(predicate);
    let back = days_back(days);
    let most = Bind::Int(row_limit(limit) as i64);
    lemma_extends_itself(start);
    lemma_appending_extends(start, start, NEVER_COUNT@, back);
    lemma_appending_extends(start, start, BY_CLASS@, back);
    let a = start.push(SERIES_SPINE@);
    lemma_appending_extends(start, start, SERIES_SPINE@, back);
    lemma_appending_extends(start, a, SERIES_ACTIVITY@, back);
    let b = a.bind(back).push(SERIES_ACTIVITY@);
    lemma_appending_extends(start, a.bind(back), SERIES_ACTIVITY@, back);
    lemma_appending_extends(start, b, SERIES_TAKEN@, back);
    let c = b.bind(back).push(SERIES_TAKEN@);
    lemma_appending_extends(start, b.bind(back), SERIES_TAKEN@, back);
    lemma_appending_extends(start, c, SERIES_END@, back);
    lemma_appending_extends(start, c.bind(back), SERIES_END@, back);
    let d = start.push(DOWNLOADED@);
    lemma_appending_extends(start, start, DOWNLOADED@, back);
    lemma_appending_extends(start, d, DOWNLOADED_ORDER@, back);
    lemma_appending_extends(start, d.bind(back), DOWNLOADED_ORDER@, back);
    lemma_appending_extends(start, d.bind(back).push(DOWNLOADED_ORDER@), NEVER@, most);
    lemma_appending_extends(start, start, NEVER@, most);
    lemma_appending_extends(start, start.push(NEVER@), NEVER@, most);
    let e = start.push(CONTRIBUTED@);
    lemma_appending_extends(start, start, CONTRIBUTED@, back);
    lemma_appending_extends(start, e, CONTRIBUTED_ORDER@, back);
    lemma_appending_extends(start, e.bind(back), CONTRIBUTED_ORDER@, back);
    lemma_appending_extends(start, e.bind(back).push(CONTRIBUTED_ORDER@), NEVER@, most);
}

/// A window is never longer than a year and a list never longer than its cap, whatever is asked for.
pub proof fn windows_and_lists_are_bounded(days: int, limit: int)
    ensures
        1 <= window_days(days) <= MAX_DAYS,
        1 <= row_limit(limit) <= MAX_ROWS,
{
}

/// A window is as many days as were asked for, a day at least and a leap year at most; a list is as long as was asked
/// for, one row at least and 200 at most. What is bound is how many days lie before today.
pub proof fn windows_and_lists_are_as_asked(predicate: AccessPredicate, days: int, limit: int)
    ensures
        1 <= days <= 366 ==> window_days(days) == days,
        days < 1 ==> window_days(days) == 1,
        days > 366 ==> window_days(days) == 366,
        1 <= limit <= 200 ==> row_limit(limit) == limit,
        limit < 1 ==> row_limit(limit) == 1,
        limit > 200 ==> row_limit(limit) == 200,
        1 <= days <= 366 ==> series_query(predicate, days).binds == visible(predicate).binds + seq![
            Bind::Int((days - 1) as i64),
            Bind::Int((days - 1) as i64),
            Bind::Int((days - 1) as i64),
        ],
        1 <= days <= 366 && 1 <= limit <= 200 ==> downloaded_query(predicate, days, limit).binds == visible(
            predicate,
        ).binds + seq![Bind::Int((days - 1) as i64), Bind::Int(limit as i64)],
        1 <= days <= 366 && 1 <= limit <= 200 ==> contributors_query(predicate, days, limit).binds == visible(
            predicate,
        ).binds + seq![Bind::Int((days - 1) as i64), Bind::Int(limit as i64)],
        1 <= limit <= 200 ==> never_query(predicate, limit).binds == visible(predicate).binds + seq![
            Bind::Int(limit as i64),
        ],
{
    let start = visible(predicate).binds;
    let back = Bind::Int((days - 1) as i64);
    if 1 <= days <= 366 {
        assert(series_query(predicate, days).binds =~= start + seq![back, back, back]);
    }
    if 1 <= days <= 366 && 1 <= limit <= 200 {
        assert(downloaded_query(predicate, days, limit).binds =~= start + seq![back, Bind::Int(limit as i64)]);
        assert(contributors_query(predicate, days, limit).binds =~= start + seq![back, Bind::Int(limit as i64)]);
    }
    if 1 <= limit <= 200 {
        assert(never_query(predicate, limit).binds =~= start + seq![Bind::Int(limit as i64)]);
    }
}

/// What a reader's numbers are taken from is what the access filter lets them see.
pub proof fn what_is_counted_is_what_is_seen(predicate: AccessPredicate)
    ensures
        visible(predicate).extends(predicate.after(Query::new(""@).push(VISIBLE@))),
        visible(predicate).binds == predicate.after(Query::new(""@).push(VISIBLE@)).binds,
{
    let filtered = predicate.after(Query::new(""@).push(VISIBLE@));
    crate::sql::lemma_extends_itself(filtered);
    crate::sql::lemma_appending_extends(filtered, filtered, LIBRARY_ROWS@, Bind::Int(0));
    crate::sql::lemma_appending_extends(filtered, filtered.push(LIBRARY_ROWS@), ") "@, Bind::Int(0));
}

} // verus!
