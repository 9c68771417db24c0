//! Paths: triggered notifications.
//!
//! The digest key is the deduplication, so it is keyed on the thing being notified about. A daily sweep sees an
//! expiring asset on every day of its window; keyed on the sweep's own date it would fire every day, and keyed
//! on the expiry it fires once.

use crate::commands::{as_text, Command, Given, Value};
use crate::sql::{MAX_INSTANT, MIN_INSTANT};
use crate::text::{
    int_chars, int_text, lemma_int_chars_injective, lemma_uuid_chars_injective,
    uuid_chars, uuid_text, wrapped,
};
use crate::{Error, Instant, Uuid};
use vstd::prelude::*;

verus! {

/// A span of time, in microseconds.
pub type Span = i128;

/// The longest span chrono represents: the largest 64-bit count of milliseconds.
pub const MAX_SPAN: Span = 9_223_372_036_854_775_807_000;

/// A path definition, as far as firing cares.
#[derive(Debug, Clone, PartialEq, Eq)]
pub struct Path {
    pub id: Uuid,
    pub name: String,
    pub trigger_kind: String,
    pub lead_days: Option<i32>,
    pub channels: Vec<String>,
    pub digest_window: Option<Span>,
    pub throttle_per_asset: Option<Span>,
}

/// A recorded firing.
#[derive(Debug, Clone, PartialEq, Eq)]
pub struct Firing {
    pub id: Uuid,
    pub path_id: Uuid,
    pub asset_id: Option<Uuid>,
    pub digest_key: String,
    pub state: String,
    pub fired_at: Instant,
}

/// Whether a firing was recorded or suppressed, and why.
#[derive(Debug, Clone, PartialEq, Eq)]
pub enum FireOutcome {
    /// Newly recorded; the caller should deliver it.
    Recorded(Firing),
    /// This exact thing has already been notified. The commonest outcome of a daily sweep, and not an error.
    AlreadyFired(Firing),
    /// Inside this asset's throttle window for this path.
    Throttled { until: Instant },
}

/// What is being notified about.
#[derive(Debug, Clone, Copy, PartialEq, Eq, Structural)]
pub enum Subject {
    /// Something that will happen at a known instant. Keyed on that instant.
    Deadline { at: Instant },
    /// Something that happened once, identified by the event.
    Event { id: Uuid },
    /// A recurring state worth reporting periodically. Keyed on a bucket of the current time.
    Recurring { bucket: Instant },
}

/// The whole seconds of an instant, rounded towards the past.
pub open spec fn whole_seconds(at: Instant) -> int {
    at as int / 1_000_000
}

fn seconds_of(at: Instant) -> (seconds: i64)
    ensures
        seconds == whole_seconds(at),
{
    let quotient: i64 = at / 1_000_000;
    if at % 1_000_000 < 0 {
        quotient - 1
    } else {
        quotient
    }
}

/// The asset's part of a digest key.
pub open spec fn asset_chars(asset_id: Option<Uuid>) -> Seq<char> {
    match asset_id {
        Some(id) => uuid_chars(id),
        None => "-"@,
    }
}

/// The subject's part of a digest key. An instant counts to the second.
pub open spec fn subject_chars(subject: Subject) -> Seq<char> {
    match subject {
        Subject::Deadline { at } => "deadline:"@ + int_chars(whole_seconds(at)),
        Subject::Event { id } => "event:"@ + uuid_chars(id),
        Subject::Recurring { bucket } => "window:"@ + int_chars(whole_seconds(bucket)),
    }
}

/// The digest key of a firing: the trigger's kind, the asset and the subject.
pub open spec fn digest_chars(kind: Seq<char>, asset_id: Option<Uuid>, subject: Subject) -> Seq<char> {
    kind + ("|"@ + (asset_chars(asset_id) + ("|"@ + subject_chars(subject))))
}

/// Builds the digest key for a firing.
///
/// Deterministic and stable: two callers describing the same notification produce the same key.
pub fn digest_key(path: &Path, asset_id: Option<Uuid>, subject: &Subject) -> (key: String)
    ensures
        key@ == digest_chars(path.trigger_kind@, asset_id, *subject),
        key@ == path.trigger_kind@ + ("|"@ + ((match asset_id {
            Some(id) => uuid_chars(id),
            None => "-"@,
        }) + ("|"@ + (match *subject {
            Subject::Deadline { at } => "deadline:"@ + int_chars(at as int / 1_000_000),
            Subject::Event { id } => "event:"@ + uuid_chars(id),
            Subject::Recurring { bucket } => "window:"@ + int_chars(bucket as int / 1_000_000),
        })))),
{
    let asset = match asset_id {
        Some(id) => uuid_text(id),
        None => "-".to_owned(),
    };
    let mut about = match subject {
        Subject::Deadline { .. } => "deadline:".to_owned(),
        Subject::Event { .. } => "event:".to_owned(),
        Subject::Recurring { .. } => "window:".to_owned(),
    };
    match subject {
        Subject::Deadline { at } => about.append(int_text(seconds_of(*at) as i128).as_str()),
        Subject::Event { id } => about.append(uuid_text(*id).as_str()),
        Subject::Recurring { bucket } => about.append(int_text(seconds_of(*bucket) as i128).as_str()),
    }
    let mut key = wrapped(path.trigger_kind.as_str(), "|", asset.as_str());
    key.append("|");
    key.append(about.as_str());
    proof {
        assert(key@ =~= digest_chars(path.trigger_kind@, asset_id, *subject));
    }
    key
}

/// `chrono::DateTime::from_timestamp` of whole seconds: the instant, where chrono can represent it.
#[verifier::external_body]
fn instant_at(seconds: i64) -> (at: Option<Instant>)
    ensures
        at == if MIN_INSTANT / 1_000_000 <= seconds <= MAX_INSTANT / 1_000_000 {
            Some((seconds * 1_000_000) as i64)
        } else {
            None
        },
{
    chrono::DateTime::from_timestamp(seconds, 0).map(|at| at.timestamp_micros())
}

/// The whole seconds of the bucket of `width` seconds that `seconds` falls into, counted from the epoch.
pub open spec fn bucket_seconds(seconds: int, width: int) -> int {
    seconds - seconds % width
}

/// Whether an instant of whole seconds can be represented.
pub open spec fn representable(seconds: int) -> bool {
    MIN_INSTANT as int / 1_000_000 <= seconds <= MAX_INSTANT as int / 1_000_000
}

/// The digest bucket an instant falls into. A window shorter than a second collapses nothing.
pub open spec fn bucketed(now: Instant, window: Option<Span>) -> Instant {
    match window {
        Some(width) => if width >= 1_000_000 {
            let start = bucket_seconds(whole_seconds(now), width as int / 1_000_000);
            if representable(start) {
                (start * 1_000_000) as i64
            } else {
                now
            }
        } else {
            now
        },
        None => now,
    }
}

/// The digest bucket `now` falls into for a window.
///
/// Truncated to a multiple of the window from the epoch, so that every caller inside one window computes the
/// same bucket without coordinating.
pub fn digest_bucket(now: Instant, window: Option<Span>) -> (bucket: Instant)
    requires
        window matches Some(width) ==> width <= MAX_SPAN,
    ensures
        bucket == bucketed(now, window),
{
    match window {
        Some(width) => if width >= 1_000_000 {
            let width: i64 = (width / 1_000_000) as i64;
            let seconds: i64 = seconds_of(now);
            let remainder: i64 = seconds % width;
            let into: i64 = if remainder < 0 {
                remainder + width
            } else {
                remainder
            };
            proof {
                lemma_rem_is_mod(seconds as int, width as int, remainder as int);
                assert(into == seconds as int % width as int);
            }
            match instant_at(seconds - into) {
                Some(bucket) => bucket,
                None => now,
            }
        } else {
            now
        },
        None => now,
    }
}

/// A remainder of truncated division, made non-negative, is the remainder of floored division.
proof fn lemma_rem_is_mod(a: int, b: int, r: int)
    requires
        b > 0,
        a >= 0 ==> r == a % b,
        a < 0 ==> r == -((-a) % b),
    ensures
        a % b == if r < 0 {
            r + b
        } else {
            r
        },
{
    if a < 0 {
        let m = (-a) % b;
        vstd::arithmetic::div_mod::lemma_fundamental_div_mod(-a, b);
        let q = (-a) / b;
        assert(-a == b * q + m);
        if m == 0 {
            assert(a == b * (-q) + 0) by (nonlinear_arith)
                requires
                    -a == b * q + m,
                    m == 0,
            ;
            vstd::arithmetic::div_mod::lemma_fundamental_div_mod_converse(a, b, -q, 0);
        } else {
            assert(a == b * (-q - 1) + (b - m)) by (nonlinear_arith)
                requires
                    -a == b * q + m,
            ;
            vstd::arithmetic::div_mod::lemma_fundamental_div_mod_converse(a, b, -q - 1, b - m);
        }
    }
}

/// The instant since which a firing for the asset counts against the throttle, where the path throttles.
pub fn throttle_since(path: &Path, asset_id: Option<Uuid>, now: Instant) -> (since: Option<Instant>)
    requires
        path.throttle_per_asset matches Some(throttle) ==> (asset_id is Some ==> MIN_INSTANT <= now
            - throttle <= MAX_INSTANT),
    ensures
        since == match path.throttle_per_asset {
            Some(throttle) => if asset_id is Some {
                Some((now - throttle) as i64)
            } else {
                None
            },
            None => None,
        },
{
    match path.throttle_per_asset {
        Some(throttle) => if asset_id.is_some() {
            Some((now as i128 - throttle) as i64)
        } else {
            None
        },
        None => None,
    }
}

/// The outcome when a firing has to wait: `recent` is the last firing for the asset inside the throttle. It is
/// asked before anything is inserted, because a throttled firing must leave no row: a row would occupy the
/// digest key and stop the notification firing later.
pub fn throttled(path: &Path, recent: Option<Instant>) -> (outcome: Option<FireOutcome>)
    requires
        path.throttle_per_asset matches Some(throttle) && recent matches Some(last) ==> MIN_INSTANT
            <= last + throttle <= MAX_INSTANT,
    ensures
        outcome == match path.throttle_per_asset {
            Some(throttle) => match recent {
                Some(last) => Some(
                    FireOutcome::Throttled { until: (last + throttle) as i64 },
                ),
                None => None,
            },
            None => None,
        },
        outcome is Some <==> path.throttle_per_asset is Some && recent is Some,
        outcome matches Some(told) ==> told matches FireOutcome::Throttled { until } && until - recent->0
            == path.throttle_per_asset->0,
{
    match path.throttle_per_asset {
        Some(throttle) => match recent {
            Some(last) => Some(FireOutcome::Throttled { until: (last as i128 + throttle) as i64 }),
            None => None,
        },
        None => None,
    }
}

/// The outcome once the firing has been inserted, or not because its key is taken. `inserted` is how many rows
/// the insert wrote and `found` the row that has the key now.
pub fn fired(
    path_id: Uuid,
    key: &str,
    inserted: u64,
    found: Option<Firing>,
) -> (outcome: Result<FireOutcome, Error>)
    ensures
        match found {
            Some(firing) => outcome == Ok::<FireOutcome, Error>(
                if inserted > 0 {
                    FireOutcome::Recorded(firing)
                } else {
                    FireOutcome::AlreadyFired(firing)
                },
            ),
            None => outcome matches Err(Error::Inconsistent(detail)) && detail@ == "firing "@ + key@
                + " for path "@ + uuid_chars(path_id)
                + " vanished immediately after being recorded"@,
        },
{
    match found {
        Some(firing) => if inserted > 0 {
            Ok(FireOutcome::Recorded(firing))
        } else {
            Ok(FireOutcome::AlreadyFired(firing))
        },
        None => {
            let mut detail = wrapped("firing ", key, " for path ");
            detail.append(uuid_text(path_id).as_str());
            detail.append(" vanished immediately after being recorded");
            Err(Error::Inconsistent(detail))
        },
    }
}

/// A Postgres interval as a span. Months count 30 days: these are digest and throttle windows, and a path
/// configured in months asks for "about a month".
pub fn interval_to_duration(microseconds: i64, days: i32, months: i32) -> (span: Span)
    ensures
        span == microseconds + days * 86_400_000_000 + months * 30 * 86_400_000_000,
        span <= MAX_SPAN,
{
    microseconds as i128 + days as i128 * 86_400_000_000 + months as i128 * 30 * 86_400_000_000
}

// ----------------------------------------------------------------------------------------------------
// What the key tells apart
// ----------------------------------------------------------------------------------------------------

/// Whether two subjects are one notification: the same deadline or bucket to the second, or the same event.
pub open spec fn same_subject(a: Subject, b: Subject) -> bool {
    match (a, b) {
        (Subject::Deadline { at: x }, Subject::Deadline { at: y }) => whole_seconds(x)
            == whole_seconds(y),
        (Subject::Event { id: x }, Subject::Event { id: y }) => x == y,
        (Subject::Recurring { bucket: x }, Subject::Recurring { bucket: y }) => whole_seconds(x)
            == whole_seconds(y),
        _ => false,
    }
}

proof fn lemma_tail_injective(head: Seq<char>, a: Seq<char>, b: Seq<char>)
    requires
        head + a == head + b,
    ensures
        a == b,
{
    assert((head + a).skip(head.len() as int) =~= a);
    assert((head + b).skip(head.len() as int) =~= b);
}

proof fn lemma_subject_injective(a: Subject, b: Subject)
    requires
        subject_chars(a) == subject_chars(b),
    ensures
        same_subject(a, b),
{
    reveal_strlit("deadline:");
    reveal_strlit("event:");
    reveal_strlit("window:");
    let x = subject_chars(a);
    let y = subject_chars(b);
    assert(x[0] == y[0]);
    match (a, b) {
        (Subject::Deadline { at: p }, Subject::Deadline { at: q }) => {
            lemma_tail_injective(
                "deadline:"@,
                int_chars(whole_seconds(p)),
                int_chars(whole_seconds(q)),
            );
            lemma_int_chars_injective(whole_seconds(p), whole_seconds(q));
        },
        (Subject::Event { id: p }, Subject::Event { id: q }) => {
            lemma_tail_injective("event:"@, uuid_chars(p), uuid_chars(q));
            lemma_uuid_chars_injective(p, q);
        },
        (Subject::Recurring { bucket: p }, Subject::Recurring { bucket: q }) => {
            lemma_tail_injective(
                "window:"@,
                int_chars(whole_seconds(p)),
                int_chars(whole_seconds(q)),
            );
            lemma_int_chars_injective(whole_seconds(p), whole_seconds(q));
        },
        _ => {
            assert("deadline:"@[0] == 'd');
            assert("event:"@[0] == 'e');
            assert("window:"@[0] == 'w');
        },
    }
}

/// Within one kind of trigger the key tells everything apart: two firings have one key exactly when they are
/// about the same asset, or both about none, and about the same subject. So a sweep that sees one deadline every
/// day fires once, two assets expiring together are two notifications, a renewed deadline is a new one and a
/// replayed event is recognised.
pub proof fn a_key_identifies_asset_and_subject(
    kind: Seq<char>,
    asset_a: Option<Uuid>,
    a: Subject,
    asset_b: Option<Uuid>,
    b: Subject,
)
    ensures
        digest_chars(kind, asset_a, a) == digest_chars(kind, asset_b, b) <==> asset_a == asset_b
            && same_subject(a, b),
{
    if asset_a == asset_b && same_subject(a, b) {
        assert(subject_chars(a) == subject_chars(b));
    }
    if digest_chars(kind, asset_a, a) == digest_chars(kind, asset_b, b) {
        reveal_strlit("|");
        reveal_strlit("-");
        let rest_a = asset_chars(asset_a) + ("|"@ + subject_chars(a));
        let rest_b = asset_chars(asset_b) + ("|"@ + subject_chars(b));
        lemma_tail_injective(kind, "|"@ + rest_a, "|"@ + rest_b);
        lemma_tail_injective("|"@, rest_a, rest_b);
        match (asset_a, asset_b) {
            (None, None) => {
                lemma_tail_injective("-"@, "|"@ + subject_chars(a), "|"@ + subject_chars(b));
            },
            (Some(p), Some(q)) => {
                assert(rest_a.take(36) =~= uuid_chars(p));
                assert(rest_b.take(36) =~= uuid_chars(q));
                lemma_uuid_chars_injective(p, q);
                lemma_tail_injective(
                    uuid_chars(p),
                    "|"@ + subject_chars(a),
                    "|"@ + subject_chars(b),
                );
            },
            (None, Some(q)) => {
                assert(rest_a[1] == '|');
                assert(rest_b[1] == uuid_chars(q)[1]);
                lemma_uuid_char_is_no_bar(q);
            },
            (Some(p), None) => {
                assert(rest_b[1] == '|');
                assert(rest_a[1] == uuid_chars(p)[1]);
                lemma_uuid_char_is_no_bar(p);
            },
        }
        lemma_tail_injective("|"@, subject_chars(a), subject_chars(b));
        lemma_subject_injective(a, b);
    }
}

proof fn lemma_uuid_char_is_no_bar(id: Uuid)
    ensures
        uuid_chars(id)[1] != '|',
{
    let digit = crate::text::hex_digit_of(id as nat, 1);
    assert(0 <= digit < 16);
    assert(uuid_chars(id)[1] == crate::text::digit_char(digit));
}

/// Across kinds the key tells everything apart too, where no kind holds the bar that separates the parts of a key:
/// two firings have one key exactly when they are of one kind, about the same asset, or both about none, and about the
/// same subject.
pub proof fn a_key_identifies_kind_asset_and_subject(
    kind_a: Seq<char>,
    asset_a: Option<Uuid>,
    a: Subject,
    kind_b: Seq<char>,
    asset_b: Option<Uuid>,
    b: Subject,
)
    requires
        !kind_a.contains('|'),
        !kind_b.contains('|'),
    ensures
        digest_chars(kind_a, asset_a, a) == digest_chars(kind_b, asset_b, b) <==> kind_a == kind_b
            && asset_a == asset_b && same_subject(a, b),
{
    reveal_strlit("|");
    let key_a = digest_chars(kind_a, asset_a, a);
    let key_b = digest_chars(kind_b, asset_b, b);
    if key_a == key_b {
        assert(key_a[kind_a.len() as int] == '|');
        assert(key_b[kind_b.len() as int] == '|');
        if kind_a.len() < kind_b.len() {
            assert(key_b[kind_a.len() as int] == kind_b[kind_a.len() as int]);
            assert(kind_b.contains('|'));
        }
        if kind_b.len() < kind_a.len() {
            assert(key_a[kind_b.len() as int] == kind_a[kind_b.len() as int]);
            assert(kind_a.contains('|'));
        }
        assert(key_a.take(kind_a.len() as int) =~= kind_a);
        assert(key_b.take(kind_b.len() as int) =~= kind_b);
    }
    a_key_identifies_asset_and_subject(kind_a, asset_a, a, asset_b, b);
}

/// Two kinds of trigger never share a key for one asset and one subject, whatever the kinds hold.
pub proof fn the_trigger_kind_is_part_of_the_key(
    kind_a: Seq<char>,
    kind_b: Seq<char>,
    asset_id: Option<Uuid>,
    subject: Subject,
)
    requires
        kind_a != kind_b,
    ensures
        digest_chars(kind_a, asset_id, subject) != digest_chars(kind_b, asset_id, subject),
{
    let tail = "|"@ + (asset_chars(asset_id) + ("|"@ + subject_chars(subject)));
    if kind_a + tail == kind_b + tail {
        assert((kind_a + tail).len() == (kind_b + tail).len());
        assert((kind_a + tail).take(kind_a.len() as int) =~= kind_a);
        assert((kind_b + tail).take(kind_b.len() as int) =~= kind_b);
    }
}

/// A bucket holds its instant: it starts at or before it, and ends, a window of whole seconds later, after it.
pub proof fn a_bucket_holds_its_instant(now: Instant, width: Span)
    requires
        1_000_000 <= width,
        representable(bucket_seconds(whole_seconds(now), width as int / 1_000_000)),
    ensures
        bucketed(now, Some(width)) <= now,
        now < bucketed(now, Some(width)) + (width as int / 1_000_000) * 1_000_000,
        whole_seconds(bucketed(now, Some(width))) % (width as int / 1_000_000) == 0,
{
    let w = width as int / 1_000_000;
    let s = whole_seconds(now);
    let start = bucket_seconds(s, w);
    vstd::arithmetic::div_mod::lemma_fundamental_div_mod(s, w);
    vstd::arithmetic::div_mod::lemma_mod_bound(s, w);
    assert(start == w * (s / w));
    assert(start % w == 0) by {
        vstd::arithmetic::div_mod::lemma_mod_multiples_basic(s / w, w);
        assert(w * (s / w) == (s / w) * w) by (nonlinear_arith);
    }
    assert(whole_seconds(bucketed(now, Some(width))) == start);
}

/// Every caller inside one window computes the same bucket.
pub proof fn one_window_is_one_bucket(a: Instant, b: Instant, width: Span)
    requires
        1_000_000 <= width,
        whole_seconds(a) / (width as int / 1_000_000) == whole_seconds(b) / (width as int
            / 1_000_000),
        representable(bucket_seconds(whole_seconds(a), width as int / 1_000_000)),
    ensures
        bucketed(a, Some(width)) == bucketed(b, Some(width)),
{
    let w = width as int / 1_000_000;
    vstd::arithmetic::div_mod::lemma_fundamental_div_mod(whole_seconds(a), w);
    vstd::arithmetic::div_mod::lemma_fundamental_div_mod(whole_seconds(b), w);
}

/// A second holds the instants from its own start up to the next one's.
pub proof fn a_second_holds_its_instants(at: Instant)
    ensures
        whole_seconds(at) * 1_000_000 <= at < (whole_seconds(at) + 1) * 1_000_000,
{
}

/// Without a window, or with one shorter than a second, an instant is its own bucket.
pub proof fn no_window_is_no_bucket(now: Instant, width: Span)
    ensures
        bucketed(now, None) == now,
        width < 1_000_000 ==> bucketed(now, Some(width)) == now,
{
}

// ----------------------------------------------------------------------------------------------------
// Commands
// ----------------------------------------------------------------------------------------------------

pub const LAST_FIRED: &'static str =
    "SELECT max(fired_at) FROM path_firings WHERE path_id = $1 AND asset_id = $2 AND fired_at > $3 AND \
     state <> 'suppressed'";

/// The last firing of a path for an asset since an instant. One that was suppressed does not count.
pub fn last_fired(path_id: Uuid, asset_id: Option<Uuid>, since: Instant) -> (command: Command)
    ensures
        command.says(
            "SELECT max(fired_at) FROM path_firings WHERE path_id = $1 AND asset_id = $2 AND fired_at > $3 AND \
             state <> 'suppressed'"@,
            seq![
                Given::Id(path_id), Given::MaybeId(asset_id), Given::At(since),
            ],
        ),
{
    Command::new(LAST_FIRED, vec![Value::Id(path_id), Value::MaybeId(asset_id), Value::At(since)])
}

pub const INSERT: &'static str =
    "INSERT INTO path_firings (id, path_id, asset_id, digest_key, recipient_count, state, fired_at) VALUES \
     ($1, $2, $3, $4, $5, 'queued', $6) ON CONFLICT (path_id, digest_key) DO NOTHING";

/// A firing, unless its key is taken. The insert is the deduplication: a sweep on another worker cannot notify
/// again.
pub fn insert(
    id: Uuid,
    path: &Path,
    asset_id: Option<Uuid>,
    subject: &Subject,
    recipient_count: i32,
    now: Instant,
) -> (command: Command)
    ensures
        command.says(
            "INSERT INTO path_firings (id, path_id, asset_id, digest_key, recipient_count, state, fired_at) VALUES \
             ($1, $2, $3, $4, $5, 'queued', $6) ON CONFLICT (path_id, digest_key) DO NOTHING"@,
            seq![
                Given::Id(id), Given::Id(path.id), Given::MaybeId(asset_id),
                Given::Text(digest_chars(path.trigger_kind@, asset_id, *subject)),
                Given::Whole(recipient_count), Given::At(now),
            ],
        ),
{
    Command::new(
        INSERT,
        vec![
            Value::Id(id), Value::Id(path.id), Value::MaybeId(asset_id),
            as_text(digest_key(path, asset_id, subject).as_str()), Value::Whole(recipient_count),
            Value::At(now),
        ],
    )
}

pub const WRITE_FIRED: &'static str =
    "UPDATE paths SET last_fired_at = $2, fire_count = fire_count + 1, updated_at = $2 WHERE id = $1";

/// A path's counters, after a firing that is new.
pub fn write_fired(path_id: Uuid, now: Instant) -> (command: Command)
    ensures
        command.says(
            "UPDATE paths SET last_fired_at = $2, fire_count = fire_count + 1, updated_at = $2 WHERE id = $1"@,
            seq![Given::Id(path_id), Given::At(now)],
        ),
{
    Command::new(WRITE_FIRED, vec![Value::Id(path_id), Value::At(now)])
}

pub const BY_KEY: &'static str =
    "SELECT id, path_id, asset_id, digest_key, state, fired_at FROM path_firings WHERE path_id = $1 AND \
     digest_key = $2";

/// A firing by its key.
pub fn by_key(path_id: Uuid, digest_key: &str) -> (command: Command)
    ensures
        command.says(
            "SELECT id, path_id, asset_id, digest_key, state, fired_at FROM path_firings WHERE path_id = $1 AND \
             digest_key = $2"@,
            seq![Given::Id(path_id), Given::Text(digest_key@)],
        ),
{
    Command::new(BY_KEY, vec![Value::Id(path_id), as_text(digest_key)])
}

pub const DUE_FOR_DELIVERY: &'static str =
    "SELECT id, path_id, asset_id, digest_key, state, fired_at FROM path_firings WHERE state = 'queued' \
     ORDER BY fired_at LIMIT $1";

/// The queued firings due for delivery, oldest first. This does not claim them: the digest key is handed to the
/// provider as its idempotency key.
pub fn due_for_delivery(limit: i64) -> (command: Command)
    ensures
        command.says(
            "SELECT id, path_id, asset_id, digest_key, state, fired_at FROM path_firings WHERE state = 'queued' \
             ORDER BY fired_at LIMIT $1"@,
            seq![Given::Int(limit)],
        ),
{
    Command::new(DUE_FOR_DELIVERY, vec![Value::Int(limit)])
}

pub const MARK_SENT: &'static str =
    "UPDATE path_firings SET state = 'sent' WHERE id = $1 AND state = 'queued'";

/// A firing that was delivered.
pub fn mark_sent(id: Uuid) -> (command: Command)
    ensures
        command.says("UPDATE path_firings SET state = 'sent' WHERE id = $1 AND state = 'queued'"@, seq![Given::Id(id)]),
{
    Command::new(MARK_SENT, vec![Value::Id(id)])
}

pub const MARK_FAILED: &'static str =
    "UPDATE path_firings SET state = 'failed', last_error = $2 WHERE id = $1 AND state = 'queued'";

/// A firing that could not be delivered, and why. The row stays, so that its key stays taken: deleting it would turn a
/// provider's outage into a flood.
pub fn mark_failed(id: Uuid, reason: &str) -> (command: Command)
    ensures
        command.says(
            "UPDATE path_firings SET state = 'failed', last_error = $2 WHERE id = $1 AND state = 'queued'"@,
            seq![Given::Id(id), Given::Text(reason@)],
        ),
{
    Command::new(MARK_FAILED, vec![Value::Id(id), as_text(reason)])
}

pub const ENABLED_FOR: &'static str =
    "SELECT id, name, trigger_kind, lead_days, channels, digest_window, throttle_per_asset FROM paths WHERE \
     enabled AND trigger_kind = $1 ORDER BY lead_days DESC NULLS LAST, name";

/// The enabled paths for a trigger, the longest lead first.
pub fn enabled_for(trigger_kind: &str) -> (command: Command)
    ensures
        command.says(
            "SELECT id, name, trigger_kind, lead_days, channels, digest_window, throttle_per_asset FROM paths WHERE \
             enabled AND trigger_kind = $1 ORDER BY lead_days DESC NULLS LAST, name"@,
            seq![Given::Text(trigger_kind@)],
        ),
{
    Command::new(ENABLED_FOR, vec![as_text(trigger_kind)])
}

} // verus!
