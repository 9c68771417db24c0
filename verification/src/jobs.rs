//! The job queue.
//!
//! One global table, leases rather than locks, and claiming that is round-robin across tenants. A slice of every
//! batch is reserved for background work, because strict priority with an urgent band that keeps refilling is
//! starvation rather than a queue.

use crate::commands::{as_ids, as_maybe_text, as_text, Command, Given, Value};
use crate::json::Json;
use crate::lists::{lemma_join_contains, lemma_filter_ends, lemma_filter_keeps, lemma_filter_once, lemma_filter_step};
use crate::text::{opt_chars, same};
use crate::turns::{
    ahead, before, first, held, holds, in_order, lemma_an_order_exists, lemma_first,
    lemma_first_leaves_nobody_ahead, lemma_sorted, lemma_stretch, sort, taken, Turn,
};
use crate::{Error, Instant, Uuid};
use vstd::prelude::*;
use vstd::relations::injective_on;

verus! {

/// A job as handed to a worker.
#[derive(Debug, Clone)]
pub struct Job {
    pub id: Uuid,
    pub tenant_id: Uuid,
    pub kind: String,
    pub payload: Json,
    /// The current attempt among them: a first claim reports 1.
    pub attempts: i32,
    pub max_attempts: i32,
}

impl Job {
    /// Whether this attempt is the last one before the job goes dead.
    pub fn is_final_attempt(&self) -> (yes: bool)
        ensures
            yes == (self.attempts >= self.max_attempts),
    {
        self.attempts >= self.max_attempts
    }
}

/// What to enqueue.
#[derive(Debug, Clone)]
pub struct JobSpec {
    pub tenant_id: Uuid,
    pub kind: String,
    pub payload: Json,
    pub priority: i16,
    pub run_after: Option<Instant>,
    pub max_attempts: i32,
    pub dedupe_key: Option<String>,
}

impl JobSpec {
    /// A job of this kind, with the defaults: priority 100, five attempts, as soon as it can.
    pub fn new(tenant_id: Uuid, kind: String) -> (spec: JobSpec)
        ensures
            spec.tenant_id == tenant_id,
            spec.kind == kind,
            spec.payload matches Json::Object(members) && members@.len() == 0,
            spec.priority == 100,
            spec.run_after is None,
            spec.max_attempts == 5,
            spec.dedupe_key is None,
    {
        JobSpec {
            tenant_id,
            kind,
            payload: Json::Object(Vec::new()),
            priority: 100,
            run_after: None,
            max_attempts: 5,
            dedupe_key: None,
        }
    }

    /// The same job, with this payload.
    pub fn payload(self, payload: Json) -> (spec: JobSpec)
        ensures
            spec == (JobSpec { payload, ..self }),
    {
        JobSpec { payload, ..self }
    }

    /// The same job, with this priority. Lower runs first; below 50 is for work somebody is waiting on.
    pub fn priority(self, priority: i16) -> (spec: JobSpec)
        ensures
            spec == (JobSpec { priority, ..self }),
    {
        JobSpec { priority, ..self }
    }

    /// The same job, not before `at`.
    pub fn run_after(self, at: Instant) -> (spec: JobSpec)
        ensures
            spec == (JobSpec { run_after: Some(at), ..self }),
    {
        JobSpec { run_after: Some(at), ..self }
    }

    /// The same job, with this many attempts.
    pub fn max_attempts(self, n: i32) -> (spec: JobSpec)
        ensures
            spec == (JobSpec { max_attempts: n, ..self }),
    {
        JobSpec { max_attempts: n, ..self }
    }

    /// The same job, with an idempotency key: while a job with this tenant, kind and key is queued or running,
    /// enqueueing again returns that one. A handler cannot re-queue itself under its own key.
    pub fn dedupe_key(self, key: String) -> (spec: JobSpec)
        ensures
            spec == (JobSpec { dedupe_key: Some(key), ..self }),
    {
        JobSpec { dedupe_key: Some(key), ..self }
    }
}

/// The priority at and above which work is background: nothing is waiting on it.
pub const BACKGROUND_BAND: i16 = 50;

/// Tuning for one claim.
#[derive(Debug, Clone, Copy, PartialEq, Eq, Structural)]
pub struct ClaimOptions {
    /// Maximum jobs to return.
    pub limit: i64,
    /// Hard cap per tenant within one batch. Normally `None`: fairness comes from the rank ordering.
    pub per_tenant: Option<i64>,
    /// How long the claim holds, in microseconds.
    pub lease: u64,
}

impl Default for ClaimOptions {
    /// Ten jobs, no cap, a minute's lease.
    fn default() -> (options: ClaimOptions)
        ensures
            options == (ClaimOptions { limit: 10, per_tenant: None, lease: 60_000_000 }),
    {
        ClaimOptions { limit: 10, per_tenant: None, lease: 60_000_000 }
    }
}

/// How many slots of a batch are reserved for background work: a quarter, at least one, and never the last. A
/// single-job claim has no reserve, so that it is decided by priority alone.
pub open spec fn reserved(limit: int) -> int {
    if limit >= 2 {
        crate::clamped(limit / 4, 1, limit - 1)
    } else {
        0
    }
}

/// How many slots of a batch of `limit` are reserved for background work.
pub fn reserve(limit: i64) -> (slots: i64)
    ensures
        slots == reserved(limit as int),
{
    if limit >= 2 {
        crate::clamp(limit / 4, 1, limit - 1)
    } else {
        0
    }
}

/// The reserve leaves room on both sides: every batch of at least two has a slot for background work and a slot
/// for urgent work, and a smaller batch has no reserve.
pub proof fn the_reserve_never_takes_the_last_slot(limit: int)
    ensures
        limit >= 2 ==> 1 <= reserved(limit) < limit,
        limit < 2 ==> reserved(limit) == 0,
        reserved(limit) <= limit / 4 || reserved(limit) <= 1,
{
}

/// A job that is queued and due, as far as claiming cares.
#[derive(Debug, Clone, Copy, PartialEq, Eq, Structural)]
pub struct Waiting {
    pub id: Uuid,
    pub tenant_id: Uuid,
    pub priority: i16,
    pub run_after: Instant,
}

/// Whether an identifier names one job.
pub open spec fn distinct(queue: Seq<Waiting>) -> bool {
    forall|i: int, j: int| 0 <= i < j < queue.len() ==> (#[trigger] queue[i]).id != (#[trigger] queue[j]).id
}

/// Whether an identifier is that of one of these jobs.
pub open spec fn named(queue: Seq<Waiting>, id: Uuid) -> bool {
    exists|job: Waiting| #[trigger] queue.contains(job) && job.id == id
}

/// What a tenant's own jobs are ordered by: the most urgent first, and of those the longest due.
pub open spec fn own_turn(job: Waiting) -> Turn {
    (job.tenant_id, job.priority, job.run_after, job.id)
}

/// What background work is ordered by: the longest due first, whoever it belongs to.
pub open spec fn age(job: Waiting) -> Turn {
    (0, 0, job.run_after, job.id)
}

/// A job's place among its tenant's own, from one.
pub open spec fn rank(queue: Set<Waiting>, job: Waiting) -> nat {
    queue.filter(
        |other: Waiting| other.tenant_id == job.tenant_id && before(own_turn(other), own_turn(job)),
    ).len() + 1
}

/// What the rest of a batch is ordered by: every tenant's next job before any tenant's job after that.
pub open spec fn turn(queue: Set<Waiting>, job: Waiting) -> Turn {
    (rank(queue, job) as u128, job.priority, job.run_after, job.id)
}

/// The jobs that the cap per tenant leaves.
pub open spec fn fair(queue: Set<Waiting>, per_tenant: Option<i64>) -> Set<Waiting> {
    queue.filter(
        |job: Waiting|
            match per_tenant {
                Some(cap) => rank(queue, job) <= cap,
                None => true,
            },
    )
}

/// Of those, the ones nothing is waiting on.
pub open spec fn background(queue: Set<Waiting>, per_tenant: Option<i64>) -> Set<Waiting> {
    fair(queue, per_tenant).filter(|job: Waiting| job.priority >= BACKGROUND_BAND)
}

/// The jobs that the reserve takes: the longest due of the background work.
pub open spec fn starved(queue: Set<Waiting>, options: ClaimOptions) -> Set<Waiting> {
    first(
        background(queue, options.per_tenant),
        |job: Waiting| age(job),
        reserved(options.limit as int),
    )
}

/// The jobs that the rest of the batch takes, in turn.
pub open spec fn urgent(queue: Set<Waiting>, options: ClaimOptions) -> Set<Waiting> {
    first(
        fair(queue, options.per_tenant).difference(starved(queue, options)),
        |job: Waiting| turn(queue, job),
        options.limit - starved(queue, options).len(),
    )
}

/// The jobs that a claim takes.
pub open spec fn claimed(queue: Set<Waiting>, options: ClaimOptions) -> Set<Waiting> {
    starved(queue, options).union(urgent(queue, options))
}

/// A job with its place among its tenant's own.
struct Ranked {
    job: Waiting,
    rank: u64,
}

/// The jobs of a list of ranked ones.
spec fn jobs_of(ranked: Seq<Ranked>) -> Seq<Waiting> {
    ranked.map_values(|entry: Ranked| entry.job)
}

proof fn lemma_distinct_once(queue: Seq<Waiting>)
    requires
        distinct(queue),
    ensures
        queue.no_duplicates(),
        queue.to_set().finite(),
        forall|a: Waiting, b: Waiting|
            queue.contains(a) && queue.contains(b) && #[trigger] a.id == #[trigger] b.id ==> a == b,
{
    broadcast use vstd::seq_lib::seq_to_set_is_finite;

    assert forall|i: int, j: int| 0 <= i < j < queue.len() implies queue[i] != queue[j] by {
        assert(queue[i].id != queue[j].id);
    }
    assert forall|a: Waiting, b: Waiting|
        queue.contains(a) && queue.contains(b) && #[trigger] a.id == #[trigger] b.id implies a == b by {
        let i = choose|i: int| 0 <= i < queue.len() && queue[i] == a;
        let j = choose|j: int| 0 <= j < queue.len() && queue[j] == b;
        if i < j {
            assert(queue[i].id != queue[j].id);
        } else if j < i {
            assert(queue[j].id != queue[i].id);
        }
    }
}

/// Every job with its place among its tenant's own.
#[verifier::loop_isolation(false)]
fn ranked(queue: &Vec<Waiting>) -> (out: Vec<Ranked>)
    requires
        distinct(queue@),
    ensures
        jobs_of(out@).no_duplicates(),
        jobs_of(out@).to_set() == queue@.to_set(),
        forall|i: int|
            0 <= i < out@.len() ==> (#[trigger] out@[i]).rank == rank(queue@.to_set(), out@[i].job),
{
    let ghost all = queue@.to_set();
    let ghost key = |job: Waiting| own_turn(job);
    let mut turns: Vec<Turn> = Vec::new();
    let mut i: usize = 0;
    while i < queue.len()
        invariant
            i <= queue@.len(),
            turns@ =~= queue@.take(i as int).map_values(key),
        decreases queue@.len() - i,
    {
        let job = queue[i];
        turns.push((job.tenant_id, job.priority, job.run_after, job.id));
        i += 1;
    }
    let ghost given = turns@;
    proof {
        assert(queue@.take(i as int) =~= queue@);
        lemma_distinct_once(queue@);
    }
    sort(&mut turns);
    proof {
        lemma_sorted(queue@, key, given, turns@);
    }
    let mut out: Vec<Ranked> = Vec::new();
    let mut next: usize = 0;
    // Where the tenant's own stretch begins.
    let mut start: usize = 0;
    while next < turns.len()
        invariant
            start <= next <= turns@.len(),
            next > 0 ==> start < next,
            out@.len() == next,
            forall|k: int| start <= k < next ==> (#[trigger] turns@[k]).0 == turns@[start as int].0,
            forall|k: int| 0 <= k < start ==> (#[trigger] turns@[k]).0 < turns@[start as int].0,
            forall|k: int|
                0 <= k < next ==> own_turn((#[trigger] out@[k]).job) == turns@[k] && out@[k].rank == rank(
                    all,
                    out@[k].job,
                ),
        decreases turns@.len() - next,
    {
        let turn: Turn = turns[next];
        if next > 0 && turns[next - 1].0 != turn.0 {
            proof {
                assert forall|k: int| 0 <= k < next implies (#[trigger] turns@[k]).0
                    < turns@[next as int].0 by {
                    assert(before(turns@[next - 1], turns@[next as int]));
                }
            }
            start = next;
        }
        let job = Waiting { tenant_id: turn.0, priority: turn.1, run_after: turn.2, id: turn.3 };
        proof {
            let keep = |other: Waiting|
                other.tenant_id == job.tenant_id && before(own_turn(other), own_turn(job));
            assert forall|other: Waiting| all.contains(other) implies (#[trigger] keep(other)
                <==> turns@.subrange(start as int, next as int).contains(key(other))) by {
                lemma_own_stretch(all, key, turns@, start as int, next as int, other);
            }
            lemma_stretch(all, key, turns@, start as int, next as int, keep);
        }
        out.push(Ranked { job, rank: (next - start) as u64 + 1 });
        next += 1;
    }
    proof {
        let jobs = jobs_of(out@);
        assert forall|i: int, j: int| 0 <= i < j < jobs.len() implies jobs[i] != jobs[j] by {
            assert(own_turn(out@[i].job) == turns@[i] && own_turn(out@[j].job) == turns@[j]);
            assert(before(turns@[i], turns@[j]));
        }
        assert forall|job: Waiting| jobs.contains(job) implies all.contains(job) by {
            let i = choose|i: int| 0 <= i < jobs.len() && jobs[i] == job;
            assert(own_turn(out@[i].job) == turns@[i]);
            assert(held(all, key, turns@[i]));
            let known = choose|known: Waiting| holds(all, key, known, turns@[i]);
            assert(key(known) == own_turn(known));
            assert(known == job);
        }
        assert forall|job: Waiting| all.contains(job) implies jobs.contains(job) by {
            assert(turns@.contains(key(job)));
            let i = choose|i: int| 0 <= i < turns@.len() && turns@[i] == key(job);
            assert(own_turn(out@[i].job) == turns@[i]);
            assert(out@[i].job == job);
            assert(jobs[i] == job);
        }
        assert(jobs.to_set() =~= all);
    }
    out
}

/// A tenant's own jobs stand together, and those before one of them are the ones that come before it.
proof fn lemma_own_stretch(
    all: Set<Waiting>,
    key: spec_fn(Waiting) -> Turn,
    turns: Seq<Turn>,
    start: int,
    place: int,
    other: Waiting,
)
    requires
        key == (|job: Waiting| own_turn(job)),
        in_order(all, key, turns),
        0 <= start <= place < turns.len(),
        forall|k: int| start <= k <= place ==> (#[trigger] turns[k]).0 == turns[place].0,
        forall|k: int| 0 <= k < start ==> (#[trigger] turns[k]).0 < turns[place].0,
        all.contains(other),
    ensures
        other.tenant_id == turns[place].0 && before(own_turn(other), turns[place]) <==> turns.subrange(
            start,
            place,
        ).contains(key(other)),
{
    assert(turns.contains(key(other)));
    let i = choose|i: int| 0 <= i < turns.len() && turns[i] == key(other);
    let stretch = turns.subrange(start, place);
    if start <= i < place {
        assert(stretch[i - start] == key(other));
        assert(before(turns[i], turns[place]));
    } else {
        if place < i {
            assert(before(turns[place], turns[i]));
        }
        if stretch.contains(key(other)) {
            let k = choose|k: int| 0 <= k < stretch.len() && stretch[k] == key(other);
            assert(turns[start + k] == turns[i]);
            if start + k < i {
                assert(before(turns[start + k], turns[i]));
            } else {
                assert(before(turns[i], turns[start + k]));
            }
        }
    }
}

/// Whether identifiers are those of the jobs taken out of some.
spec fn names_taken(ids: Seq<Uuid>, from: Seq<Waiting>, chosen: Set<Waiting>) -> bool {
    &&& forall|job: Waiting|
        from.contains(job) ==> (ids.contains(#[trigger] job.id) <==> chosen.contains(job))
    &&& forall|i: int| 0 <= i < ids.len() ==> named(from, #[trigger] ids[i])
}

/// Of every job of a queue, its identifier is there exactly when it was taken.
proof fn lemma_names(
    queue: Seq<Waiting>,
    ids: Seq<Uuid>,
    from: Seq<Waiting>,
    chosen: Set<Waiting>,
    job: Waiting,
)
    requires
        distinct(queue),
        names_taken(ids, from, chosen),
        forall|other: Waiting| chosen.contains(other) ==> from.contains(other),
        forall|other: Waiting| from.contains(other) ==> queue.contains(other),
        queue.contains(job),
    ensures
        ids.contains(job.id) <==> chosen.contains(job),
{
    lemma_distinct_once(queue);
    if ids.contains(job.id) {
        let i = choose|i: int| 0 <= i < ids.len() && ids[i] == job.id;
        assert(named(from, ids[i]));
        let other = choose|other: Waiting| from.contains(other) && other.id == ids[i];
        assert(other == job);
    }
}

/// The identifiers of the first `n` of the items whose keys these are.
fn earliest(
    turns: Vec<Turn>,
    n: i64,
    Ghost(items): Ghost<Seq<Waiting>>,
    Ghost(key): Ghost<spec_fn(Waiting) -> Turn>,
) -> (ids: Vec<Uuid>)
    requires
        items.no_duplicates(),
        turns@ == items.map_values(key),
        forall|job: Waiting| (#[trigger] key(job)).3 == job.id,
        forall|a: Waiting, b: Waiting|
            items.contains(a) && items.contains(b) && #[trigger] a.id == #[trigger] b.id ==> a == b,
    ensures
        ids@.no_duplicates(),
        first(items.to_set(), key, n as int).finite(),
        ids@.len() == first(items.to_set(), key, n as int).len(),
        ids@.len() == taken(n as int, items.len()),
        names_taken(ids@, items, first(items.to_set(), key, n as int)),
{
    let mut turns = turns;
    let ghost given = turns@;
    sort(&mut turns);
    let ghost all = items.to_set();
    proof {
        assert forall|a: Waiting, b: Waiting|
            all.contains(a) && all.contains(b) && #[trigger] key(a) == #[trigger] key(b) implies a == b by {
            assert(a.id == b.id);
        }
        lemma_sorted(items, key, given, turns@);
        lemma_first(all, key, turns@, n as int);
    }
    let wanted: usize = if n < 0 {
        0
    } else if (n as u128) < turns.len() as u128 {
        n as usize
    } else {
        turns.len()
    };
    let mut ids: Vec<Uuid> = Vec::new();
    let mut i: usize = 0;
    while i < wanted
        invariant
            i <= wanted <= turns@.len(),
            ids@.len() == i,
            forall|k: int| 0 <= k < i ==> #[trigger] ids@[k] == turns@[k].3,
        decreases wanted - i,
    {
        ids.push(turns[i].3);
        i += 1;
    }
    proof {
        assert forall|k: int| 0 <= k < ids@.len() implies named(items, #[trigger] ids@[k]) by {
            assert(held(all, key, turns@[k]));
            let job = choose|job: Waiting| holds(all, key, job, turns@[k]);
            assert(key(job).3 == job.id);
            assert(items.contains(job) && job.id == ids@[k]);
        }
        assert forall|j: int, k: int| 0 <= j < k < ids@.len() implies ids@[j] != ids@[k] by {
            assert(held(all, key, turns@[j]));
            assert(held(all, key, turns@[k]));
            let a = choose|job: Waiting| holds(all, key, job, turns@[j]);
            let b = choose|job: Waiting| holds(all, key, job, turns@[k]);
            assert(key(a).3 == a.id && key(b).3 == b.id);
            assert(before(turns@[j], turns@[k]));
        }
        assert forall|job: Waiting| items.contains(job) implies (ids@.contains(#[trigger] job.id)
            <==> first(all, key, n as int).contains(job)) by {
            assert(key(job).3 == job.id);
            assert(turns@.contains(key(job)));
            let front = turns@.take(wanted as int);
            if front.contains(key(job)) {
                let k = choose|k: int| 0 <= k < front.len() && front[k] == key(job);
                assert(ids@[k] == job.id);
            }
            if ids@.contains(job.id) {
                let k = choose|k: int| 0 <= k < ids@.len() && ids@[k] == job.id;
                assert(held(all, key, turns@[k]));
                let other = choose|other: Waiting| holds(all, key, other, turns@[k]);
                assert(key(other).3 == other.id);
                assert(other == job);
                assert(front[k] == key(job));
            }
        }
    }
    ids
}

/// Which of the jobs that wait a batch takes.
///
/// Round-robin across tenants and not first come first served: a tenant with a long backlog does not stall the
/// others, and one tenant alone still fills the batch.
#[verifier::loop_isolation(false)]
pub fn claim(queue: &Vec<Waiting>, options: ClaimOptions) -> (picked: Vec<Uuid>)
    requires
        distinct(queue@),
    ensures
        picked@.no_duplicates(),
        picked@.len() == claimed(queue@.to_set(), options).len(),
        forall|i: int|
            0 <= i < queue@.len() ==> (picked@.contains((#[trigger] queue@[i]).id) <==> claimed(
                queue@.to_set(),
                options,
            ).contains(queue@[i])),
        forall|i: int| 0 <= i < picked@.len() ==> named(queue@, #[trigger] picked@[i]),
{
    broadcast use vstd::set::group_set_axioms;

    let ghost all = queue@.to_set();
    let ghost is_fair = |job: Waiting|
        match options.per_tenant {
            Some(cap) => rank(all, job) <= cap,
            None => true,
        };
    let ghost is_background = |job: Waiting| is_fair(job) && job.priority >= BACKGROUND_BAND;
    let ghost by_age = |job: Waiting| age(job);
    let ghost by_turn = |job: Waiting| turn(all, job);
    proof {
        lemma_distinct_once(queue@);
    }
    let ranks = ranked(queue);
    let ghost jobs = jobs_of(ranks@);
    let mut turns: Vec<Turn> = Vec::new();
    let mut aged: Vec<Turn> = Vec::new();
    let mut i: usize = 0;
    proof {
        lemma_filter_ends(jobs, is_fair);
        lemma_filter_ends(jobs, is_background);
    }
    while i < ranks.len()
        invariant
            i <= ranks@.len(),
            turns@ =~= jobs.take(i as int).filter(is_fair).map_values(by_turn),
            aged@ =~= jobs.take(i as int).filter(is_background).map_values(by_age),
        decreases ranks@.len() - i,
    {
        let job = ranks[i].job;
        let place: u64 = ranks[i].rank;
        let fair = match options.per_tenant {
            Some(cap) => place as i128 <= cap as i128,
            None => true,
        };
        proof {
            assert(jobs[i as int] == job);
            lemma_filter_step(jobs, is_fair, i as int);
            lemma_filter_step(jobs, is_background, i as int);
        }
        if fair {
            turns.push((place as u128, job.priority, job.run_after, job.id));
            if job.priority >= BACKGROUND_BAND {
                aged.push((0, 0, job.run_after, job.id));
            }
        }
        i += 1;
    }
    let ghost fair_jobs = jobs.filter(is_fair);
    let ghost old_jobs = jobs.filter(is_background);
    proof {
        lemma_filter_once(jobs, is_fair);
        lemma_filter_once(jobs, is_background);
        assert forall|job: Waiting| fair_jobs.contains(job) <==> all.contains(job) && is_fair(job) by {
            lemma_filter_keeps(jobs, is_fair, job);
            assert(jobs.contains(job) <==> jobs.to_set().contains(job));
        }
        assert forall|job: Waiting| old_jobs.contains(job) <==> all.contains(job) && is_background(
            job,
        ) by {
            lemma_filter_keeps(jobs, is_background, job);
            assert(jobs.contains(job) <==> jobs.to_set().contains(job));
        }
        assert(fair_jobs.to_set() =~= fair(all, options.per_tenant));
        assert(old_jobs.to_set() =~= background(all, options.per_tenant));
    }
    let mut picked = earliest(aged, reserve(options.limit), Ghost(old_jobs), Ghost(by_age));
    let ghost reserve_ids = picked@;
    let ghost is_left = |job: Waiting| !starved(all, options).contains(job);
    let mut rest: Vec<Turn> = Vec::new();
    let mut next: usize = 0;
    proof {
        assert(starved(all, options) == first(
            old_jobs.to_set(),
            by_age,
            reserved(options.limit as int),
        ));
        lemma_filter_ends(fair_jobs, is_left);
    }
    while next < turns.len()
        invariant
            next <= turns@.len(),
            rest@ =~= fair_jobs.take(next as int).filter(is_left).map_values(by_turn),
        decreases turns@.len() - next,
    {
        let turn: Turn = turns[next];
        let reserved = crate::among(&picked, turn.3);
        proof {
            let job = fair_jobs[next as int];
            assert(fair_jobs.contains(job));
            assert(turn == by_turn(job));
            lemma_filter_step(fair_jobs, is_left, next as int);
            lemma_names(queue@, picked@, old_jobs, starved(all, options), job);
        }
        if !reserved {
            rest.push(turn);
        }
        next += 1;
    }
    let ghost left_jobs = fair_jobs.filter(is_left);
    proof {
        lemma_filter_once(fair_jobs, is_left);
        assert forall|job: Waiting| left_jobs.contains(job) <==> fair_jobs.contains(job) && is_left(
            job,
        ) by {
            lemma_filter_keeps(fair_jobs, is_left, job);
        }
        assert(left_jobs.to_set() =~= fair(all, options.per_tenant).difference(
            starved(all, options),
        ));
        the_reserve_never_takes_the_last_slot(options.limit as int);
    }
    let slots: i64 = options.limit - picked.len() as i64;
    let mut others = earliest(rest, slots, Ghost(left_jobs), Ghost(by_turn));
    let ghost other_ids = others@;
    picked.append(&mut others);
    proof {
        assert(urgent(all, options) == first(left_jobs.to_set(), by_turn, slots as int));
        assert(picked@ =~= reserve_ids + other_ids);
        vstd::set_lib::lemma_set_disjoint_lens(starved(all, options), urgent(all, options));
        assert forall|job: Waiting| queue@.contains(job) implies (picked@.contains(#[trigger] job.id)
            <==> claimed(all, options).contains(job)) by {
            lemma_names(queue@, reserve_ids, old_jobs, starved(all, options), job);
            lemma_names(queue@, other_ids, left_jobs, urgent(all, options), job);
            lemma_join_contains(reserve_ids, other_ids, job.id);
        }
        assert forall|i: int| 0 <= i < picked@.len() implies named(queue@, #[trigger] picked@[i]) by {
            let from = if i < reserve_ids.len() {
                assert(named(old_jobs, reserve_ids[i]));
                old_jobs
            } else {
                assert(named(left_jobs, other_ids[i - reserve_ids.len()]));
                left_jobs
            };
            let job = choose|job: Waiting| from.contains(job) && job.id == picked@[i];
            assert(queue@.contains(job));
        }
        assert forall|i: int, j: int| 0 <= i < j < picked@.len() implies picked@[i] != picked@[j] by {
            if i < reserve_ids.len() && j >= reserve_ids.len() {
                assert(named(old_jobs, reserve_ids[i]));
                let job = choose|job: Waiting| old_jobs.contains(job) && job.id == reserve_ids[i];
                assert(queue@.contains(job));
                lemma_names(queue@, reserve_ids, old_jobs, starved(all, options), job);
                lemma_names(queue@, other_ids, left_jobs, urgent(all, options), job);
                assert(reserve_ids.contains(job.id));
                assert(other_ids.contains(other_ids[j - reserve_ids.len()]));
            }
        }
    }
    picked
}

/// Whether these can be the jobs that wait: as many as memory holds, each under its own identifier.
pub open spec fn possible(queue: Set<Waiting>) -> bool {
    &&& queue.finite()
    &&& queue.len() <= usize::MAX
    &&& forall|a: Waiting, b: Waiting|
        queue.contains(a) && queue.contains(b) && #[trigger] a.id == #[trigger] b.id ==> a == b
}

proof fn lemma_the_two_parts(queue: Set<Waiting>, options: ClaimOptions)
    requires
        possible(queue),
    ensures
        starved(queue, options).finite(),
        starved(queue, options).len() == taken(
            reserved(options.limit as int),
            background(queue, options.per_tenant).len(),
        ),
        urgent(queue, options).finite(),
        urgent(queue, options).len() == taken(
            options.limit - starved(queue, options).len(),
            fair(queue, options.per_tenant).difference(starved(queue, options)).len(),
        ),
        starved(queue, options).subset_of(fair(queue, options.per_tenant)),
        fair(queue, options.per_tenant).finite(),
{
    broadcast use vstd::set::group_set_axioms;

    let by_age = |job: Waiting| age(job);
    let by_turn = |job: Waiting| turn(queue, job);
    let old_jobs = background(queue, options.per_tenant);
    let left = fair(queue, options.per_tenant).difference(starved(queue, options));
    assert(injective_on(by_age, old_jobs)) by {
        assert forall|a: Waiting, b: Waiting|
            old_jobs.contains(a) && old_jobs.contains(b) && #[trigger] by_age(a) == #[trigger] by_age(
                b,
            ) implies a == b by {
            assert(a.id == b.id);
        }
    }
    assert(injective_on(by_turn, left)) by {
        assert forall|a: Waiting, b: Waiting|
            left.contains(a) && left.contains(b) && #[trigger] by_turn(a) == #[trigger] by_turn(
                b,
            ) implies a == b by {
            assert(a.id == b.id);
        }
    }
    let aged = lemma_an_order_exists(old_jobs, by_age);
    lemma_first(old_jobs, by_age, aged, reserved(options.limit as int));
    let turns = lemma_an_order_exists(left, by_turn);
    lemma_first(left, by_turn, turns, options.limit - starved(queue, options).len());
}

/// Fairness costs no throughput: a batch is as full as its limit and the jobs that wait allow, however they are
/// spread over tenants. Without a cap per tenant one tenant alone fills it.
pub proof fn a_batch_is_full(queue: Set<Waiting>, options: ClaimOptions)
    requires
        possible(queue),
    ensures
        claimed(queue, options).len() == taken(
            options.limit as int,
            fair(queue, options.per_tenant).len(),
        ),
        options.per_tenant is None ==> fair(queue, options.per_tenant) == queue,
{
    broadcast use vstd::set::group_set_axioms;

    lemma_the_two_parts(queue, options);
    the_reserve_never_takes_the_last_slot(options.limit as int);
    let all = fair(queue, options.per_tenant);
    let few = starved(queue, options);
    let old_jobs = background(queue, options.per_tenant);
    vstd::set_lib::lemma_len_subset(few, all);
    vstd::set_lib::lemma_set_disjoint_lens(few, all.difference(few));
    assert(few + all.difference(few) =~= all);
    vstd::set_lib::lemma_set_disjoint_lens(few, urgent(queue, options));
    if options.per_tenant is None {
        assert(all =~= queue);
    }
}

/// Every tenant's next job comes before any tenant's job after that: outside the reserve no job is taken while a
/// job that comes earlier among its own tenant's is left. A tenant's only job comes first among its own.
pub proof fn tenants_take_turns(
    queue: Set<Waiting>,
    options: ClaimOptions,
    job: Waiting,
    other: Waiting,
)
    requires
        possible(queue),
        urgent(queue, options).contains(job),
        fair(queue, options.per_tenant).contains(other),
    ensures
        rank(queue, other) < rank(queue, job) ==> claimed(queue, options).contains(other),
        (forall|own: Waiting|
            queue.contains(own) && #[trigger] own.tenant_id == other.tenant_id ==> own == other)
            ==> rank(queue, other) == 1,
{
    broadcast use vstd::set::group_set_axioms;

    let by_turn = |one: Waiting| turn(queue, one);
    let left = fair(queue, options.per_tenant).difference(starved(queue, options));
    let n = options.limit - starved(queue, options).len();
    lemma_the_two_parts(queue, options);
    if rank(queue, other) < rank(queue, job) && !starved(queue, options).contains(other) {
        assert(left.contains(other) && left.contains(job));
        lemma_rank_fits(queue, job);
        lemma_rank_fits(queue, other);
        assert(before(by_turn(other), by_turn(job)));
        let sooner = ahead(left, by_turn, other);
        let before_job = ahead(left, by_turn, job);
        assert(sooner.subset_of(before_job));
        vstd::set_lib::lemma_len_subset(sooner, before_job);
        assert(urgent(queue, options).contains(other));
    }
    if forall|own: Waiting|
        queue.contains(own) && #[trigger] own.tenant_id == other.tenant_id ==> own == other {
        assert(queue.filter(
            |own: Waiting| own.tenant_id == other.tenant_id && before(own_turn(own), own_turn(other)),
        ) =~= Set::empty());
    }
}

proof fn lemma_rank_fits(queue: Set<Waiting>, job: Waiting)
    requires
        possible(queue),
    ensures
        rank(queue, job) <= usize::MAX + 1,
{
    queue.lemma_len_filter(
        |other: Waiting| other.tenant_id == job.tenant_id && before(own_turn(other), own_turn(job)),
    );
}

/// Background work is never starved: a batch of two or more takes some of it where there is any, it takes as much as
/// the reserve holds where there is enough, and what it takes is the longest due.
pub proof fn background_work_is_not_starved(
    queue: Set<Waiting>,
    options: ClaimOptions,
    job: Waiting,
    older: Waiting,
)
    requires
        possible(queue),
    ensures
        starved(queue, options).subset_of(background(queue, options.per_tenant)),
        starved(queue, options).subset_of(claimed(queue, options)),
        starved(queue, options).len() == taken(
            reserved(options.limit as int),
            background(queue, options.per_tenant).len(),
        ),
        options.limit >= 2 && background(queue, options.per_tenant).len() > 0 ==> starved(
            queue,
            options,
        ).len() > 0,
        starved(queue, options).contains(job) && background(queue, options.per_tenant).contains(older)
            && before(age(older), age(job)) ==> starved(queue, options).contains(older),
{
    broadcast use vstd::set::group_set_axioms;

    lemma_the_two_parts(queue, options);
    the_reserve_never_takes_the_last_slot(options.limit as int);
    let by_age = |one: Waiting| age(one);
    let old_jobs = background(queue, options.per_tenant);
    if starved(queue, options).contains(job) && old_jobs.contains(older) && before(age(older), age(job)) {
        let sooner = ahead(old_jobs, by_age, older);
        let before_job = ahead(old_jobs, by_age, job);
        assert(sooner.subset_of(before_job));
        vstd::set_lib::lemma_len_subset(sooner, before_job);
    }
}

/// Whether one job is to be run before another, as far as the two alone say: it has the lower priority number, or the
/// same and has been due longer, or is as long due and has the smaller identifier.
pub open spec fn sooner(job: Waiting, other: Waiting) -> bool {
    ||| job.priority < other.priority
    ||| job.priority == other.priority && job.run_after < other.run_after
    ||| job.priority == other.priority && job.run_after == other.run_after && job.id < other.id
}

/// A tenant's own jobs are placed by urgency: the lower priority number has the smaller place, of two with one number
/// the one that has been due longer. The places run from one to as many as the tenant has jobs, so no other tenant's job
/// takes one of them.
pub proof fn a_tenants_own_jobs_are_placed_by_urgency(queue: Set<Waiting>, job: Waiting, other: Waiting)
    requires
        possible(queue),
        queue.contains(job),
        queue.contains(other),
        job.tenant_id == other.tenant_id,
    ensures
        sooner(other, job) ==> rank(queue, other) < rank(queue, job),
        other.priority < job.priority ==> rank(queue, other) < rank(queue, job),
        other != job ==> rank(queue, other) != rank(queue, job),
        1 <= rank(queue, job) <= queue.filter(|own: Waiting| own.tenant_id == job.tenant_id).len(),
{
    broadcast use vstd::set::group_set_axioms;

    if sooner(other, job) {
        lemma_placed_ahead(queue, job, other);
    } else if sooner(job, other) {
        lemma_placed_ahead(queue, other, job);
    }
    let mine = |own: Waiting| own.tenant_id == job.tenant_id;
    let ahead_of_it = |own: Waiting|
        own.tenant_id == job.tenant_id && before(own_turn(own), own_turn(job));
    queue.lemma_len_filter(mine);
    queue.lemma_len_filter(ahead_of_it);
    let own = queue.filter(mine);
    assert(queue.filter(ahead_of_it).subset_of(own.remove(job)));
    vstd::set_lib::lemma_len_subset(queue.filter(ahead_of_it), own.remove(job));
}

proof fn lemma_placed_ahead(queue: Set<Waiting>, job: Waiting, other: Waiting)
    requires
        possible(queue),
        queue.contains(job),
        queue.contains(other),
        job.tenant_id == other.tenant_id,
        sooner(other, job),
    ensures
        rank(queue, other) < rank(queue, job),
{
    broadcast use vstd::set::group_set_axioms;

    let before_other = |own: Waiting|
        own.tenant_id == other.tenant_id && before(own_turn(own), own_turn(other));
    let before_job = |own: Waiting|
        own.tenant_id == job.tenant_id && before(own_turn(own), own_turn(job));
    queue.lemma_len_filter(before_other);
    queue.lemma_len_filter(before_job);
    let fewer = queue.filter(before_other);
    let more = queue.filter(before_job);
    assert(more.contains(other) && !fewer.contains(other));
    assert(fewer.subset_of(more.remove(other)));
    vstd::set_lib::lemma_len_subset(fewer, more.remove(other));
}

/// Urgent work goes first: of two jobs that the cap leaves and that have the same place among their own tenants' jobs, the
/// one with the lower priority number is taken wherever the other is taken outside the reserve. Where the numbers are one,
/// the one that has been due longer is.
pub proof fn the_more_urgent_job_goes_first(
    queue: Set<Waiting>,
    options: ClaimOptions,
    job: Waiting,
    other: Waiting,
)
    requires
        possible(queue),
        claimed(queue, options).contains(job),
        !starved(queue, options).contains(job),
        fair(queue, options.per_tenant).contains(other),
        rank(queue, other) == rank(queue, job),
    ensures
        other.priority < job.priority ==> claimed(queue, options).contains(other),
        sooner(other, job) ==> claimed(queue, options).contains(other),
{
    broadcast use vstd::set::group_set_axioms;

    lemma_the_two_parts(queue, options);
    let by_turn = |one: Waiting| turn(queue, one);
    let left = fair(queue, options.per_tenant).difference(starved(queue, options));
    if sooner(other, job) && !starved(queue, options).contains(other) {
        assert(before(by_turn(other), by_turn(job)));
        lemma_first_leaves_nobody_ahead(
            left,
            by_turn,
            options.limit - starved(queue, options).len(),
            job,
            other,
        );
    }
}

/// A claim of one job is decided by urgency alone: without a cap it takes the job that no other comes before.
pub proof fn a_single_claim_takes_the_most_urgent(
    queue: Set<Waiting>,
    options: ClaimOptions,
    job: Waiting,
    other: Waiting,
)
    requires
        possible(queue),
        options.limit == 1,
        options.per_tenant is None,
        claimed(queue, options).contains(job),
        queue.contains(other),
    ensures
        job.priority <= other.priority,
        !sooner(other, job),
        queue.contains(job),
    decreases rank(queue, other),
{
    broadcast use vstd::set::group_set_axioms;

    a_batch_is_full(queue, options);
    the_reserve_never_takes_the_last_slot(options.limit as int);
    lemma_the_two_parts(queue, options);
    if other != job && rank(queue, other) > 1 {
        let ahead_of_it = |own: Waiting|
            own.tenant_id == other.tenant_id && before(own_turn(own), own_turn(other));
        queue.lemma_len_filter(ahead_of_it);
        let own = queue.filter(ahead_of_it).choose();
        assert(queue.filter(ahead_of_it).contains(own)) by {
            if queue.filter(ahead_of_it) =~= Set::<Waiting>::empty() {
                assert(queue.filter(ahead_of_it).len() == 0);
            }
        }
        a_tenants_own_jobs_are_placed_by_urgency(queue, other, own);
        a_single_claim_takes_the_most_urgent(queue, options, job, own);
    } else if other != job {
        a_tenants_own_jobs_are_placed_by_urgency(queue, job, job);
        tenants_take_turns(queue, options, job, other);
        let all = claimed(queue, options);
        if all.contains(other) {
            assert(set![job, other].subset_of(all));
            vstd::set_lib::lemma_len_subset(set![job, other], all);
        } else if rank(queue, job) == 1 {
            if sooner(other, job) {
                the_more_urgent_job_goes_first(queue, options, job, other);
            }
        }
    }
}

/// The cap binds and does no more: a job is left by it exactly where its place among its tenant's own is within it, and so
/// no batch holds more jobs of one tenant than the cap. Every job that is taken is one that waits.
pub proof fn the_cap_bounds_each_tenant(queue: Set<Waiting>, options: ClaimOptions, job: Waiting, cap: i64)
    requires
        possible(queue),
        options.per_tenant == Some(cap),
        queue.contains(job),
    ensures
        claimed(queue, options).contains(job) ==> rank(queue, job) <= cap,
        rank(queue, job) <= cap && options.limit >= queue.len() ==> claimed(queue, options).contains(job),
        claimed(queue, options).subset_of(queue),
        claimed(queue, options).filter(|own: Waiting| own.tenant_id == job.tenant_id).len() <= if cap > 0 {
            cap as int
        } else {
            0
        },
{
    broadcast use vstd::set::group_set_axioms;

    lemma_the_two_parts(queue, options);
    a_batch_is_full(queue, options);
    let all = claimed(queue, options);
    let allowed = fair(queue, options.per_tenant);
    vstd::set_lib::lemma_len_subset(allowed, queue);
    if options.limit >= queue.len() {
        vstd::set_lib::lemma_subset_equality(all, allowed);
    }
    let mine = |own: Waiting| own.tenant_id == job.tenant_id;
    all.lemma_len_filter(mine);
    let own = all.filter(mine);
    let place = |one: Waiting| rank(queue, one) as int;
    let places = own.map(place);
    assert(injective_on(place, own)) by {
        assert forall|a: Waiting, b: Waiting|
            own.contains(a) && own.contains(b) && #[trigger] place(a) == #[trigger] place(b) implies a
            == b by {
            if a != b {
                a_tenants_own_jobs_are_placed_by_urgency(queue, a, b);
            }
        }
    }
    vstd::set_lib::lemma_map_size(own, places, place);
    let top: int = if cap > 0 {
        cap as int
    } else {
        0
    };
    let within = vstd::set_lib::set_int_range(1, top + 1);
    vstd::set_lib::lemma_int_range(1, top + 1);
    assert(places.subset_of(within)) by {
        assert forall|n: int| places.contains(n) implies within.contains(n) by {
            let one = choose|one: Waiting| own.contains(one) && n == place(one);
            assert(rank(queue, one) <= cap);
        }
    }
    vstd::set_lib::lemma_len_subset(places, within);
}

/// What the reserve is for: it takes nothing but work of priority 50 and above, and of that the longest due first, whoever
/// it belongs to and however urgent it is. It is a quarter of the batch from four slots on.
pub proof fn the_reserve_takes_the_longest_due(
    queue: Set<Waiting>,
    options: ClaimOptions,
    job: Waiting,
    older: Waiting,
)
    requires
        possible(queue),
        starved(queue, options).contains(job),
        fair(queue, options.per_tenant).contains(older),
        older.priority >= 50,
    ensures
        job.priority >= 50,
        older.run_after < job.run_after ==> starved(queue, options).contains(older),
        older.run_after == job.run_after && older.id < job.id ==> starved(queue, options).contains(older),
        options.limit >= 4 ==> 4 * reserved(options.limit as int) <= options.limit < 4 * (reserved(
            options.limit as int,
        ) + 1),
{
    background_work_is_not_starved(queue, options, job, older);
}

/// Where a job has got to.
#[derive(Debug, Clone, Copy, PartialEq, Eq, Structural)]
pub enum State {
    Queued,
    Running,
    Succeeded,
    Dead,
}

impl State {
    /// The column's spelling.
    pub open spec fn chars(self) -> Seq<char> {
        match self {
            State::Queued => "queued"@,
            State::Running => "running"@,
            State::Succeeded => "succeeded"@,
            State::Dead => "dead"@,
        }
    }

    /// The column's spelling.
    pub fn as_str(self) -> (text: &'static str)
        ensures
            text@ == self.chars(),
            text@ == match self {
                State::Queued => "queued"@,
                State::Running => "running"@,
                State::Succeeded => "succeeded"@,
                State::Dead => "dead"@,
            },
    {
        match self {
            State::Queued => "queued",
            State::Running => "running",
            State::Succeeded => "succeeded",
            State::Dead => "dead",
        }
    }

    /// Reads the column's spelling.
    pub fn parse(text: &str) -> (parsed: Option<State>)
        ensures
            match parsed {
                Some(value) => text@ == value.chars(),
                None => forall|value: State| text@ != #[trigger] value.chars(),
            },
            parsed == Some(State::Queued) ==> text@ == "queued"@,
            parsed == Some(State::Running) ==> text@ == "running"@,
            parsed == Some(State::Succeeded) ==> text@ == "succeeded"@,
            parsed == Some(State::Dead) ==> text@ == "dead"@,
            parsed is None ==> text@ != "queued"@ && text@ != "running"@ && text@ != "succeeded"@ && text@ != "dead"@,
    {
        if same(text, "queued") {
            Some(State::Queued)
        } else if same(text, "running") {
            Some(State::Running)
        } else if same(text, "succeeded") {
            Some(State::Succeeded)
        } else if same(text, "dead") {
            Some(State::Dead)
        } else {
            None
        }
    }
}

/// Two values with one spelling are one value, so a spelling that is written reads back as what was written.
pub proof fn state_spellings_are_distinct(a: State, b: State)
    requires
        a.chars() == b.chars(),
    ensures
        a == b,
{
    reveal_strlit("queued");
    reveal_strlit("running");
    reveal_strlit("succeeded");
    reveal_strlit("dead");
    assert("queued"@.len() == 6);
    assert("running"@.len() == 7);
    assert("succeeded"@.len() == 9);
    assert("dead"@.len() == 4);
}

/// Where a job goes that failed, or whose lease lapsed: back to the queue, or dead once its attempts are spent. A
/// job that reliably kills its worker would otherwise be reclaimed forever.
pub open spec fn retried(attempts: int, max_attempts: int) -> State {
    if attempts >= max_attempts {
        State::Dead
    } else {
        State::Queued
    }
}

/// How long a failed job waits: two to the power of its attempts, in seconds, at most an hour. The cap matters
/// more than the curve: uncapped doubling reaches days.
pub open spec fn backoff(attempts: int) -> int {
    if attempts < 0 {
        1
    } else if attempts >= 12 {
        3600
    } else {
        crate::text::power(2, attempts as nat) as int
    }
}

/// What becomes of a job that did not succeed.
#[derive(Debug, Clone, Copy, PartialEq, Eq, Structural)]
pub struct Setback {
    pub state: State,
    /// Seconds before it may run again.
    pub wait: i64,
    /// Whether it is finished for good.
    pub finished: bool,
}

/// What becomes of a job that failed on its attempt number `attempts`, which is at least zero.
pub fn fail(attempts: i32, max_attempts: i32) -> (setback: Setback)
    requires
        attempts >= 0,
    ensures
        setback.state == retried(attempts as int, max_attempts as int),
        setback.wait == backoff(attempts as int),
        setback.finished == (setback.state == State::Dead),
        setback.state == State::Dead <==> attempts >= max_attempts,
        setback.state == State::Queued <==> attempts < max_attempts,
        setback.finished <==> attempts >= max_attempts,
{
    let dead = attempts >= max_attempts;
    let mut wait: i64 = 1;
    if attempts >= 12 {
        wait = 3600;
    } else {
        let mut i: i32 = 0;
        proof {
            reveal_with_fuel(crate::text::power, 13);
        }
        while i < attempts
            invariant
                0 <= i <= attempts < 12,
                wait == crate::text::power(2, i as nat),
                1 <= wait <= 2048,
                i < 12 ==> crate::text::power(2, 11) == 2048,
            decreases attempts - i,
        {
            proof {
                reveal_with_fuel(crate::text::power, 13);
                lemma_power_bound(i as nat);
            }
            wait = wait * 2;
            i += 1;
        }
    }
    Setback {
        state: if dead {
            State::Dead
        } else {
            State::Queued
        },
        wait,
        finished: dead,
    }
}

proof fn lemma_power_bound(i: nat)
    requires
        i < 11,
    ensures
        crate::text::power(2, i) <= 1024,
{
    reveal_with_fuel(crate::text::power, 13);
    assert(i == 0 || i == 1 || i == 2 || i == 3 || i == 4 || i == 5 || i == 6 || i == 7 || i == 8
        || i == 9 || i == 10);
}

/// What a job's row says of who runs it.
#[derive(Debug, Clone, PartialEq, Eq)]
pub struct Lease {
    pub state: State,
    pub locked_by: Option<String>,
    pub expires_at: Option<Instant>,
    pub attempts: i32,
    pub max_attempts: i32,
    pub last_error: Option<String>,
}

/// Whether a lease has lapsed: the job is running, and its worker has not been heard of since.
pub open spec fn lapsed(lease: Lease, now: Instant) -> bool {
    &&& lease.state == State::Running
    &&& match lease.expires_at {
        Some(at) => at < now,
        None => false,
    }
}

pub const LEASE_EXPIRED: &'static str = "lease expired; worker presumed dead";

/// What becomes of a job whose lease lapsed.
#[derive(Debug, Clone, PartialEq, Eq)]
pub struct Reclaimed {
    pub state: State,
    pub last_error: String,
    /// Whether it is finished for good.
    pub finished: bool,
}

/// What becomes of a job whose lease has lapsed: it goes back to the queue, or dead once its attempts are spent. An
/// error it already has is kept. A lease that is still good is left alone.
pub fn reclaim_expired(lease: &Lease, now: Instant) -> (reclaimed: Option<Reclaimed>)
    ensures
        reclaimed is Some <==> lapsed(*lease, now),
        reclaimed matches Some(inner) ==> {
            &&& inner.state == retried(lease.attempts as int, lease.max_attempts as int)
            &&& inner.finished == (inner.state == State::Dead)
            &&& inner.last_error@ == match lease.last_error {
                Some(error) => error@,
                None => "lease expired; worker presumed dead"@,
            }
        },
        reclaimed is Some <==> lease.state == State::Running && lease.expires_at is Some && lease.expires_at->0 < now,
        reclaimed matches Some(inner) ==> (inner.state == State::Dead <==> lease.attempts >= lease.max_attempts),
        reclaimed matches Some(inner) ==> lease.last_error matches Some(error) ==> inner.last_error@ == error@,
{
    let late = match lease.expires_at {
        Some(at) => at < now,
        None => false,
    };
    if lease.state == State::Running && late {
        let dead = lease.attempts >= lease.max_attempts;
        Some(
            Reclaimed {
                state: if dead {
                    State::Dead
                } else {
                    State::Queued
                },
                last_error: match &lease.last_error {
                    Some(error) => error.as_str().to_owned(),
                    None => LEASE_EXPIRED.to_owned(),
                },
                finished: dead,
            },
        )
    } else {
        None
    }
}

/// Whether a worker holds a lease.
pub open spec fn holder(state: State, locked_by: Option<Seq<char>>, worker: Seq<char>) -> bool {
    state == State::Running && locked_by == Some(worker)
}

/// Who runs a job, as text.
pub open spec fn runner(lease: Lease) -> Option<Seq<char>> {
    match lease.locked_by {
        Some(worker) => Some(worker@),
        None => None,
    }
}

/// Whether a worker may extend its lease: only the holder may. `lease` is the job's row, where there is one. A worker
/// whose lease was reclaimed must stop: another may own the job by now.
pub fn heartbeat(job_id: Uuid, worker: &str, lease: Option<&Lease>) -> (extended: Result<(), Error>)
    ensures
        extended is Ok <==> match lease {
            Some(held) => holder(held.state, runner(*held), worker@),
            None => false,
        },
        extended matches Err(error) ==> error matches Error::LeaseLost { job_id: lost, worker: by }
            && lost == job_id && by@ == worker@,
        extended is Ok ==> lease is Some && lease->0.state == State::Running && lease->0.locked_by is Some
            && lease->0.locked_by->0@ == worker@,
        lease is Some && lease->0.state == State::Running && lease->0.locked_by is Some && lease->0.locked_by->0@ == worker@
            ==> extended is Ok,
{
    let good = match lease {
        Some(held) => match &held.locked_by {
            Some(by) => held.state == State::Running && same(by.as_str(), worker),
            None => false,
        },
        None => false,
    };
    if good {
        Ok(())
    } else {
        Err(Error::LeaseLost { job_id, worker: worker.to_owned() })
    }
}

/// The attempt that a claim of a job makes, where the job is still queued. Two workers may pick one job; the second
/// finds it running and gets nothing.
pub fn take(state: State, attempts: i32) -> (attempt: Option<i32>)
    requires
        attempts < i32::MAX,
    ensures
        attempt == if state == State::Queued {
            Some((attempts + 1) as i32)
        } else {
            None
        },
        attempt is Some <==> state == State::Queued,
        attempt matches Some(next) ==> next == attempts + 1,
{
    if state == State::Queued {
        Some(attempts + 1)
    } else {
        None
    }
}

/// A worker whose lease was reclaimed cannot extend it, whether the job went back to the queue or dead.
pub proof fn a_reclaimed_lease_is_lost(
    attempts: int,
    max_attempts: int,
    locked_by: Option<Seq<char>>,
    worker: Seq<char>,
)
    ensures
        !holder(retried(attempts, max_attempts), locked_by, worker),
{
}

/// A job has one holder: no two workers can both extend one lease.
pub proof fn a_lease_has_one_holder(
    state: State,
    locked_by: Option<Seq<char>>,
    one: Seq<char>,
    other: Seq<char>,
)
    requires
        holder(state, locked_by, one),
        holder(state, locked_by, other),
    ensures
        one == other,
{
}

/// A failed job waits at least a second and at most an hour, and never less than it waited before.
pub proof fn backoff_grows_to_an_hour(attempts: int)
    ensures
        1 <= backoff(attempts) <= 3600,
        backoff(attempts) <= backoff(attempts + 1),
{
    reveal_with_fuel(crate::text::power, 14);
    if 0 <= attempts < 12 {
        assert(attempts == 0 || attempts == 1 || attempts == 2 || attempts == 3 || attempts == 4
            || attempts == 5 || attempts == 6 || attempts == 7 || attempts == 8 || attempts == 9
            || attempts == 10 || attempts == 11);
    }
}

/// A job that keeps failing ends: from its last attempt on it is dead, and before that it is queued again.
pub proof fn a_failing_job_ends(attempts: int, max_attempts: int)
    ensures
        retried(attempts, max_attempts) == State::Dead <==> attempts >= max_attempts,
        retried(attempts, max_attempts) != State::Dead ==> retried(attempts, max_attempts)
            == State::Queued,
{
}

pub const ENQUEUE_RACED: &'static str =
    "job insert conflicted but no in-flight job found; retry the enqueue";

/// The job an enqueue stands for: the one inserted, or the equivalent one in flight that it conflicted with.
pub fn enqueued(inserted: Option<Uuid>, existing: Option<Uuid>) -> (id: Result<Uuid, Error>)
    ensures
        match inserted {
            Some(inner) => id == Ok::<Uuid, Error>(inner),
            None => match existing {
                Some(inner) => id == Ok::<Uuid, Error>(inner),
                None => id matches Err(Error::Migrate(detail)) && detail@ == "job insert conflicted but no in-flight job found; retry the enqueue"@,
            },
        },
{
    match inserted {
        Some(inner) => Ok(inner),
        None => match existing {
            Some(inner) => Ok(inner),
            None => Err(Error::Migrate(ENQUEUE_RACED.to_owned())),
        },
    }
}

/// Each failure doubles the wait before the next attempt: it starts at a second and stops growing at an hour.
pub proof fn each_failure_doubles_the_wait(attempts: int)
    requires
        attempts >= 0,
    ensures
        backoff(0) == 1,
        backoff(attempts + 1) == if 2 * backoff(attempts) < 3600 {
            2 * backoff(attempts)
        } else {
            3600
        },
{
    reveal_with_fuel(crate::text::power, 14);
    assert(crate::text::power(2, 11) == 2048);
    if attempts < 12 {
        assert(attempts == 0 || attempts == 1 || attempts == 2 || attempts == 3 || attempts == 4 || attempts == 5
            || attempts == 6 || attempts == 7 || attempts == 8 || attempts == 9 || attempts == 10 || attempts == 11);
    }
}

/// A lease lapses when it ran out before now while its job was running, and never comes back: a job that does not run, and
/// one whose lease has no end, keep theirs.
pub proof fn a_lease_lapses_once(lease: Lease, now: Instant, later: Instant)
    requires
        now <= later,
    ensures
        lapsed(lease, now) ==> lapsed(lease, later),
        lapsed(lease, now) <==> lease.state == State::Running && lease.expires_at is Some && lease.expires_at->0 < now,
        lease.expires_at == Some(now) ==> !lapsed(lease, now),
{
}

/// A worker holds a job that runs under its own name, and no other.
pub proof fn a_worker_holds_what_runs_under_its_name(state: State, worker: Seq<char>, other: Seq<char>)
    ensures
        holder(State::Running, Some(worker), worker),
        holder(state, Some(worker), other) ==> state == State::Running && worker == other,
        !holder(state, None, worker),
{
}

// ----------------------------------------------------------------------------------------------------
// Commands
// ----------------------------------------------------------------------------------------------------

pub const INSERT: &'static str =
    "INSERT INTO dam_global.jobs (id, tenant_id, kind, payload, priority, run_after, max_attempts, \
     dedupe_key) VALUES ($1, $2, $3, $4, $5, coalesce($6, now()), $7, $8) ON CONFLICT DO NOTHING RETURNING \
     id";

/// A new job, unless an equivalent one is in flight.
pub fn insert(id: Uuid, spec: JobSpec) -> (command: Command)
    ensures
        command.says(
            "INSERT INTO dam_global.jobs (id, tenant_id, kind, payload, priority, run_after, max_attempts, \
             dedupe_key) VALUES ($1, $2, $3, $4, $5, coalesce($6, now()), $7, $8) ON CONFLICT DO NOTHING RETURNING \
             id"@,
            seq![
                Given::Id(id), Given::Id(spec.tenant_id), Given::Text(spec.kind@),
                Given::Json(spec.payload), Given::Small(spec.priority), Given::MaybeAt(spec.run_after),
                Given::Whole(spec.max_attempts), Given::MaybeText(opt_chars(spec.dedupe_key)),
            ],
        ),
{
    Command::new(
        INSERT,
        vec![
            Value::Id(id), Value::Id(spec.tenant_id), as_text(spec.kind.as_str()),
            Value::Json(spec.payload), Value::Small(spec.priority), Value::MaybeAt(spec.run_after),
            Value::Whole(spec.max_attempts), as_maybe_text(&spec.dedupe_key),
        ],
    )
}

pub const IN_FLIGHT: &'static str =
    "SELECT id FROM dam_global.jobs WHERE tenant_id = $1 AND kind = $2 AND dedupe_key = $3 AND state IN \
     ('queued', 'running') LIMIT 1";

/// The job in flight that a new one is equivalent to.
pub fn in_flight(tenant_id: Uuid, kind: &str, dedupe_key: &Option<String>) -> (command: Command)
    ensures
        command.says(
            "SELECT id FROM dam_global.jobs WHERE tenant_id = $1 AND kind = $2 AND dedupe_key = $3 AND state IN \
             ('queued', 'running') LIMIT 1"@,
            seq![
                Given::Id(tenant_id), Given::Text(kind@), Given::MaybeText(opt_chars(*dedupe_key)),
            ],
        ),
{
    Command::new(IN_FLIGHT, vec![Value::Id(tenant_id), as_text(kind), as_maybe_text(&*dedupe_key)])
}

pub const WAITING: &'static str =
    "SELECT id, tenant_id, priority, run_after FROM dam_global.jobs WHERE state = 'queued' AND run_after <= \
     now()";

/// The jobs that are queued and due.
pub fn waiting() -> (command: Command)
    ensures
        command.says(
            "SELECT id, tenant_id, priority, run_after FROM dam_global.jobs WHERE state = 'queued' AND run_after <= \
             now()"@,
            Seq::empty(),
        ),
{
    Command::new(WAITING, Vec::new())
}

pub const HELD_JOBS: &'static str =
    "SELECT id, tenant_id, kind, payload, state::text AS state, attempts, max_attempts FROM dam_global.jobs \
     WHERE id = ANY($1) ORDER BY id FOR UPDATE";

/// The jobs a claim picked, held until the transaction ends.
pub fn held_jobs(picked: &Vec<Uuid>) -> (command: Command)
    ensures
        command.says(
            "SELECT id, tenant_id, kind, payload, state::text AS state, attempts, max_attempts FROM dam_global.jobs \
             WHERE id = ANY($1) ORDER BY id FOR UPDATE"@,
            seq![Given::Ids(picked@)],
        ),
{
    Command::new(HELD_JOBS, vec![as_ids(picked)])
}

pub const WRITE_CLAIMED: &'static str =
    "UPDATE dam_global.jobs SET state = 'running', locked_by = $2, lease_expires_at = now() + $3 * interval \
     '1 microsecond', attempts = $4, updated_at = now() WHERE id = $1";

/// A job that a worker runs now, for a lease of so many microseconds.
pub fn write_claimed(id: Uuid, worker: &str, lease: i64, attempt: i32) -> (command: Command)
    ensures
        command.says(
            "UPDATE dam_global.jobs SET state = 'running', locked_by = $2, lease_expires_at = now() + $3 * interval \
             '1 microsecond', attempts = $4, updated_at = now() WHERE id = $1"@,
            seq![
                Given::Id(id), Given::Text(worker@), Given::Int(lease), Given::Whole(attempt),
            ],
        ),
{
    Command::new(
        WRITE_CLAIMED,
        vec![
            Value::Id(id), as_text(worker), Value::Int(lease), Value::Whole(attempt),
        ],
    )
}

pub const EXPIRED: &'static str =
    "SELECT id, now() AS now, state::text AS state, locked_by, lease_expires_at, attempts, max_attempts, \
     last_error FROM dam_global.jobs WHERE state = 'running' AND lease_expires_at < now() ORDER BY id FOR \
     UPDATE";

/// The jobs whose lease may have lapsed, held until the transaction ends.
pub fn expired() -> (command: Command)
    ensures
        command.says(
            "SELECT id, now() AS now, state::text AS state, locked_by, lease_expires_at, attempts, max_attempts, \
             last_error FROM dam_global.jobs WHERE state = 'running' AND lease_expires_at < now() ORDER BY id FOR \
             UPDATE"@,
            Seq::empty(),
        ),
{
    Command::new(EXPIRED, Vec::new())
}

pub const WRITE_RECLAIMED: &'static str =
    "UPDATE dam_global.jobs SET state = $2, locked_by = NULL, lease_expires_at = NULL, last_error = $3, \
     finished_at = CASE WHEN $4 THEN now() ELSE NULL END, updated_at = now() WHERE id = $1";

/// A job whose lease lapsed. It keeps the time it may run from.
pub fn write_reclaimed(id: Uuid, reclaimed: &Reclaimed) -> (command: Command)
    ensures
        command.says(
            "UPDATE dam_global.jobs SET state = $2, locked_by = NULL, lease_expires_at = NULL, last_error = $3, \
             finished_at = CASE WHEN $4 THEN now() ELSE NULL END, updated_at = now() WHERE id = $1"@,
            seq![
                Given::Id(id), Given::Text(reclaimed.state.chars()), Given::Text(reclaimed.last_error@),
                Given::Flag(reclaimed.finished),
            ],
        ),
{
    Command::new(
        WRITE_RECLAIMED,
        vec![
            Value::Id(id), as_text(reclaimed.state.as_str()), as_text(reclaimed.last_error.as_str()),
            Value::Flag(reclaimed.finished),
        ],
    )
}

pub const COMPLETE: &'static str =
    "UPDATE dam_global.jobs SET state = 'succeeded', locked_by = NULL, lease_expires_at = NULL, finished_at \
     = now(), updated_at = now() WHERE id = $1";

/// A job that succeeded.
pub fn complete(id: Uuid) -> (command: Command)
    ensures
        command.says(
            "UPDATE dam_global.jobs SET state = 'succeeded', locked_by = NULL, lease_expires_at = NULL, finished_at \
             = now(), updated_at = now() WHERE id = $1"@,
            seq![Given::Id(id)],
        ),
{
    Command::new(COMPLETE, vec![Value::Id(id)])
}

pub const ATTEMPTS: &'static str =
    "SELECT attempts, max_attempts FROM dam_global.jobs WHERE id = $1 FOR UPDATE";

/// How often a job was tried, held until the transaction ends.
pub fn attempts(id: Uuid) -> (command: Command)
    ensures
        command.says(
            "SELECT attempts, max_attempts FROM dam_global.jobs WHERE id = $1 FOR UPDATE"@,
            seq![Given::Id(id)],
        ),
{
    Command::new(ATTEMPTS, vec![Value::Id(id)])
}

pub const WRITE_SETBACK: &'static str =
    "UPDATE dam_global.jobs SET state = $2, locked_by = NULL, lease_expires_at = NULL, last_error = $3, \
     run_after = now() + $4 * interval '1 second', finished_at = CASE WHEN $5 THEN now() ELSE NULL END, \
     updated_at = now() WHERE id = $1";

/// A job that failed: when it may run again, or that it is dead.
pub fn write_setback(id: Uuid, error: &str, setback: Setback) -> (command: Command)
    ensures
        command.says(
            "UPDATE dam_global.jobs SET state = $2, locked_by = NULL, lease_expires_at = NULL, last_error = $3, \
             run_after = now() + $4 * interval '1 second', finished_at = CASE WHEN $5 THEN now() ELSE NULL END, \
             updated_at = now() WHERE id = $1"@,
            seq![
                Given::Id(id), Given::Text(setback.state.chars()), Given::Text(error@),
                Given::Int(setback.wait), Given::Flag(setback.finished),
            ],
        ),
{
    Command::new(
        WRITE_SETBACK,
        vec![
            Value::Id(id), as_text(setback.state.as_str()), as_text(error), Value::Int(setback.wait),
            Value::Flag(setback.finished),
        ],
    )
}

pub const HELD_LEASE: &'static str =
    "SELECT state::text AS state, locked_by, lease_expires_at, attempts, max_attempts, last_error FROM \
     dam_global.jobs WHERE id = $1 FOR UPDATE";

/// A job's lease, held until the transaction ends.
pub fn held_lease(id: Uuid) -> (command: Command)
    ensures
        command.says(
            "SELECT state::text AS state, locked_by, lease_expires_at, attempts, max_attempts, last_error FROM \
             dam_global.jobs WHERE id = $1 FOR UPDATE"@,
            seq![Given::Id(id)],
        ),
{
    Command::new(HELD_LEASE, vec![Value::Id(id)])
}

pub const WRITE_EXTENDED: &'static str =
    "UPDATE dam_global.jobs SET lease_expires_at = now() + $2 * interval '1 microsecond', updated_at = \
     now() WHERE id = $1";

/// A lease of so many microseconds from now.
pub fn write_extended(id: Uuid, lease: i64) -> (command: Command)
    ensures
        command.says(
            "UPDATE dam_global.jobs SET lease_expires_at = now() + $2 * interval '1 microsecond', updated_at = \
             now() WHERE id = $1"@,
            seq![Given::Id(id), Given::Int(lease)],
        ),
{
    Command::new(WRITE_EXTENDED, vec![Value::Id(id), Value::Int(lease)])
}

pub const DEPTH: &'static str =
    "SELECT state::text, count(*) FROM dam_global.jobs GROUP BY state ORDER BY state";

/// Queue depth per state.
pub fn depth() -> (command: Command)
    ensures
        command.says("SELECT state::text, count(*) FROM dam_global.jobs GROUP BY state ORDER BY state"@, Seq::empty()),
{
    Command::new(DEPTH, Vec::new())
}

} // verus!
