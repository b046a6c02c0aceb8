//! The queue's own rules: which states a listing covers and in what order,
//! how job ids are read from each state, the counts, the checks and plans
//! of the bulk operations, and the planning of job schedulers.
use vstd::prelude::*;
use crate::connection::RedisConnection;
use crate::error::BullmqError;
use crate::text::concat2;
use crate::types::{DeduplicationOptions, JobState, state_name};
use crate::scripts::{key, spec_key, views};
use crate::text::{i64_to_decimal, int_decimal};

verus! {

/// The states that a listing without explicit states covers, in order.
pub open spec fn default_listing_states() -> Seq<JobState> {
    seq![
        JobState::Wait,
        JobState::Active,
        JobState::Delayed,
        JobState::Prioritized,
        JobState::Completed,
        JobState::Failed,
        JobState::WaitingChildren,
    ]
}

/// One step of the normalization: add `s` unless already present, and
/// after `Wait` add `Paused` unless already present.
pub open spec fn normalize_step(acc: Seq<JobState>, s: JobState) -> Seq<JobState> {
    let a1 = if acc.contains(s) {
        acc
    } else {
        acc.push(s)
    };
    if s == JobState::Wait && !a1.contains(JobState::Paused) {
        a1.push(JobState::Paused)
    } else {
        a1
    }
}

/// The requested states in order of first request, without repeats, with
/// `Paused` following the first `Wait` (waiting jobs of a paused queue sit
/// in the paused list).
pub open spec fn normalize_states(req: Seq<JobState>) -> Seq<JobState>
    decreases req.len(),
{
    if req.len() == 0 {
        Seq::empty()
    } else {
        normalize_step(normalize_states(req.drop_last()), req.last())
    }
}

/// The states that a listing of `states` queries: all states but `Paused`
/// when none are given, then normalized (see `normalize_states`).
pub open spec fn listing_states(states: Seq<JobState>) -> Seq<JobState> {
    if states.len() == 0 {
        normalize_states(default_listing_states())
    } else {
        normalize_states(states)
    }
}

/// The states a job listing queries, in order (see `listing_states`).
pub fn normalize_job_states(states: &Vec<JobState>) -> (r: Vec<JobState>)
    ensures
        r@ == listing_states(states@),
{
    let requested: Vec<JobState> = if states.len() == 0 {
        let mut d: Vec<JobState> = Vec::new();
        d.push(JobState::Wait);
        d.push(JobState::Active);
        d.push(JobState::Delayed);
        d.push(JobState::Prioritized);
        d.push(JobState::Completed);
        d.push(JobState::Failed);
        d.push(JobState::WaitingChildren);
        assert(d@ =~= default_listing_states());
        d
    } else {
        states.clone()
    };
    let ghost req = requested@;
    assert(listing_states(states@) == normalize_states(req));
    let mut normalized: Vec<JobState> = Vec::new();
    let mut i: usize = 0;
    while i < requested.len()
        invariant
            i <= req.len(),
            req == requested@,
            normalized@ == normalize_states(req.take(i as int)),
        decreases req.len() - i,
    {
        assert(req.take(i + 1).drop_last() =~= req.take(i as int));
        let s = requested[i];
        if !contains_state(&normalized, s) {
            normalized.push(s);
        }
        if s == JobState::Wait && !contains_state(&normalized, JobState::Paused) {
            normalized.push(JobState::Paused);
        }
        i = i + 1;
    }
    assert(req.take(i as int) =~= req);
    normalized
}

/// Whether `v` holds `s`.
pub fn contains_state(v: &Vec<JobState>, s: JobState) -> (r: bool)
    ensures
        r == v@.contains(s),
{
    let mut i: usize = 0;
    while i < v.len()
        invariant
            i <= v@.len(),
            forall|j: int| 0 <= j < i ==> v@[j] != s,
        decreases v@.len() - i,
    {
        if v[i] == s {
            return true;
        }
        i = i + 1;
    }
    false
}

proof fn lemma_normalize_step(acc: Seq<JobState>, s: JobState)
    requires
        acc.no_duplicates(),
        acc.contains(JobState::Wait) ==> acc.contains(JobState::Paused),
    ensures
        normalize_step(acc, s).no_duplicates(),
        normalize_step(acc, s).contains(JobState::Wait) ==> normalize_step(acc, s).contains(
            JobState::Paused,
        ),
        normalize_step(acc, s).contains(s),
        forall|t: JobState| acc.contains(t) ==> normalize_step(acc, s).contains(t),
        forall|t: JobState|
            normalize_step(acc, s).contains(t) ==> acc.contains(t) || t == s || t
                == JobState::Paused,
{
    let a1 = if acc.contains(s) {
        acc
    } else {
        acc.push(s)
    };
    assert forall|t: JobState| a1.contains(t) <==> acc.contains(t) || t == s by {
        if !acc.contains(s) && a1.contains(t) && t != s {
            let k = choose|k: int| 0 <= k < a1.len() && a1[k] == t;
            assert(acc[k] == t);
        }
        if !acc.contains(s) && acc.contains(t) {
            let k = choose|k: int| 0 <= k < acc.len() && acc[k] == t;
            assert(a1[k] == t);
        }
        if t == s && !acc.contains(s) {
            assert(a1[acc.len() as int] == s);
        }
    }
    if s == JobState::Wait && !a1.contains(JobState::Paused) {
        let a2 = a1.push(JobState::Paused);
        assert(a2[a1.len() as int] == JobState::Paused);
        assert forall|t: JobState| a2.contains(t) <==> a1.contains(t) || t == JobState::Paused by {
            if a2.contains(t) && t != JobState::Paused {
                let k = choose|k: int| 0 <= k < a2.len() && a2[k] == t;
                assert(a1[k] == t);
            }
            if a1.contains(t) {
                let k = choose|k: int| 0 <= k < a1.len() && a1[k] == t;
                assert(a2[k] == t);
            }
        }
    }
}

/// Normalized states hold no state twice, hold `Paused` whenever they hold
/// `Wait`, hold every requested state, and hold nothing but requested
/// states and `Paused`.
pub proof fn lemma_normalized_states(req: Seq<JobState>)
    ensures
        normalize_states(req).no_duplicates(),
        normalize_states(req).contains(JobState::Wait) ==> normalize_states(req).contains(
            JobState::Paused,
        ),
        forall|s: JobState| req.contains(s) ==> normalize_states(req).contains(s),
        forall|s: JobState|
            normalize_states(req).contains(s) ==> req.contains(s) || s == JobState::Paused,
    decreases req.len(),
{
    if req.len() > 0 {
        let prev = req.drop_last();
        lemma_normalized_states(prev);
        lemma_normalize_step(normalize_states(prev), req.last());
        assert forall|s: JobState| req.contains(s) implies normalize_states(req).contains(s) by {
            let k = choose|k: int| 0 <= k < req.len() && req[k] == s;
            if k < req.len() - 1 {
                assert(prev[k] == s);
                assert(prev.contains(s));
                assert(normalize_states(prev).contains(s));
            } else {
                assert(s == req.last());
            }
        }
        assert forall|s: JobState| normalize_states(req).contains(s) implies req.contains(s) || s
            == JobState::Paused by {
            if normalize_states(prev).contains(s) && prev.contains(s) {
                let k = choose|k: int| 0 <= k < prev.len() && prev[k] == s;
                assert(req[k] == s);
                assert(req.contains(s));
            }
            if s == req.last() {
                assert(req[req.len() - 1] == s);
            }
        }
    }
}

/// The Redis command that reads job ids of a state.
#[derive(Debug, Clone, Copy, PartialEq, Eq, Structural)]
pub enum RangeCommand {
    /// `LRANGE` on a list (`wait`, `active`, `paused`).
    LRange,
    /// `ZRANGE` on a sorted set, lowest score first.
    ZRange,
    /// `ZREVRANGE` on a sorted set, highest score first.
    ZRevRange,
}

/// How to read a page of job ids of one state: the command, its index
/// arguments, and whether the returned ids must be reversed.
#[derive(Debug, Clone, Copy, PartialEq, Eq, Structural)]
pub struct IdsQuery {
    pub command: RangeCommand,
    pub first: i64,
    pub last: i64,
    pub reverse: bool,
}

/// Whether a state's jobs live in a list (rather than a sorted set).
pub open spec fn is_list_state(state: JobState) -> bool {
    state == JobState::Wait || state == JobState::Active || state == JobState::Paused
}

/// Index `i` of an oldest-first page mapped onto a list whose newest entry
/// comes first: `-1` (the end) becomes `0`, any other `i` becomes `-(i+1)`.
pub open spec fn mirrored_index(i: i64) -> int {
    if i == -1 {
        0
    } else {
        -(i + 1)
    }
}

/// The query for ids `start..=end` of `state`, oldest first when `asc`.
/// Lists hold the newest job first, so an ascending page reads the mirrored
/// index range and reverses it; sorted sets are read with `ZRANGE`
/// (ascending) or `ZREVRANGE`.
pub open spec fn spec_ids_query(state: JobState, start: i64, end: i64, asc: bool) -> IdsQuery {
    if is_list_state(state) {
        if asc {
            IdsQuery {
                command: RangeCommand::LRange,
                first: mirrored_index(end) as i64,
                last: mirrored_index(start) as i64,
                reverse: true,
            }
        } else {
            IdsQuery { command: RangeCommand::LRange, first: start, last: end, reverse: false }
        }
    } else {
        IdsQuery {
            command: if asc {
                RangeCommand::ZRange
            } else {
                RangeCommand::ZRevRange
            },
            first: start,
            last: end,
            reverse: false,
        }
    }
}

/// The query that reads ids `start..=end` of `state` (see
/// `spec_ids_query`). On a list read oldest first, `start` and `end` must
/// be below `i64::MAX` (mirroring them adds one).
pub fn job_ids_query(state: JobState, start: i64, end: i64, asc: bool) -> (r: IdsQuery)
    requires
        is_list_state(state) && asc ==> start < i64::MAX && end < i64::MAX,
    ensures
        r == spec_ids_query(state, start, end, asc),
        !is_list_state(state) ==> r.command == (if asc {
            RangeCommand::ZRange
        } else {
            RangeCommand::ZRevRange
        }) && r.first == start && r.last == end && !r.reverse,
        is_list_state(state) ==> r.command == RangeCommand::LRange && r.reverse == asc,
{
    match state {
        JobState::Wait | JobState::Active | JobState::Paused => {
            if asc {
                let modified_start = if start == -1 {
                    0
                } else {
                    -(start + 1)
                };
                let modified_end = if end == -1 {
                    0
                } else {
                    -(end + 1)
                };
                IdsQuery {
                    command: RangeCommand::LRange,
                    first: modified_end,
                    last: modified_start,
                    reverse: true,
                }
            } else {
                IdsQuery { command: RangeCommand::LRange, first: start, last: end, reverse: false }
            }
        },
        _ => IdsQuery {
            command: if asc {
                RangeCommand::ZRange
            } else {
                RangeCommand::ZRevRange
            },
            first: start,
            last: end,
            reverse: false,
        },
    }
}

/// `LRANGE` / `ZRANGE` on a sequence, with Redis's index rules: negative
/// indexes count from the end, a start before the beginning reads from the
/// beginning, a stop past the end reads to the end, and an empty range
/// reads nothing.
pub open spec fn redis_range<T>(s: Seq<T>, start: int, stop: int) -> Seq<T> {
    let n = s.len() as int;
    let a = if start < 0 {
        n + start
    } else {
        start
    };
    let b = if stop < 0 {
        n + stop
    } else {
        stop
    };
    let a2 = if a < 0 {
        0
    } else {
        a
    };
    let b2 = if b >= n {
        n - 1
    } else {
        b
    };
    if a2 > b2 || a2 >= n {
        Seq::empty()
    } else {
        s.subrange(a2, b2 + 1)
    }
}

/// Reading a list oldest first: a list holds its newest job first, and
/// reading the mirrored index range of it and reversing the result gives
/// exactly the page `start..=end` of the jobs in oldest-first order, for
/// every `start` and `end` that Redis accepts.
pub proof fn lemma_mirrored_list_page<T>(list: Seq<T>, start: int, end: int)
    ensures
        redis_range(list, -(end + 1), -(start + 1)).reverse() == redis_range(list.reverse(), start, end),
{
    let n = list.len() as int;
    let o = list.reverse();
    let lhs = redis_range(list, -(end + 1), -(start + 1));
    let rhs = redis_range(o, start, end);
    let big_a = if start < 0 { n + start } else { start };
    let big_b = if end < 0 { n + end } else { end };
    let oa = if big_a < 0 { 0 } else { big_a };
    let ob = if big_b >= n { n - 1 } else { big_b };
    let la = if n - 1 - big_b < 0 { 0 } else { n - 1 - big_b };
    let lb = if n - 1 - big_a >= n { n - 1 } else { n - 1 - big_a };
    assert(o.len() == n);
    if oa > ob || oa >= n {
        assert(rhs =~= Seq::empty());
        assert(lhs.len() == 0);
        assert(lhs.reverse() =~= Seq::empty());
    } else {
        assert(la == n - 1 - ob);
        assert(lb == n - 1 - oa);
        assert(lhs =~= list.subrange(la, lb + 1));
        assert(rhs =~= o.subrange(oa, ob + 1));
        assert(lhs.reverse() =~= rhs) by {
            assert forall|i: int| 0 <= i < rhs.len() implies lhs.reverse()[i] == rhs[i] by {
                assert(rhs[i] == o[oa + i]);
                assert(o[oa + i] == list[n - 1 - (oa + i)]);
            }
        }
    }
}

/// The query of an oldest-first page of a list state reads, once reversed,
/// exactly that page of the list in oldest-first order (the list holding
/// its newest job first).
pub proof fn lemma_ids_query_oldest_first<T>(state: JobState, list: Seq<T>, start: i64, end: i64)
    requires
        is_list_state(state),
        start < i64::MAX,
        end < i64::MAX,
    ensures
        ({
            let q = spec_ids_query(state, start, end, true);
            &&& q.command == RangeCommand::LRange
            &&& q.reverse
            &&& redis_range(list, q.first as int, q.last as int).reverse() == redis_range(
                list.reverse(),
                start as int,
                end as int,
            )
        }),
{
    lemma_mirrored_list_page(list, start as int, end as int);
}

/// What a range command reads of a collection held in ascending order
/// (a sorted set by score, a list from its head): `ZREVRANGE` counts from
/// the other end.
pub open spec fn range_read<T>(command: RangeCommand, s: Seq<T>, first: int, last: int) -> Seq<T> {
    match command {
        RangeCommand::ZRevRange => redis_range(s.reverse(), first, last),
        _ => redis_range(s, first, last),
    }
}

/// The ids that a query reads from the collection `s`, reversed when the
/// query asks for it.
pub open spec fn query_page<T>(q: IdsQuery, s: Seq<T>) -> Seq<T> {
    let r = range_read(q.command, s, q.first as int, q.last as int);
    if q.reverse {
        r.reverse()
    } else {
        r
    }
}

/// The query of a page of a state reads exactly the page `start..=end` of
/// the state's jobs in the order asked for. A sorted set `s` holds its
/// jobs by ascending score: ascending pages follow it, descending pages
/// follow it backwards. A list `s` holds its newest job first: oldest-first
/// pages follow it backwards, newest-first pages follow it.
pub proof fn lemma_ids_query_page<T>(state: JobState, s: Seq<T>, start: i64, end: i64, asc: bool)
    requires
        is_list_state(state) && asc ==> start < i64::MAX && end < i64::MAX,
    ensures
        !is_list_state(state) ==> query_page(spec_ids_query(state, start, end, asc), s) == if asc {
            redis_range(s, start as int, end as int)
        } else {
            redis_range(s.reverse(), start as int, end as int)
        },
        is_list_state(state) ==> query_page(spec_ids_query(state, start, end, asc), s) == if asc {
            redis_range(s.reverse(), start as int, end as int)
        } else {
            redis_range(s, start as int, end as int)
        },
{
    if is_list_state(state) && asc {
        lemma_mirrored_list_page(s, start as int, end as int);
        let q = spec_ids_query(state, start, end, asc);
        assert(q.first as int == mirrored_index(end));
        assert(q.last as int == mirrored_index(start));
        assert(redis_range(s, mirrored_index(end), mirrored_index(start)) == redis_range(s, -(end + 1), -(start + 1)));
    }
}

/// The number of jobs in each state.
#[derive(Debug, Clone, Copy, PartialEq, Eq, Structural)]
pub struct JobCounts {
    pub wait: u64,
    pub paused: u64,
    pub active: u64,
    pub prioritized: u64,
    pub delayed: u64,
    pub completed: u64,
    pub failed: u64,
    pub waiting_children: u64,
}

/// The number of jobs of `state`.
pub open spec fn count_of(c: JobCounts, state: JobState) -> u64 {
    match state {
        JobState::Wait => c.wait,
        JobState::Paused => c.paused,
        JobState::Active => c.active,
        JobState::Prioritized => c.prioritized,
        JobState::Delayed => c.delayed,
        JobState::Completed => c.completed,
        JobState::Failed => c.failed,
        JobState::WaitingChildren => c.waiting_children,
    }
}

/// Each state's count is a field of its own: changing the count stored
/// for one state changes what is read for that state, to the new value,
/// and for no other state.
pub proof fn lemma_counts_independent(c: JobCounts, v: u64, s: JobState)
    ensures
        count_of(JobCounts { wait: v, ..c }, JobState::Wait) == v,
        s != JobState::Wait ==> count_of(JobCounts { wait: v, ..c }, s) == count_of(c, s),
        count_of(JobCounts { paused: v, ..c }, JobState::Paused) == v,
        s != JobState::Paused ==> count_of(JobCounts { paused: v, ..c }, s) == count_of(c, s),
        count_of(JobCounts { active: v, ..c }, JobState::Active) == v,
        s != JobState::Active ==> count_of(JobCounts { active: v, ..c }, s) == count_of(c, s),
        count_of(JobCounts { prioritized: v, ..c }, JobState::Prioritized) == v,
        s != JobState::Prioritized ==> count_of(JobCounts { prioritized: v, ..c }, s) == count_of(c, s),
        count_of(JobCounts { delayed: v, ..c }, JobState::Delayed) == v,
        s != JobState::Delayed ==> count_of(JobCounts { delayed: v, ..c }, s) == count_of(c, s),
        count_of(JobCounts { completed: v, ..c }, JobState::Completed) == v,
        s != JobState::Completed ==> count_of(JobCounts { completed: v, ..c }, s) == count_of(c, s),
        count_of(JobCounts { failed: v, ..c }, JobState::Failed) == v,
        s != JobState::Failed ==> count_of(JobCounts { failed: v, ..c }, s) == count_of(c, s),
        count_of(JobCounts { waiting_children: v, ..c }, JobState::WaitingChildren) == v,
        s != JobState::WaitingChildren ==> count_of(JobCounts { waiting_children: v, ..c }, s) == count_of(c, s),
{
}

/// The pending total counts the waiting, paused, delayed, prioritized and
/// waiting-for-children jobs, each once, and neither active, completed nor
/// failed ones: their counts do not change it.
pub proof fn lemma_pending_total(c: JobCounts, v: u64)
    ensures
        pending_total(c) == count_of(c, JobState::Wait) + count_of(c, JobState::Paused) + count_of(c, JobState::Delayed)
            + count_of(c, JobState::Prioritized) + count_of(c, JobState::WaitingChildren),
        pending_total(JobCounts { active: v, ..c }) == pending_total(c),
        pending_total(JobCounts { completed: v, ..c }) == pending_total(c),
        pending_total(JobCounts { failed: v, ..c }) == pending_total(c),
        pending_total(JobCounts { delayed: v, ..c }) == pending_total(c) - c.delayed + v,
        pending_total(JobCounts { prioritized: v, ..c }) == pending_total(c) - c.prioritized + v,
{
}

/// The jobs waiting to be processed: waiting, paused, delayed, prioritized
/// and waiting for children.
pub open spec fn pending_total(c: JobCounts) -> int {
    c.wait + c.paused + c.delayed + c.prioritized + c.waiting_children
}

impl JobCounts {
    /// The number of jobs of `state`.
    pub fn get(&self, state: JobState) -> (r: u64)
        ensures
            r == count_of(*self, state),
            state == JobState::Wait ==> r == self.wait,
            state == JobState::Paused ==> r == self.paused,
            state == JobState::Active ==> r == self.active,
            state == JobState::Prioritized ==> r == self.prioritized,
            state == JobState::Delayed ==> r == self.delayed,
            state == JobState::Completed ==> r == self.completed,
            state == JobState::Failed ==> r == self.failed,
            state == JobState::WaitingChildren ==> r == self.waiting_children,
    {
        match state {
            JobState::Wait => self.wait,
            JobState::Paused => self.paused,
            JobState::Active => self.active,
            JobState::Prioritized => self.prioritized,
            JobState::Delayed => self.delayed,
            JobState::Completed => self.completed,
            JobState::Failed => self.failed,
            JobState::WaitingChildren => self.waiting_children,
        }
    }

    /// The jobs waiting to be processed (see `pending_total`), what
    /// `Queue::count` reports.
    pub fn count(&self) -> (r: u64)
        requires
            pending_total(*self) <= u64::MAX,
        ensures
            r == pending_total(*self),
            r == count_of(*self, JobState::Wait) + count_of(*self, JobState::Paused) + count_of(*self, JobState::Delayed)
                + count_of(*self, JobState::Prioritized) + count_of(*self, JobState::WaitingChildren),
    {
        self.wait + self.paused + self.delayed + self.prioritized + self.waiting_children
    }

    /// The waiting jobs, paused ones included.
    pub fn waiting_count(&self) -> (r: u64)
        requires
            self.wait + self.paused <= u64::MAX,
        ensures
            r == self.wait + self.paused,
            r == count_of(*self, JobState::Wait) + count_of(*self, JobState::Paused),
    {
        self.wait + self.paused
    }
}

/// The script that adds a job.
#[derive(Debug, Clone, Copy, PartialEq, Eq, Structural)]
pub enum AddScript {
    /// `addDelayedJob`, due at `delayed_timestamp`.
    Delayed { delayed_timestamp: u64 },
    /// `addPrioritizedJob`.
    Prioritized,
    /// `addStandardJob`.
    Standard,
}

/// Which script adds a job created at `timestamp` with `delay` and
/// `priority`: a delay makes it delayed (due at `timestamp + delay`),
/// otherwise a priority makes it prioritized, otherwise it is standard.
pub open spec fn spec_add_script(delay: u64, priority: u32, timestamp: u64) -> AddScript {
    if delay > 0 {
        AddScript::Delayed { delayed_timestamp: (timestamp + delay) as u64 }
    } else if priority > 0 {
        AddScript::Prioritized
    } else {
        AddScript::Standard
    }
}

/// A delayed job is added delayed, due once its delay has passed; a job
/// without delay is added prioritized exactly when it has a priority (any
/// positive one), and standard exactly when its priority is 0. Two jobs
/// that differ only in a positive priority are added by the same script.
pub proof fn lemma_add_script_choice(delay: u64, priority: u32, p2: u32, timestamp: u64)
    ensures
        delay > 0 && timestamp + delay <= u64::MAX ==> spec_add_script(delay, priority, timestamp) == (AddScript::Delayed {
            delayed_timestamp: (timestamp + delay) as u64,
        }),
        delay == 0 ==> (spec_add_script(delay, priority, timestamp) == AddScript::Prioritized <==> priority > 0),
        delay == 0 ==> (spec_add_script(delay, priority, timestamp) == AddScript::Standard <==> priority == 0),
        priority > 0 && p2 > 0 ==> spec_add_script(delay, priority, timestamp) == spec_add_script(delay, p2, timestamp),
{
}

/// Chooses the script that adds a job (see `spec_add_script`).
pub fn add_script_for(delay: u64, priority: u32, timestamp: u64) -> (r: AddScript)
    requires
        delay > 0 ==> timestamp + delay <= u64::MAX,
    ensures
        r == spec_add_script(delay, priority, timestamp),
        delay > 0 ==> r == (AddScript::Delayed { delayed_timestamp: (timestamp + delay) as u64 }),
        delay == 0 ==> (r == AddScript::Prioritized <==> priority > 0),
        delay == 0 ==> (r == AddScript::Standard <==> priority == 0),
{
    if delay > 0 {
        AddScript::Delayed { delayed_timestamp: timestamp + delay }
    } else if priority > 0 {
        AddScript::Prioritized
    } else {
        AddScript::Standard
    }
}

/// The deduplication key of a job: `<prefix>:<queue>:de:<id>`, or empty
/// without deduplication.
pub fn dedup_key(prefix: &str, queue_name: &str, dedup: &Option<DeduplicationOptions>) -> (r: String)
    ensures
        r@ == match *dedup {
            Some(d) => spec_key(prefix@, queue_name@, "de:"@ + d.id@),
            None => Seq::empty(),
        },
{
    match dedup {
        Some(d) => key(prefix, queue_name, concat2("de:", d.id.as_str()).as_str()),
        None => String::new(),
    }
}

/// How many of the jobs need a generated id.
pub open spec fn auto_id_count_of(custom_ids: Seq<Option<String>>) -> nat
    decreases custom_ids.len(),
{
    if custom_ids.len() == 0 {
        0
    } else {
        auto_id_count_of(custom_ids.drop_last()) + if custom_ids.last() is None {
            1nat
        } else {
            0nat
        }
    }
}

/// The number of jobs of a bulk add that need a generated id.
pub fn auto_id_count(custom_ids: &Vec<Option<String>>) -> (r: u64)
    ensures
        r == auto_id_count_of(custom_ids@),
{
    let mut n: u64 = 0;
    let mut i: usize = 0;
    while i < custom_ids.len()
        invariant
            i <= custom_ids@.len(),
            n == auto_id_count_of(custom_ids@.take(i as int)),
            n <= i,
        decreases custom_ids@.len() - i,
    {
        assert(custom_ids@.take(i + 1).drop_last() =~= custom_ids@.take(i as int));
        if custom_ids[i].is_none() {
            n = n + 1;
        }
        i = i + 1;
    }
    assert(custom_ids@.take(i as int) =~= custom_ids@);
    n
}

/// The ids of a bulk add when the id counter was raised to `last_id` for
/// the jobs without a custom id: those get `last_id - n + 1 ..= last_id` in
/// order (`n` of them), the others keep their custom id.
pub open spec fn bulk_id(custom_ids: Seq<Option<String>>, last_id: int, i: int) -> Seq<char> {
    match custom_ids[i] {
        Some(c) => c@,
        None => int_decimal(last_id - auto_id_count_of(custom_ids) + 1 + auto_id_count_of(
            custom_ids.take(i),
        )),
    }
}

proof fn lemma_auto_id_count_prefix(s: Seq<Option<String>>, i: int)
    requires
        0 <= i <= s.len(),
    ensures
        auto_id_count_of(s.take(i)) <= auto_id_count_of(s),
        i < s.len() && s[i] is None ==> auto_id_count_of(s.take(i)) + 1 <= auto_id_count_of(s),
    decreases s.len() - i,
{
    if i < s.len() {
        assert(s.take(i + 1).drop_last() =~= s.take(i));
        lemma_auto_id_count_prefix(s, i + 1);
    } else {
        assert(s.take(i) =~= s);
    }
}

proof fn lemma_auto_count_none(s: Seq<Option<String>>)
    requires
        forall|k: int| 0 <= k < s.len() ==> #[trigger] s[k] is Some,
    ensures
        auto_id_count_of(s) == 0,
    decreases s.len(),
{
    if s.len() > 0 {
        lemma_auto_count_none(s.drop_last());
    }
}

proof fn lemma_auto_count_split(s: Seq<Option<String>>, i: int)
    requires
        0 <= i <= s.len(),
    ensures
        auto_id_count_of(s) == auto_id_count_of(s.take(i)) + auto_id_count_of(s.skip(i)),
    decreases s.len(),
{
    if i == s.len() {
        assert(s.take(i) =~= s);
        assert(s.skip(i) =~= Seq::<Option<String>>::empty());
    } else {
        lemma_auto_count_split(s.drop_last(), i);
        assert(s.drop_last().take(i) =~= s.take(i));
        assert(s.skip(i).drop_last() =~= s.drop_last().skip(i));
        assert(s.skip(i).last() == s.last());
    }
}

/// The jobs of a bulk add keep their custom ids; the others get the
/// numbers the id counter handed out, in order: the first of them
/// `last_id - n + 1` and the last `last_id`, `n` being how many need one.
pub proof fn lemma_bulk_ids(custom_ids: Seq<Option<String>>, last_id: int, i: int)
    requires
        0 <= i < custom_ids.len(),
    ensures
        custom_ids[i] matches Some(c) ==> bulk_id(custom_ids, last_id, i) == c@,
        custom_ids[i] is None && (forall|k: int| 0 <= k < i ==> #[trigger] custom_ids[k] is Some) ==> bulk_id(
            custom_ids,
            last_id,
            i,
        ) == int_decimal(last_id - auto_id_count_of(custom_ids) + 1),
        custom_ids[i] is None && (forall|k: int| i < k < custom_ids.len() ==> #[trigger] custom_ids[k] is Some)
            ==> bulk_id(custom_ids, last_id, i) == int_decimal(last_id),
{
    if custom_ids[i] is None {
        if forall|k: int| 0 <= k < i ==> #[trigger] custom_ids[k] is Some {
            let t = custom_ids.take(i);
            assert forall|k: int| 0 <= k < t.len() implies #[trigger] t[k] is Some by {
                assert(t[k] == custom_ids[k]);
            }
            lemma_auto_count_none(t);
        }
        if forall|k: int| i < k < custom_ids.len() ==> #[trigger] custom_ids[k] is Some {
            lemma_auto_count_split(custom_ids, i);
            let rest = custom_ids.skip(i);
            let tail = rest.skip(1);
            assert forall|k: int| 0 <= k < tail.len() implies #[trigger] tail[k] is Some by {
                assert(tail[k] == custom_ids[i + 1 + k]);
            }
            lemma_auto_count_none(tail);
            lemma_auto_count_split(rest, 1);
            let one = rest.take(1);
            assert(one.len() == 1 && one[0] == custom_ids[i]);
            assert(one.drop_last() =~= Seq::<Option<String>>::empty());
            assert(auto_id_count_of(one.drop_last()) == 0);
            assert(one.last() is None);
            assert(auto_id_count_of(one) == 1);
        }
    }
}

/// Assigns the ids of a bulk add (see `bulk_id`). `last_id` is the value of
/// the id counter after raising it by the number of generated ids.
pub fn assign_bulk_ids(custom_ids: &Vec<Option<String>>, last_id: i64) -> (r: Vec<String>)
    requires
        auto_id_count_of(custom_ids@) <= i64::MAX,
        auto_id_count_of(custom_ids@) > 0 ==> last_id - auto_id_count_of(custom_ids@) >= i64::MIN,
        auto_id_count_of(custom_ids@) > 0 ==> last_id < i64::MAX,
    ensures
        r@.len() == custom_ids@.len(),
        forall|i: int| 0 <= i < r@.len() ==> #[trigger] r@[i]@ == bulk_id(custom_ids@, last_id as int, i),
{
    let count = auto_id_count(custom_ids);
    proof {
        lemma_auto_id_count_prefix(custom_ids@, custom_ids@.len() as int);
        assert(custom_ids@.take(custom_ids@.len() as int) =~= custom_ids@);
    }
    let mut next_id: i64 = if count > 0 {
        last_id - (count as i64) + 1
    } else {
        0
    };
    let mut ids: Vec<String> = Vec::new();
    let mut i: usize = 0;
    while i < custom_ids.len()
        invariant
            i <= custom_ids@.len(),
            count == auto_id_count_of(custom_ids@),
            count > 0 ==> next_id == last_id - count + 1 + auto_id_count_of(custom_ids@.take(i as int)),
            count > 0 ==> last_id < i64::MAX,
            ids@.len() == i,
            forall|j: int| 0 <= j < i ==> #[trigger] ids@[j]@ == bulk_id(custom_ids@, last_id as int, j),
        decreases custom_ids@.len() - i,
    {
        assert(custom_ids@.take(i + 1).drop_last() =~= custom_ids@.take(i as int));
        proof {
            lemma_auto_id_count_prefix(custom_ids@, i as int);
        }
        match &custom_ids[i] {
            Some(c) => {
                ids.push(c.clone());
            },
            None => {
                ids.push(i64_to_decimal(next_id));
                next_id = next_id + 1;
            },
        }
        i = i + 1;
    }
    ids
}

/// Checks that `retry_jobs` is asked for failed or completed jobs.
pub fn check_retry_state(state: JobState) -> (r: Result<(), BullmqError>)
    ensures
        r is Ok <==> (state == JobState::Failed || state == JobState::Completed),
        r matches Err(BullmqError::Other(m)) ==> m@ == "retry_jobs only supports failed or completed states, got: "@ + state_name(state),
        r is Ok || r matches Err(BullmqError::Other(_)),
{
    match state {
        JobState::Failed | JobState::Completed => Ok(()),
        _ => Err(BullmqError::Other(concat2("retry_jobs only supports failed or completed states, got: ", state.to_string().as_str()))),
    }
}

/// Checks that metrics are asked for completed or failed jobs.
pub fn check_metrics_state(state: JobState) -> (r: Result<(), BullmqError>)
    ensures
        r is Ok <==> (state == JobState::Completed || state == JobState::Failed),
        r matches Err(BullmqError::Other(m)) ==> m@ == "get_metrics only supports completed or failed states, got: "@ + state_name(state),
        r is Ok || r matches Err(BullmqError::Other(_)),
{
    if state != JobState::Completed && state != JobState::Failed {
        Err(BullmqError::Other(concat2("get_metrics only supports completed or failed states, got: ", state.to_string().as_str())))
    } else {
        Ok(())
    }
}

/// The batch size of `moveJobsToWait` calls: `count`, or 1000 when 0 (the
/// script would otherwise never report completion).
pub fn move_jobs_batch_size(count: u64) -> (r: u64)
    ensures
        r == if count == 0 {
            1000
        } else {
            count
        },
        r > 0,
{
    if count == 0 {
        1000
    } else {
        count
    }
}

/// Checks that the job ids and lock tokens of `extend_job_locks` pair up.
pub fn check_lock_lists(job_ids: &Vec<String>, tokens: &Vec<String>) -> (r: Result<(), BullmqError>)
    ensures
        r is Ok <==> job_ids@.len() == tokens@.len(),
        r matches Err(e) ==> (e matches BullmqError::Other(m) && m@ == "extend_job_locks requires job_ids and tokens of the same length"@),
{
    if job_ids.len() != tokens.len() {
        Err(BullmqError::Other("extend_job_locks requires job_ids and tokens of the same length".to_owned()))
    } else {
        Ok(())
    }
}

/// The plan of a `clean`: which set, the cut-off time, the total removal
/// limit and the largest limit of a script call (see `batch_limit`).
#[derive(Debug)]
pub struct CleanPlan {
    /// The state whose jobs are removed, by its wire name.
    pub set_name: String,
    /// Jobs finished (or added) before this time are removed.
    pub timestamp: u64,
    /// At most this many jobs are removed in all (unbounded: `u64::MAX`).
    pub max_count: u64,
    /// At most this many jobs are removed per script call (at most 10000);
    /// the last call asks for no more than what remains of `max_count`.
    pub max_count_per_call: u64,
}

/// Plans a `clean` at time `now` of jobs of `state` older than `grace_ms`,
/// at most `limit` of them (0: no limit). Jobs waiting for children cannot
/// be cleaned.
pub fn plan_clean(grace_ms: u64, limit: u64, state: JobState, now: u64) -> (r: Result<CleanPlan, BullmqError>)
    ensures
        state == JobState::WaitingChildren ==> (r matches Err(BullmqError::Other(m)) && m@ == "Cannot clean waiting-children jobs"@),
        state != JobState::WaitingChildren ==> (r matches Ok(p) && {
            &&& p.set_name@ == state_name(state)
            &&& p.timestamp == if now >= grace_ms { (now - grace_ms) as u64 } else { 0u64 }
            &&& p.max_count == if limit == 0 { u64::MAX } else { limit }
            &&& p.max_count_per_call == if p.max_count <= 10000 { p.max_count } else { 10000u64 }
        }),
{
    if state == JobState::WaitingChildren {
        return Err(BullmqError::Other("Cannot clean waiting-children jobs".to_owned()));
    }
    let timestamp = if now >= grace_ms {
        now - grace_ms
    } else {
        0
    };
    let max_count = if limit == 0 {
        u64::MAX
    } else {
        limit
    };
    let max_count_per_call = if max_count <= 10000 {
        max_count
    } else {
        10000
    };
    Ok(CleanPlan { set_name: state.to_string(), timestamp, max_count, max_count_per_call })
}

impl CleanPlan {
    /// The limit of the next script call after `deleted` jobs were removed
    /// in all: a full batch, or what remains of the total limit when that is
    /// less. Calls made with these limits never remove more than
    /// `max_count` jobs in all.
    pub fn batch_limit(&self, deleted: u64) -> (r: u64)
        requires
            deleted <= self.max_count,
        ensures
            r == if self.max_count - deleted <= self.max_count_per_call {
                (self.max_count - deleted) as u64
            } else {
                self.max_count_per_call
            },
            r <= self.max_count_per_call,
            deleted + r <= self.max_count,
    {
        let remaining = self.max_count - deleted;
        if remaining <= self.max_count_per_call {
            remaining
        } else {
            self.max_count_per_call
        }
    }

    /// Whether `clean` calls the script again after removing `deleted` jobs
    /// in all; `last` is the limit of the latest call and how many jobs it
    /// removed (`None` before the first call). It calls again while fewer
    /// than `max_count` are removed and the latest call removed a full
    /// batch.
    pub fn call_again(&self, deleted: u64, last: Option<(u64, u64)>) -> (r: bool)
        ensures
            r == (deleted < self.max_count && match last {
                Some((asked, removed)) => removed >= asked,
                None => true,
            }),
    {
        deleted < self.max_count && match last {
            Some((asked, removed)) => removed >= asked,
            None => true,
        }
    }
}

/// Whether `seen` holds `id`.
pub fn contains_id(seen: &Vec<String>, id: &String) -> (r: bool)
    ensures
        r == views(seen@).contains(id@),
{
    let mut i: usize = 0;
    while i < seen.len()
        invariant
            i <= seen@.len(),
            forall|j: int| 0 <= j < i ==> seen@[j]@ != id@,
        decreases seen@.len() - i,
    {
        if crate::text::str_eq(seen[i].as_str(), id.as_str()) {
            assert(views(seen@)[i as int] == id@);
            return true;
        }
        i = i + 1;
    }
    assert forall|j: int| 0 <= j < views(seen@).len() implies views(seen@)[j] != id@ by {}
    false
}

/// Records `id` as seen; true when it was not seen before (a set insert).
pub fn insert_unique(seen: &mut Vec<String>, id: &String) -> (r: bool)
    ensures
        r == !views(old(seen)@).contains(id@),
        views(final(seen)@) == if r {
            views(old(seen)@).push(id@)
        } else {
            views(old(seen)@)
        },
{
    if contains_id(seen, id) {
        false
    } else {
        let ghost before = views(seen@);
        seen.push(id.clone());
        assert(views(seen@) =~= before.push(id@));
        true
    }
}

/// The distinct ids of several id lists, in order of first occurrence.
pub open spec fn unique_ids(lists: Seq<Seq<Seq<char>>>) -> Seq<Seq<char>>
    decreases lists.len(),
{
    if lists.len() == 0 {
        Seq::empty()
    } else {
        unique_extend(unique_ids(lists.drop_last()), lists.last())
    }
}

/// `acc` followed by the ids of `ids` not in it yet, each once.
pub open spec fn unique_extend(acc: Seq<Seq<char>>, ids: Seq<Seq<char>>) -> Seq<Seq<char>>
    decreases ids.len(),
{
    if ids.len() == 0 {
        acc
    } else {
        let a = unique_extend(acc, ids.drop_last());
        if a.contains(ids.last()) {
            a
        } else {
            a.push(ids.last())
        }
    }
}

proof fn lemma_unique_extend(acc: Seq<Seq<char>>, ids: Seq<Seq<char>>)
    requires
        acc.no_duplicates(),
    ensures
        unique_extend(acc, ids).no_duplicates(),
        forall|x: Seq<char>| #[trigger] unique_extend(acc, ids).contains(x) <==> acc.contains(x) || ids.contains(x),
    decreases ids.len(),
{
    if ids.len() > 0 {
        let prev = ids.drop_last();
        lemma_unique_extend(acc, prev);
        let a = unique_extend(acc, prev);
        let last = ids.last();
        assert forall|x: Seq<char>| ids.contains(x) <==> prev.contains(x) || x == last by {
            if ids.contains(x) && x != last {
                let k = choose|k: int| 0 <= k < ids.len() && ids[k] == x;
                assert(prev[k] == x);
            }
            if prev.contains(x) {
                let k = choose|k: int| 0 <= k < prev.len() && prev[k] == x;
                assert(ids[k] == x);
            }
            if x == last {
                assert(ids[ids.len() - 1] == x);
            }
        }
        if !a.contains(last) {
            let b = a.push(last);
            assert(b[a.len() as int] == last);
            assert forall|x: Seq<char>| b.contains(x) <==> a.contains(x) || x == last by {
                if b.contains(x) && x != last {
                    let k = choose|k: int| 0 <= k < b.len() && b[k] == x;
                    assert(a[k] == x);
                }
                if a.contains(x) {
                    let k = choose|k: int| 0 <= k < a.len() && a[k] == x;
                    assert(b[k] == x);
                }
            }
        }
    }
}

/// `drain` removes every job once: the collected ids hold no id twice, and
/// hold exactly the ids that occur in some state list.
pub proof fn lemma_unique_ids(lists: Seq<Seq<Seq<char>>>)
    ensures
        unique_ids(lists).no_duplicates(),
        forall|x: Seq<char>| #[trigger] unique_ids(lists).contains(x) <==> exists|i: int| 0 <= i < lists.len() && lists[i].contains(x),
    decreases lists.len(),
{
    if lists.len() > 0 {
        let prev = lists.drop_last();
        lemma_unique_ids(prev);
        lemma_unique_extend(unique_ids(prev), lists.last());
        assert forall|x: Seq<char>| #[trigger] unique_ids(lists).contains(x) <==> exists|i: int| 0 <= i < lists.len() && lists[i].contains(x) by {
            if unique_ids(lists).contains(x) {
                if unique_ids(prev).contains(x) {
                    let i = choose|i: int| 0 <= i < prev.len() && prev[i].contains(x);
                    assert(lists[i] == prev[i]);
                } else {
                    assert(lists[lists.len() - 1].contains(x));
                }
            }
            if exists|i: int| 0 <= i < lists.len() && lists[i].contains(x) {
                let i = choose|i: int| 0 <= i < lists.len() && lists[i].contains(x);
                if i < lists.len() - 1 {
                    assert(prev[i] == lists[i]);
                    assert(unique_ids(prev).contains(x));
                }
            }
        }
    }
}

/// The distinct job ids of all state lists (see `unique_ids`); `drain`
/// removes each of these jobs once.
pub fn collect_unique_ids(lists: &Vec<Vec<String>>) -> (r: Vec<String>)
    ensures
        views(r@) == unique_ids(Seq::new(lists@.len(), |i: int| views(lists@[i]@))),
{
    let ghost ls = Seq::new(lists@.len(), |i: int| views(lists@[i]@));
    let mut seen: Vec<String> = Vec::new();
    let mut i: usize = 0;
    while i < lists.len()
        invariant
            i <= lists@.len(),
            ls == Seq::new(lists@.len(), |i: int| views(lists@[i]@)),
            views(seen@) == unique_ids(ls.take(i as int)),
        decreases lists@.len() - i,
    {
        assert(ls.take(i + 1).drop_last() =~= ls.take(i as int));
        assert(ls.take(i + 1).last() == views(lists@[i as int]@));
        let list = &lists[i];
        let ghost base = views(seen@);
        let mut j: usize = 0;
        while j < list.len()
            invariant
                j <= list@.len(),
                views(seen@) == unique_extend(base, views(list@).take(j as int)),
            decreases list@.len() - j,
        {
            assert(views(list@).take(j + 1).drop_last() =~= views(list@).take(j as int));
            insert_unique(&mut seen, &list[j]);
            j = j + 1;
        }
        assert(views(list@).take(j as int) =~= views(list@));
        i = i + 1;
    }
    assert(ls.take(i as int) =~= ls);
    seen
}

/// The ids of listed entries.
pub open spec fn entry_ids(es: Seq<(JobState, Seq<char>)>) -> Seq<Seq<char>> {
    Seq::new(es.len(), |i: int| es[i].1)
}

/// The plain content of listed entries.
pub open spec fn entries_view(v: Seq<(JobState, String)>) -> Seq<(JobState, Seq<char>)> {
    Seq::new(v.len(), |i: int| (v[i].0, v[i].1@))
}

/// `acc` followed by the ids of `ids` not listed yet, each once, listed in
/// state `state`.
pub open spec fn listing_extend(acc: Seq<(JobState, Seq<char>)>, state: JobState, ids: Seq<Seq<char>>) -> Seq<(JobState, Seq<char>)>
    decreases ids.len(),
{
    if ids.len() == 0 {
        acc
    } else {
        let a = listing_extend(acc, state, ids.drop_last());
        if entry_ids(a).contains(ids.last()) {
            a
        } else {
            a.push((state, ids.last()))
        }
    }
}

/// A listing over several states: the ids of each state's list in turn,
/// each job once, with the first state whose list holds it.
pub open spec fn listing(states: Seq<JobState>, lists: Seq<Seq<Seq<char>>>) -> Seq<(JobState, Seq<char>)>
    decreases lists.len(),
{
    if lists.len() == 0 || states.len() == 0 {
        Seq::empty()
    } else {
        listing_extend(listing(states.drop_last(), lists.drop_last()), states.last(), lists.last())
    }
}

proof fn lemma_listing_extend_ids(acc: Seq<(JobState, Seq<char>)>, state: JobState, ids: Seq<Seq<char>>)
    ensures
        entry_ids(listing_extend(acc, state, ids)) == unique_extend(entry_ids(acc), ids),
    decreases ids.len(),
{
    if ids.len() > 0 {
        lemma_listing_extend_ids(acc, state, ids.drop_last());
        let a = listing_extend(acc, state, ids.drop_last());
        if !entry_ids(a).contains(ids.last()) {
            assert(entry_ids(a.push((state, ids.last()))) =~= entry_ids(a).push(ids.last()));
        }
    }
}

/// A listing over several states holds every job once, and exactly the
/// jobs of the states' lists: its ids are those that `drain` collects.
pub proof fn lemma_listing_ids(states: Seq<JobState>, lists: Seq<Seq<Seq<char>>>)
    requires
        states.len() == lists.len(),
    ensures
        entry_ids(listing(states, lists)) == unique_ids(lists),
        entry_ids(listing(states, lists)).no_duplicates(),
        forall|x: Seq<char>| #[trigger] entry_ids(listing(states, lists)).contains(x) <==> exists|i: int|
            0 <= i < lists.len() && lists[i].contains(x),
    decreases lists.len(),
{
    if lists.len() > 0 {
        lemma_listing_ids(states.drop_last(), lists.drop_last());
        lemma_listing_extend_ids(listing(states.drop_last(), lists.drop_last()), states.last(), lists.last());
    } else {
        assert(entry_ids(listing(states, lists)) =~= unique_ids(lists));
    }
    lemma_unique_ids(lists);
}

/// Lists the jobs of several states as a listing of jobs does: the ids of
/// each state's list in turn, each job once, with the first state whose
/// list holds it (see `listing`).
pub fn merge_listings(states: &Vec<JobState>, lists: &Vec<Vec<String>>) -> (r: Vec<(JobState, String)>)
    requires
        states@.len() == lists@.len(),
    ensures
        entries_view(r@) == listing(states@, Seq::new(lists@.len(), |i: int| views(lists@[i]@))),
{
    let ghost ls = Seq::new(lists@.len(), |i: int| views(lists@[i]@));
    let mut seen: Vec<String> = Vec::new();
    let mut out: Vec<(JobState, String)> = Vec::new();
    let mut i: usize = 0;
    assert(entries_view(out@) =~= Seq::<(JobState, Seq<char>)>::empty());
    assert(views(seen@) =~= Seq::<Seq<char>>::empty());
    while i < lists.len()
        invariant
            i <= lists@.len(),
            states@.len() == lists@.len(),
            ls == Seq::new(lists@.len(), |i: int| views(lists@[i]@)),
            entries_view(out@) == listing(states@.take(i as int), ls.take(i as int)),
            views(seen@) == entry_ids(entries_view(out@)),
        decreases lists@.len() - i,
    {
        assert(ls.take(i + 1).drop_last() =~= ls.take(i as int));
        assert(states@.take(i + 1).drop_last() =~= states@.take(i as int));
        assert(ls.take(i + 1).last() == views(lists@[i as int]@));
        assert(states@.take(i + 1).last() == states@[i as int]);
        let list = &lists[i];
        let state = states[i];
        let ghost base = entries_view(out@);
        let mut j: usize = 0;
        assert(views(list@).take(0) =~= Seq::<Seq<char>>::empty());
        while j < list.len()
            invariant
                j <= list@.len(),
                entries_view(out@) == listing_extend(base, state, views(list@).take(j as int)),
                views(seen@) == entry_ids(entries_view(out@)),
            decreases list@.len() - j,
        {
            assert(views(list@).take(j + 1).drop_last() =~= views(list@).take(j as int));
            assert(views(list@).take(j + 1).last() == list@[j as int]@);
            let ghost before = entries_view(out@);
            if insert_unique(&mut seen, &list[j]) {
                out.push((state, list[j].clone()));
                assert(entries_view(out@) =~= before.push((state, list@[j as int]@)));
                assert(views(seen@) =~= entry_ids(entries_view(out@)));
            }
            j = j + 1;
        }
        assert(views(list@).take(j as int) =~= views(list@));
        i = i + 1;
    }
    assert(ls.take(i as int) =~= ls);
    assert(states@.take(i as int) =~= states@);
    out
}

/// The entries of `es` whose job was found (`present` at the same
/// position), in order.
pub open spec fn present_entries(es: Seq<(JobState, Seq<char>)>, present: Seq<bool>) -> Seq<(JobState, Seq<char>)>
    decreases es.len(),
{
    if es.len() == 0 {
        Seq::empty()
    } else {
        let rest = present_entries(es.drop_last(), present);
        if present[es.len() - 1] {
            rest.push(es.last())
        } else {
            rest
        }
    }
}

proof fn lemma_present_entries(es: Seq<(JobState, Seq<char>)>, present: Seq<bool>)
    ensures
        forall|x: Seq<char>| #[trigger] entry_ids(present_entries(es, present)).contains(x) ==> entry_ids(es).contains(x),
        entry_ids(es).no_duplicates() ==> entry_ids(present_entries(es, present)).no_duplicates(),
    decreases es.len(),
{
    if es.len() > 0 {
        let init = es.drop_last();
        lemma_present_entries(init, present);
        let rest = present_entries(init, present);
        let f = present_entries(es, present);
        assert forall|x: Seq<char>| #[trigger] entry_ids(init).contains(x) implies entry_ids(es).contains(x) by {
            let k = choose|k: int| 0 <= k < entry_ids(init).len() && entry_ids(init)[k] == x;
            assert(entry_ids(es)[k] == x);
        }
        if present[es.len() - 1] {
            assert(f =~= rest.push(es.last()));
            assert forall|x: Seq<char>| #[trigger] entry_ids(f).contains(x) implies entry_ids(es).contains(x) by {
                let k = choose|k: int| 0 <= k < entry_ids(f).len() && entry_ids(f)[k] == x;
                if k < rest.len() {
                    assert(entry_ids(rest)[k] == x);
                    assert(entry_ids(rest).contains(x));
                    assert(entry_ids(init).contains(x));
                } else {
                    assert(entry_ids(es)[es.len() - 1] == x);
                }
            }
            if entry_ids(es).no_duplicates() {
                assert(entry_ids(init).no_duplicates()) by {
                    assert forall|i: int, j: int| 0 <= i < entry_ids(init).len() && 0 <= j < entry_ids(init).len() && i != j
                        implies entry_ids(init)[i] != entry_ids(init)[j] by {
                        assert(entry_ids(init)[i] == entry_ids(es)[i] && entry_ids(init)[j] == entry_ids(es)[j]);
                    }
                }
                let last = es.last().1;
                assert(!entry_ids(init).contains(last)) by {
                    if entry_ids(init).contains(last) {
                        let k = choose|k: int| 0 <= k < entry_ids(init).len() && entry_ids(init)[k] == last;
                        assert(entry_ids(es)[k] == entry_ids(es)[es.len() - 1]);
                    }
                }
                assert(!entry_ids(rest).contains(last));
                assert forall|i: int, j: int| 0 <= i < entry_ids(f).len() && 0 <= j < entry_ids(f).len() && i != j
                    implies entry_ids(f)[i] != entry_ids(f)[j] by {
                    if i < rest.len() && j < rest.len() {
                        assert(entry_ids(f)[i] == entry_ids(rest)[i] && entry_ids(f)[j] == entry_ids(rest)[j]);
                    } else if i < rest.len() {
                        assert(entry_ids(f)[i] == entry_ids(rest)[i]);
                        assert(entry_ids(rest).contains(entry_ids(rest)[i]));
                    } else {
                        assert(entry_ids(f)[j] == entry_ids(rest)[j]);
                        assert(entry_ids(rest).contains(entry_ids(rest)[j]));
                    }
                }
            }
        } else {
            assert(f =~= rest);
            if entry_ids(es).no_duplicates() {
                assert forall|i: int, j: int| 0 <= i < entry_ids(init).len() && 0 <= j < entry_ids(init).len() && i != j
                    implies entry_ids(init)[i] != entry_ids(init)[j] by {
                    assert(entry_ids(init)[i] == entry_ids(es)[i] && entry_ids(init)[j] == entry_ids(es)[j]);
                }
            }
        }
    }
}

/// A job listing over several states, once the entries whose job hash is
/// missing are dropped, still holds no job twice, and only jobs of the
/// states' lists.
pub proof fn lemma_listing_present(states: Seq<JobState>, lists: Seq<Seq<Seq<char>>>, present: Seq<bool>)
    requires
        states.len() == lists.len(),
    ensures
        entry_ids(present_entries(listing(states, lists), present)).no_duplicates(),
        forall|x: Seq<char>| #[trigger] entry_ids(present_entries(listing(states, lists), present)).contains(x)
            ==> exists|i: int| 0 <= i < lists.len() && lists[i].contains(x),
{
    lemma_listing_ids(states, lists);
    lemma_present_entries(listing(states, lists), present);
}

/// Drops the entries whose job was not found (`present` false at the same
/// position), keeping the others in order.
pub fn keep_present(entries: &Vec<(JobState, String)>, present: &Vec<bool>) -> (r: Vec<(JobState, String)>)
    requires
        entries@.len() == present@.len(),
    ensures
        entries_view(r@) == present_entries(entries_view(entries@), present@),
{
    let ghost es = entries_view(entries@);
    let mut out: Vec<(JobState, String)> = Vec::new();
    let mut i: usize = 0;
    assert(entries_view(out@) =~= present_entries(es.take(0), present@));
    while i < entries.len()
        invariant
            i <= entries@.len(),
            entries@.len() == present@.len(),
            es == entries_view(entries@),
            entries_view(out@) == present_entries(es.take(i as int), present@),
        decreases entries@.len() - i,
    {
        assert(es.take(i + 1).drop_last() =~= es.take(i as int));
        assert(es.take(i + 1).last() == (entries@[i as int].0, entries@[i as int].1@));
        if present[i] {
            let ghost before = entries_view(out@);
            out.push((entries[i].0, entries[i].1.clone()));
            assert(entries_view(out@) =~= before.push(es.take(i + 1).last()));
        }
        i = i + 1;
    }
    assert(es.take(i as int) =~= es);
    out
}

/// The key of a job's log list: `<prefix>:<queue>:<job_id>:logs`.
pub fn logs_key(prefix: &str, queue_name: &str, job_id: &str) -> (r: String)
    ensures
        r@ == spec_key(prefix@, queue_name@, job_id@) + ":logs"@,
{
    let mut k = key(prefix, queue_name, job_id);
    k.append(":logs");
    k
}

/// The keys that `drain` deletes: the state lists and sets and the id
/// counter.
pub fn drain_keys(prefix: &str, queue_name: &str) -> (r: Vec<String>)
    ensures
        views(r@) == seq![
            spec_key(prefix@, queue_name@, "wait"@),
            spec_key(prefix@, queue_name@, "paused"@),
            spec_key(prefix@, queue_name@, "active"@),
            spec_key(prefix@, queue_name@, "prioritized"@),
            spec_key(prefix@, queue_name@, "delayed"@),
            spec_key(prefix@, queue_name@, "completed"@),
            spec_key(prefix@, queue_name@, "failed"@),
            spec_key(prefix@, queue_name@, "waiting-children"@),
            spec_key(prefix@, queue_name@, "id"@),
        ],
{
    let mut v: Vec<String> = Vec::new();
    v.push(key(prefix, queue_name, "wait"));
    v.push(key(prefix, queue_name, "paused"));
    v.push(key(prefix, queue_name, "active"));
    v.push(key(prefix, queue_name, "prioritized"));
    v.push(key(prefix, queue_name, "delayed"));
    v.push(key(prefix, queue_name, "completed"));
    v.push(key(prefix, queue_name, "failed"));
    v.push(key(prefix, queue_name, "waiting-children"));
    v.push(key(prefix, queue_name, "id"));
    assert(views(v@) =~= seq![
        spec_key(prefix@, queue_name@, "wait"@),
        spec_key(prefix@, queue_name@, "paused"@),
        spec_key(prefix@, queue_name@, "active"@),
        spec_key(prefix@, queue_name@, "prioritized"@),
        spec_key(prefix@, queue_name@, "delayed"@),
        spec_key(prefix@, queue_name@, "completed"@),
        spec_key(prefix@, queue_name@, "failed"@),
        spec_key(prefix@, queue_name@, "waiting-children"@),
        spec_key(prefix@, queue_name@, "id"@),
    ]);
    v
}

/// Builder of a queue.
#[derive(Debug)]
pub struct QueueBuilder {
    name: String,
    connection: RedisConnection,
    prefix: String,
}

impl QueueBuilder {
    /// The queue name.
    pub closed spec fn spec_name(self) -> Seq<char> {
        self.name@
    }

    /// The connection settings.
    pub closed spec fn spec_connection(self) -> RedisConnection {
        self.connection
    }

    /// The key prefix.
    pub closed spec fn spec_prefix(self) -> Seq<char> {
        self.prefix@
    }

    /// A builder for queue `name` on the local server with prefix `bull`.
    pub fn new(name: &str) -> (r: Self)
        ensures
            r.spec_name() == name@,
            r.spec_connection().spec_url() == "redis://127.0.0.1:6379"@,
            r.spec_prefix() == "bull"@,
    {
        QueueBuilder {
            name: name.to_owned(),
            connection: RedisConnection::default(),
            prefix: "bull".to_owned(),
        }
    }

    /// Sets the connection settings.
    pub fn connection(self, conn: RedisConnection) -> (r: Self)
        ensures
            r.spec_connection() == conn,
            r.spec_name() == self.spec_name(),
            r.spec_prefix() == self.spec_prefix(),
    {
        QueueBuilder { connection: conn, ..self }
    }

    /// Sets the key prefix.
    pub fn prefix(self, prefix: &str) -> (r: Self)
        ensures
            r.spec_prefix() == prefix@,
            r.spec_name() == self.spec_name(),
            r.spec_connection() == self.spec_connection(),
    {
        QueueBuilder { prefix: prefix.to_owned(), ..self }
    }

    /// The queue name.
    pub fn get_name(&self) -> (r: &str)
        ensures
            r@ == self.spec_name(),
    {
        self.name.as_str()
    }

    /// The connection settings.
    pub fn get_connection(&self) -> (r: &RedisConnection)
        ensures
            *r == self.spec_connection(),
    {
        &self.connection
    }

    /// The key prefix.
    pub fn get_prefix(&self) -> (r: &str)
        ensures
            r@ == self.spec_prefix(),
    {
        self.prefix.as_str()
    }
}

} // verus!
