//! Job states, job options, repeat options, backoff strategies and worker
//! options.
use vstd::prelude::*;
use crate::text::concat2;
use crate::text::str_eq;

verus! {

/// Default maximum number of events kept in the events stream.
pub const DEFAULT_MAX_EVENTS: u64 = 10000u64;

/// Lifecycle state of a job.
#[derive(Debug, Clone, Copy, PartialEq, Eq, Structural, Hash)]
pub enum JobState {
    Wait,
    Paused,
    Prioritized,
    WaitingChildren,
    Delayed,
    Active,
    Completed,
    Failed,
}

/// The wire name of a job state: the suffix of its Redis key and its text
/// form.
pub open spec fn state_name(s: JobState) -> Seq<char> {
    match s {
        JobState::Wait => "wait"@,
        JobState::Paused => "paused"@,
        JobState::Prioritized => "prioritized"@,
        JobState::WaitingChildren => "waiting-children"@,
        JobState::Delayed => "delayed"@,
        JobState::Active => "active"@,
        JobState::Completed => "completed"@,
        JobState::Failed => "failed"@,
    }
}

/// The job state whose wire name is `s`, if any.
pub open spec fn state_from_name(s: Seq<char>) -> Option<JobState> {
    if s == "wait"@ {
        Some(JobState::Wait)
    } else if s == "paused"@ {
        Some(JobState::Paused)
    } else if s == "prioritized"@ {
        Some(JobState::Prioritized)
    } else if s == "waiting-children"@ {
        Some(JobState::WaitingChildren)
    } else if s == "delayed"@ {
        Some(JobState::Delayed)
    } else if s == "active"@ {
        Some(JobState::Active)
    } else if s == "completed"@ {
        Some(JobState::Completed)
    } else if s == "failed"@ {
        Some(JobState::Failed)
    } else {
        None
    }
}

impl JobState {
    /// The wire name of the state (its `Display` text).
    pub fn to_string(&self) -> (r: String)
        ensures
            r@ == state_name(*self),
    {
        match self {
            JobState::Wait => "wait".to_owned(),
            JobState::Paused => "paused".to_owned(),
            JobState::Prioritized => "prioritized".to_owned(),
            JobState::WaitingChildren => "waiting-children".to_owned(),
            JobState::Delayed => "delayed".to_owned(),
            JobState::Active => "active".to_owned(),
            JobState::Completed => "completed".to_owned(),
            JobState::Failed => "failed".to_owned(),
        }
    }

    /// Parses a wire name; any other text is refused with
    /// `Unknown job state: <text>`.
    pub fn parse(s: &str) -> (r: Result<JobState, String>)
        ensures
            match r {
                Ok(st) => state_from_name(s@) == Some(st),
                Err(msg) => state_from_name(s@) is None && msg@ == "Unknown job state: "@ + s@,
            },
    {
        if str_eq(s, "wait") {
            Ok(JobState::Wait)
        } else if str_eq(s, "paused") {
            Ok(JobState::Paused)
        } else if str_eq(s, "prioritized") {
            Ok(JobState::Prioritized)
        } else if str_eq(s, "waiting-children") {
            Ok(JobState::WaitingChildren)
        } else if str_eq(s, "delayed") {
            Ok(JobState::Delayed)
        } else if str_eq(s, "active") {
            Ok(JobState::Active)
        } else if str_eq(s, "completed") {
            Ok(JobState::Completed)
        } else if str_eq(s, "failed") {
            Ok(JobState::Failed)
        } else {
            Err(concat2("Unknown job state: ", s))
        }
    }
}

impl std::str::FromStr for JobState {
    type Err = String;

    fn from_str(s: &str) -> (r: Result<JobState, String>)
        ensures
            match r {
                Ok(st) => state_from_name(s@) == Some(st),
                Err(msg) => state_from_name(s@) is None && msg@ == "Unknown job state: "@ + s@,
            },
    {
        JobState::parse(s)
    }
}

/// The wire names of the states are those of the queue's Redis keys and
/// event stream: `wait`, `paused`, `prioritized`, `waiting-children`,
/// `delayed`, `active`, `completed` and `failed`, and parsing any other
/// text gives no state.
pub proof fn lemma_state_names(t: Seq<char>)
    ensures
        state_name(JobState::Wait) == "wait"@,
        state_name(JobState::Paused) == "paused"@,
        state_name(JobState::Prioritized) == "prioritized"@,
        state_name(JobState::WaitingChildren) == "waiting-children"@,
        state_name(JobState::Delayed) == "delayed"@,
        state_name(JobState::Active) == "active"@,
        state_name(JobState::Completed) == "completed"@,
        state_name(JobState::Failed) == "failed"@,
        state_from_name(t) is Some <==> (t == "wait"@ || t == "paused"@ || t == "prioritized"@ || t
            == "waiting-children"@ || t == "delayed"@ || t == "active"@ || t == "completed"@ || t == "failed"@),
        state_from_name(t) matches Some(st) ==> state_name(st) == t,
{
}

/// Every state's wire name parses back to that state, and no two states
/// share a name.
pub proof fn lemma_state_name_roundtrip(s: JobState)
    ensures
        state_from_name(state_name(s)) == Some(s),
{
    reveal_strlit("wait");
    reveal_strlit("paused");
    reveal_strlit("prioritized");
    reveal_strlit("waiting-children");
    reveal_strlit("delayed");
    reveal_strlit("active");
    reveal_strlit("completed");
    reveal_strlit("failed");
    match s {
        JobState::Wait => {
        },
        JobState::Paused => {
            assert("paused"@.len() != "wait"@.len());
        },
        JobState::Prioritized => {
            assert("prioritized"@.len() != "wait"@.len());
            assert("prioritized"@.len() != "paused"@.len());
        },
        JobState::WaitingChildren => {
            assert("waiting-children"@.len() != "wait"@.len());
            assert("waiting-children"@.len() != "paused"@.len());
            assert("waiting-children"@.len() != "prioritized"@.len());
        },
        JobState::Delayed => {
            assert("delayed"@.len() != "wait"@.len());
            assert("delayed"@.len() != "paused"@.len());
            assert("delayed"@.len() != "prioritized"@.len());
            assert("delayed"@.len() != "waiting-children"@.len());
        },
        JobState::Active => {
            assert("active"@.len() != "wait"@.len());
            assert("active"@[0] != "paused"@[0]);
            assert("active"@.len() != "prioritized"@.len());
            assert("active"@.len() != "waiting-children"@.len());
            assert("active"@.len() != "delayed"@.len());
        },
        JobState::Completed => {
            assert("completed"@.len() != "wait"@.len());
            assert("completed"@.len() != "paused"@.len());
            assert("completed"@.len() != "prioritized"@.len());
            assert("completed"@.len() != "waiting-children"@.len());
            assert("completed"@.len() != "delayed"@.len());
            assert("completed"@.len() != "active"@.len());
        },
        JobState::Failed => {
            assert("failed"@.len() != "wait"@.len());
            assert("failed"@[0] != "paused"@[0]);
            assert("failed"@.len() != "prioritized"@.len());
            assert("failed"@.len() != "waiting-children"@.len());
            assert("failed"@.len() != "delayed"@.len());
            assert("failed"@[0] != "active"@[0]);
            assert("failed"@.len() != "completed"@.len());
        },
    }
}


/// `2^e`.
pub open spec fn pow2(e: nat) -> nat
    decreases e,
{
    if e == 0 {
        1
    } else {
        2 * pow2((e - 1) as nat)
    }
}

/// `2u64.saturating_pow(e)`: `2^e`, or `u64::MAX` when that does not fit.
pub open spec fn saturating_pow2(e: nat) -> nat {
    if pow2(e) <= u64::MAX {
        pow2(e)
    } else {
        u64::MAX as nat
    }
}

proof fn lemma_pow2_monotone(a: nat, b: nat)
    requires
        a <= b,
    ensures
        pow2(a) <= pow2(b),
    decreases b,
{
    if a < b {
        lemma_pow2_monotone(a, (b - 1) as nat);
    }
}

proof fn lemma_pow2_63_64()
    ensures
        pow2(63) == 0x8000000000000000,
        pow2(64) == 0x10000000000000000,
{
    reveal_with_fuel(pow2, 65);
}

/// Computes `2u64.saturating_pow(e)`.
pub fn saturating_pow2_u64(e: u32) -> (r: u64)
    ensures
        r == saturating_pow2(e as nat),
{
    let mut p: u64 = 1;
    let mut i: u32 = 0;
    while i < e
        invariant
            i <= e,
            p == pow2(i as nat),
        decreases e - i,
    {
        if p > u64::MAX / 2 {
            proof {
                lemma_pow2_monotone((i + 1) as nat, e as nat);
            }
            return u64::MAX;
        }
        p = p * 2;
        i = i + 1;
    }
    p
}

/// Backoff strategy for job retries. Delays are in milliseconds.
#[derive(Debug)]
pub enum BackoffStrategy {
    /// The same delay before every retry.
    Fixed { delay: u64 },
    /// `base * 2^attempt`, capped at `max`.
    Exponential { base: u64, max: u64 },
}

/// The delay in milliseconds before retry number `attempt` (0-indexed):
/// a fixed delay, or `base * 2^attempt` computed without bound and capped
/// at `max`.
pub open spec fn backoff_delay(b: BackoffStrategy, attempt: u32) -> int {
    match b {
        BackoffStrategy::Fixed { delay } => delay as int,
        BackoffStrategy::Exponential { base, max } => {
            let d = base * pow2(attempt as nat);
            if d <= max {
                d
            } else {
                max as int
            }
        },
    }
}

impl BackoffStrategy {
    /// The delay in milliseconds before retry number `attempt` (0-indexed);
    /// an exponential delay never exceeds `max`.
    pub fn delay_for_attempt(&self, attempt: u32) -> (r: u64)
        ensures
            r == backoff_delay(*self, attempt),
    {
        match self {
            BackoffStrategy::Fixed { delay } => *delay,
            BackoffStrategy::Exponential { base, max } => {
                if *base == 0 {
                    return 0;
                }
                if attempt >= 64 {
                    proof {
                        lemma_pow2_monotone(64, attempt as nat);
                        lemma_pow2_63_64();
                        assert(*base * pow2(attempt as nat) >= pow2(attempt as nat)) by (nonlinear_arith)
                            requires
                                *base >= 1,
                        ;
                    }
                    return *max;
                }
                proof {
                    lemma_pow2_monotone(attempt as nat, 63);
                    lemma_pow2_63_64();
                }
                let p = saturating_pow2_u64(attempt);
                match base.checked_mul(p) {
                    Some(d) => if d <= *max {
                        d
                    } else {
                        *max
                    },
                    None => *max,
                }
            },
        }
    }
}

/// An exponential backoff waits `base` before the first retry (capped at
/// `max`), and twice as long before each next retry until the cap is
/// reached.
pub proof fn lemma_backoff_doubles(base: u64, max: u64, a: u32)
    ensures
        backoff_delay(BackoffStrategy::Exponential { base, max }, 0) == if base <= max {
            base as int
        } else {
            max as int
        },
        a < u32::MAX && 2 * backoff_delay(BackoffStrategy::Exponential { base, max }, a) <= max && base * pow2(a as nat) <= max
            ==> backoff_delay(BackoffStrategy::Exponential { base, max }, (a + 1) as u32) == 2 * backoff_delay(
            BackoffStrategy::Exponential { base, max },
            a,
        ),
{
    assert(pow2(0) == 1);
    assert(base * pow2(0) == base);
    if a < u32::MAX {
        assert(pow2((a + 1) as nat) == 2 * pow2(a as nat));
        assert(base * pow2((a + 1) as nat) == 2 * (base * pow2(a as nat))) by (nonlinear_arith)
            requires
                pow2((a + 1) as nat) == 2 * pow2(a as nat),
        ;
    }
}

/// The delay of an exponential backoff never exceeds its cap, a fixed
/// backoff waits the same for every attempt, and no backoff waits less for
/// a later attempt.
pub proof fn lemma_backoff_bounds(b: BackoffStrategy, a1: u32, a2: u32)
    requires
        a1 <= a2,
    ensures
        b matches BackoffStrategy::Exponential { max, .. } ==> backoff_delay(b, a2) <= max,
        b matches BackoffStrategy::Fixed { delay } ==> backoff_delay(b, a1) == delay
            && backoff_delay(b, a2) == delay,
        backoff_delay(b, a1) <= backoff_delay(b, a2),
{
    lemma_pow2_monotone(a1 as nat, a2 as nat);
    match b {
        BackoffStrategy::Fixed { .. } => {},
        BackoffStrategy::Exponential { base, max } => {
            assert(base * pow2(a1 as nat) <= base * pow2(a2 as nat)) by (nonlinear_arith)
                requires
                    pow2(a1 as nat) <= pow2(a2 as nat),
            ;
        },
    }
}


/// A copy of an optional string.
pub fn clone_opt_string(o: &Option<String>) -> (r: Option<String>)
    ensures
        r == *o,
{
    match o {
        Some(s) => Some(s.clone()),
        None => None,
    }
}

/// Job deduplication options.
///
/// While a deduplication key (`<prefix>:<queue>:de:<id>`) exists, further
/// adds with the same `id` are deduplicated and return the existing job's
/// id. Without a `ttl` the key lives until the deduplicated job completes or
/// fails; with a `ttl` (milliseconds) it expires after that time instead.
#[derive(Debug)]
pub struct DeduplicationOptions {
    /// Identifier used to deduplicate jobs.
    pub id: String,
    /// Time-to-live of the deduplication key, in milliseconds.
    pub ttl: Option<u64>,
}

impl Clone for DeduplicationOptions {
    fn clone(&self) -> (r: Self)
        ensures
            r == *self,
    {
        DeduplicationOptions { id: self.id.clone(), ttl: self.ttl }
    }
}

impl Clone for BackoffStrategy {
    fn clone(&self) -> (r: Self)
        ensures
            r == *self,
    {
        match self {
            BackoffStrategy::Fixed { delay } => BackoffStrategy::Fixed { delay: *delay },
            BackoffStrategy::Exponential { base, max } => BackoffStrategy::Exponential {
                base: *base,
                max: *max,
            },
        }
    }
}

/// Repeat options of a job scheduler (repeatable job). Exactly one of
/// `pattern` (cron) or `every` must be set. Times are milliseconds since the
/// Unix epoch, durations are milliseconds.
#[derive(Debug)]
pub struct RepeatOptions {
    /// Cron pattern (5 fields, or 6 with leading seconds), e.g. `* * * * *`.
    pub pattern: Option<String>,
    /// Fixed interval between iterations, in milliseconds.
    pub every: Option<u64>,
    /// Maximum total number of iterations.
    pub limit: Option<u64>,
    /// Earliest time for the first iteration.
    pub start_date: Option<u64>,
    /// Time after which no more iterations are produced.
    pub end_date: Option<u64>,
    /// IANA time zone in which the cron `pattern` is evaluated.
    pub tz: Option<String>,
    /// Produce the first iteration immediately instead of at the next cron
    /// match. Only valid with `pattern`, and incompatible with `start_date`.
    pub immediately: bool,
    /// Offset within `every` slots, in milliseconds. Managed by the scheduler.
    pub offset: Option<u64>,
    /// Iteration counter. Managed by the scheduler.
    pub count: Option<u64>,
}

/// Repeat options with nothing set.
pub open spec fn empty_repeat_options() -> RepeatOptions {
    RepeatOptions {
        pattern: None,
        every: None,
        limit: None,
        start_date: None,
        end_date: None,
        tz: None,
        immediately: false,
        offset: None,
        count: None,
    }
}

impl Default for RepeatOptions {
    fn default() -> (r: Self)
        ensures
            r == empty_repeat_options(),
    {
        RepeatOptions {
            pattern: None,
            every: None,
            limit: None,
            start_date: None,
            end_date: None,
            tz: None,
            immediately: false,
            offset: None,
            count: None,
        }
    }
}

impl Clone for RepeatOptions {
    fn clone(&self) -> (r: Self)
        ensures
            r == *self,
    {
        RepeatOptions {
            pattern: clone_opt_string(&self.pattern),
            every: self.every,
            limit: self.limit,
            start_date: self.start_date,
            end_date: self.end_date,
            tz: clone_opt_string(&self.tz),
            immediately: self.immediately,
            offset: self.offset,
            count: self.count,
        }
    }
}

/// Options of a job. Durations are in milliseconds.
#[derive(Debug)]
pub struct JobOptions {
    /// Job priority; lower values mean higher priority. Default 0.
    pub priority: Option<u32>,
    /// Delay before the job can be processed, in milliseconds.
    pub delay: Option<u64>,
    /// Maximum number of attempts, the first included. Default 1.
    pub attempts: Option<u32>,
    /// Backoff strategy for retries.
    pub backoff: Option<BackoffStrategy>,
    /// Time-to-live of the job, in milliseconds.
    pub ttl: Option<u64>,
    /// Custom job id; generated when absent.
    pub job_id: Option<String>,
    /// Deduplication options.
    pub deduplication: Option<DeduplicationOptions>,
    /// Repeat options carried by jobs that a job scheduler produces.
    pub repeat: Option<RepeatOptions>,
    /// Iteration timestamp a scheduler-produced job was created for.
    pub prev_millis: Option<u64>,
    /// Id of the job scheduler that produced the job.
    pub repeat_job_key: Option<String>,
    /// Creation timestamp recorded by the job scheduler.
    pub timestamp: Option<u64>,
}

/// Job options with nothing set.
pub open spec fn empty_job_options() -> JobOptions {
    JobOptions {
        priority: None,
        delay: None,
        attempts: None,
        backoff: None,
        ttl: None,
        job_id: None,
        deduplication: None,
        repeat: None,
        prev_millis: None,
        repeat_job_key: None,
        timestamp: None,
    }
}

impl Default for JobOptions {
    fn default() -> (r: Self)
        ensures
            r == empty_job_options(),
    {
        JobOptions {
            priority: None,
            delay: None,
            attempts: None,
            backoff: None,
            ttl: None,
            job_id: None,
            deduplication: None,
            repeat: None,
            prev_millis: None,
            repeat_job_key: None,
            timestamp: None,
        }
    }
}

impl Clone for JobOptions {
    fn clone(&self) -> (r: Self)
        ensures
            r == *self,
    {
        JobOptions {
            priority: self.priority,
            delay: self.delay,
            attempts: self.attempts,
            backoff: match &self.backoff {
                Some(b) => Some(b.clone()),
                None => None,
            },
            ttl: self.ttl,
            job_id: clone_opt_string(&self.job_id),
            deduplication: match &self.deduplication {
                Some(d) => Some(d.clone()),
                None => None,
            },
            repeat: match &self.repeat {
                Some(r) => Some(r.clone()),
                None => None,
            },
            prev_millis: self.prev_millis,
            repeat_job_key: clone_opt_string(&self.repeat_job_key),
            timestamp: self.timestamp,
        }
    }
}


/// Builder of `JobOptions`; every setter sets one option and keeps the
/// others.
#[derive(Debug)]
pub struct JobOptionsBuilder {
    pub priority: Option<u32>,
    pub delay: Option<u64>,
    pub attempts: Option<u32>,
    pub backoff: Option<BackoffStrategy>,
    pub ttl: Option<u64>,
    pub job_id: Option<String>,
    pub deduplication: Option<DeduplicationOptions>,
    pub repeat: Option<RepeatOptions>,
    pub prev_millis: Option<u64>,
    pub repeat_job_key: Option<String>,
    pub timestamp: Option<u64>,
}

impl JobOptionsBuilder {
    /// A builder with no option set.
    pub fn new() -> (r: Self)
        ensures
            r.priority is None,
            r.delay is None,
            r.attempts is None,
            r.backoff is None,
            r.ttl is None,
            r.job_id is None,
            r.deduplication is None,
            r.repeat is None,
            r.prev_millis is None,
            r.repeat_job_key is None,
            r.timestamp is None,
    {
        JobOptionsBuilder {
            priority: None,
            delay: None,
            attempts: None,
            backoff: None,
            ttl: None,
            job_id: None,
            deduplication: None,
            repeat: None,
            prev_millis: None,
            repeat_job_key: None,
            timestamp: None,
        }
    }

    /// Sets the priority.
    pub fn priority(self, priority: u32) -> (r: Self)
        ensures
            r == (JobOptionsBuilder { priority: Some(priority), ..self }),
    {
        JobOptionsBuilder { priority: Some(priority), ..self }
    }

    /// Sets the delay, in milliseconds.
    pub fn delay(self, delay: u64) -> (r: Self)
        ensures
            r == (JobOptionsBuilder { delay: Some(delay), ..self }),
    {
        JobOptionsBuilder { delay: Some(delay), ..self }
    }

    /// Sets the maximum number of attempts.
    pub fn attempts(self, attempts: u32) -> (r: Self)
        ensures
            r == (JobOptionsBuilder { attempts: Some(attempts), ..self }),
    {
        JobOptionsBuilder { attempts: Some(attempts), ..self }
    }

    /// Sets the backoff strategy.
    pub fn backoff(self, backoff: BackoffStrategy) -> (r: Self)
        ensures
            r == (JobOptionsBuilder { backoff: Some(backoff), ..self }),
    {
        JobOptionsBuilder { backoff: Some(backoff), ..self }
    }

    /// Sets the time-to-live, in milliseconds.
    pub fn ttl(self, ttl: u64) -> (r: Self)
        ensures
            r == (JobOptionsBuilder { ttl: Some(ttl), ..self }),
    {
        JobOptionsBuilder { ttl: Some(ttl), ..self }
    }

    /// Sets a custom job id.
    pub fn job_id(self, job_id: String) -> (r: Self)
        ensures
            r == (JobOptionsBuilder { job_id: Some(job_id), ..self }),
    {
        JobOptionsBuilder { job_id: Some(job_id), ..self }
    }

    /// Sets the deduplication options.
    pub fn deduplication(self, deduplication: DeduplicationOptions) -> (r: Self)
        ensures
            r == (JobOptionsBuilder { deduplication: Some(deduplication), ..self }),
    {
        JobOptionsBuilder { deduplication: Some(deduplication), ..self }
    }

    /// Sets the repeat options.
    pub fn repeat(self, repeat: RepeatOptions) -> (r: Self)
        ensures
            r == (JobOptionsBuilder { repeat: Some(repeat), ..self }),
    {
        JobOptionsBuilder { repeat: Some(repeat), ..self }
    }

    /// Sets the iteration timestamp.
    pub fn prev_millis(self, prev_millis: u64) -> (r: Self)
        ensures
            r == (JobOptionsBuilder { prev_millis: Some(prev_millis), ..self }),
    {
        JobOptionsBuilder { prev_millis: Some(prev_millis), ..self }
    }

    /// Sets the id of the producing job scheduler.
    pub fn repeat_job_key(self, repeat_job_key: String) -> (r: Self)
        ensures
            r == (JobOptionsBuilder { repeat_job_key: Some(repeat_job_key), ..self }),
    {
        JobOptionsBuilder { repeat_job_key: Some(repeat_job_key), ..self }
    }

    /// Sets the creation timestamp.
    pub fn timestamp(self, timestamp: u64) -> (r: Self)
        ensures
            r == (JobOptionsBuilder { timestamp: Some(timestamp), ..self }),
    {
        JobOptionsBuilder { timestamp: Some(timestamp), ..self }
    }

    /// The options collected so far.
    pub fn build(self) -> (r: JobOptions)
        ensures
            r.priority == self.priority,
            r.delay == self.delay,
            r.attempts == self.attempts,
            r.backoff == self.backoff,
            r.ttl == self.ttl,
            r.job_id == self.job_id,
            r.deduplication == self.deduplication,
            r.repeat == self.repeat,
            r.prev_millis == self.prev_millis,
            r.repeat_job_key == self.repeat_job_key,
            r.timestamp == self.timestamp,
    {
        JobOptions {
            priority: self.priority,
            delay: self.delay,
            attempts: self.attempts,
            backoff: self.backoff,
            ttl: self.ttl,
            job_id: self.job_id,
            deduplication: self.deduplication,
            repeat: self.repeat,
            prev_millis: self.prev_millis,
            repeat_job_key: self.repeat_job_key,
            timestamp: self.timestamp,
        }
    }
}

impl Default for JobOptionsBuilder {
    fn default() -> (r: Self)
        ensures
            r.priority is None,
            r.delay is None,
            r.attempts is None,
            r.backoff is None,
            r.ttl is None,
            r.job_id is None,
            r.deduplication is None,
            r.repeat is None,
            r.prev_millis is None,
            r.repeat_job_key is None,
            r.timestamp is None,
    {
        JobOptionsBuilder::new()
    }
}

/// Builder of `RepeatOptions`; every setter sets one option and keeps the
/// others.
#[derive(Debug)]
pub struct RepeatOptionsBuilder {
    opts: RepeatOptions,
}

impl RepeatOptionsBuilder {
    /// The options that `build` would return now.
    pub closed spec fn options(self) -> RepeatOptions {
        self.opts
    }

    /// A builder with no option set.
    pub fn new() -> (r: Self)
        ensures
            r.options() == empty_repeat_options(),
    {
        RepeatOptionsBuilder { opts: RepeatOptions::default() }
    }

    /// Sets the cron pattern.
    pub fn pattern(self, pattern: &str) -> (r: Self)
        ensures
            r.options().pattern matches Some(v) && v@ == pattern@,
            r.options() == (RepeatOptions { pattern: r.options().pattern, ..self.options() }),
    {
        RepeatOptionsBuilder { opts: RepeatOptions { pattern: Some(pattern.to_owned()), ..self.opts } }
    }

    /// Sets the interval, in milliseconds.
    pub fn every(self, every: u64) -> (r: Self)
        ensures
            r.options() == (RepeatOptions { every: Some(every), ..self.options() }),
    {
        RepeatOptionsBuilder { opts: RepeatOptions { every: Some(every), ..self.opts } }
    }

    /// Sets the iteration limit.
    pub fn limit(self, limit: u64) -> (r: Self)
        ensures
            r.options() == (RepeatOptions { limit: Some(limit), ..self.options() }),
    {
        RepeatOptionsBuilder { opts: RepeatOptions { limit: Some(limit), ..self.opts } }
    }

    /// Sets the start date.
    pub fn start_date(self, start_date: u64) -> (r: Self)
        ensures
            r.options() == (RepeatOptions { start_date: Some(start_date), ..self.options() }),
    {
        RepeatOptionsBuilder { opts: RepeatOptions { start_date: Some(start_date), ..self.opts } }
    }

    /// Sets the end date.
    pub fn end_date(self, end_date: u64) -> (r: Self)
        ensures
            r.options() == (RepeatOptions { end_date: Some(end_date), ..self.options() }),
    {
        RepeatOptionsBuilder { opts: RepeatOptions { end_date: Some(end_date), ..self.opts } }
    }

    /// Sets the time zone of the cron pattern.
    pub fn tz(self, tz: &str) -> (r: Self)
        ensures
            r.options().tz matches Some(v) && v@ == tz@,
            r.options() == (RepeatOptions { tz: r.options().tz, ..self.options() }),
    {
        RepeatOptionsBuilder { opts: RepeatOptions { tz: Some(tz.to_owned()), ..self.opts } }
    }

    /// Sets whether the first iteration runs immediately.
    pub fn immediately(self, immediately: bool) -> (r: Self)
        ensures
            r.options() == (RepeatOptions { immediately: immediately, ..self.options() }),
    {
        RepeatOptionsBuilder { opts: RepeatOptions { immediately: immediately, ..self.opts } }
    }

    /// Sets the offset within `every` slots.
    pub fn offset(self, offset: u64) -> (r: Self)
        ensures
            r.options() == (RepeatOptions { offset: Some(offset), ..self.options() }),
    {
        RepeatOptionsBuilder { opts: RepeatOptions { offset: Some(offset), ..self.opts } }
    }

    /// Sets the iteration counter.
    pub fn count(self, count: u64) -> (r: Self)
        ensures
            r.options() == (RepeatOptions { count: Some(count), ..self.options() }),
    {
        RepeatOptionsBuilder { opts: RepeatOptions { count: Some(count), ..self.opts } }
    }

    /// The options collected so far.
    pub fn build(self) -> (r: RepeatOptions)
        ensures
            r == self.options(),
    {
        self.opts
    }
}

impl Default for RepeatOptionsBuilder {
    fn default() -> (r: Self)
        ensures
            r.options() == empty_repeat_options(),
    {
        RepeatOptionsBuilder::new()
    }
}

/// Job template applied to every job that a job scheduler produces.
#[derive(Debug)]
pub struct JobSchedulerTemplate<T> {
    /// Name of the produced jobs; the scheduler id when absent.
    pub name: Option<String>,
    /// Data payload of the produced jobs.
    pub data: Option<T>,
    /// Options applied to the produced jobs.
    pub opts: Option<JobOptions>,
}

impl<T> Default for JobSchedulerTemplate<T> {
    fn default() -> (r: Self)
        ensures
            r.name is None,
            r.data is None,
            r.opts is None,
    {
        JobSchedulerTemplate { name: None, data: None, opts: None }
    }
}

/// Rate limiter of a worker: at most `max` jobs per `duration`
/// milliseconds, shared by all workers of the queue.
#[derive(Debug, Clone, Copy, PartialEq, Eq, Structural)]
pub struct RateLimiterOptions {
    /// Maximum number of jobs processed per window.
    pub max: u64,
    /// Length of the window, in milliseconds.
    pub duration: u64,
}

/// Metrics collection of a worker.
#[derive(Debug, Clone, Copy, PartialEq, Eq, Structural)]
pub struct MetricsOptions {
    /// Maximum number of per-minute data points retained.
    pub max_data_points: u64,
}

/// Metadata of collected queue metrics.
#[derive(Debug, Clone, Copy, PartialEq, Eq, Structural)]
pub struct MetricsMeta {
    /// Total number of finished jobs counted.
    pub count: u64,
    /// Timestamp of the last collected data point.
    pub prev_ts: u64,
    /// Job count at the last collected data point.
    pub prev_count: u64,
}

impl Default for MetricsMeta {
    fn default() -> (r: Self)
        ensures
            r == (MetricsMeta { count: 0, prev_ts: 0, prev_count: 0 }),
    {
        MetricsMeta { count: 0, prev_ts: 0, prev_count: 0 }
    }
}

/// Queue metrics of a finished state.
#[derive(Debug)]
pub struct Metrics {
    /// Collection metadata.
    pub meta: MetricsMeta,
    /// Per-minute data points, newest first.
    pub data: Vec<i64>,
    /// Number of data points available.
    pub count: u64,
}

/// Options of a worker. Durations are in milliseconds.
#[derive(Debug)]
pub struct WorkerOptions {
    /// Number of jobs processed concurrently. Default 1.
    pub concurrency: usize,
    /// How long a job lock is held before the job may count as stalled.
    /// Default 30 s.
    pub lock_duration: u64,
    /// How often stalled jobs are checked for. Default 30 s.
    pub stalled_interval: u64,
    /// How many times a job may be recovered from the stalled state.
    /// Default 1.
    pub max_stalled_count: u32,
    /// Whether the stalled-job check is skipped. Default false.
    pub skip_stalled_check: bool,
    /// Rate limiter; none by default.
    pub limiter: Option<RateLimiterOptions>,
    /// Metrics collection; none by default.
    pub metrics: Option<MetricsOptions>,
}

impl Default for WorkerOptions {
    fn default() -> (r: Self)
        ensures
            r.concurrency == 1,
            r.lock_duration == 30000,
            r.stalled_interval == 30000,
            r.max_stalled_count == 1,
            !r.skip_stalled_check,
            r.limiter is None,
            r.metrics is None,
    {
        WorkerOptions {
            concurrency: 1,
            lock_duration: 30000,
            stalled_interval: 30000,
            max_stalled_count: 1,
            skip_stalled_check: false,
            limiter: None,
            metrics: None,
        }
    }
}

} // verus!
