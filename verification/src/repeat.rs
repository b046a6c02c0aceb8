//! Repeat strategy of job schedulers: the next cron occurrence of an
//! iteration and the options of the job an iteration produces.
use vstd::prelude::*;
use chrono::TimeZone;
use crate::error::BullmqError;
use crate::text::concat2;
use crate::text::{decimal_digits, u64_to_decimal};
use crate::types::{JobOptions, RepeatOptions};

verus! {

#[verifier::external_type_specification]
#[verifier::external_body]
pub struct ExCron(croner::Cron);

#[verifier::external_type_specification]
#[verifier::external_body]
pub struct ExTz(chrono_tz::Tz);

/// The current time in milliseconds since the Unix epoch
/// (`SystemTime::now`, 0 before the epoch). Nothing is stated of the value:
/// it depends on the clock.
#[verifier::external_body]
pub(crate) fn now_ms() -> u64 {
    std::time::SystemTime::now().duration_since(std::time::UNIX_EPOCH).unwrap_or_default().as_millis() as u64
}

/// The error message `croner` gives for `pattern` (parsed with optional
/// seconds), or `None` when it parses.
pub uninterp spec fn cron_parse_error(pattern: Seq<char>) -> Option<Seq<char>>;

/// A parsed cron pattern together with the text it was parsed from; only
/// `parse_cron` makes one.
pub struct CronSchedule {
    pattern: String,
    cron: croner::Cron,
}

impl CronSchedule {
    /// The pattern text the schedule was parsed from.
    pub closed spec fn spec_pattern(self) -> Seq<char> {
        self.pattern@
    }
}

/// Parses a cron pattern with `croner` (`Cron::new(pattern)`,
/// `with_seconds_optional`, `parse`): five fields, or six with leading
/// seconds. The contract names the outcome `cron_parse_error(pattern)`;
/// which patterns parse, and the error texts, are not stated.
#[verifier::external_body]
pub(crate) fn parse_cron(pattern: &str) -> (r: Result<CronSchedule, String>)
    ensures
        match r {
            Ok(s) => cron_parse_error(pattern@) is None && s.spec_pattern() == pattern@,
            Err(e) => cron_parse_error(pattern@) == Some(e@),
        },
{
    match croner::Cron::new(pattern).with_seconds_optional().parse() {
        Ok(cron) => Ok(CronSchedule { pattern: pattern.to_string(), cron }),
        Err(e) => Err(e.to_string()),
    }
}

/// Whether `name` is an IANA time zone known to `chrono_tz`.
pub uninterp spec fn iana_zone_known(name: Seq<char>) -> bool;

/// A time zone of the IANA database together with its name; only
/// `parse_time_zone` makes one.
pub struct TimeZoneSpec {
    name: String,
    tz: chrono_tz::Tz,
}

impl TimeZoneSpec {
    /// The IANA name of the zone.
    pub closed spec fn spec_name(self) -> Seq<char> {
        self.name@
    }
}

/// Looks up an IANA time zone by name (`str::parse::<chrono_tz::Tz>`). The
/// contract names the outcome `iana_zone_known(name)`; the list of zones is
/// not stated.
#[verifier::external_body]
pub(crate) fn parse_time_zone(name: &str) -> (r: Option<TimeZoneSpec>)
    ensures
        r is Some == iana_zone_known(name@),
        r matches Some(z) ==> z.spec_name() == name@,
{
    match name.parse::<chrono_tz::Tz>() {
        Ok(tz) => Some(TimeZoneSpec { name: name.to_string(), tz }),
        Err(_) => None,
    }
}

/// The latest time, in milliseconds since the Unix epoch, from which a
/// cron search is made: two days before the last instant that `chrono`'s
/// date-times hold (the end of year 262142), so that neither a zone's
/// offset (under a day) nor the search's own steps (a second, and at most
/// an hour across a daylight-saving gap) lead out of that range.
pub const CRON_TIME_MAX_MS: i64 = 8210266703999999i64;

/// The earliest time from which a cron search is made: two days after the
/// first instant that `chrono`'s date-times hold (the start of year
/// -262143).
pub const CRON_TIME_MIN_MS: i64 = -8334601142400000i64;

/// Whether a cron search may start at `t` (see `CRON_TIME_MIN_MS` and
/// `CRON_TIME_MAX_MS`).
pub open spec fn cron_time_in_range(t: i64) -> bool {
    CRON_TIME_MIN_MS <= t && t <= CRON_TIME_MAX_MS
}

/// How far before the time it starts from a cron search may land: two
/// days, in milliseconds. `croner` searches forward in local clock time
/// from one second past the start, and a zone's offset from UTC lies
/// strictly within a day either way, so an occurrence found (also across a
/// daylight-saving change, where a local time may name an earlier instant)
/// lies less than two days before the start.
pub const CRON_SEARCH_SLACK_MS: u64 = 172800000u64;

/// The first time after `after_ms` (exclusive) at which `pattern` matches
/// in zone `zone`, as `croner` finds it, in milliseconds since the epoch:
/// `Err` when `after_ms` is no valid time in the zone (never inside
/// `cron_time_in_range`), `Ok(None)` when `croner` finds no occurrence.
pub uninterp spec fn cron_next_in_zone(pattern: Seq<char>, zone: Seq<char>, after_ms: i64) -> Result<Option<u64>, ()>;

/// The next occurrence of a schedule after `after_ms` in an IANA zone
/// (`TimeZone::timestamp_millis_opt`, `Cron::find_next_occurrence` with
/// `inclusive = false`, `DateTime::timestamp_millis`). The contract names
/// the result `cron_next_in_zone(pattern, zone, after_ms)`; the cron
/// search itself is not stated. `after_ms` is kept inside
/// `cron_time_in_range`: `DateTime::naive_local`, which the search calls,
/// panics where a zone's offset leads out of `chrono`'s range. Inside it,
/// `timestamp_millis_opt` always gives a single date-time, so the result
/// is `Ok`; an occurrence lies less than `CRON_SEARCH_SLACK_MS` before
/// `after_ms` (an instant before the epoch reads as a value past
/// `i64::MAX`).
#[verifier::external_body]
pub(crate) fn next_occurrence_in_zone(sched: &CronSchedule, zone: &TimeZoneSpec, after_ms: i64) -> (r: Result<Option<u64>, ()>)
    requires
        cron_time_in_range(after_ms),
    ensures
        r == cron_next_in_zone(sched.spec_pattern(), zone.spec_name(), after_ms),
        r is Ok,
        r matches Ok(Some(n)) ==> n + CRON_SEARCH_SLACK_MS > after_ms,
{
    match zone.tz.timestamp_millis_opt(after_ms).single() {
        Some(dt) => match sched.cron.find_next_occurrence(&dt, false) {
            Ok(d) => Ok(Some(d.timestamp_millis() as u64)),
            Err(_) => Ok(None),
        },
        None => Err(()),
    }
}

/// The next occurrence of a schedule after `after_ms` in the machine's
/// local time zone (`chrono::Local`), with the same calls as
/// `next_occurrence_in_zone`. Which occurrence comes back is not stated:
/// it depends on the machine's time zone. `after_ms` is kept inside
/// `cron_time_in_range`, as for `next_occurrence_in_zone`; there
/// `timestamp_millis_opt` always gives a single date-time, so the result
/// is `Ok`; an occurrence lies less than `CRON_SEARCH_SLACK_MS` before
/// `after_ms`, whatever the zone.
#[verifier::external_body]
pub(crate) fn next_occurrence_local(sched: &CronSchedule, after_ms: i64) -> (r: Result<Option<u64>, ()>)
    requires
        cron_time_in_range(after_ms),
    ensures
        r is Ok,
        r matches Ok(Some(n)) ==> n + CRON_SEARCH_SLACK_MS > after_ms,
{
    match chrono::Local.timestamp_millis_opt(after_ms).single() {
        Some(dt) => match sched.cron.find_next_occurrence(&dt, false) {
            Ok(d) => Ok(Some(d.timestamp_millis() as u64)),
            Err(_) => Ok(None),
        },
        None => Err(()),
    }
}

/// A next occurrence past the end date yields none.
pub open spec fn end_filtered(next: Option<u64>, end_date: Option<u64>) -> Option<u64> {
    match (next, end_date) {
        (Some(n), Some(end)) => if n > end {
            None
        } else {
            Some(n)
        },
        _ => next,
    }
}

/// Drops a next occurrence that falls after the end date.
pub fn filter_by_end_date(next: Option<u64>, end_date: Option<u64>) -> (r: Option<u64>)
    ensures
        r == end_filtered(next, end_date),
{
    match (next, end_date) {
        (Some(n), Some(end)) => if n > end {
            None
        } else {
            Some(n)
        },
        _ => next,
    }
}

/// The time the cron search starts after: the later of `millis` and the
/// start date.
pub open spec fn search_start(millis: u64, opts: RepeatOptions) -> u64 {
    let start = match opts.start_date {
        Some(s) => s,
        None => 0,
    };
    if millis >= start {
        millis
    } else {
        start
    }
}

/// The time the cron search starts after (see `search_start`), as the
/// signed millisecond count that the search takes.
pub fn cron_search_start(millis: u64, opts: &RepeatOptions) -> (r: i64)
    ensures
        r == search_start(millis, *opts) as i64,
{
    let start = match opts.start_date {
        Some(s) => s,
        None => 0,
    };
    let current = if millis >= start {
        millis
    } else {
        start
    };
    current as i64
}

/// Whether `r` is the error `Other` with message `m`.
pub open spec fn is_other<T>(r: Result<T, BullmqError>, m: Seq<char>) -> bool {
    r matches Err(BullmqError::Other(t)) && t@ == m
}

/// What the next iteration time of a cron `pattern` is, where only the
/// arguments decide it: `None` when the clock (`immediately`) or the
/// machine's time zone (no `tz`) decides; otherwise the error message, or
/// the next occurrence after the later of `millis` and the start date, in
/// zone `tz`, dropped when past the end date.
pub open spec fn pattern_next_outcome(millis: u64, opts: RepeatOptions, pattern: Seq<char>) -> Option<Result<Option<u64>, Seq<char>>> {
    if opts.immediately {
        None
    } else {
        match cron_parse_error(pattern) {
            Some(e) => Some(Err("Invalid cron pattern '"@ + pattern + "': "@ + e)),
            None => match opts.tz {
                Some(name) => if !iana_zone_known(name@) {
                    Some(Err("Invalid timezone: "@ + name@))
                } else if !cron_time_in_range(search_start(millis, opts) as i64) {
                    Some(Err("Invalid current timestamp"@))
                } else {
                    match cron_next_in_zone(pattern, name@, search_start(millis, opts) as i64) {
                        Ok(n) => Some(Ok(end_filtered(n, opts.end_date))),
                        Err(_) => Some(Err("Invalid current timestamp"@)),
                    }
                },
                None => None,
            },
        }
    }
}

/// Whether `r` is the outcome `o`, errors being `Other` with that message.
pub open spec fn is_outcome<T>(r: Result<T, BullmqError>, o: Result<T, Seq<char>>) -> bool {
    match o {
        Ok(v) => r == Ok::<T, BullmqError>(v),
        Err(m) => is_other(r, m),
    }
}

/// The next iteration time of a cron `pattern`: the search starts after the
/// later of `millis` and the start date, `immediately` yields now instead,
/// and an occurrence past the end date yields `None`. The pattern is
/// evaluated in the time zone `tz`, or in the machine's local zone without
/// one (see `pattern_next_outcome`). Errors: an invalid pattern, an unknown
/// zone, a start time that is no valid time in the zone or lies
/// outside `cron_time_in_range`.
pub fn next_pattern_millis(millis: u64, opts: &RepeatOptions, pattern: &str) -> (r: Result<Option<u64>, BullmqError>)
    ensures
        opts.immediately ==> r matches Ok(Some(_)),
        pattern_next_outcome(millis, *opts, pattern@) matches Some(o) ==> is_outcome(r, o),
        // In the local zone the search succeeds exactly inside its range.
        !opts.immediately && opts.tz is None && cron_parse_error(pattern@) is None ==> ((r is Ok
            <==> cron_time_in_range(search_start(millis, *opts) as i64)) && (r is Err ==> is_other(
            r,
            "Invalid current timestamp"@,
        ))),
        // A result past the end date is never produced.
        !opts.immediately ==> (r matches Ok(Some(n)) ==> (opts.end_date matches Some(end) ==> n <= end)),
        // The search starts from the later of `millis` and the start date
        // (read as a signed count), in any zone; what it finds lies less
        // than `CRON_SEARCH_SLACK_MS` before that.
        !opts.immediately ==> (r matches Ok(Some(n)) ==> n + CRON_SEARCH_SLACK_MS > search_start(millis, *opts) as i64),
        !opts.immediately && search_start(millis, *opts) <= i64::MAX ==> (r matches Ok(Some(n)) ==> n
            + CRON_SEARCH_SLACK_MS > search_start(millis, *opts)),
        !opts.immediately && search_start(millis, *opts) <= i64::MAX ==> (r matches Ok(Some(n)) ==> (n
            + CRON_SEARCH_SLACK_MS > millis && (opts.start_date matches Some(sd) ==> n + CRON_SEARCH_SLACK_MS
            > sd))),
{
    if opts.immediately {
        return Ok(Some(now_ms()));
    }
    let current = cron_search_start(millis, opts);
    let sched = match parse_cron(pattern) {
        Ok(s) => s,
        Err(e) => {
            let mut m = concat2("Invalid cron pattern '", pattern);
            m.append("': ");
            m.append(e.as_str());
            return Err(BullmqError::Other(m));
        },
    };
    let in_range = CRON_TIME_MIN_MS <= current && current <= CRON_TIME_MAX_MS;
    let next = match &opts.tz {
        Some(tz_name) => {
            let zone = match parse_time_zone(tz_name.as_str()) {
                Some(z) => z,
                None => {
                    return Err(BullmqError::Other(concat2("Invalid timezone: ", tz_name.as_str())));
                },
            };
            if !in_range {
                return Err(BullmqError::Other("Invalid current timestamp".to_owned()));
            }
            match next_occurrence_in_zone(&sched, &zone, current) {
                Ok(n) => n,
                Err(_) => {
                    return Err(BullmqError::Other("Invalid current timestamp".to_owned()));
                },
            }
        },
        None => {
            if !in_range {
                return Err(BullmqError::Other("Invalid current timestamp".to_owned()));
            }
            match next_occurrence_local(&sched, current) {
                Ok(n) => n,
                Err(_) => {
                    return Err(BullmqError::Other("Invalid current timestamp".to_owned()));
                },
            }
        },
    };
    Ok(filter_by_end_date(next, opts.end_date))
}

/// The id of the job that a scheduler produces for the iteration at
/// `next_millis`: `repeat:<scheduler_id>:<next_millis>`.
pub open spec fn iteration_job_id(scheduler_id: Seq<char>, next_millis: u64) -> Seq<char> {
    "repeat:"@ + scheduler_id + ":"@ + decimal_digits(next_millis as nat)
}

/// The repeat options carried by the job of iteration number
/// `iteration_count`: `immediately` cleared, the counter set, the offset
/// kept only in `every` mode.
pub open spec fn iteration_repeat(repeat_opts: RepeatOptions, iteration_count: u64) -> RepeatOptions {
    RepeatOptions {
        immediately: false,
        count: Some(iteration_count),
        offset: if repeat_opts.every is None {
            None
        } else {
            repeat_opts.offset
        },
        ..repeat_opts
    }
}

/// Whether `merged` are the options of a scheduler-produced job built at
/// time `now` from `base`: the repeat options of the iteration, the
/// scheduler id as repeat key, the creation time; with a cron occurrence
/// `next`, the iteration job id, `next` as iteration time and the delay
/// until `next` (0 when past); without one (`every` mode, where the script
/// computes them) none of these three.
pub open spec fn is_iteration_opts(merged: JobOptions, base: JobOptions, repeat_opts: RepeatOptions, scheduler_id: Seq<char>, iteration_count: u64, pattern_next_millis: Option<u64>, now: u64) -> bool {
    &&& merged.priority == base.priority
    &&& merged.attempts == base.attempts
    &&& merged.backoff == base.backoff
    &&& merged.ttl == base.ttl
    &&& merged.deduplication == base.deduplication
    &&& merged.repeat == Some(iteration_repeat(repeat_opts, iteration_count))
    &&& merged.repeat_job_key matches Some(k) && k@ == scheduler_id
    &&& merged.timestamp == Some(now)
    &&& match pattern_next_millis {
        Some(next) => {
            &&& merged.job_id matches Some(j) && j@ == iteration_job_id(scheduler_id, next)
            &&& merged.prev_millis == Some(next)
            &&& merged.delay == Some(if next >= now { (next - now) as u64 } else { 0u64 })
        },
        None => merged.job_id is None && merged.prev_millis is None && merged.delay is None,
    }
}

/// The options of the job of one scheduler iteration, built at time `now`
/// (see `is_iteration_opts`).
pub fn build_iteration_opts_at(base_opts: &JobOptions, repeat_opts: &RepeatOptions, scheduler_id: &str, iteration_count: u64, pattern_next_millis: Option<u64>, now: u64) -> (r: JobOptions)
    ensures
        is_iteration_opts(r, *base_opts, *repeat_opts, scheduler_id@, iteration_count, pattern_next_millis, now),
{
    let mut merged = base_opts.clone();
    let mut next_repeat = repeat_opts.clone();
    next_repeat.immediately = false;
    next_repeat.count = Some(iteration_count);
    if next_repeat.every.is_none() {
        next_repeat.offset = None;
    }
    merged.repeat = Some(next_repeat);
    merged.repeat_job_key = Some(scheduler_id.to_owned());
    merged.timestamp = Some(now);
    match pattern_next_millis {
        Some(next) => {
            let mut id = concat2("repeat:", scheduler_id);
            id.append(":");
            let digits = u64_to_decimal(next);
            id.append(digits.as_str());
            merged.job_id = Some(id);
            merged.prev_millis = Some(next);
            merged.delay = Some(if next >= now { next - now } else { 0 });
        },
        None => {
            merged.job_id = None;
            merged.prev_millis = None;
            merged.delay = None;
        },
    }
    merged
}

/// The options of the job of one scheduler iteration, built now (see
/// `is_iteration_opts`; the creation time is the clock's).
pub fn build_iteration_opts(base_opts: &JobOptions, repeat_opts: &RepeatOptions, scheduler_id: &str, iteration_count: u64, pattern_next_millis: Option<u64>) -> (r: JobOptions)
    ensures
        r.timestamp matches Some(now) && is_iteration_opts(r, *base_opts, *repeat_opts, scheduler_id@, iteration_count, pattern_next_millis, now),
{
    let now = now_ms();
    build_iteration_opts_at(base_opts, repeat_opts, scheduler_id, iteration_count, pattern_next_millis, now)
}

} // verus!
