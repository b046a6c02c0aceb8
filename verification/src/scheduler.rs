//! Planning of job schedulers (repeatable jobs): the checks of an upsert,
//! the iteration to produce, the options stored with the scheduler, and
//! the job that the upsert returns.
use vstd::prelude::*;
use crate::error::BullmqError;
use crate::text::concat3;
use crate::json::{json_object, json_object_text, json_string_literal, key_before, keys_ascending, scalar_members, JsonScalar};
use crate::repeat::{search_start, CRON_SEARCH_SLACK_MS, build_iteration_opts_at, is_iteration_opts, next_pattern_millis, now_ms, pattern_next_outcome};
use crate::resp::pairs_view;
use crate::text::decimal_digits;
use crate::types::{JobOptions, JobState, RepeatOptions, empty_job_options};

verus! {

/// Whether `r` is the error `Other` with message `m`.
pub open spec fn is_other<T>(r: Result<T, BullmqError>, m: Seq<char>) -> bool {
    r matches Err(BullmqError::Other(t)) && t@ == m
}

/// The iteration number that an upsert produces: one past the counter, 1
/// without one.
pub open spec fn next_iteration_count(repeat: RepeatOptions) -> u64 {
    match repeat.count {
        Some(c) => (c + 1) as u64,
        None => 1,
    }
}

/// The checks of an upsert at time `now`, in order: exactly one of
/// `pattern` and `every`; not both `immediately` and a start date; the
/// iteration limit not exceeded; the end date not passed. On success, the
/// number of the iteration to produce.
pub open spec fn repeat_check(scheduler_id: Seq<char>, repeat: RepeatOptions, now: u64) -> Result<u64, Seq<char>> {
    if repeat.pattern is Some && repeat.every is Some {
        Err("Both .pattern and .every options are defined for this repeatable job"@)
    } else if repeat.pattern is None && repeat.every is None {
        Err("Either .pattern or .every options must be defined for this repeatable job"@)
    } else if repeat.immediately && repeat.start_date is Some {
        Err("Both .immediately and .startDate options are defined for this repeatable job"@)
    } else if repeat.limit matches Some(l) && next_iteration_count(repeat) > l {
        Err("Job scheduler "@ + scheduler_id + " reached its iteration limit"@)
    } else if repeat.end_date matches Some(e) && now > e {
        Err("Job scheduler "@ + scheduler_id + " is past its end date"@)
    } else {
        Ok(next_iteration_count(repeat))
    }
}

/// An upsert produces iteration number one past the counter (1 without
/// one), never past the limit: it is refused exactly when that number
/// exceeds the limit (given valid options). It is refused once the end
/// date has passed, and with valid options, within the limit and without
/// end date it goes ahead.
pub proof fn lemma_repeat_check(scheduler_id: Seq<char>, repeat: RepeatOptions, now: u64)
    requires
        repeat.count matches Some(c) ==> c < u64::MAX,
    ensures
        repeat_check(scheduler_id, repeat, now) matches Ok(n) ==> n == (match repeat.count {
            Some(c) => c + 1,
            None => 1,
        }) && (repeat.limit matches Some(l) ==> n <= l) && (repeat.end_date matches Some(e) ==> now <= e),
        next_iteration_count(repeat) == (match repeat.count {
            Some(c) => c + 1,
            None => 1,
        }),
        repeat_shape_valid(repeat) ==> (repeat_check(scheduler_id, repeat, now) == Err::<u64, Seq<char>>(
            "Job scheduler "@ + scheduler_id + " reached its iteration limit"@,
        ) <==> limit_reached(repeat)),
        repeat_shape_valid(repeat) && !limit_reached(repeat) && repeat.end_date is None ==> repeat_check(
            scheduler_id,
            repeat,
            now,
        ) is Ok,
        (repeat.end_date matches Some(e) && now > e) ==> repeat_check(scheduler_id, repeat, now) is Err,
{
    reveal_strlit("Both .pattern and .every options are defined for this repeatable job");
    reveal_strlit("Either .pattern or .every options must be defined for this repeatable job");
    reveal_strlit("Both .immediately and .startDate options are defined for this repeatable job");
    reveal_strlit("Job scheduler ");
    reveal_strlit(" reached its iteration limit");
    reveal_strlit(" is past its end date");
    let m = "Job scheduler "@ + scheduler_id + " reached its iteration limit"@;
    let e = "Job scheduler "@ + scheduler_id + " is past its end date"@;
    assert(m.len() != e.len()) by {
        assert(m.len() == 14 + scheduler_id.len() + 28);
        assert(e.len() == 14 + scheduler_id.len() + 21);
    }
}

/// Runs the checks of an upsert at time `now` (see `repeat_check`); the
/// counter must be below `u64::MAX`.
pub fn check_repeat_options(scheduler_id: &str, repeat: &RepeatOptions, now: u64) -> (r: Result<u64, BullmqError>)
    requires
        repeat_shape_valid(*repeat) ==> (repeat.count matches Some(c) ==> c < u64::MAX),
    ensures
        match repeat_check(scheduler_id@, *repeat, now) {
            Ok(n) => r == Ok::<u64, BullmqError>(n),
            Err(m) => is_other(r, m),
        },
{
    if repeat.pattern.is_some() && repeat.every.is_some() {
        return Err(BullmqError::Other("Both .pattern and .every options are defined for this repeatable job".to_owned()));
    }
    if repeat.pattern.is_none() && repeat.every.is_none() {
        return Err(BullmqError::Other("Either .pattern or .every options must be defined for this repeatable job".to_owned()));
    }
    if repeat.immediately && repeat.start_date.is_some() {
        return Err(BullmqError::Other("Both .immediately and .startDate options are defined for this repeatable job".to_owned()));
    }
    let iteration_count = match repeat.count {
        Some(c) => c + 1,
        None => 1,
    };
    if let Some(limit) = repeat.limit {
        if iteration_count > limit {
            return Err(BullmqError::Other(concat3("Job scheduler ", scheduler_id, " reached its iteration limit")));
        }
    }
    if let Some(end_date) = repeat.end_date {
        if now > end_date {
            return Err(BullmqError::Other(concat3("Job scheduler ", scheduler_id, " is past its end date")));
        }
    }
    Ok(iteration_count)
}

/// The time an upsert schedules from: `now`, or the template's iteration
/// time when that is later.
pub open spec fn schedule_start(now: u64, template_opts: JobOptions) -> u64 {
    match template_opts.prev_millis {
        Some(p) => if p > now {
            p
        } else {
            now
        },
        None => now,
    }
}

/// The time an upsert schedules from (see `schedule_start`).
pub fn scheduler_start(now: u64, template_opts: &JobOptions) -> (r: u64)
    ensures
        r == schedule_start(now, *template_opts),
{
    let prev = match template_opts.prev_millis {
        Some(p) => p,
        None => 0,
    };
    if prev > now {
        prev
    } else {
        now
    }
}

/// The time of the iteration to produce in cron mode, from the next cron
/// occurrence: never before `start`; an error when there is none.
pub fn iteration_millis_from(start: u64, next: Option<u64>, pattern: &str) -> (r: Result<u64, BullmqError>)
    ensures
        match next {
            Some(n) => r == Ok::<u64, BullmqError>(if n >= start { n } else { start }),
            None => is_other(r, "No next occurrence for cron pattern '"@ + pattern@ + "'"@),
        },
{
    match next {
        Some(n) => Ok(if n >= start {
            n
        } else {
            start
        }),
        None => Err(BullmqError::Other(concat3("No next occurrence for cron pattern '", pattern, "'"))),
    }
}

/// The time of the iteration to produce: in cron mode the next occurrence
/// from `start` (never before `start`); in `every` mode 0, the script then
/// computing it.
pub fn next_iteration_millis(start: u64, repeat: &RepeatOptions) -> (r: Result<u64, BullmqError>)
    ensures
        repeat.pattern is None ==> r == Ok::<u64, BullmqError>(0),
        repeat.pattern is Some ==> (r matches Ok(n) ==> n >= start),
        repeat.pattern is Some && repeat.immediately ==> r is Ok,
        repeat.pattern matches Some(p) ==> (pattern_next_outcome(start, *repeat, p@) matches Some(o)
            ==> match o {
            Ok(Some(n)) => r == Ok::<u64, BullmqError>(if n >= start { n } else { start }),
            Ok(None) => is_other(r, "No next occurrence for cron pattern '"@ + p@ + "'"@),
            Err(m) => is_other(r, m),
        }),
{
    match &repeat.pattern {
        Some(pattern) => {
            let next = next_pattern_millis(start, repeat, pattern.as_str())?;
            iteration_millis_from(start, next, pattern.as_str())
        },
        None => Ok(0),
    }
}

/// The name of the jobs a scheduler produces: the template's, or the
/// scheduler id.
pub fn scheduler_job_name(template_name: &Option<String>, scheduler_id: &str) -> (r: String)
    ensures
        r@ == match *template_name {
            Some(n) => n@,
            None => scheduler_id@,
        },
{
    match template_name {
        Some(n) => n.clone(),
        None => scheduler_id.to_owned(),
    }
}

/// A numeric member, present when the value is.
pub open spec fn num_member(k: Seq<char>, v: Option<u64>) -> Seq<(Seq<char>, Seq<char>)> {
    match v {
        Some(n) => seq![(k, decimal_digits(n as nat))],
        None => Seq::empty(),
    }
}

/// A string member, present when the value is.
pub open spec fn str_member(k: Seq<char>, v: Option<String>) -> Seq<(Seq<char>, Seq<char>)> {
    match v {
        Some(s) => seq![(k, json_string_literal(s@))],
        None => Seq::empty(),
    }
}

/// The members of the options stored with a scheduler, in key order:
/// `endDate`, `every`, `limit`, `name`, `offset` (only in `every` mode),
/// `pattern`, `startDate`, `tz`; absent options are left out.
pub open spec fn scheduler_members(name: Seq<char>, repeat: RepeatOptions) -> Seq<(Seq<char>, Seq<char>)> {
    num_member("endDate"@, repeat.end_date) + num_member("every"@, repeat.every) + num_member(
        "limit"@,
        repeat.limit,
    ) + seq![("name"@, json_string_literal(name))] + num_member(
        "offset"@,
        if repeat.every is Some {
            repeat.offset
        } else {
            None
        },
    ) + str_member("pattern"@, repeat.pattern) + num_member("startDate"@, repeat.start_date)
        + str_member("tz"@, repeat.tz)
}

fn push_num_member(ms: &mut Vec<(String, JsonScalar)>, k: &str, v: Option<u64>)
    ensures
        scalar_members(final(ms)@) == scalar_members(old(ms)@) + num_member(k@, v),
{
    let ghost before = scalar_members(ms@);
    match v {
        Some(n) => {
            ms.push((k.to_owned(), JsonScalar::Number(n)));
            assert(scalar_members(ms@) =~= before + num_member(k@, v));
        },
        None => {
            assert(scalar_members(ms@) =~= before + num_member(k@, v));
        },
    }
}

fn push_str_member(ms: &mut Vec<(String, JsonScalar)>, k: &str, v: &Option<String>)
    ensures
        scalar_members(final(ms)@) == scalar_members(old(ms)@) + str_member(k@, *v),
{
    let ghost before = scalar_members(ms@);
    match v {
        Some(s) => {
            ms.push((k.to_owned(), JsonScalar::Text(s.clone())));
            assert(scalar_members(ms@) =~= before + str_member(k@, *v));
        },
        None => {
            assert(scalar_members(ms@) =~= before + str_member(k@, *v));
        },
    }
}

/// The keys of the options stored with a scheduler, in ascending order.
pub open spec fn scheduler_keys() -> Seq<Seq<char>> {
    seq!["endDate"@, "every"@, "limit"@, "name"@, "offset"@, "pattern"@, "startDate"@, "tz"@]
}

proof fn lemma_key_before_at(a: Seq<char>, b: Seq<char>, k: int)
    requires
        0 <= k < a.len(),
        k < b.len(),
        forall|t: int| 0 <= t < k ==> a[t] == b[t],
        (a[k] as int) < (b[k] as int),
    ensures
        key_before(a, b),
{
    assert(a.take(k) =~= b.take(k));
}

proof fn lemma_scheduler_keys_ascend()
    ensures
        forall|i: int, j: int| 0 <= i < j < 8 ==> key_before(#[trigger] scheduler_keys()[i], #[trigger] scheduler_keys()[j]),
{
    reveal_strlit("endDate");
    reveal_strlit("every");
    reveal_strlit("limit");
    reveal_strlit("name");
    reveal_strlit("offset");
    reveal_strlit("pattern");
    reveal_strlit("startDate");
    reveal_strlit("tz");
    lemma_key_before_at("endDate"@, "every"@, 1);
    lemma_key_before_at("endDate"@, "limit"@, 0);
    lemma_key_before_at("endDate"@, "name"@, 0);
    lemma_key_before_at("endDate"@, "offset"@, 0);
    lemma_key_before_at("endDate"@, "pattern"@, 0);
    lemma_key_before_at("endDate"@, "startDate"@, 0);
    lemma_key_before_at("endDate"@, "tz"@, 0);
    lemma_key_before_at("every"@, "limit"@, 0);
    lemma_key_before_at("every"@, "name"@, 0);
    lemma_key_before_at("every"@, "offset"@, 0);
    lemma_key_before_at("every"@, "pattern"@, 0);
    lemma_key_before_at("every"@, "startDate"@, 0);
    lemma_key_before_at("every"@, "tz"@, 0);
    lemma_key_before_at("limit"@, "name"@, 0);
    lemma_key_before_at("limit"@, "offset"@, 0);
    lemma_key_before_at("limit"@, "pattern"@, 0);
    lemma_key_before_at("limit"@, "startDate"@, 0);
    lemma_key_before_at("limit"@, "tz"@, 0);
    lemma_key_before_at("name"@, "offset"@, 0);
    lemma_key_before_at("name"@, "pattern"@, 0);
    lemma_key_before_at("name"@, "startDate"@, 0);
    lemma_key_before_at("name"@, "tz"@, 0);
    lemma_key_before_at("offset"@, "pattern"@, 0);
    lemma_key_before_at("offset"@, "startDate"@, 0);
    lemma_key_before_at("offset"@, "tz"@, 0);
    lemma_key_before_at("pattern"@, "startDate"@, 0);
    lemma_key_before_at("pattern"@, "tz"@, 0);
    lemma_key_before_at("startDate"@, "tz"@, 0);
    let ks = scheduler_keys();
    assert forall|i: int, j: int| 0 <= i < j < 8 implies key_before(#[trigger] ks[i], #[trigger] ks[j]) by {
        assert(ks[0] == "endDate"@ && ks[1] == "every"@ && ks[2] == "limit"@ && ks[3] == "name"@);
        assert(ks[4] == "offset"@ && ks[5] == "pattern"@ && ks[6] == "startDate"@ && ks[7] == "tz"@);
    }
}

/// Whether every key of `ms` is one of the first `r` scheduler keys.
pub open spec fn keys_among(ms: Seq<(Seq<char>, Seq<char>)>, r: int) -> bool {
    forall|i: int| 0 <= i < ms.len() ==> #[trigger] key_rank_below(ms[i].0, r)
}

/// Whether `k` is one of the first `r` scheduler keys.
pub open spec fn key_rank_below(k: Seq<char>, r: int) -> bool {
    exists|t: int| 0 <= t < r && k == #[trigger] scheduler_keys()[t]
}

proof fn lemma_push_key(ms: Seq<(Seq<char>, Seq<char>)>, r: int, seg: Seq<(Seq<char>, Seq<char>)>)
    requires
        0 <= r < 8,
        keys_ascending(ms),
        keys_among(ms, r),
        seg.len() <= 1,
        seg.len() == 1 ==> seg[0].0 == scheduler_keys()[r],
    ensures
        keys_ascending(ms + seg),
        keys_among(ms + seg, r + 1),
{
    lemma_scheduler_keys_ascend();
    let all = ms + seg;
    assert forall|i: int, j: int| 0 <= i < j < all.len() implies key_before(#[trigger] all[i].0, #[trigger] all[j].0) by {
        if j < ms.len() {
            assert(all[i] == ms[i] && all[j] == ms[j]);
        } else {
            assert(all[i] == ms[i]);
            assert(key_rank_below(ms[i].0, r));
            let t = choose|t: int| 0 <= t < r && ms[i].0 == #[trigger] scheduler_keys()[t];
            assert(key_before(scheduler_keys()[t], scheduler_keys()[r]));
        }
    }
    assert forall|i: int| 0 <= i < all.len() implies #[trigger] key_rank_below(all[i].0, r + 1) by {
        if i < ms.len() {
            assert(all[i] == ms[i]);
            assert(key_rank_below(ms[i].0, r));
            let t = choose|t: int| 0 <= t < r && ms[i].0 == #[trigger] scheduler_keys()[t];
            assert(all[i].0 == scheduler_keys()[t] && 0 <= t < r + 1);
        } else {
            assert(all[i].0 == scheduler_keys()[r]);
            assert(0 <= r < r + 1);
        }
    }
}

/// Whether no member of `ms` has key `k`.
pub open spec fn no_key(ms: Seq<(Seq<char>, Seq<char>)>, k: Seq<char>) -> bool {
    forall|i: int| 0 <= i < ms.len() ==> #[trigger] ms[i].0 != k
}

proof fn lemma_concat_member(a: Seq<(Seq<char>, Seq<char>)>, b: Seq<(Seq<char>, Seq<char>)>, x: (Seq<char>, Seq<char>))
    ensures
        a.contains(x) || b.contains(x) ==> (a + b).contains(x),
{
    if a.contains(x) {
        let i = choose|i: int| 0 <= i < a.len() && a[i] == x;
        assert((a + b)[i] == x);
    } else if b.contains(x) {
        let i = choose|i: int| 0 <= i < b.len() && b[i] == x;
        assert((a + b)[a.len() + i] == x);
    }
}

proof fn lemma_concat_no_key(a: Seq<(Seq<char>, Seq<char>)>, b: Seq<(Seq<char>, Seq<char>)>, k: Seq<char>)
    requires
        no_key(a, k),
        no_key(b, k),
    ensures
        no_key(a + b, k),
{
    assert forall|i: int| 0 <= i < (a + b).len() implies #[trigger] (a + b)[i].0 != k by {
        if i < a.len() {
            assert((a + b)[i] == a[i]);
        } else {
            assert((a + b)[i] == b[i - a.len()]);
        }
    }
}

/// The options stored with a scheduler hold every option that is set, as
/// a member with its value: the name always; the end date, interval,
/// limit, start date, pattern and time zone whenever set, in cron mode as
/// in `every` mode; the offset whenever set in `every` mode. They hold no
/// member for an option that is not set, no key outside these, and no key
/// twice (in ascending order).
pub proof fn lemma_scheduler_members(name: Seq<char>, repeat: RepeatOptions)
    ensures
        repeat.end_date matches Some(v) ==> scheduler_members(name, repeat).contains(("endDate"@, decimal_digits(v as nat))),
        repeat.every matches Some(v) ==> scheduler_members(name, repeat).contains(("every"@, decimal_digits(v as nat))),
        repeat.limit matches Some(v) ==> scheduler_members(name, repeat).contains(("limit"@, decimal_digits(v as nat))),
        scheduler_members(name, repeat).contains(("name"@, json_string_literal(name))),
        repeat.every is Some ==> (repeat.offset matches Some(v) ==> scheduler_members(name, repeat).contains(("offset"@, decimal_digits(v as nat)))),
        repeat.pattern matches Some(v) ==> scheduler_members(name, repeat).contains(("pattern"@, json_string_literal(v@))),
        repeat.start_date matches Some(v) ==> scheduler_members(name, repeat).contains(("startDate"@, decimal_digits(v as nat))),
        repeat.tz matches Some(v) ==> scheduler_members(name, repeat).contains(("tz"@, json_string_literal(v@))),
        repeat.end_date is None ==> no_key(scheduler_members(name, repeat), "endDate"@),
        repeat.every is None ==> no_key(scheduler_members(name, repeat), "every"@),
        repeat.limit is None ==> no_key(scheduler_members(name, repeat), "limit"@),
        repeat.every is None || repeat.offset is None ==> no_key(scheduler_members(name, repeat), "offset"@),
        repeat.pattern is None ==> no_key(scheduler_members(name, repeat), "pattern"@),
        repeat.start_date is None ==> no_key(scheduler_members(name, repeat), "startDate"@),
        repeat.tz is None ==> no_key(scheduler_members(name, repeat), "tz"@),
        forall|i: int| 0 <= i < scheduler_members(name, repeat).len() ==> #[trigger] scheduler_keys().contains(scheduler_members(name, repeat)[i].0),
        keys_ascending(scheduler_members(name, repeat)),
{
    reveal_strlit("endDate");
    reveal_strlit("every");
    reveal_strlit("limit");
    reveal_strlit("name");
    reveal_strlit("offset");
    reveal_strlit("pattern");
    reveal_strlit("startDate");
    reveal_strlit("tz");
    let s0 = num_member("endDate"@, repeat.end_date);
    let s1 = num_member("every"@, repeat.every);
    let s2 = num_member("limit"@, repeat.limit);
    let s3 = seq![("name"@, json_string_literal(name))];
    let s4 = num_member("offset"@, if repeat.every is Some { repeat.offset } else { None });
    let s5 = str_member("pattern"@, repeat.pattern);
    let s6 = num_member("startDate"@, repeat.start_date);
    let s7 = str_member("tz"@, repeat.tz);
    let c0 = s0;
    let c1 = c0 + s1;
    let c2 = c1 + s2;
    let c3 = c2 + s3;
    let c4 = c3 + s4;
    let c5 = c4 + s5;
    let c6 = c5 + s6;
    let c7 = c6 + s7;
    assert(c7 == scheduler_members(name, repeat));
    assert("endDate"@.len() != "every"@.len());
    assert("endDate"@.len() != "limit"@.len());
    assert("endDate"@.len() != "name"@.len());
    assert("endDate"@.len() != "offset"@.len());
    assert("endDate"@[0] != "pattern"@[0]);
    assert("endDate"@.len() != "startDate"@.len());
    assert("endDate"@.len() != "tz"@.len());
    assert("every"@[0] != "limit"@[0]);
    assert("every"@.len() != "name"@.len());
    assert("every"@.len() != "offset"@.len());
    assert("every"@.len() != "pattern"@.len());
    assert("every"@.len() != "startDate"@.len());
    assert("every"@.len() != "tz"@.len());
    assert("limit"@.len() != "name"@.len());
    assert("limit"@.len() != "offset"@.len());
    assert("limit"@.len() != "pattern"@.len());
    assert("limit"@.len() != "startDate"@.len());
    assert("limit"@.len() != "tz"@.len());
    assert("name"@.len() != "offset"@.len());
    assert("name"@.len() != "pattern"@.len());
    assert("name"@.len() != "startDate"@.len());
    assert("name"@.len() != "tz"@.len());
    assert("offset"@.len() != "pattern"@.len());
    assert("offset"@.len() != "startDate"@.len());
    assert("offset"@.len() != "tz"@.len());
    assert("pattern"@.len() != "startDate"@.len());
    assert("pattern"@.len() != "tz"@.len());
    assert("startDate"@.len() != "tz"@.len());
    if let Some(v) = repeat.end_date {
        assert(s0[0] == ("endDate"@, decimal_digits(v as nat)));
        assert(s0.contains(("endDate"@, decimal_digits(v as nat))));
        lemma_concat_member(c0, s1, ("endDate"@, decimal_digits(v as nat)));
        lemma_concat_member(c1, s2, ("endDate"@, decimal_digits(v as nat)));
        lemma_concat_member(c2, s3, ("endDate"@, decimal_digits(v as nat)));
        lemma_concat_member(c3, s4, ("endDate"@, decimal_digits(v as nat)));
        lemma_concat_member(c4, s5, ("endDate"@, decimal_digits(v as nat)));
        lemma_concat_member(c5, s6, ("endDate"@, decimal_digits(v as nat)));
        lemma_concat_member(c6, s7, ("endDate"@, decimal_digits(v as nat)));
    }
    if let Some(v) = repeat.every {
        assert(s1[0] == ("every"@, decimal_digits(v as nat)));
        assert(s1.contains(("every"@, decimal_digits(v as nat))));
        lemma_concat_member(c0, s1, ("every"@, decimal_digits(v as nat)));
        lemma_concat_member(c1, s2, ("every"@, decimal_digits(v as nat)));
        lemma_concat_member(c2, s3, ("every"@, decimal_digits(v as nat)));
        lemma_concat_member(c3, s4, ("every"@, decimal_digits(v as nat)));
        lemma_concat_member(c4, s5, ("every"@, decimal_digits(v as nat)));
        lemma_concat_member(c5, s6, ("every"@, decimal_digits(v as nat)));
        lemma_concat_member(c6, s7, ("every"@, decimal_digits(v as nat)));
    }
    if let Some(v) = repeat.limit {
        assert(s2[0] == ("limit"@, decimal_digits(v as nat)));
        assert(s2.contains(("limit"@, decimal_digits(v as nat))));
        lemma_concat_member(c1, s2, ("limit"@, decimal_digits(v as nat)));
        lemma_concat_member(c2, s3, ("limit"@, decimal_digits(v as nat)));
        lemma_concat_member(c3, s4, ("limit"@, decimal_digits(v as nat)));
        lemma_concat_member(c4, s5, ("limit"@, decimal_digits(v as nat)));
        lemma_concat_member(c5, s6, ("limit"@, decimal_digits(v as nat)));
        lemma_concat_member(c6, s7, ("limit"@, decimal_digits(v as nat)));
    }
    {
        assert(s3[0] == ("name"@, json_string_literal(name)));
        assert(s3.contains(("name"@, json_string_literal(name))));
        lemma_concat_member(c2, s3, ("name"@, json_string_literal(name)));
        lemma_concat_member(c3, s4, ("name"@, json_string_literal(name)));
        lemma_concat_member(c4, s5, ("name"@, json_string_literal(name)));
        lemma_concat_member(c5, s6, ("name"@, json_string_literal(name)));
        lemma_concat_member(c6, s7, ("name"@, json_string_literal(name)));
    }
    if let (Some(_), Some(v)) = (repeat.every, repeat.offset) {
        assert(s4[0] == ("offset"@, decimal_digits(v as nat)));
        assert(s4.contains(("offset"@, decimal_digits(v as nat))));
        lemma_concat_member(c3, s4, ("offset"@, decimal_digits(v as nat)));
        lemma_concat_member(c4, s5, ("offset"@, decimal_digits(v as nat)));
        lemma_concat_member(c5, s6, ("offset"@, decimal_digits(v as nat)));
        lemma_concat_member(c6, s7, ("offset"@, decimal_digits(v as nat)));
    }
    if let Some(v) = repeat.pattern {
        assert(s5[0] == ("pattern"@, json_string_literal(v@)));
        assert(s5.contains(("pattern"@, json_string_literal(v@))));
        lemma_concat_member(c4, s5, ("pattern"@, json_string_literal(v@)));
        lemma_concat_member(c5, s6, ("pattern"@, json_string_literal(v@)));
        lemma_concat_member(c6, s7, ("pattern"@, json_string_literal(v@)));
    }
    if let Some(v) = repeat.start_date {
        assert(s6[0] == ("startDate"@, decimal_digits(v as nat)));
        assert(s6.contains(("startDate"@, decimal_digits(v as nat))));
        lemma_concat_member(c5, s6, ("startDate"@, decimal_digits(v as nat)));
        lemma_concat_member(c6, s7, ("startDate"@, decimal_digits(v as nat)));
    }
    if let Some(v) = repeat.tz {
        assert(s7[0] == ("tz"@, json_string_literal(v@)));
        assert(s7.contains(("tz"@, json_string_literal(v@))));
        lemma_concat_member(c6, s7, ("tz"@, json_string_literal(v@)));
    }
    if repeat.end_date is None {
        assert(no_key(s0, "endDate"@));
        assert(no_key(s1, "endDate"@));
        assert(no_key(s2, "endDate"@));
        assert(no_key(s3, "endDate"@));
        assert(no_key(s4, "endDate"@));
        assert(no_key(s5, "endDate"@));
        assert(no_key(s6, "endDate"@));
        assert(no_key(s7, "endDate"@));
        lemma_concat_no_key(c0, s1, "endDate"@);
        lemma_concat_no_key(c1, s2, "endDate"@);
        lemma_concat_no_key(c2, s3, "endDate"@);
        lemma_concat_no_key(c3, s4, "endDate"@);
        lemma_concat_no_key(c4, s5, "endDate"@);
        lemma_concat_no_key(c5, s6, "endDate"@);
        lemma_concat_no_key(c6, s7, "endDate"@);
    }
    if repeat.every is None {
        assert(no_key(s0, "every"@));
        assert(no_key(s1, "every"@));
        assert(no_key(s2, "every"@));
        assert(no_key(s3, "every"@));
        assert(no_key(s4, "every"@));
        assert(no_key(s5, "every"@));
        assert(no_key(s6, "every"@));
        assert(no_key(s7, "every"@));
        lemma_concat_no_key(c0, s1, "every"@);
        lemma_concat_no_key(c1, s2, "every"@);
        lemma_concat_no_key(c2, s3, "every"@);
        lemma_concat_no_key(c3, s4, "every"@);
        lemma_concat_no_key(c4, s5, "every"@);
        lemma_concat_no_key(c5, s6, "every"@);
        lemma_concat_no_key(c6, s7, "every"@);
    }
    if repeat.limit is None {
        assert(no_key(s0, "limit"@));
        assert(no_key(s1, "limit"@));
        assert(no_key(s2, "limit"@));
        assert(no_key(s3, "limit"@));
        assert(no_key(s4, "limit"@));
        assert(no_key(s5, "limit"@));
        assert(no_key(s6, "limit"@));
        assert(no_key(s7, "limit"@));
        lemma_concat_no_key(c0, s1, "limit"@);
        lemma_concat_no_key(c1, s2, "limit"@);
        lemma_concat_no_key(c2, s3, "limit"@);
        lemma_concat_no_key(c3, s4, "limit"@);
        lemma_concat_no_key(c4, s5, "limit"@);
        lemma_concat_no_key(c5, s6, "limit"@);
        lemma_concat_no_key(c6, s7, "limit"@);
    }
    if repeat.every is None || repeat.offset is None {
        assert(no_key(s0, "offset"@));
        assert(no_key(s1, "offset"@));
        assert(no_key(s2, "offset"@));
        assert(no_key(s3, "offset"@));
        assert(no_key(s4, "offset"@));
        assert(no_key(s5, "offset"@));
        assert(no_key(s6, "offset"@));
        assert(no_key(s7, "offset"@));
        lemma_concat_no_key(c0, s1, "offset"@);
        lemma_concat_no_key(c1, s2, "offset"@);
        lemma_concat_no_key(c2, s3, "offset"@);
        lemma_concat_no_key(c3, s4, "offset"@);
        lemma_concat_no_key(c4, s5, "offset"@);
        lemma_concat_no_key(c5, s6, "offset"@);
        lemma_concat_no_key(c6, s7, "offset"@);
    }
    if repeat.pattern is None {
        assert(no_key(s0, "pattern"@));
        assert(no_key(s1, "pattern"@));
        assert(no_key(s2, "pattern"@));
        assert(no_key(s3, "pattern"@));
        assert(no_key(s4, "pattern"@));
        assert(no_key(s5, "pattern"@));
        assert(no_key(s6, "pattern"@));
        assert(no_key(s7, "pattern"@));
        lemma_concat_no_key(c0, s1, "pattern"@);
        lemma_concat_no_key(c1, s2, "pattern"@);
        lemma_concat_no_key(c2, s3, "pattern"@);
        lemma_concat_no_key(c3, s4, "pattern"@);
        lemma_concat_no_key(c4, s5, "pattern"@);
        lemma_concat_no_key(c5, s6, "pattern"@);
        lemma_concat_no_key(c6, s7, "pattern"@);
    }
    if repeat.start_date is None {
        assert(no_key(s0, "startDate"@));
        assert(no_key(s1, "startDate"@));
        assert(no_key(s2, "startDate"@));
        assert(no_key(s3, "startDate"@));
        assert(no_key(s4, "startDate"@));
        assert(no_key(s5, "startDate"@));
        assert(no_key(s6, "startDate"@));
        assert(no_key(s7, "startDate"@));
        lemma_concat_no_key(c0, s1, "startDate"@);
        lemma_concat_no_key(c1, s2, "startDate"@);
        lemma_concat_no_key(c2, s3, "startDate"@);
        lemma_concat_no_key(c3, s4, "startDate"@);
        lemma_concat_no_key(c4, s5, "startDate"@);
        lemma_concat_no_key(c5, s6, "startDate"@);
        lemma_concat_no_key(c6, s7, "startDate"@);
    }
    if repeat.tz is None {
        assert(no_key(s0, "tz"@));
        assert(no_key(s1, "tz"@));
        assert(no_key(s2, "tz"@));
        assert(no_key(s3, "tz"@));
        assert(no_key(s4, "tz"@));
        assert(no_key(s5, "tz"@));
        assert(no_key(s6, "tz"@));
        assert(no_key(s7, "tz"@));
        lemma_concat_no_key(c0, s1, "tz"@);
        lemma_concat_no_key(c1, s2, "tz"@);
        lemma_concat_no_key(c2, s3, "tz"@);
        lemma_concat_no_key(c3, s4, "tz"@);
        lemma_concat_no_key(c4, s5, "tz"@);
        lemma_concat_no_key(c5, s6, "tz"@);
        lemma_concat_no_key(c6, s7, "tz"@);
    }
    lemma_scheduler_members_keys(name, repeat);
}

proof fn lemma_scheduler_members_keys(name: Seq<char>, repeat: RepeatOptions)
    ensures
        forall|i: int| 0 <= i < scheduler_members(name, repeat).len() ==> #[trigger] scheduler_keys().contains(scheduler_members(name, repeat)[i].0),
        keys_ascending(scheduler_members(name, repeat)),
{
    let e = Seq::<(Seq<char>, Seq<char>)>::empty();
    let s0 = num_member("endDate"@, repeat.end_date);
    let s1 = num_member("every"@, repeat.every);
    let s2 = num_member("limit"@, repeat.limit);
    let s3 = seq![("name"@, json_string_literal(name))];
    let s4 = num_member("offset"@, if repeat.every is Some { repeat.offset } else { None });
    let s5 = str_member("pattern"@, repeat.pattern);
    let s6 = num_member("startDate"@, repeat.start_date);
    let s7 = str_member("tz"@, repeat.tz);
    let c0 = s0;
    let c1 = c0 + s1;
    let c2 = c1 + s2;
    let c3 = c2 + s3;
    let c4 = c3 + s4;
    let c5 = c4 + s5;
    let c6 = c5 + s6;
    let c7 = c6 + s7;
    assert(e + s0 =~= s0);
    lemma_push_key(e, 0, s0);
    lemma_push_key(c0, 1, s1);
    lemma_push_key(c1, 2, s2);
    lemma_push_key(c2, 3, s3);
    lemma_push_key(c3, 4, s4);
    lemma_push_key(c4, 5, s5);
    lemma_push_key(c5, 6, s6);
    lemma_push_key(c6, 7, s7);
    assert(c7 == scheduler_members(name, repeat));
    let ms = c7;
    assert forall|i: int| 0 <= i < ms.len() implies #[trigger] scheduler_keys().contains(ms[i].0) by {
        assert(key_rank_below(ms[i].0, 8));
        let t = choose|t: int| 0 <= t < 8 && ms[i].0 == #[trigger] scheduler_keys()[t];
        assert(scheduler_keys()[t] == ms[i].0);
    }
}

/// The JSON options stored with a scheduler (see `scheduler_members`),
/// written by `serde_json`.
pub fn scheduler_opts_json(name: &str, repeat: &RepeatOptions) -> (r: String)
    ensures
        r@ == json_object(scheduler_members(name@, *repeat)),
{
    let mut ms: Vec<(String, JsonScalar)> = Vec::new();
    assert(scalar_members(ms@) =~= Seq::empty());
    let ghost s0 = scalar_members(ms@);
    push_num_member(&mut ms, "endDate", repeat.end_date);
    proof { lemma_push_key(s0, 0, num_member("endDate"@, repeat.end_date)); }
    let ghost s1 = scalar_members(ms@);
    push_num_member(&mut ms, "every", repeat.every);
    proof { lemma_push_key(s1, 1, num_member("every"@, repeat.every)); }
    let ghost s2 = scalar_members(ms@);
    push_num_member(&mut ms, "limit", repeat.limit);
    proof { lemma_push_key(s2, 2, num_member("limit"@, repeat.limit)); }
    let ghost s3 = scalar_members(ms@);
    ms.push(("name".to_owned(), JsonScalar::Text(name.to_owned())));
    assert(scalar_members(ms@) =~= s3 + seq![("name"@, json_string_literal(name@))]);
    proof { lemma_push_key(s3, 3, seq![("name"@, json_string_literal(name@))]); }
    let offset = if repeat.every.is_some() {
        repeat.offset
    } else {
        None
    };
    let ghost s4 = scalar_members(ms@);
    push_num_member(&mut ms, "offset", offset);
    proof { lemma_push_key(s4, 4, num_member("offset"@, offset)); }
    let ghost s5 = scalar_members(ms@);
    push_str_member(&mut ms, "pattern", &repeat.pattern);
    proof { lemma_push_key(s5, 5, str_member("pattern"@, repeat.pattern)); }
    let ghost s6 = scalar_members(ms@);
    push_num_member(&mut ms, "startDate", repeat.start_date);
    proof { lemma_push_key(s6, 6, num_member("startDate"@, repeat.start_date)); }
    let ghost s7 = scalar_members(ms@);
    push_str_member(&mut ms, "tz", &repeat.tz);
    proof { lemma_push_key(s7, 7, str_member("tz"@, repeat.tz)); }
    assert(scalar_members(ms@) =~= scheduler_members(name@, *repeat));
    json_object_text(&ms)
}

/// What an upsert decided before calling its script.
#[derive(Debug)]
pub struct SchedulerPlan {
    /// The time the upsert was planned at: its checks ran against it.
    pub planned_at: u64,
    /// Number of the iteration produced.
    pub iteration_count: u64,
    /// Time of the iteration (0 in `every` mode, where the script decides).
    pub next_millis: u64,
    /// Name of the produced job.
    pub job_name: String,
    /// The template's options (empty when it has none).
    pub template_opts: JobOptions,
    /// Options of the produced job.
    pub merged_opts: JobOptions,
    /// JSON options stored with the scheduler.
    pub scheduler_opts_json: String,
}

/// Whether exactly one of `pattern` and `every` is set, and not both
/// `immediately` and a start date: the checks an upsert makes before it
/// counts the iteration.
pub open spec fn repeat_shape_valid(repeat: RepeatOptions) -> bool {
    (repeat.pattern is Some) != (repeat.every is Some) && !(repeat.immediately && repeat.start_date is Some)
}

/// Whether the iteration an upsert would produce is past the limit.
pub open spec fn limit_reached(repeat: RepeatOptions) -> bool {
    repeat.limit matches Some(l) && next_iteration_count(repeat) > l
}

/// The template's options, or empty options without one.
pub open spec fn template_or_empty(template_opts: Option<JobOptions>) -> JobOptions {
    match template_opts {
        Some(o) => o,
        None => empty_job_options(),
    }
}

/// The later of two times.
pub open spec fn later(a: u64, b: u64) -> u64 {
    if a >= b {
        a
    } else {
        b
    }
}

/// Whether `p` is the plan of an upsert of scheduler `scheduler_id` made at
/// time `now`, producing the iteration at `pattern_next` in cron mode
/// (`None` in `every` mode), with the job options built at time `built`.
pub open spec fn is_plan(
    p: SchedulerPlan,
    scheduler_id: Seq<char>,
    repeat: RepeatOptions,
    template_name: Option<String>,
    t: JobOptions,
    now: u64,
    pattern_next: Option<u64>,
    built: u64,
) -> bool {
    &&& p.planned_at == now
    &&& p.iteration_count == next_iteration_count(repeat)
    &&& p.job_name@ == match template_name {
        Some(n) => n@,
        None => scheduler_id,
    }
    &&& p.template_opts == t
    &&& p.next_millis == match pattern_next {
        Some(x) => x,
        None => 0,
    }
    &&& is_iteration_opts(p.merged_opts, t, repeat, scheduler_id, p.iteration_count, pattern_next, built)
    &&& p.scheduler_opts_json@ == json_object(scheduler_members(p.job_name@, repeat))
}

/// Plans the upsert of scheduler `scheduler_id` at time `now`, in cron mode
/// from `next`, the outcome of the cron search from the schedule start
/// (see `schedule_start`), and with the options of the produced job built
/// at time `built`. The checks run first (see `repeat_check`); then a cron
/// error is passed on, a missing occurrence is an error, and an occurrence
/// before the schedule start is moved to it.
pub fn plan_job_scheduler_at(
    scheduler_id: &str,
    repeat: &RepeatOptions,
    template_name: &Option<String>,
    template_opts: &Option<JobOptions>,
    now: u64,
    next: Result<Option<u64>, BullmqError>,
    built: u64,
) -> (r: Result<SchedulerPlan, BullmqError>)
    requires
        repeat_shape_valid(*repeat) ==> (repeat.count matches Some(c) ==> c < u64::MAX),
    ensures
        ({
            let t = template_or_empty(*template_opts);
            match repeat_check(scheduler_id@, *repeat, now) {
                Err(m) => is_other(r, m),
                Ok(_) => match repeat.pattern {
                    Some(pat) => match next {
                        Err(e) => r == Err::<SchedulerPlan, BullmqError>(e),
                        Ok(None) => is_other(r, "No next occurrence for cron pattern '"@ + pat@ + "'"@),
                        Ok(Some(x)) => r matches Ok(p) && is_plan(
                            p,
                            scheduler_id@,
                            *repeat,
                            *template_name,
                            t,
                            now,
                            Some(later(x, schedule_start(now, t))),
                            built,
                        ),
                    },
                    None => r matches Ok(p) && is_plan(p, scheduler_id@, *repeat, *template_name, t, now, None, built),
                },
            }
        }),
{
    let iteration_count = match check_repeat_options(scheduler_id, repeat, now) {
        Ok(n) => n,
        Err(e) => {
            return Err(e);
        },
    };
    let t = match template_opts {
        Some(o) => o.clone(),
        None => JobOptions::default(),
    };
    let start = scheduler_start(now, &t);
    let next_millis = match &repeat.pattern {
        Some(pattern) => {
            let n = match next {
                Ok(n) => n,
                Err(e) => {
                    return Err(e);
                },
            };
            match iteration_millis_from(start, n, pattern.as_str()) {
                Ok(m) => m,
                Err(e) => {
                    return Err(e);
                },
            }
        },
        None => 0,
    };
    let job_name = scheduler_job_name(template_name, scheduler_id);
    let pattern_next = if repeat.pattern.is_some() {
        Some(next_millis)
    } else {
        None
    };
    let merged = build_iteration_opts_at(&t, repeat, scheduler_id, iteration_count, pattern_next, built);
    let opts_json = scheduler_opts_json(job_name.as_str(), repeat);
    Ok(SchedulerPlan {
        planned_at: now,
        iteration_count,
        next_millis,
        job_name,
        template_opts: t,
        merged_opts: merged,
        scheduler_opts_json: opts_json,
    })
}

/// Plans the upsert of scheduler `scheduler_id` with `repeat` and a
/// template named `template_name` with options `template_opts`, at the
/// current time (see `plan_job_scheduler_at`). The checks run against the
/// clock; in cron mode the next occurrence is searched from the later of
/// the clock and the template's iteration time (and of the start date).
pub fn plan_job_scheduler(
    scheduler_id: &str,
    repeat: &RepeatOptions,
    template_name: &Option<String>,
    template_opts: &Option<JobOptions>,
) -> (r: Result<SchedulerPlan, BullmqError>)
    requires
        repeat_shape_valid(*repeat) ==> (repeat.count matches Some(c) ==> c < u64::MAX),
    ensures
        repeat.pattern is Some && repeat.every is Some ==> is_other(r, "Both .pattern and .every options are defined for this repeatable job"@),
        repeat.pattern is None && repeat.every is None ==> is_other(r, "Either .pattern or .every options must be defined for this repeatable job"@),
        (repeat.pattern is Some) != (repeat.every is Some) && repeat.immediately && repeat.start_date is Some
            ==> is_other(r, "Both .immediately and .startDate options are defined for this repeatable job"@),
        repeat_shape_valid(*repeat) && limit_reached(*repeat)
            ==> is_other(r, "Job scheduler "@ + scheduler_id@ + " reached its iteration limit"@),
        // In `every` mode nothing outside decides: within its limit and
        // without an end date, the upsert is planned.
        repeat_shape_valid(*repeat) && repeat.every is Some && !limit_reached(*repeat) && repeat.end_date is None
            ==> r is Ok,
        // Nor in cron mode with `immediately`: the iteration is now.
        repeat_shape_valid(*repeat) && repeat.pattern is Some && repeat.immediately && !limit_reached(*repeat)
            && repeat.end_date is None ==> r is Ok,
        // The only failures: a check, the end date, the cron search.
        r is Err ==> !repeat_shape_valid(*repeat) || limit_reached(*repeat)
            || (repeat.end_date is Some && is_other(r, "Job scheduler "@ + scheduler_id@ + " is past its end date"@))
            || (repeat.pattern is Some && r matches Err(BullmqError::Other(_))),
        r matches Ok(p) ==> {
            let t = template_or_empty(*template_opts);
            let start = schedule_start(p.planned_at, t);
            &&& repeat_check(scheduler_id@, *repeat, p.planned_at) == Ok::<u64, Seq<char>>(p.iteration_count)
            &&& p.merged_opts.timestamp matches Some(built) && is_plan(
                p,
                scheduler_id@,
                *repeat,
                *template_name,
                t,
                p.planned_at,
                if repeat.pattern is Some {
                    Some(p.next_millis)
                } else {
                    None
                },
                built,
            )
            &&& (repeat.pattern is Some ==> p.next_millis >= start)
            &&& (repeat.pattern matches Some(pat) ==> (pattern_next_outcome(start, *repeat, pat@) matches Some(o)
                ==> (o matches Ok(Some(x)) && p.next_millis == later(x, start))))
            &&& (repeat.end_date matches Some(e) ==> p.planned_at <= e)
            // The cron search starts from the later of the schedule start and
            // the start date, in any zone; the iteration lies less than
            // `CRON_SEARCH_SLACK_MS` before that.
            &&& (repeat.pattern is Some && !repeat.immediately && search_start(start, *repeat) <= i64::MAX
                ==> p.next_millis + CRON_SEARCH_SLACK_MS > search_start(start, *repeat))
            &&& (repeat.pattern is Some && !repeat.immediately && search_start(start, *repeat) <= i64::MAX
                ==> (repeat.start_date matches Some(sd) ==> p.next_millis + CRON_SEARCH_SLACK_MS > sd))
            &&& (repeat.end_date matches Some(e) ==> (!repeat.immediately ==> (p.next_millis <= e
                || p.next_millis == start)))
        },
{
    let now = now_ms();
    match check_repeat_options(scheduler_id, repeat, now) {
        Ok(_) => {},
        Err(e) => {
            return Err(e);
        },
    }
    let t = match template_opts {
        Some(o) => o.clone(),
        None => JobOptions::default(),
    };
    let start = scheduler_start(now, &t);
    let next = match &repeat.pattern {
        Some(pattern) => next_pattern_millis(start, repeat, pattern.as_str()),
        None => Ok(None),
    };
    let built = now_ms();
    plan_job_scheduler_at(scheduler_id, repeat, template_name, template_opts, now, next, built)
}

/// The state of the job an upsert returns: delayed when the script delayed
/// it, waiting otherwise.
pub fn iteration_job_state(delay: u64) -> (r: JobState)
    ensures
        r == if delay > 0 {
            JobState::Delayed
        } else {
            JobState::Wait
        },
{
    if delay > 0 {
        JobState::Delayed
    } else {
        JobState::Wait
    }
}

/// The options of the job an upsert returns: the planned options with the
/// job id and delay that the script assigned.
pub fn with_iteration_result(merged: JobOptions, job_id: String, delay: u64) -> (r: JobOptions)
    ensures
        r == (JobOptions { job_id: Some(job_id), delay: Some(delay), ..merged }),
{
    JobOptions { job_id: Some(job_id), delay: Some(delay), ..merged }
}

} // verus!
