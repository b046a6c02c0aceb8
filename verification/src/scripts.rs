//! The Lua script calls of the queue: for each script, the keys and
//! arguments it is invoked with, and the decoders of its replies.
use vstd::prelude::*;
use crate::error::BullmqError;
use crate::text::{concat2, concat3};
use crate::resp::{RespValue, decode_pairs, pairs_view, reply_i64, reply_pairs, reply_text, value_to_i64, value_to_string};
use crate::types::{Metrics, MetricsMeta};
use crate::json::{json_array_of_strings, json_string_array};
use crate::text::{decimal_digits, int_decimal, i64_to_decimal, push_char, u64_to_decimal};
use crate::types::RateLimiterOptions;

verus! {

/// The Redis key `<prefix>:<queue_name>:<suffix>`.
pub open spec fn spec_key(prefix: Seq<char>, queue_name: Seq<char>, suffix: Seq<char>) -> Seq<char> {
    prefix + ":"@ + queue_name + ":"@ + suffix
}

/// Builds the Redis key `<prefix>:<queue_name>:<suffix>`.
pub fn key(prefix: &str, queue_name: &str, suffix: &str) -> (r: String)
    ensures
        r@ == spec_key(prefix@, queue_name@, suffix@),
{
    let mut r = prefix.to_owned();
    r.append(":");
    r.append(queue_name);
    r.append(":");
    r.append(suffix);
    r
}

/// The views of a list of strings.
pub open spec fn views(v: Seq<String>) -> Seq<Seq<char>> {
    Seq::new(v.len(), |i: int| v[i]@)
}

/// A script invocation: the script's name, its keys and its arguments.
#[derive(Debug)]
pub struct ScriptCall {
    pub script: String,
    pub keys: Vec<String>,
    pub args: Vec<String>,
}


/// The rate limiter's maximum as script argument, empty without limiter.
pub open spec fn limiter_arg_max(limiter: Option<RateLimiterOptions>) -> Seq<char> {
    match limiter {
        Some(l) => decimal_digits(l.max as nat),
        None => Seq::empty(),
    }
}

/// The rate limiter's window as script argument, empty without limiter.
pub open spec fn limiter_arg_duration(limiter: Option<RateLimiterOptions>) -> Seq<char> {
    match limiter {
        Some(l) => decimal_digits(l.duration as nat),
        None => Seq::empty(),
    }
}

/// The two rate-limiter arguments of `moveToActive`: maximum and window in
/// decimal, or two empty arguments without limiter.
pub fn limiter_args(limiter: Option<RateLimiterOptions>) -> (r: (String, String))
    ensures
        r.0@ == limiter_arg_max(limiter),
        r.1@ == limiter_arg_duration(limiter),
{
    match limiter {
        Some(l) => (u64_to_decimal(l.max), u64_to_decimal(l.duration)),
        None => (String::new(), String::new()),
    }
}

/// The call of script `addJobScheduler`: upserts a job scheduler and creates its next iteration job.
pub fn add_job_scheduler_call(prefix: &str, queue_name: &str, scheduler_id: &str, next_millis: u64, scheduler_opts_json: &str, template_data_json: &str, template_opts_json: &str, delayed_opts_json: &str, timestamp: u64, producer_id: Option<&str>) -> (r: ScriptCall)
    ensures
        r.script@ == "addJobScheduler"@,
        views(r.keys@) == seq![spec_key(prefix@, queue_name@, "repeat"@), spec_key(prefix@, queue_name@, "delayed"@), spec_key(prefix@, queue_name@, "wait"@), spec_key(prefix@, queue_name@, "paused"@), spec_key(prefix@, queue_name@, "meta"@), spec_key(prefix@, queue_name@, "prioritized"@), spec_key(prefix@, queue_name@, "marker"@), spec_key(prefix@, queue_name@, "id"@), spec_key(prefix@, queue_name@, "events"@), spec_key(prefix@, queue_name@, "pc"@), spec_key(prefix@, queue_name@, "active"@)],
        views(r.args@) == seq![decimal_digits(next_millis as nat), scheduler_opts_json@, scheduler_id@, template_data_json@, template_opts_json@, delayed_opts_json@, decimal_digits(timestamp as nat), spec_key(prefix@, queue_name@, ""@), match producer_id { Some(p) => spec_key(prefix@, queue_name@, p@), None => Seq::empty() }],
{
    let mut keys: Vec<String> = Vec::new();
    keys.push(key(prefix, queue_name, "repeat"));
    keys.push(key(prefix, queue_name, "delayed"));
    keys.push(key(prefix, queue_name, "wait"));
    keys.push(key(prefix, queue_name, "paused"));
    keys.push(key(prefix, queue_name, "meta"));
    keys.push(key(prefix, queue_name, "prioritized"));
    keys.push(key(prefix, queue_name, "marker"));
    keys.push(key(prefix, queue_name, "id"));
    keys.push(key(prefix, queue_name, "events"));
    keys.push(key(prefix, queue_name, "pc"));
    keys.push(key(prefix, queue_name, "active"));
    let mut args: Vec<String> = Vec::new();
    args.push(u64_to_decimal(next_millis));
    args.push(scheduler_opts_json.to_owned());
    args.push(scheduler_id.to_owned());
    args.push(template_data_json.to_owned());
    args.push(template_opts_json.to_owned());
    args.push(delayed_opts_json.to_owned());
    args.push(u64_to_decimal(timestamp));
    args.push(key(prefix, queue_name, ""));
    args.push(match producer_id { Some(p) => key(prefix, queue_name, p), None => String::new() });
    assert(views(keys@) =~= seq![spec_key(prefix@, queue_name@, "repeat"@), spec_key(prefix@, queue_name@, "delayed"@), spec_key(prefix@, queue_name@, "wait"@), spec_key(prefix@, queue_name@, "paused"@), spec_key(prefix@, queue_name@, "meta"@), spec_key(prefix@, queue_name@, "prioritized"@), spec_key(prefix@, queue_name@, "marker"@), spec_key(prefix@, queue_name@, "id"@), spec_key(prefix@, queue_name@, "events"@), spec_key(prefix@, queue_name@, "pc"@), spec_key(prefix@, queue_name@, "active"@)]);
    assert(views(args@) =~= seq![decimal_digits(next_millis as nat), scheduler_opts_json@, scheduler_id@, template_data_json@, template_opts_json@, delayed_opts_json@, decimal_digits(timestamp as nat), spec_key(prefix@, queue_name@, ""@), match producer_id { Some(p) => spec_key(prefix@, queue_name@, p@), None => Seq::empty() }]);
    ScriptCall { script: "addJobScheduler".to_owned(), keys, args }
}

/// The call of script `cleanJobsInSet`: removes up to `limit` jobs of state `set_name` finished before `timestamp`.
pub fn clean_jobs_in_set_call(prefix: &str, queue_name: &str, set_name: &str, timestamp: u64, limit: u64) -> (r: ScriptCall)
    ensures
        r.script@ == "cleanJobsInSet"@,
        views(r.keys@) == seq![spec_key(prefix@, queue_name@, set_name@), spec_key(prefix@, queue_name@, "events"@), spec_key(prefix@, queue_name@, "repeat"@)],
        views(r.args@) == seq![spec_key(prefix@, queue_name@, ""@), decimal_digits(timestamp as nat), decimal_digits(limit as nat), set_name@],
{
    let mut keys: Vec<String> = Vec::new();
    keys.push(key(prefix, queue_name, set_name));
    keys.push(key(prefix, queue_name, "events"));
    keys.push(key(prefix, queue_name, "repeat"));
    let mut args: Vec<String> = Vec::new();
    args.push(key(prefix, queue_name, ""));
    args.push(u64_to_decimal(timestamp));
    args.push(u64_to_decimal(limit));
    args.push(set_name.to_owned());
    assert(views(keys@) =~= seq![spec_key(prefix@, queue_name@, set_name@), spec_key(prefix@, queue_name@, "events"@), spec_key(prefix@, queue_name@, "repeat"@)]);
    assert(views(args@) =~= seq![spec_key(prefix@, queue_name@, ""@), decimal_digits(timestamp as nat), decimal_digits(limit as nat), set_name@]);
    ScriptCall { script: "cleanJobsInSet".to_owned(), keys, args }
}

/// The call of script `extendLocks`: extends the locks of several jobs, each with its own token.
pub fn extend_locks_call(prefix: &str, queue_name: &str, job_ids: &Vec<String>, tokens: &Vec<String>, duration_ms: u64) -> (r: ScriptCall)
    ensures
        r.script@ == "extendLocks"@,
        views(r.keys@) == seq![spec_key(prefix@, queue_name@, "stalled"@)],
        views(r.args@) == seq![spec_key(prefix@, queue_name@, ""@), json_string_array(views(tokens@)), json_string_array(views(job_ids@)), decimal_digits(duration_ms as nat)],
{
    let mut keys: Vec<String> = Vec::new();
    keys.push(key(prefix, queue_name, "stalled"));
    let mut args: Vec<String> = Vec::new();
    args.push(key(prefix, queue_name, ""));
    args.push(json_array_of_strings(tokens));
    args.push(json_array_of_strings(job_ids));
    args.push(u64_to_decimal(duration_ms));
    assert(views(keys@) =~= seq![spec_key(prefix@, queue_name@, "stalled"@)]);
    assert(views(args@) =~= seq![spec_key(prefix@, queue_name@, ""@), json_string_array(views(tokens@)), json_string_array(views(job_ids@)), decimal_digits(duration_ms as nat)]);
    ScriptCall { script: "extendLocks".to_owned(), keys, args }
}

/// The call of script `getJobScheduler`: reads a job scheduler's hash and next iteration time.
pub fn get_job_scheduler_call(prefix: &str, queue_name: &str, scheduler_id: &str) -> (r: ScriptCall)
    ensures
        r.script@ == "getJobScheduler"@,
        views(r.keys@) == seq![spec_key(prefix@, queue_name@, "repeat"@)],
        views(r.args@) == seq![scheduler_id@],
{
    let mut keys: Vec<String> = Vec::new();
    keys.push(key(prefix, queue_name, "repeat"));
    let mut args: Vec<String> = Vec::new();
    args.push(scheduler_id.to_owned());
    assert(views(keys@) =~= seq![spec_key(prefix@, queue_name@, "repeat"@)]);
    assert(views(args@) =~= seq![scheduler_id@]);
    ScriptCall { script: "getJobScheduler".to_owned(), keys, args }
}

/// The call of script `getMetrics`: reads the metrics of state `target_state` (`completed` or `failed`).
pub fn get_metrics_call(prefix: &str, queue_name: &str, target_state: &str, start: i64, end: i64) -> (r: ScriptCall)
    ensures
        r.script@ == "getMetrics"@,
        views(r.keys@) == seq![spec_key(prefix@, queue_name@, "metrics:"@ + target_state@), spec_key(prefix@, queue_name@, "metrics:"@ + target_state@ + ":data"@)],
        views(r.args@) == seq![int_decimal(start as int), int_decimal(end as int)],
{
    let mut keys: Vec<String> = Vec::new();
    keys.push(key(prefix, queue_name, concat2("metrics:", target_state).as_str()));
    keys.push(key(prefix, queue_name, concat3("metrics:", target_state, ":data").as_str()));
    let mut args: Vec<String> = Vec::new();
    args.push(i64_to_decimal(start));
    args.push(i64_to_decimal(end));
    assert(views(keys@) =~= seq![spec_key(prefix@, queue_name@, "metrics:"@ + target_state@), spec_key(prefix@, queue_name@, "metrics:"@ + target_state@ + ":data"@)]);
    assert(views(args@) =~= seq![int_decimal(start as int), int_decimal(end as int)]);
    ScriptCall { script: "getMetrics".to_owned(), keys, args }
}

/// The call of script `moveJobFromActiveToWait`: moves an active job back to wait without consuming an attempt.
pub fn move_job_from_active_to_wait_call(prefix: &str, queue_name: &str, job_id: &str, token: &str) -> (r: ScriptCall)
    ensures
        r.script@ == "moveJobFromActiveToWait"@,
        views(r.keys@) == seq![spec_key(prefix@, queue_name@, "active"@), spec_key(prefix@, queue_name@, "wait"@), spec_key(prefix@, queue_name@, "stalled"@), spec_key(prefix@, queue_name@, "paused"@), spec_key(prefix@, queue_name@, "meta"@), spec_key(prefix@, queue_name@, "limiter"@), spec_key(prefix@, queue_name@, "prioritized"@), spec_key(prefix@, queue_name@, "marker"@), spec_key(prefix@, queue_name@, "events"@)],
        views(r.args@) == seq![job_id@, token@, spec_key(prefix@, queue_name@, job_id@)],
{
    let mut keys: Vec<String> = Vec::new();
    keys.push(key(prefix, queue_name, "active"));
    keys.push(key(prefix, queue_name, "wait"));
    keys.push(key(prefix, queue_name, "stalled"));
    keys.push(key(prefix, queue_name, "paused"));
    keys.push(key(prefix, queue_name, "meta"));
    keys.push(key(prefix, queue_name, "limiter"));
    keys.push(key(prefix, queue_name, "prioritized"));
    keys.push(key(prefix, queue_name, "marker"));
    keys.push(key(prefix, queue_name, "events"));
    let mut args: Vec<String> = Vec::new();
    args.push(job_id.to_owned());
    args.push(token.to_owned());
    args.push(key(prefix, queue_name, job_id));
    assert(views(keys@) =~= seq![spec_key(prefix@, queue_name@, "active"@), spec_key(prefix@, queue_name@, "wait"@), spec_key(prefix@, queue_name@, "stalled"@), spec_key(prefix@, queue_name@, "paused"@), spec_key(prefix@, queue_name@, "meta"@), spec_key(prefix@, queue_name@, "limiter"@), spec_key(prefix@, queue_name@, "prioritized"@), spec_key(prefix@, queue_name@, "marker"@), spec_key(prefix@, queue_name@, "events"@)]);
    assert(views(args@) =~= seq![job_id@, token@, spec_key(prefix@, queue_name@, job_id@)]);
    ScriptCall { script: "moveJobFromActiveToWait".to_owned(), keys, args }
}

/// The call of script `moveJobsToWait`: moves up to `count` jobs of `state` (failed, completed or delayed) back to wait.
pub fn move_jobs_to_wait_call(prefix: &str, queue_name: &str, state: &str, count: u64, timestamp: &str) -> (r: ScriptCall)
    ensures
        r.script@ == "moveJobsToWait"@,
        views(r.keys@) == seq![spec_key(prefix@, queue_name@, ""@), spec_key(prefix@, queue_name@, "events"@), spec_key(prefix@, queue_name@, state@), spec_key(prefix@, queue_name@, "wait"@), spec_key(prefix@, queue_name@, "paused"@), spec_key(prefix@, queue_name@, "meta"@), spec_key(prefix@, queue_name@, "active"@), spec_key(prefix@, queue_name@, "marker"@)],
        views(r.args@) == seq![decimal_digits(count as nat), timestamp@, state@],
{
    let mut keys: Vec<String> = Vec::new();
    keys.push(key(prefix, queue_name, ""));
    keys.push(key(prefix, queue_name, "events"));
    keys.push(key(prefix, queue_name, state));
    keys.push(key(prefix, queue_name, "wait"));
    keys.push(key(prefix, queue_name, "paused"));
    keys.push(key(prefix, queue_name, "meta"));
    keys.push(key(prefix, queue_name, "active"));
    keys.push(key(prefix, queue_name, "marker"));
    let mut args: Vec<String> = Vec::new();
    args.push(u64_to_decimal(count));
    args.push(timestamp.to_owned());
    args.push(state.to_owned());
    assert(views(keys@) =~= seq![spec_key(prefix@, queue_name@, ""@), spec_key(prefix@, queue_name@, "events"@), spec_key(prefix@, queue_name@, state@), spec_key(prefix@, queue_name@, "wait"@), spec_key(prefix@, queue_name@, "paused"@), spec_key(prefix@, queue_name@, "meta"@), spec_key(prefix@, queue_name@, "active"@), spec_key(prefix@, queue_name@, "marker"@)]);
    assert(views(args@) =~= seq![decimal_digits(count as nat), timestamp@, state@]);
    ScriptCall { script: "moveJobsToWait".to_owned(), keys, args }
}

/// The call of script `moveToActive`: moves the next waiting job to active, locking it with `token`.
pub fn move_to_active_call(prefix: &str, queue_name: &str, token: &str, lock_duration: u64, timestamp: u64, max_events: u64, limiter: Option<RateLimiterOptions>) -> (r: ScriptCall)
    ensures
        r.script@ == "moveToActive"@,
        views(r.keys@) == seq![spec_key(prefix@, queue_name@, "wait"@), spec_key(prefix@, queue_name@, "active"@), spec_key(prefix@, queue_name@, "prioritized"@), spec_key(prefix@, queue_name@, "events"@), spec_key(prefix@, queue_name@, "stalled"@), spec_key(prefix@, queue_name@, "limiter"@), spec_key(prefix@, queue_name@, "delayed"@), spec_key(prefix@, queue_name@, "paused"@), spec_key(prefix@, queue_name@, "meta"@), spec_key(prefix@, queue_name@, "pc"@), spec_key(prefix@, queue_name@, "marker"@)],
        views(r.args@) == seq![token@, decimal_digits(lock_duration as nat), decimal_digits(timestamp as nat), decimal_digits(max_events as nat), spec_key(prefix@, queue_name@, ""@), limiter_arg_max(limiter), limiter_arg_duration(limiter)],
{
    let mut keys: Vec<String> = Vec::new();
    keys.push(key(prefix, queue_name, "wait"));
    keys.push(key(prefix, queue_name, "active"));
    keys.push(key(prefix, queue_name, "prioritized"));
    keys.push(key(prefix, queue_name, "events"));
    keys.push(key(prefix, queue_name, "stalled"));
    keys.push(key(prefix, queue_name, "limiter"));
    keys.push(key(prefix, queue_name, "delayed"));
    keys.push(key(prefix, queue_name, "paused"));
    keys.push(key(prefix, queue_name, "meta"));
    keys.push(key(prefix, queue_name, "pc"));
    keys.push(key(prefix, queue_name, "marker"));
    let mut args: Vec<String> = Vec::new();
    args.push(token.to_owned());
    args.push(u64_to_decimal(lock_duration));
    args.push(u64_to_decimal(timestamp));
    args.push(u64_to_decimal(max_events));
    args.push(key(prefix, queue_name, ""));
    args.push(limiter_args(limiter).0);
    args.push(limiter_args(limiter).1);
    assert(views(keys@) =~= seq![spec_key(prefix@, queue_name@, "wait"@), spec_key(prefix@, queue_name@, "active"@), spec_key(prefix@, queue_name@, "prioritized"@), spec_key(prefix@, queue_name@, "events"@), spec_key(prefix@, queue_name@, "stalled"@), spec_key(prefix@, queue_name@, "limiter"@), spec_key(prefix@, queue_name@, "delayed"@), spec_key(prefix@, queue_name@, "paused"@), spec_key(prefix@, queue_name@, "meta"@), spec_key(prefix@, queue_name@, "pc"@), spec_key(prefix@, queue_name@, "marker"@)]);
    assert(views(args@) =~= seq![token@, decimal_digits(lock_duration as nat), decimal_digits(timestamp as nat), decimal_digits(max_events as nat), spec_key(prefix@, queue_name@, ""@), limiter_arg_max(limiter), limiter_arg_duration(limiter)]);
    ScriptCall { script: "moveToActive".to_owned(), keys, args }
}

/// The call of script `obliterate`: removes up to `count` jobs of a paused queue that is being obliterated.
pub fn obliterate_call(prefix: &str, queue_name: &str, count: u64, force: bool) -> (r: ScriptCall)
    ensures
        r.script@ == "obliterate"@,
        views(r.keys@) == seq![spec_key(prefix@, queue_name@, "meta"@), spec_key(prefix@, queue_name@, ""@)],
        views(r.args@) == seq![decimal_digits(count as nat), if force { "force"@ } else { Seq::empty() }],
{
    let mut keys: Vec<String> = Vec::new();
    keys.push(key(prefix, queue_name, "meta"));
    keys.push(key(prefix, queue_name, ""));
    let mut args: Vec<String> = Vec::new();
    args.push(u64_to_decimal(count));
    args.push(if force { "force".to_owned() } else { String::new() });
    assert(views(keys@) =~= seq![spec_key(prefix@, queue_name@, "meta"@), spec_key(prefix@, queue_name@, ""@)]);
    assert(views(args@) =~= seq![decimal_digits(count as nat), if force { "force"@ } else { Seq::empty() }]);
    ScriptCall { script: "obliterate".to_owned(), keys, args }
}

/// The call of script `removeJob`: removes a job from every state and deletes its data.
pub fn remove_job_call(prefix: &str, queue_name: &str, job_id: &str, remove_children: bool) -> (r: ScriptCall)
    ensures
        r.script@ == "removeJob"@,
        views(r.keys@) == seq![spec_key(prefix@, queue_name@, job_id@), spec_key(prefix@, queue_name@, "repeat"@)],
        views(r.args@) == seq![job_id@, if remove_children { "1"@ } else { "0"@ }, spec_key(prefix@, queue_name@, ""@)],
{
    let mut keys: Vec<String> = Vec::new();
    keys.push(key(prefix, queue_name, job_id));
    keys.push(key(prefix, queue_name, "repeat"));
    let mut args: Vec<String> = Vec::new();
    args.push(job_id.to_owned());
    args.push(if remove_children { "1".to_owned() } else { "0".to_owned() });
    args.push(key(prefix, queue_name, ""));
    assert(views(keys@) =~= seq![spec_key(prefix@, queue_name@, job_id@), spec_key(prefix@, queue_name@, "repeat"@)]);
    assert(views(args@) =~= seq![job_id@, if remove_children { "1"@ } else { "0"@ }, spec_key(prefix@, queue_name@, ""@)]);
    ScriptCall { script: "removeJob".to_owned(), keys, args }
}

/// The call of script `removeJobScheduler`: removes a job scheduler, its hash and its pending iteration job.
pub fn remove_job_scheduler_call(prefix: &str, queue_name: &str, scheduler_id: &str) -> (r: ScriptCall)
    ensures
        r.script@ == "removeJobScheduler"@,
        views(r.keys@) == seq![spec_key(prefix@, queue_name@, "repeat"@), spec_key(prefix@, queue_name@, "delayed"@), spec_key(prefix@, queue_name@, "events"@)],
        views(r.args@) == seq![scheduler_id@, spec_key(prefix@, queue_name@, ""@)],
{
    let mut keys: Vec<String> = Vec::new();
    keys.push(key(prefix, queue_name, "repeat"));
    keys.push(key(prefix, queue_name, "delayed"));
    keys.push(key(prefix, queue_name, "events"));
    let mut args: Vec<String> = Vec::new();
    args.push(scheduler_id.to_owned());
    args.push(key(prefix, queue_name, ""));
    assert(views(keys@) =~= seq![spec_key(prefix@, queue_name@, "repeat"@), spec_key(prefix@, queue_name@, "delayed"@), spec_key(prefix@, queue_name@, "events"@)]);
    assert(views(args@) =~= seq![scheduler_id@, spec_key(prefix@, queue_name@, ""@)]);
    ScriptCall { script: "removeJobScheduler".to_owned(), keys, args }
}

/// The call of script `updateJobScheduler`: schedules the next iteration of a job scheduler after the current one finished.
pub fn update_job_scheduler_call(prefix: &str, queue_name: &str, scheduler_id: &str, next_millis: u64, template_data_json: &str, delayed_opts_json: &str, timestamp: u64, producer_id: &str) -> (r: ScriptCall)
    ensures
        r.script@ == "updateJobScheduler"@,
        views(r.keys@) == seq![spec_key(prefix@, queue_name@, "repeat"@), spec_key(prefix@, queue_name@, "delayed"@), spec_key(prefix@, queue_name@, "wait"@), spec_key(prefix@, queue_name@, "paused"@), spec_key(prefix@, queue_name@, "meta"@), spec_key(prefix@, queue_name@, "prioritized"@), spec_key(prefix@, queue_name@, "marker"@), spec_key(prefix@, queue_name@, "id"@), spec_key(prefix@, queue_name@, "events"@), spec_key(prefix@, queue_name@, "pc"@), spec_key(prefix@, queue_name@, producer_id@), spec_key(prefix@, queue_name@, "active"@)],
        views(r.args@) == seq![decimal_digits(next_millis as nat), scheduler_id@, template_data_json@, delayed_opts_json@, decimal_digits(timestamp as nat), spec_key(prefix@, queue_name@, ""@), producer_id@],
{
    let mut keys: Vec<String> = Vec::new();
    keys.push(key(prefix, queue_name, "repeat"));
    keys.push(key(prefix, queue_name, "delayed"));
    keys.push(key(prefix, queue_name, "wait"));
    keys.push(key(prefix, queue_name, "paused"));
    keys.push(key(prefix, queue_name, "meta"));
    keys.push(key(prefix, queue_name, "prioritized"));
    keys.push(key(prefix, queue_name, "marker"));
    keys.push(key(prefix, queue_name, "id"));
    keys.push(key(prefix, queue_name, "events"));
    keys.push(key(prefix, queue_name, "pc"));
    keys.push(key(prefix, queue_name, producer_id));
    keys.push(key(prefix, queue_name, "active"));
    let mut args: Vec<String> = Vec::new();
    args.push(u64_to_decimal(next_millis));
    args.push(scheduler_id.to_owned());
    args.push(template_data_json.to_owned());
    args.push(delayed_opts_json.to_owned());
    args.push(u64_to_decimal(timestamp));
    args.push(key(prefix, queue_name, ""));
    args.push(producer_id.to_owned());
    assert(views(keys@) =~= seq![spec_key(prefix@, queue_name@, "repeat"@), spec_key(prefix@, queue_name@, "delayed"@), spec_key(prefix@, queue_name@, "wait"@), spec_key(prefix@, queue_name@, "paused"@), spec_key(prefix@, queue_name@, "meta"@), spec_key(prefix@, queue_name@, "prioritized"@), spec_key(prefix@, queue_name@, "marker"@), spec_key(prefix@, queue_name@, "id"@), spec_key(prefix@, queue_name@, "events"@), spec_key(prefix@, queue_name@, "pc"@), spec_key(prefix@, queue_name@, producer_id@), spec_key(prefix@, queue_name@, "active"@)]);
    assert(views(args@) =~= seq![decimal_digits(next_millis as nat), scheduler_id@, template_data_json@, delayed_opts_json@, decimal_digits(timestamp as nat), spec_key(prefix@, queue_name@, ""@), producer_id@]);
    ScriptCall { script: "updateJobScheduler".to_owned(), keys, args }
}

/// The texts of the string items of an array reply, in order; other items
/// are skipped, and a reply that is not an array has none.
pub open spec fn reply_strings(v: RespValue) -> Seq<Seq<char>> {
    match v {
        RespValue::Array(items) => texts_of(items@),
        _ => Seq::empty(),
    }
}

/// The texts of the string items of a list.
pub open spec fn texts_of(items: Seq<RespValue>) -> Seq<Seq<char>>
    decreases items.len(),
{
    if items.len() == 0 {
        Seq::empty()
    } else {
        texts_of(items.drop_last()) + match reply_text(items.last()) {
            Some(t) => seq![t],
            None => Seq::empty(),
        }
    }
}

/// Decodes an array reply of job ids (`cleanJobsInSet`, `extendLocks`):
/// the string items in order (see `reply_strings`).
pub fn decode_string_items(reply: &RespValue) -> (r: Vec<String>)
    ensures
        views(r@) == reply_strings(*reply),
{
    let mut out: Vec<String> = Vec::new();
    match reply {
        RespValue::Array(items) => {
            let mut i: usize = 0;
            while i < items.len()
                invariant
                    i <= items@.len(),
                    views(out@) == texts_of(items@.take(i as int)),
                decreases items@.len() - i,
            {
                assert(items@.take(i + 1).drop_last() =~= items@.take(i as int));
                let ghost before = views(out@);
                match value_to_string(&items[i]) {
                    Some(t) => {
                        out.push(t);
                    },
                    None => {},
                }
                i = i + 1;
                assert(views(out@) =~= texts_of(items@.take(i as int)));
            }
            assert(items@.take(i as int) =~= items@);
        },
        _ => {
            assert(views(out@) =~= Seq::empty());
        },
    }
    out
}

/// Result of a `moveToActive` call.
#[derive(Debug)]
pub struct MoveToActiveResult {
    /// The job id, or `None` when no job was available.
    pub job_id: Option<String>,
    /// The job's hash fields (only when a job is returned).
    pub job_data: Vec<(String, String)>,
    /// Milliseconds until the rate limit expires, when the queue is rate
    /// limited.
    pub rate_limit_ttl: Option<u64>,
}

/// How a `moveToActive` reply reads: a non-empty array whose first item is
/// a string carries that job id and the job's hash as field-value pairs
/// after it; a non-empty array with another first item signals a rate
/// limit when its third item is a positive integer; anything else means no
/// job.
pub open spec fn move_to_active_reading(v: RespValue) -> (Option<Seq<char>>, Seq<(Seq<char>, Seq<char>)>, Option<u64>) {
    match v {
        RespValue::Array(items) => if items@.len() > 0 {
            match reply_text(items@[0]) {
                Some(id) => (Some(id), reply_pairs(items@.skip(1)), None),
                None => {
                    let ttl = if items@.len() > 2 {
                        match items@[2] {
                            RespValue::Int(t) => if t > 0 {
                                Some(t as u64)
                            } else {
                                None
                            },
                            _ => None,
                        }
                    } else {
                        None
                    };
                    (None, Seq::empty(), ttl)
                },
            }
        } else {
            (None, Seq::empty(), None)
        },
        _ => (None, Seq::empty(), None),
    }
}

/// A `moveToActive` reply that starts with a job id carries that job with
/// its hash fields after the id and no rate limit; one that starts with
/// nil and has a positive integer third carries no job and that rate-limit
/// delay; an empty or non-array reply carries nothing.
pub proof fn lemma_move_to_active_reading(items: Vec<RespValue>, id: String, t: i64, other: RespValue)
    ensures
        items@.len() > 0 && items@[0] == RespValue::SimpleString(id) ==> move_to_active_reading(
            RespValue::Array(items),
        ) == (Some(id@), reply_pairs(items@.skip(1)), None::<u64>),
        items@.len() > 2 && items@[0] == RespValue::Nil && items@[2] == RespValue::Int(t) && t > 0
            ==> move_to_active_reading(RespValue::Array(items)) == (None::<Seq<char>>, Seq::<(Seq<char>, Seq<char>)>::empty(), Some(t as u64)),
        items@.len() == 0 ==> move_to_active_reading(RespValue::Array(items)) == (None::<Seq<char>>, Seq::<(Seq<char>, Seq<char>)>::empty(), None::<u64>),
        !(other is Array) ==> move_to_active_reading(other) == (None::<Seq<char>>, Seq::<(Seq<char>, Seq<char>)>::empty(), None::<u64>),
{
}

/// Decodes a `moveToActive` reply (see `move_to_active_reading`).
pub fn parse_move_to_active_result(value: &RespValue) -> (r: MoveToActiveResult)
    ensures
        ({
            let (id, data, ttl) = move_to_active_reading(*value);
            &&& match r.job_id {
                Some(j) => id == Some(j@),
                None => id is None,
            }
            &&& pairs_view(r.job_data@) == data
            &&& r.rate_limit_ttl == ttl
        }),
{
    match value {
        RespValue::Array(items) => {
            if items.len() == 0 {
                return MoveToActiveResult { job_id: None, job_data: Vec::new(), rate_limit_ttl: None };
            }
            match value_to_string(&items[0]) {
                Some(id) => {
                    let data = decode_pairs(items, 1);
                    MoveToActiveResult { job_id: Some(id), job_data: data, rate_limit_ttl: None }
                },
                None => {
                    let ttl = if items.len() > 2 {
                        match &items[2] {
                            RespValue::Int(t) => if *t > 0 {
                                Some(*t as u64)
                            } else {
                                None
                            },
                            _ => None,
                        }
                    } else {
                        None
                    };
                    let empty: Vec<(String, String)> = Vec::new();
                    assert(pairs_view(empty@) =~= Seq::empty());
                    MoveToActiveResult { job_id: None, job_data: empty, rate_limit_ttl: ttl }
                },
            }
        },
        _ => {
            let empty: Vec<(String, String)> = Vec::new();
            assert(pairs_view(empty@) =~= Seq::empty());
            MoveToActiveResult { job_id: None, job_data: empty, rate_limit_ttl: None }
        },
    }
}

/// The delay of a scheduler's next iteration as the `addJobScheduler` reply
/// gives it.
#[derive(Debug)]
pub enum SchedulerDelay {
    /// An integer reply, negative values read as 0.
    Millis(u64),
    /// A bulk string reply: a decimal number, possibly fractional, to be
    /// read as milliseconds.
    Decimal(String),
    /// Any other shape, read as 0.
    Missing,
}

/// Whether `r` is the error `UnexpectedReply` with message `m`.
pub open spec fn is_unexpected<T>(r: Result<T, BullmqError>, m: Seq<char>) -> bool {
    r matches Err(BullmqError::UnexpectedReply(t)) && t@ == m
}

/// Whether `r` is the error `ScriptError` with message `m`.
pub open spec fn is_script_error<T>(r: Result<T, BullmqError>, m: Seq<char>) -> bool {
    r matches Err(BullmqError::ScriptError(t)) && t@ == m
}

/// Whether `r` is the error `Other` with message `m`.
pub open spec fn is_other_error<T>(r: Result<T, BullmqError>, m: Seq<char>) -> bool {
    r matches Err(BullmqError::Other(t)) && t@ == m
}

/// Decodes an `addJobScheduler` reply into the id and delay of the next
/// iteration job. A negative integer is a script error code: -10 a job id
/// collision, -11 busy job slots, any other an unexpected code; an array of
/// two or more items carries the job id (a string) and the delay.
pub fn parse_add_job_scheduler_reply(reply: &RespValue, scheduler_id: &str) -> (r: Result<(String, SchedulerDelay), BullmqError>)
    ensures
        match *reply {
            RespValue::Int(code) => if code == -10 {
                is_script_error(r, "addJobScheduler: job id collision for scheduler "@ + scheduler_id@)
            } else if code == -11 {
                is_script_error(r, "addJobScheduler: job slots busy for scheduler "@ + scheduler_id@)
            } else if code < 0 {
                is_script_error(r, "addJobScheduler returned unexpected code: "@ + int_decimal(code as int))
            } else {
                is_unexpected(r, "addJobScheduler returned unexpected value"@)
            },
            RespValue::Array(items) => if items@.len() >= 2 {
                match reply_text(items@[0]) {
                    Some(id) => r matches Ok((j, d)) && j@ == id && match items@[1] {
                        RespValue::Int(n) => d == SchedulerDelay::Millis(if n < 0 { 0 } else { n as u64 }),
                        RespValue::BulkString(b) => d matches SchedulerDelay::Decimal(t) && t@ == crate::resp::utf8_lossy(b@),
                        _ => d is Missing,
                    },
                    None => is_unexpected(r, "addJobScheduler returned unexpected job id"@),
                }
            } else {
                is_unexpected(r, "addJobScheduler returned unexpected value"@)
            },
            _ => is_unexpected(r, "addJobScheduler returned unexpected value"@),
        },
{
    match reply {
        RespValue::Int(code) => {
            if *code == -10 {
                Err(BullmqError::ScriptError(concat2("addJobScheduler: job id collision for scheduler ", scheduler_id)))
            } else if *code == -11 {
                Err(BullmqError::ScriptError(concat2("addJobScheduler: job slots busy for scheduler ", scheduler_id)))
            } else if *code < 0 {
                let c = i64_to_decimal(*code);
                Err(BullmqError::ScriptError(concat2("addJobScheduler returned unexpected code: ", c.as_str())))
            } else {
                Err(BullmqError::UnexpectedReply("addJobScheduler returned unexpected value".to_owned()))
            }
        },
        RespValue::Array(items) => {
            if items.len() < 2 {
                return Err(BullmqError::UnexpectedReply("addJobScheduler returned unexpected value".to_owned()));
            }
            let job_id = match value_to_string(&items[0]) {
                Some(id) => id,
                None => {
                    return Err(BullmqError::UnexpectedReply("addJobScheduler returned unexpected job id".to_owned()));
                },
            };
            let delay = match &items[1] {
                RespValue::Int(n) => SchedulerDelay::Millis(if *n < 0 { 0 } else { *n as u64 }),
                RespValue::BulkString(b) => SchedulerDelay::Decimal(crate::resp::bytes_to_string_lossy(b)),
                _ => SchedulerDelay::Missing,
            };
            Ok((job_id, delay))
        },
        _ => Err(BullmqError::UnexpectedReply("addJobScheduler returned unexpected value".to_owned())),
    }
}

/// The field-value pairs of a flat list in which both the field and the
/// value must be strings; other pairs are skipped.
pub open spec fn reply_pairs_strict(items: Seq<RespValue>) -> Seq<(Seq<char>, Seq<char>)>
    decreases items.len(),
{
    if items.len() < 2 {
        Seq::empty()
    } else {
        let rest = reply_pairs_strict(items.skip(2));
        match (reply_text(items[0]), reply_text(items[1])) {
            (Some(k), Some(v)) => seq![(k, v)] + rest,
            _ => rest,
        }
    }
}

fn decode_pairs_strict(items: &Vec<RespValue>) -> (r: Vec<(String, String)>)
    ensures
        pairs_view(r@) == reply_pairs_strict(items@),
{
    let mut out: Vec<(String, String)> = Vec::new();
    let mut i: usize = 0;
    let n = items.len();
    assert(items@.skip(0) =~= items@);
    while i < n && n - i > 1
        invariant
            i <= n,
            n == items@.len(),
            reply_pairs_strict(items@) == pairs_view(out@) + reply_pairs_strict(items@.skip(i as int)),
        decreases n - i,
    {
        let ghost tail = items@.skip(i as int);
        assert(tail.skip(2) =~= items@.skip(i + 2));
        assert(tail[0] == items@[i as int] && tail[1] == items@[i + 1]);
        let k = value_to_string(&items[i]);
        let v = value_to_string(&items[i + 1]);
        match (k, v) {
            (Some(k), Some(v)) => {
                let ghost old_out = out@;
                out.push((k, v));
                assert(pairs_view(out@) =~= pairs_view(old_out) + seq![(out@.last().0@, out@.last().1@)]);
            },
            _ => {},
        }
        i = i + 2;
    }
    assert(reply_pairs_strict(items@.skip(i as int)) =~= Seq::empty());
    assert(pairs_view(out@) + Seq::empty() =~= pairs_view(out@));
    out
}

/// Decodes a `getJobScheduler` reply: `None` unless it is an array of at
/// least two items; otherwise the scheduler hash (the string pairs of the
/// first item when it is an array) and the text of the second item (the
/// next iteration time, a decimal number), if it is a string.
pub fn parse_get_job_scheduler_reply(reply: &RespValue) -> (r: Option<(Vec<(String, String)>, Option<String>)>)
    ensures
        match *reply {
            RespValue::Array(items) => if items@.len() >= 2 {
                r matches Some((m, score)) && pairs_view(m@) == match items@[0] {
                    RespValue::Array(ps) => reply_pairs_strict(ps@),
                    _ => Seq::empty(),
                } && match score {
                    Some(t) => reply_text(items@[1]) == Some(t@),
                    None => reply_text(items@[1]) is None,
                }
            } else {
                r is None
            },
            _ => r is None,
        },
{
    match reply {
        RespValue::Array(items) => {
            if items.len() < 2 {
                return None;
            }
            let map = match &items[0] {
                RespValue::Array(ps) => decode_pairs_strict(ps),
                _ => {
                    let e: Vec<(String, String)> = Vec::new();
                    assert(pairs_view(e@) =~= Seq::empty());
                    e
                },
            };
            Some((map, value_to_string(&items[1])))
        },
        _ => None,
    }
}

/// The integers of a list of replies.
pub open spec fn reply_i64s(items: Seq<RespValue>) -> Seq<i64> {
    Seq::new(items.len(), |i: int| reply_i64(items[i]))
}

/// How a `getMetrics` reply reads: an array of at least three items, the
/// metadata (count, previous timestamp, previous count; all 0 unless the
/// first item is an array of three or more), the data points (when the
/// second item is an array) and the number of points.
pub open spec fn metrics_reading(items: Seq<RespValue>) -> (MetricsMeta, Seq<i64>, u64) {
    let meta = match items[0] {
        RespValue::Array(f) => if f@.len() >= 3 {
            MetricsMeta {
                count: reply_i64(f@[0]) as u64,
                prev_ts: reply_i64(f@[1]) as u64,
                prev_count: reply_i64(f@[2]) as u64,
            }
        } else {
            MetricsMeta { count: 0, prev_ts: 0, prev_count: 0 }
        },
        _ => MetricsMeta { count: 0, prev_ts: 0, prev_count: 0 },
    };
    let data = match items[1] {
        RespValue::Array(points) => reply_i64s(points@),
        _ => Seq::empty(),
    };
    (meta, data, reply_i64(items[2]) as u64)
}

/// Decodes a `getMetrics` reply (see `metrics_reading`); any reply but an
/// array of three or more items is unexpected.
pub fn parse_get_metrics_reply(reply: &RespValue) -> (r: Result<Metrics, BullmqError>)
    ensures
        match *reply {
            RespValue::Array(items) => if items@.len() >= 3 {
                r matches Ok(m) && (m.meta, m.data@, m.count) == metrics_reading(items@)
            } else {
                is_unexpected(r, "getMetrics returned unexpected value"@)
            },
            _ => is_unexpected(r, "getMetrics returned unexpected value"@),
        },
{
    match reply {
        RespValue::Array(items) => {
            if items.len() < 3 {
                return Err(BullmqError::UnexpectedReply("getMetrics returned unexpected value".to_owned()));
            }
            let meta = match &items[0] {
                RespValue::Array(f) => if f.len() >= 3 {
                    MetricsMeta {
                        count: value_to_i64(&f[0]) as u64,
                        prev_ts: value_to_i64(&f[1]) as u64,
                        prev_count: value_to_i64(&f[2]) as u64,
                    }
                } else {
                    MetricsMeta { count: 0, prev_ts: 0, prev_count: 0 }
                },
                _ => MetricsMeta { count: 0, prev_ts: 0, prev_count: 0 },
            };
            let mut data: Vec<i64> = Vec::new();
            match &items[1] {
                RespValue::Array(points) => {
                    let mut i: usize = 0;
                    while i < points.len()
                        invariant
                            i <= points@.len(),
                            data@ == reply_i64s(points@).take(i as int),
                        decreases points@.len() - i,
                    {
                        data.push(value_to_i64(&points[i]));
                        i = i + 1;
                        assert(data@ =~= reply_i64s(points@).take(i as int));
                    }
                    assert(reply_i64s(points@).take(i as int) =~= reply_i64s(points@));
                },
                _ => {
                    assert(data@ =~= Seq::empty());
                },
            }
            let count = value_to_i64(&items[2]) as u64;
            Ok(Metrics { meta, data, count })
        },
        _ => Err(BullmqError::UnexpectedReply("getMetrics returned unexpected value".to_owned())),
    }
}

/// Decodes a `moveJobFromActiveToWait` reply: a non-negative integer is the
/// rate limiter's remaining time in milliseconds; -1 means the job does not
/// exist, -2 and -6 a lock mismatch.
pub fn parse_move_job_from_active_to_wait_reply(reply: &RespValue, job_id: &str) -> (r: Result<u64, BullmqError>)
    ensures
        match *reply {
            RespValue::Int(c) => if c >= 0 {
                r == Ok::<u64, BullmqError>(c as u64)
            } else if c == -1 {
                r matches Err(BullmqError::JobNotFound(j)) && j@ == job_id@
            } else if c == -2 || c == -6 {
                r matches Err(BullmqError::LockMismatch)
            } else {
                is_unexpected(r, "moveJobFromActiveToWait returned unexpected value"@)
            },
            _ => is_unexpected(r, "moveJobFromActiveToWait returned unexpected value"@),
        },
{
    match reply {
        RespValue::Int(c) => {
            if *c >= 0 {
                Ok(*c as u64)
            } else if *c == -1 {
                Err(BullmqError::JobNotFound(job_id.to_owned()))
            } else if *c == -2 || *c == -6 {
                Err(BullmqError::LockMismatch)
            } else {
                Err(BullmqError::UnexpectedReply("moveJobFromActiveToWait returned unexpected value".to_owned()))
            }
        },
        _ => Err(BullmqError::UnexpectedReply("moveJobFromActiveToWait returned unexpected value".to_owned())),
    }
}

/// Decodes a `moveJobsToWait` reply: the integer cursor, 0 when no job is
/// left to move.
pub fn parse_move_jobs_to_wait_reply(reply: &RespValue) -> (r: Result<i64, BullmqError>)
    ensures
        match *reply {
            RespValue::Int(c) => r == Ok::<i64, BullmqError>(c),
            _ => is_unexpected(r, "moveJobsToWait returned unexpected value"@),
        },
{
    match reply {
        RespValue::Int(c) => Ok(*c),
        _ => Err(BullmqError::UnexpectedReply("moveJobsToWait returned unexpected value".to_owned())),
    }
}

/// Decodes an `obliterate` reply: -1 when the queue is not paused, -2 when
/// it has active jobs, otherwise the integer cursor (0 once done).
pub fn parse_obliterate_reply(reply: &RespValue) -> (r: Result<i64, BullmqError>)
    ensures
        match *reply {
            RespValue::Int(c) => if c == -1 {
                is_other_error(r, "Cannot obliterate non-paused queue"@)
            } else if c == -2 {
                is_other_error(r, "Cannot obliterate queue with active jobs"@)
            } else {
                r == Ok::<i64, BullmqError>(c)
            },
            _ => is_unexpected(r, "obliterate returned unexpected value"@),
        },
{
    match reply {
        RespValue::Int(c) => {
            if *c == -1 {
                Err(BullmqError::Other("Cannot obliterate non-paused queue".to_owned()))
            } else if *c == -2 {
                Err(BullmqError::Other("Cannot obliterate queue with active jobs".to_owned()))
            } else {
                Ok(*c)
            }
        },
        _ => Err(BullmqError::UnexpectedReply("obliterate returned unexpected value".to_owned())),
    }
}

/// Decodes a `removeJob` reply: 1 on success, 0 when the job is locked,
/// -8 when it is the current iteration of a job scheduler.
pub fn parse_remove_job_reply(reply: &RespValue, job_id: &str) -> (r: Result<(), BullmqError>)
    ensures
        match *reply {
            RespValue::Int(c) => if c == 1 {
                r is Ok
            } else if c == 0 {
                is_other_error(r, "Job "@ + job_id@ + " could not be removed because it is locked by another worker"@)
            } else if c == -8 {
                is_other_error(r, "Job "@ + job_id@ + " belongs to a job scheduler and cannot be removed directly"@)
            } else {
                is_unexpected(r, "removeJob returned unexpected value"@)
            },
            _ => is_unexpected(r, "removeJob returned unexpected value"@),
        },
{
    match reply {
        RespValue::Int(c) => {
            if *c == 1 {
                Ok(())
            } else if *c == 0 {
                Err(BullmqError::Other(concat3("Job ", job_id, " could not be removed because it is locked by another worker")))
            } else if *c == -8 {
                Err(BullmqError::Other(concat3("Job ", job_id, " belongs to a job scheduler and cannot be removed directly")))
            } else {
                Err(BullmqError::UnexpectedReply("removeJob returned unexpected value".to_owned()))
            }
        },
        _ => Err(BullmqError::UnexpectedReply("removeJob returned unexpected value".to_owned())),
    }
}

/// Decodes a `removeJobScheduler` reply: the scheduler existed and was
/// removed exactly when the reply is the integer 0.
pub fn parse_remove_job_scheduler_reply(reply: &RespValue) -> (r: bool)
    ensures
        r == (*reply matches RespValue::Int(c) && c == 0),
{
    match reply {
        RespValue::Int(c) => *c == 0,
        _ => false,
    }
}

/// Decodes an `updateJobScheduler` reply: the id of the created job when
/// the reply is a string, `None` otherwise (scheduler gone, stale producer
/// or iteration already present).
pub fn parse_update_job_scheduler_reply(reply: &RespValue) -> (r: Option<String>)
    ensures
        match r {
            Some(s) => reply_text(*reply) == Some(s@),
            None => reply_text(*reply) is None,
        },
{
    value_to_string(reply)
}

} // verus!
