use bullmq_rs::resp::{value_to_i64, value_to_string, RespValue};
use bullmq_rs::scripts::{
    add_job_scheduler_call, clean_jobs_in_set_call, decode_string_items, extend_locks_call,
    get_metrics_call, limiter_args, move_job_from_active_to_wait_call,
    move_jobs_to_wait_call, move_to_active_call, obliterate_call, parse_add_job_scheduler_reply,
    parse_get_job_scheduler_reply, parse_get_metrics_reply,
    parse_move_job_from_active_to_wait_reply, parse_move_jobs_to_wait_reply,
    parse_move_to_active_result, parse_obliterate_reply, parse_remove_job_reply,
    parse_remove_job_scheduler_reply, parse_update_job_scheduler_reply, remove_job_call,
    remove_job_scheduler_call, update_job_scheduler_call, get_job_scheduler_call, SchedulerDelay,
};
use bullmq_rs::{BullmqError, MetricsMeta, RateLimiterOptions};

fn bulk(s: &str) -> RespValue {
    RespValue::BulkString(s.as_bytes().to_vec())
}

#[test]
fn move_to_active_call_layout() {
    let c = move_to_active_call(
        "bull",
        "q",
        "tok",
        30_000,
        1_700_000_000_000,
        10_000,
        Some(RateLimiterOptions { max: 10, duration: 1000 }),
    );
    assert_eq!(c.script, "moveToActive");
    assert_eq!(
        c.keys,
        vec![
            "bull:q:wait", "bull:q:active", "bull:q:prioritized", "bull:q:events",
            "bull:q:stalled", "bull:q:limiter", "bull:q:delayed", "bull:q:paused",
            "bull:q:meta", "bull:q:pc", "bull:q:marker",
        ]
    );
    assert_eq!(c.args, vec!["tok", "30000", "1700000000000", "10000", "bull:q:", "10", "1000"]);
    assert_eq!(limiter_args(None), (String::new(), String::new()));
}

#[test]
fn other_call_layouts() {
    let c = add_job_scheduler_call("b", "q", "s", 5, "{}", "{\"d\":1}", "{}", "{\"o\":2}", 7, Some("prod"));
    assert_eq!(c.script, "addJobScheduler");
    assert_eq!(c.keys.len(), 11);
    assert_eq!(c.keys[7], "b:q:id");
    assert_eq!(c.args, vec!["5", "{}", "s", "{\"d\":1}", "{}", "{\"o\":2}", "7", "b:q:", "b:q:prod"]);
    let c = add_job_scheduler_call("b", "q", "s", 5, "", "", "", "", 7, None);
    assert_eq!(c.args[8], "");

    let c = clean_jobs_in_set_call("b", "q", "completed", 100, 10);
    assert_eq!(c.keys, vec!["b:q:completed", "b:q:events", "b:q:repeat"]);
    assert_eq!(c.args, vec!["b:q:", "100", "10", "completed"]);

    let c = extend_locks_call("b", "q", &vec!["1".to_string(), "2".to_string()], &vec!["t1".to_string(), "t\"2".to_string()], 30_000);
    assert_eq!(c.keys, vec!["b:q:stalled"]);
    assert_eq!(c.args, vec!["b:q:", "[\"t1\",\"t\\\"2\"]", "[\"1\",\"2\"]", "30000"]);

    let c = get_job_scheduler_call("b", "q", "s");
    assert_eq!((c.keys, c.args), (vec!["b:q:repeat".to_string()], vec!["s".to_string()]));

    let c = get_metrics_call("b", "q", "completed", 0, -1);
    assert_eq!(c.keys, vec!["b:q:metrics:completed", "b:q:metrics:completed:data"]);
    assert_eq!(c.args, vec!["0", "-1"]);

    let c = move_job_from_active_to_wait_call("b", "q", "9", "tok");
    assert_eq!(c.keys.len(), 9);
    assert_eq!(c.args, vec!["9", "tok", "b:q:9"]);

    let c = move_jobs_to_wait_call("b", "q", "failed", 1000, "123");
    assert_eq!(c.keys[0], "b:q:");
    assert_eq!(c.keys[2], "b:q:failed");
    assert_eq!(c.args, vec!["1000", "123", "failed"]);

    assert_eq!(obliterate_call("b", "q", 1000, true).args, vec!["1000", "force"]);
    assert_eq!(obliterate_call("b", "q", 1000, false).args, vec!["1000", ""]);
    assert_eq!(obliterate_call("b", "q", 1, false).keys, vec!["b:q:meta", "b:q:"]);

    let c = remove_job_call("b", "q", "9", true);
    assert_eq!(c.keys, vec!["b:q:9", "b:q:repeat"]);
    assert_eq!(c.args, vec!["9", "1", "b:q:"]);
    assert_eq!(remove_job_call("b", "q", "9", false).args[1], "0");

    let c = remove_job_scheduler_call("b", "q", "s");
    assert_eq!(c.keys, vec!["b:q:repeat", "b:q:delayed", "b:q:events"]);

    let c = update_job_scheduler_call("b", "q", "s", 11, "{}", "{}", 12, "prod");
    assert_eq!(c.keys[10], "b:q:prod");
    assert_eq!(c.args, vec!["11", "s", "{}", "{}", "12", "b:q:", "prod"]);
    assert_eq!(extend_locks_call("b", "q", &vec![], &vec![], 1).args[1], "[]");
}

#[test]
fn reply_scalars() {
    assert_eq!(value_to_string(&bulk("x")), Some("x".to_string()));
    assert_eq!(value_to_string(&RespValue::Int(1)), None);
    assert_eq!(value_to_i64(&RespValue::Int(-4)), -4);
    assert_eq!(value_to_i64(&bulk("15")), 15);
    assert_eq!(value_to_i64(&RespValue::SimpleString("x".to_string())), 0);
    assert_eq!(value_to_i64(&RespValue::Nil), 0);
    let ids = decode_string_items(&RespValue::Array(vec![bulk("1"), RespValue::Int(2), RespValue::SimpleString("3".to_string())]));
    assert_eq!(ids, vec!["1", "3"]);
    assert!(decode_string_items(&RespValue::Int(0)).is_empty());
}

#[test]
fn move_to_active_replies() {
    let r = parse_move_to_active_result(&RespValue::Array(vec![bulk("7"), bulk("name"), bulk("n"), bulk("data"), RespValue::Nil, bulk("tail")]));
    assert_eq!(r.job_id.as_deref(), Some("7"));
    assert_eq!(r.job_data, vec![("name".to_string(), "n".to_string()), ("data".to_string(), String::new())]);
    assert_eq!(r.rate_limit_ttl, None);
    let r = parse_move_to_active_result(&RespValue::Array(vec![RespValue::Int(0), RespValue::Int(0), RespValue::Int(250), RespValue::Int(0)]));
    assert_eq!(r.job_id, None);
    assert_eq!(r.rate_limit_ttl, Some(250));
    let r = parse_move_to_active_result(&RespValue::Array(vec![RespValue::Int(0), RespValue::Int(0), RespValue::Int(0)]));
    assert_eq!(r.rate_limit_ttl, None);
    assert_eq!(parse_move_to_active_result(&RespValue::Nil).job_id, None);
}

#[test]
fn add_job_scheduler_replies() {
    match parse_add_job_scheduler_reply(&RespValue::Array(vec![bulk("repeat:s:5"), RespValue::Int(-3)]), "s") {
        Ok((id, SchedulerDelay::Millis(0))) => assert_eq!(id, "repeat:s:5"),
        other => panic!("{:?}", other),
    }
    match parse_add_job_scheduler_reply(&RespValue::Array(vec![bulk("j"), bulk("12.5")]), "s") {
        Ok((_, SchedulerDelay::Decimal(t))) => assert_eq!(t, "12.5"),
        other => panic!("{:?}", other),
    }
    assert!(matches!(
        parse_add_job_scheduler_reply(&RespValue::Array(vec![bulk("j"), RespValue::Nil]), "s"),
        Ok((_, SchedulerDelay::Missing))
    ));
    match parse_add_job_scheduler_reply(&RespValue::Int(-10), "s") {
        Err(BullmqError::ScriptError(m)) => assert_eq!(m, "addJobScheduler: job id collision for scheduler s"),
        other => panic!("{:?}", other),
    }
    match parse_add_job_scheduler_reply(&RespValue::Int(-11), "s") {
        Err(BullmqError::ScriptError(m)) => assert_eq!(m, "addJobScheduler: job slots busy for scheduler s"),
        other => panic!("{:?}", other),
    }
    match parse_add_job_scheduler_reply(&RespValue::Int(-4), "s") {
        Err(BullmqError::ScriptError(m)) => assert_eq!(m, "addJobScheduler returned unexpected code: -4"),
        other => panic!("{:?}", other),
    }
    assert!(matches!(
        parse_add_job_scheduler_reply(&RespValue::Array(vec![RespValue::Int(1), RespValue::Int(1)]), "s"),
        Err(BullmqError::UnexpectedReply(_))
    ));
    assert!(matches!(parse_add_job_scheduler_reply(&RespValue::Okay, "s"), Err(BullmqError::UnexpectedReply(_))));
}

#[test]
fn job_scheduler_and_metrics_replies() {
    let r = parse_get_job_scheduler_reply(&RespValue::Array(vec![
        RespValue::Array(vec![bulk("name"), bulk("n"), bulk("ic"), RespValue::Int(3), bulk("every")]),
        bulk("1700000000000"),
    ]))
    .unwrap();
    assert_eq!(r.0, vec![("name".to_string(), "n".to_string())]);
    assert_eq!(r.1.as_deref(), Some("1700000000000"));
    assert!(parse_get_job_scheduler_reply(&RespValue::Array(vec![RespValue::Nil])).is_none());

    let m = parse_get_metrics_reply(&RespValue::Array(vec![
        RespValue::Array(vec![bulk("12"), RespValue::Int(1000), bulk("x")]),
        RespValue::Array(vec![bulk("3"), RespValue::Int(4)]),
        RespValue::Int(2),
    ]))
    .unwrap();
    assert_eq!(m.meta, MetricsMeta { count: 12, prev_ts: 1000, prev_count: 0 });
    assert_eq!(m.data, vec![3, 4]);
    assert_eq!(m.count, 2);
    let m = parse_get_metrics_reply(&RespValue::Array(vec![RespValue::Nil, RespValue::Nil, bulk("5")])).unwrap();
    assert_eq!(m.meta, MetricsMeta::default());
    assert!(m.data.is_empty());
    assert_eq!(m.count, 5);
    assert!(matches!(parse_get_metrics_reply(&RespValue::Array(vec![])), Err(BullmqError::UnexpectedReply(_))));
}

#[test]
fn integer_coded_replies() {
    assert_eq!(parse_move_job_from_active_to_wait_reply(&RespValue::Int(40), "j").unwrap(), 40);
    assert!(matches!(parse_move_job_from_active_to_wait_reply(&RespValue::Int(-1), "j"), Err(BullmqError::JobNotFound(ref id)) if id == "j"));
    assert!(matches!(parse_move_job_from_active_to_wait_reply(&RespValue::Int(-6), "j"), Err(BullmqError::LockMismatch)));
    assert!(matches!(parse_move_job_from_active_to_wait_reply(&RespValue::Int(-3), "j"), Err(BullmqError::UnexpectedReply(_))));
    assert_eq!(parse_move_jobs_to_wait_reply(&RespValue::Int(1)).unwrap(), 1);
    assert!(parse_move_jobs_to_wait_reply(&bulk("1")).is_err());
    assert_eq!(parse_obliterate_reply(&RespValue::Int(0)).unwrap(), 0);
    match parse_obliterate_reply(&RespValue::Int(-1)) {
        Err(BullmqError::Other(m)) => assert_eq!(m, "Cannot obliterate non-paused queue"),
        other => panic!("{:?}", other),
    }
    match parse_obliterate_reply(&RespValue::Int(-2)) {
        Err(BullmqError::Other(m)) => assert_eq!(m, "Cannot obliterate queue with active jobs"),
        other => panic!("{:?}", other),
    }
    assert!(parse_remove_job_reply(&RespValue::Int(1), "j").is_ok());
    match parse_remove_job_reply(&RespValue::Int(0), "j") {
        Err(BullmqError::Other(m)) => assert_eq!(m, "Job j could not be removed because it is locked by another worker"),
        other => panic!("{:?}", other),
    }
    match parse_remove_job_reply(&RespValue::Int(-8), "j") {
        Err(BullmqError::Other(m)) => assert_eq!(m, "Job j belongs to a job scheduler and cannot be removed directly"),
        other => panic!("{:?}", other),
    }
    assert!(parse_remove_job_scheduler_reply(&RespValue::Int(0)));
    assert!(!parse_remove_job_scheduler_reply(&RespValue::Int(1)));
    assert_eq!(parse_update_job_scheduler_reply(&bulk("repeat:s:9")).as_deref(), Some("repeat:s:9"));
    assert_eq!(parse_update_job_scheduler_reply(&RespValue::Nil), None);
}
