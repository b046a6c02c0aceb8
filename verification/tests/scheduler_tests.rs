use bullmq_rs::repeat::{build_iteration_opts_at, filter_by_end_date, next_pattern_millis};
use bullmq_rs::scheduler::{
    check_repeat_options, iteration_job_state, iteration_millis_from, plan_job_scheduler,
    plan_job_scheduler_at,
    scheduler_job_name, scheduler_opts_json, scheduler_start, with_iteration_result,
};
use bullmq_rs::{
    BullmqError, FlowJob, FlowProducerBuilder, JobOptions, JobState, RedisConnection,
    RepeatOptions,
};

fn other_message<T: std::fmt::Debug>(r: Result<T, BullmqError>) -> String {
    match r {
        Err(BullmqError::Other(m)) => m,
        other => panic!("{:?}", other),
    }
}

#[test]
fn upsert_checks() {
    let both = RepeatOptions { pattern: Some("* * * * *".into()), every: Some(5), ..Default::default() };
    assert_eq!(other_message(check_repeat_options("s", &both, 0)), "Both .pattern and .every options are defined for this repeatable job");
    let neither = RepeatOptions::default();
    assert_eq!(other_message(check_repeat_options("s", &neither, 0)), "Either .pattern or .every options must be defined for this repeatable job");
    let imm = RepeatOptions { pattern: Some("* * * * *".into()), immediately: true, start_date: Some(1), ..Default::default() };
    assert_eq!(other_message(check_repeat_options("s", &imm, 0)), "Both .immediately and .startDate options are defined for this repeatable job");
    let limited = RepeatOptions { every: Some(5), limit: Some(3), count: Some(3), ..Default::default() };
    assert_eq!(other_message(check_repeat_options("s", &limited, 0)), "Job scheduler s reached its iteration limit");
    let ended = RepeatOptions { every: Some(5), end_date: Some(10), ..Default::default() };
    assert_eq!(other_message(check_repeat_options("s", &ended, 11)), "Job scheduler s is past its end date");
    assert_eq!(check_repeat_options("s", &ended, 10).unwrap(), 1);
    let counted = RepeatOptions { every: Some(5), limit: Some(3), count: Some(2), ..Default::default() };
    assert_eq!(check_repeat_options("s", &counted, 0).unwrap(), 3);
}

#[test]
fn scheduler_name_is_escaped() {
    let every = RepeatOptions { every: Some(5), ..Default::default() };
    assert_eq!(
        scheduler_opts_json("a\"b\\c\n\u{1}\u{1f}é", &every),
        "{\"every\":5,\"name\":\"a\\\"b\\\\c\\n\\u0001\\u001fé\"}"
    );
}

#[test]
fn scheduler_options_json() {
    let every = RepeatOptions { every: Some(300_000), limit: Some(10), offset: Some(7), ..Default::default() };
    assert_eq!(scheduler_opts_json("cleanup", &every), "{\"every\":300000,\"limit\":10,\"name\":\"cleanup\",\"offset\":7}");
    let cron = RepeatOptions {
        pattern: Some("0 8 * * 1-5".into()),
        tz: Some("Europe/Paris".into()),
        offset: Some(7),
        start_date: Some(1),
        end_date: Some(2),
        ..Default::default()
    };
    assert_eq!(
        scheduler_opts_json("daily-report", &cron),
        "{\"endDate\":2,\"name\":\"daily-report\",\"pattern\":\"0 8 * * 1-5\",\"startDate\":1,\"tz\":\"Europe/Paris\"}"
    );
    // The same text as serde_json writes for the map of these members.
    let mut m = serde_json::Map::new();
    m.insert("name".into(), serde_json::Value::from("cleanup"));
    m.insert("every".into(), serde_json::Value::from(300_000u64));
    m.insert("limit".into(), serde_json::Value::from(10u64));
    m.insert("offset".into(), serde_json::Value::from(7u64));
    assert_eq!(scheduler_opts_json("cleanup", &every), serde_json::Value::Object(m).to_string());
}

#[test]
fn iteration_options() {
    let base = JobOptions { attempts: Some(3), delay: Some(99), ..Default::default() };
    let repeat = RepeatOptions { pattern: Some("* * * * *".into()), immediately: true, offset: Some(4), count: Some(1), ..Default::default() };
    let o = build_iteration_opts_at(&base, &repeat, "sched", 2, Some(1_700_000_060_000), 1_700_000_000_000);
    assert_eq!(o.job_id.as_deref(), Some("repeat:sched:1700000060000"));
    assert_eq!(o.prev_millis, Some(1_700_000_060_000));
    assert_eq!(o.delay, Some(60_000));
    assert_eq!(o.timestamp, Some(1_700_000_000_000));
    assert_eq!(o.repeat_job_key.as_deref(), Some("sched"));
    assert_eq!(o.attempts, Some(3));
    let r = o.repeat.unwrap();
    assert!(!r.immediately);
    assert_eq!(r.count, Some(2));
    assert_eq!(r.offset, None);
    let past = build_iteration_opts_at(&base, &repeat, "s", 1, Some(5), 10);
    assert_eq!(past.delay, Some(0));
    let every = RepeatOptions { every: Some(1000), offset: Some(4), ..Default::default() };
    let e = build_iteration_opts_at(&base, &every, "s", 1, None, 10);
    assert_eq!(e.job_id, None);
    assert_eq!(e.delay, None);
    assert_eq!(e.prev_millis, None);
    assert_eq!(e.repeat.unwrap().offset, Some(4));
}

#[test]
fn end_date_filter_and_start() {
    assert_eq!(filter_by_end_date(Some(10), Some(9)), None);
    assert_eq!(filter_by_end_date(Some(10), Some(10)), Some(10));
    assert_eq!(filter_by_end_date(Some(10), None), Some(10));
    assert_eq!(filter_by_end_date(None, Some(1)), None);
    let t = JobOptions { prev_millis: Some(50), ..Default::default() };
    assert_eq!(scheduler_start(40, &t), 50);
    assert_eq!(scheduler_start(60, &t), 60);
    assert_eq!(scheduler_start(60, &JobOptions::default()), 60);
    assert_eq!(iteration_millis_from(100, Some(90), "p").unwrap(), 100);
    assert_eq!(iteration_millis_from(100, Some(190), "p").unwrap(), 190);
    assert_eq!(other_message(iteration_millis_from(100, None, "p")), "No next occurrence for cron pattern 'p'");
    assert_eq!(scheduler_job_name(&None, "s"), "s");
    assert_eq!(scheduler_job_name(&Some("n".to_string()), "s"), "n");
    assert_eq!(iteration_job_state(0), JobState::Wait);
    assert_eq!(iteration_job_state(5), JobState::Delayed);
    let f = with_iteration_result(JobOptions::default(), "repeat:s:1".to_string(), 4);
    assert_eq!(f.job_id.as_deref(), Some("repeat:s:1"));
    assert_eq!(f.delay, Some(4));
}

#[test]
fn cron_errors_and_time_zones() {
    let opts = RepeatOptions { tz: Some("Mars/Olympus".into()), ..Default::default() };
    assert_eq!(other_message(next_pattern_millis(0, &opts, "* * * * *")), "Invalid timezone: Mars/Olympus");
    let m = other_message(next_pattern_millis(0, &RepeatOptions::default(), "not a cron"));
    assert!(m.starts_with("Invalid cron pattern 'not a cron': "));
    let utc = RepeatOptions { tz: Some("UTC".into()), ..Default::default() };
    // 2023-11-14T22:13:20Z; the next 12:00 UTC is 2023-11-15T12:00:00Z.
    assert_eq!(next_pattern_millis(1_700_000_000_000, &utc, "0 12 * * *").unwrap(), Some(1_700_049_600_000));
    let now = 1_700_000_000_000u64;
    let imm = RepeatOptions { immediately: true, ..Default::default() };
    assert!(next_pattern_millis(now, &imm, "* * * * *").unwrap().unwrap() > now);
}

#[test]
fn planning_a_scheduler() {
    let every = RepeatOptions { every: Some(300_000), ..Default::default() };
    let p = plan_job_scheduler("cleanup", &every, &Some("cleanup-job".to_string()), &None).unwrap();
    assert_eq!(p.iteration_count, 1);
    assert_eq!(p.next_millis, 0);
    assert_eq!(p.job_name, "cleanup-job");
    assert_eq!(p.merged_opts.job_id, None);
    assert_eq!(p.scheduler_opts_json, "{\"every\":300000,\"name\":\"cleanup-job\"}");
    let cron = RepeatOptions { pattern: Some("0 12 * * *".into()), tz: Some("UTC".into()), ..Default::default() };
    let p = plan_job_scheduler("daily", &cron, &None, &None).unwrap();
    assert_eq!(p.job_name, "daily");
    assert!(p.next_millis % 86_400_000 == 43_200_000);
    let expected = format!("repeat:daily:{}", p.next_millis);
    assert_eq!(p.merged_opts.job_id.as_deref(), Some(expected.as_str()));
    let bad = RepeatOptions::default();
    assert!(plan_job_scheduler("x", &bad, &None, &None).is_err());
}

#[test]
fn planning_a_scheduler_at_a_time() {
    let cron = RepeatOptions { pattern: Some("0 12 * * *".into()), end_date: Some(5_000), ..Default::default() };
    let prev = JobOptions { prev_millis: Some(2_000), ..Default::default() };
    // The occurrence is moved to the template's iteration time when earlier.
    let p = plan_job_scheduler_at("d", &cron, &None, &Some(prev.clone()), 1_000, Ok(Some(1_500)), 1_100).unwrap();
    assert_eq!(p.planned_at, 1_000);
    assert_eq!(p.next_millis, 2_000);
    assert_eq!(p.merged_opts.delay, Some(900));
    assert_eq!(p.merged_opts.timestamp, Some(1_100));
    assert_eq!(p.merged_opts.job_id.as_deref(), Some("repeat:d:2000"));
    let p = plan_job_scheduler_at("d", &cron, &None, &Some(prev.clone()), 1_000, Ok(Some(3_000)), 1_000).unwrap();
    assert_eq!(p.next_millis, 3_000);
    assert_eq!(
        other_message(plan_job_scheduler_at("d", &cron, &None, &None, 1_000, Ok(None), 1_000)),
        "No next occurrence for cron pattern '0 12 * * *'"
    );
    assert_eq!(
        other_message(plan_job_scheduler_at("d", &cron, &None, &None, 6_000, Ok(Some(7_000)), 6_000)),
        "Job scheduler d is past its end date"
    );
    let e = plan_job_scheduler_at("d", &cron, &None, &None, 1_000, Err(BullmqError::Other("boom".into())), 1_000);
    assert_eq!(other_message(e), "boom");
    let every = RepeatOptions { every: Some(10), ..Default::default() };
    let p = plan_job_scheduler_at("e", &every, &None, &None, 1_000, Ok(Some(42)), 1_000).unwrap();
    assert_eq!(p.next_millis, 0);
}

#[test]
fn invalid_options_win_over_a_full_counter() {
    let both = RepeatOptions { pattern: Some("* * * * *".into()), every: Some(5), count: Some(u64::MAX), ..Default::default() };
    assert_eq!(
        other_message(plan_job_scheduler("s", &both, &None, &None)),
        "Both .pattern and .every options are defined for this repeatable job"
    );
    let neither = RepeatOptions { count: Some(u64::MAX), ..Default::default() };
    assert_eq!(
        other_message(plan_job_scheduler("s", &neither, &None, &None)),
        "Either .pattern or .every options must be defined for this repeatable job"
    );
}

#[test]
fn cron_search_out_of_range_is_an_error() {
    let far = RepeatOptions { tz: Some("Asia/Tokyo".into()), start_date: Some(8_210_266_876_799_999), ..Default::default() };
    assert_eq!(other_message(next_pattern_millis(0, &far, "* * * * *")), "Invalid current timestamp");
    let edge = RepeatOptions { tz: Some("UTC".into()), start_date: Some(8_210_266_704_000_000), ..Default::default() };
    assert_eq!(other_message(next_pattern_millis(0, &edge, "* * * * *")), "Invalid current timestamp");
    // Far in the future but inside the search range: the next minute.
    let far_ok = RepeatOptions { tz: Some("Asia/Tokyo".into()), start_date: Some(8_210_266_703_999_999), ..Default::default() };
    assert_eq!(next_pattern_millis(0, &far_ok, "* * * * *").unwrap(), Some(8_210_266_704_000_000));
    let local = RepeatOptions { start_date: Some(9_000_000_000_000_000), ..Default::default() };
    assert_eq!(other_message(next_pattern_millis(0, &local, "* * * * *")), "Invalid current timestamp");
}

#[test]
fn flow_producer() {
    match FlowProducerBuilder::new().build() {
        Err(BullmqError::Other(m)) => assert_eq!(m, "FlowProducerBuilder requires a Redis connection"),
        other => panic!("{:?}", other),
    }
    let p = FlowProducerBuilder::new()
        .connection(RedisConnection::default())
        .prefix("custom")
        .build()
        .unwrap();
    let job = FlowJob {
        name: "rollup".to_string(),
        queue_name: "reports".to_string(),
        data: 1u32,
        prefix: None,
        opts: None,
        children: vec![],
    };
    let leaf = |name: &str, queue: &str, id: Option<&str>| FlowJob {
        name: name.to_string(),
        queue_name: queue.to_string(),
        data: 0u32,
        prefix: None,
        opts: id.map(|i| JobOptions { job_id: Some(i.to_string()), ..Default::default() }),
        children: vec![],
    };
    let mut middle = leaf("collect", "reports", None);
    middle.children = vec![leaf("fetch", "io", Some("f-1"))];
    let mut root = job;
    root.children = vec![middle, leaf("collect", "reports", None)];
    let ids: Vec<String> = ["a", "b", "c", "d"].iter().map(|s| s.to_string()).collect();
    let steps = p.plan(&root, &ids).unwrap();
    assert_eq!(steps.len(), 4);
    assert_eq!(steps[0].job_id, "a");
    assert_eq!(steps[0].queue_key, "custom:reports");
    assert_eq!(steps[0].parent_key, None);
    assert_eq!(steps[0].wait_children_key.as_deref(), Some("custom:reports:waiting-children"));
    assert_eq!(steps[1].job_id, "b");
    assert_eq!(steps[1].parent_key.as_deref(), Some("custom:reports:a"));
    assert_eq!(steps[1].parent_dependencies_key.as_deref(), Some("custom:reports:a:dependencies"));
    assert_eq!(steps[2].job_id, "f-1");
    assert_eq!(steps[2].name, "fetch");
    assert_eq!(steps[2].queue_key, "custom:io");
    assert_eq!(steps[2].parent_key.as_deref(), Some("custom:reports:b"));
    assert_eq!(steps[2].wait_children_key, None);
    assert_eq!(steps[3].job_id, "d");
    assert_eq!(steps[3].parent_key.as_deref(), Some("custom:reports:a"));
    match p.plan(&root, &vec!["a".to_string()]) {
        Err(BullmqError::Other(m)) => assert_eq!(m, "A flow needs an id for each of its jobs"),
        other => panic!("{:?}", other),
    }
}
