use bullmq_rs::queue::{
    add_script_for, assign_bulk_ids, auto_id_count, check_lock_lists, check_metrics_state,
    check_retry_state, collect_unique_ids, dedup_key, drain_keys, insert_unique, job_ids_query,
    keep_present, logs_key, merge_listings, move_jobs_batch_size, normalize_job_states, plan_clean, AddScript, IdsQuery,
    JobCounts, RangeCommand,
};
use bullmq_rs::scripts::key;
use bullmq_rs::{BullmqError, DeduplicationOptions, JobState, QueueBuilder, RedisConnection};

#[test]
fn listing_without_states_covers_all_with_paused_after_wait() {
    assert_eq!(
        normalize_job_states(&vec![]),
        vec![
            JobState::Wait,
            JobState::Paused,
            JobState::Active,
            JobState::Delayed,
            JobState::Prioritized,
            JobState::Completed,
            JobState::Failed,
            JobState::WaitingChildren,
        ]
    );
}

#[test]
fn listing_states_are_deduplicated_in_request_order() {
    assert_eq!(
        normalize_job_states(&vec![JobState::Failed, JobState::Wait, JobState::Failed, JobState::Paused]),
        vec![JobState::Failed, JobState::Wait, JobState::Paused]
    );
    assert_eq!(
        normalize_job_states(&vec![JobState::Paused, JobState::Wait]),
        vec![JobState::Paused, JobState::Wait]
    );
    assert_eq!(normalize_job_states(&vec![JobState::Completed]), vec![JobState::Completed]);
}

#[test]
fn ids_query_for_lists_and_sets() {
    assert_eq!(
        job_ids_query(JobState::Wait, 0, 9, true),
        IdsQuery { command: RangeCommand::LRange, first: -10, last: -1, reverse: true }
    );
    assert_eq!(
        job_ids_query(JobState::Active, 0, -1, true),
        IdsQuery { command: RangeCommand::LRange, first: 0, last: -1, reverse: true }
    );
    assert_eq!(
        job_ids_query(JobState::Paused, 2, 5, false),
        IdsQuery { command: RangeCommand::LRange, first: 2, last: 5, reverse: false }
    );
    assert_eq!(
        job_ids_query(JobState::Completed, 0, -1, false),
        IdsQuery { command: RangeCommand::ZRevRange, first: 0, last: -1, reverse: false }
    );
    assert_eq!(
        job_ids_query(JobState::Delayed, 1, 3, true),
        IdsQuery { command: RangeCommand::ZRange, first: 1, last: 3, reverse: false }
    );
}

#[test]
fn counts_of_pending_and_waiting_jobs() {
    let c = JobCounts {
        wait: 1,
        paused: 2,
        active: 4,
        prioritized: 8,
        delayed: 16,
        completed: 32,
        failed: 64,
        waiting_children: 128,
    };
    assert_eq!(c.count(), 1 + 2 + 16 + 8 + 128);
    assert_eq!(c.waiting_count(), 3);
    assert_eq!(c.get(JobState::Failed), 64);
    assert_eq!(c.get(JobState::WaitingChildren), 128);
}

#[test]
fn add_script_choice() {
    assert_eq!(add_script_for(500, 3, 1000), AddScript::Delayed { delayed_timestamp: 1500 });
    assert_eq!(add_script_for(0, 3, 1000), AddScript::Prioritized);
    assert_eq!(add_script_for(0, 0, 1000), AddScript::Standard);
}

#[test]
fn deduplication_key() {
    let d = Some(DeduplicationOptions { id: "sync-user-42".to_string(), ttl: Some(60_000) });
    assert_eq!(dedup_key("bull", "emails", &d), "bull:emails:de:sync-user-42");
    assert_eq!(dedup_key("bull", "emails", &None), "");
}

#[test]
fn bulk_ids_follow_the_counter() {
    let custom = vec![None, Some("x".to_string()), None, None];
    assert_eq!(auto_id_count(&custom), 3);
    assert_eq!(assign_bulk_ids(&custom, 12), vec!["10", "x", "11", "12"]);
    let all_custom = vec![Some("a".to_string())];
    assert_eq!(assign_bulk_ids(&all_custom, 0), vec!["a"]);
}

#[test]
fn state_checks_of_bulk_operations() {
    assert!(check_retry_state(JobState::Failed).is_ok());
    assert!(check_retry_state(JobState::Completed).is_ok());
    match check_retry_state(JobState::Active) {
        Err(BullmqError::Other(m)) => {
            assert_eq!(m, "retry_jobs only supports failed or completed states, got: active")
        }
        _ => panic!("active accepted"),
    }
    match check_metrics_state(JobState::Wait) {
        Err(BullmqError::Other(m)) => {
            assert_eq!(m, "get_metrics only supports completed or failed states, got: wait")
        }
        _ => panic!("wait accepted"),
    }
    assert!(check_metrics_state(JobState::Completed).is_ok());
    assert_eq!(move_jobs_batch_size(0), 1000);
    assert_eq!(move_jobs_batch_size(7), 7);
    assert!(check_lock_lists(&vec!["1".to_string()], &vec!["t".to_string()]).is_ok());
    assert!(matches!(
        check_lock_lists(&vec!["1".to_string()], &vec![]),
        Err(BullmqError::Other(_))
    ));
}

#[test]
fn clean_plans() {
    let p = plan_clean(3_600_000, 1000, JobState::Completed, 10_000_000).unwrap();
    assert_eq!(p.set_name, "completed");
    assert_eq!(p.timestamp, 6_400_000);
    assert_eq!(p.max_count, 1000);
    assert_eq!(p.max_count_per_call, 1000);
    assert!(p.call_again(0, None));
    assert!(!p.call_again(1000, Some((1000, 1000))));
    assert_eq!(p.batch_limit(0), 1000);
    assert_eq!(p.batch_limit(400), 600);
    let unbounded = plan_clean(10, 0, JobState::Failed, 5).unwrap();
    assert_eq!(unbounded.timestamp, 0);
    assert_eq!(unbounded.max_count, u64::MAX);
    assert_eq!(unbounded.max_count_per_call, 10_000);
    assert!(unbounded.call_again(10_000, Some((10_000, 10_000))));
    assert_eq!(unbounded.batch_limit(10_000), 10_000);
    assert!(!unbounded.call_again(10_003, Some((10_000, 3))));
    match plan_clean(0, 0, JobState::WaitingChildren, 0) {
        Err(BullmqError::Other(m)) => assert_eq!(m, "Cannot clean waiting-children jobs"),
        _ => panic!("waiting-children accepted"),
    }
}

#[test]
fn clean_limit_caps_the_total() {
    let p = plan_clean(0, 15_000, JobState::Completed, 100).unwrap();
    assert_eq!(p.batch_limit(0), 10_000);
    assert!(p.call_again(10_000, Some((10_000, 10_000))));
    assert_eq!(p.batch_limit(10_000), 5_000);
    assert!(!p.call_again(15_000, Some((5_000, 5_000))));
}

#[test]
fn unique_ids_across_states() {
    let lists = vec![
        vec!["3".to_string(), "1".to_string()],
        vec![],
        vec!["1".to_string(), "2".to_string(), "3".to_string(), "4".to_string()],
    ];
    assert_eq!(collect_unique_ids(&lists), vec!["3", "1", "2", "4"]);
    let mut seen = vec!["a".to_string()];
    assert!(!insert_unique(&mut seen, &"a".to_string()));
    assert!(insert_unique(&mut seen, &"b".to_string()));
    assert_eq!(seen, vec!["a", "b"]);
}

#[test]
fn queue_keys() {
    assert_eq!(key("bull", "emails", "wait"), "bull:emails:wait");
    assert_eq!(key("bull", "emails", ""), "bull:emails:");
    assert_eq!(logs_key("bull", "emails", "42"), "bull:emails:42:logs");
    let keys = drain_keys("p", "q");
    assert_eq!(keys.len(), 9);
    assert_eq!(keys[0], "p:q:wait");
    assert_eq!(keys[7], "p:q:waiting-children");
    assert_eq!(keys[8], "p:q:id");
}

#[test]
fn queue_builder_settings() {
    let b = QueueBuilder::new("downloads");
    assert_eq!(b.get_name(), "downloads");
    assert_eq!(b.get_prefix(), "bull");
    assert_eq!(b.get_connection().url(), "redis://127.0.0.1:6379");
    let b = b.connection(RedisConnection::new("redis://h:1")).prefix("custom");
    assert_eq!(b.get_prefix(), "custom");
    assert_eq!(b.get_connection().url(), "redis://h:1");
    assert_eq!(b.get_name(), "downloads");
}

#[test]
fn listing_over_states_keeps_first_state() {
    let states = vec![JobState::Wait, JobState::Paused, JobState::Delayed];
    let lists = vec![
        vec!["1".to_string(), "2".to_string(), "1".to_string()],
        vec!["2".to_string(), "3".to_string()],
        vec![],
    ];
    assert_eq!(
        merge_listings(&states, &lists),
        vec![
            (JobState::Wait, "1".to_string()),
            (JobState::Wait, "2".to_string()),
            (JobState::Paused, "3".to_string()),
        ]
    );
}

#[test]
fn listing_drops_jobs_without_hash() {
    let entries = vec![
        (JobState::Wait, "1".to_string()),
        (JobState::Wait, "2".to_string()),
        (JobState::Paused, "3".to_string()),
    ];
    assert_eq!(
        keep_present(&entries, &vec![true, false, true]),
        vec![(JobState::Wait, "1".to_string()), (JobState::Paused, "3".to_string())]
    );
    assert_eq!(keep_present(&entries, &vec![false, false, false]), vec![]);
}
