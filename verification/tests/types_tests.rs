use bullmq_rs::types::saturating_pow2_u64;
use bullmq_rs::{
    BackoffStrategy, DeduplicationOptions, JobOptionsBuilder, JobSchedulerTemplate, JobState,
    MetricsMeta, RepeatOptions, RepeatOptionsBuilder,
};

#[test]
fn unknown_state_is_refused_with_its_text() {
    match JobState::parse("invalid") {
        Err(m) => assert_eq!(m, "Unknown job state: invalid"),
        Ok(_) => panic!("accepted an unknown state"),
    }
    assert!(JobState::parse("Wait").is_err());
}

#[test]
fn every_state_name_parses_back() {
    let all = [
        JobState::Wait,
        JobState::Paused,
        JobState::Prioritized,
        JobState::WaitingChildren,
        JobState::Delayed,
        JobState::Active,
        JobState::Completed,
        JobState::Failed,
    ];
    for s in all {
        assert_eq!(JobState::parse(&s.to_string()).unwrap(), s);
    }
    assert_eq!(JobState::Prioritized.to_string(), "prioritized");
}

#[test]
fn saturating_power_of_two() {
    assert_eq!(saturating_pow2_u64(0), 1);
    assert_eq!(saturating_pow2_u64(10), 1024);
    assert_eq!(saturating_pow2_u64(63), 1u64 << 63);
    assert_eq!(saturating_pow2_u64(64), u64::MAX);
    assert_eq!(saturating_pow2_u64(1000), u64::MAX);
}

#[test]
fn exponential_backoff_is_capped_and_growing() {
    let b = BackoffStrategy::Exponential { base: 250, max: 10_000 };
    let mut prev = 0;
    for a in 0..6 {
        let d = b.delay_for_attempt(a);
        assert!(d >= prev);
        assert!(d <= 10_000);
        prev = d;
    }
    assert_eq!(b.delay_for_attempt(5), 8_000);
    assert_eq!(b.delay_for_attempt(6), 10_000);
    let zero = BackoffStrategy::Exponential { base: 0, max: 5 };
    assert_eq!(zero.delay_for_attempt(200), 0);
    let one = BackoffStrategy::Exponential { base: 1, max: u64::MAX };
    assert_eq!(one.delay_for_attempt(70), u64::MAX);
}

#[test]
fn exponential_backoff_is_capped_past_u64() {
    let b = BackoffStrategy::Exponential { base: 1_000, max: 30_000 };
    assert_eq!(b.delay_for_attempt(60), 30_000);
    assert_eq!(b.delay_for_attempt(u32::MAX), 30_000);
    let big = BackoffStrategy::Exponential { base: u64::MAX, max: 7 };
    assert_eq!(big.delay_for_attempt(1), 7);
    assert_eq!(big.delay_for_attempt(0), 7);
    let exact = BackoffStrategy::Exponential { base: 3, max: u64::MAX };
    assert_eq!(exact.delay_for_attempt(62), 3u64 << 62);
}

#[test]
fn job_options_builder_sets_each_option() {
    let opts = JobOptionsBuilder::new()
        .priority(3)
        .delay(1500)
        .attempts(4)
        .backoff(BackoffStrategy::Fixed { delay: 100 })
        .ttl(60_000)
        .job_id("custom".to_string())
        .deduplication(DeduplicationOptions { id: "d".to_string(), ttl: Some(5) })
        .prev_millis(10)
        .repeat_job_key("sched".to_string())
        .timestamp(20)
        .build();
    assert_eq!(opts.priority, Some(3));
    assert_eq!(opts.delay, Some(1500));
    assert_eq!(opts.attempts, Some(4));
    assert!(matches!(opts.backoff, Some(BackoffStrategy::Fixed { delay: 100 })));
    assert_eq!(opts.ttl, Some(60_000));
    assert_eq!(opts.job_id.as_deref(), Some("custom"));
    assert_eq!(opts.deduplication.as_ref().map(|d| d.id.as_str()), Some("d"));
    assert!(opts.repeat.is_none());
    assert_eq!(opts.prev_millis, Some(10));
    assert_eq!(opts.repeat_job_key.as_deref(), Some("sched"));
    assert_eq!(opts.timestamp, Some(20));
    let later = JobOptionsBuilder::new().priority(1).priority(2).build();
    assert_eq!(later.priority, Some(2));
}

#[test]
fn repeat_options_builder_sets_each_option() {
    let r = RepeatOptionsBuilder::new()
        .pattern("0 8 * * 1-5")
        .limit(10)
        .start_date(1)
        .end_date(2)
        .tz("Europe/Paris")
        .immediately(true)
        .offset(3)
        .count(4)
        .build();
    assert_eq!(r.pattern.as_deref(), Some("0 8 * * 1-5"));
    assert!(r.every.is_none());
    assert_eq!(r.limit, Some(10));
    assert_eq!(r.start_date, Some(1));
    assert_eq!(r.end_date, Some(2));
    assert_eq!(r.tz.as_deref(), Some("Europe/Paris"));
    assert!(r.immediately);
    assert_eq!(r.offset, Some(3));
    assert_eq!(r.count, Some(4));
    let e = RepeatOptionsBuilder::new().every(300_000).build();
    assert_eq!(e.every, Some(300_000));
    assert!(e.pattern.is_none());
    let d = RepeatOptions::default();
    assert!(!d.immediately && d.count.is_none());
}

#[test]
fn template_and_metrics_defaults() {
    let t: JobSchedulerTemplate<String> = JobSchedulerTemplate::default();
    assert!(t.name.is_none() && t.data.is_none() && t.opts.is_none());
    assert_eq!(MetricsMeta::default(), MetricsMeta { count: 0, prev_ts: 0, prev_count: 0 });
}
