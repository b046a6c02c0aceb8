use bullmq_rs::repeat::next_pattern_millis;
use bullmq_rs::RepeatOptions;

#[test]
fn test_next_pattern_millis_every_minute() {
    let now = 1_700_000_000_000u64;
    let opts = RepeatOptions::default();
    let next = next_pattern_millis(now, &opts, "* * * * *")
        .unwrap()
        .unwrap();
    assert!(next > now);
    assert_eq!(next % 60_000, 0);
    assert!(next - now <= 60_000);
}

#[test]
fn test_next_pattern_millis_respects_start_date() {
    let now = 1_700_000_000_000u64;
    let start = now + 3_600_000;
    let opts = RepeatOptions {
        start_date: Some(start),
        ..Default::default()
    };
    let next = next_pattern_millis(now, &opts, "* * * * *")
        .unwrap()
        .unwrap();
    assert!(next >= start);
}

#[test]
fn test_next_pattern_millis_respects_end_date() {
    let now = 1_700_000_000_000u64;
    let opts = RepeatOptions {
        end_date: Some(now + 1),
        ..Default::default()
    };
    assert!(next_pattern_millis(now, &opts, "* * * * *")
        .unwrap()
        .is_none());
}

#[test]
fn test_next_pattern_millis_with_tz() {
    let now = 1_700_000_000_000u64;
    let opts = RepeatOptions {
        tz: Some("Europe/Paris".into()),
        ..Default::default()
    };
    let next = next_pattern_millis(now, &opts, "0 12 * * *")
        .unwrap()
        .unwrap();
    assert!(next > now);
}

#[test]
fn test_next_pattern_millis_invalid_pattern() {
    let opts = RepeatOptions::default();
    assert!(next_pattern_millis(0, &opts, "not a cron").is_err());
}
