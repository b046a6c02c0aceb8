use bullmq_rs::queue_events::{
    on_xread_error, on_xread_reply, parse_xread_response, XreadErrorStep,
};
use bullmq_rs::resp::RespValue;
use bullmq_rs::{QueueEvent, QueueEventsBuilder, RedisConnection};

fn fields(pairs: &[(&str, &str)]) -> Vec<(String, String)> {
    pairs.iter().map(|(k, v)| (k.to_string(), v.to_string())).collect()
}

fn bulk(s: &str) -> RespValue {
    RespValue::BulkString(s.as_bytes().to_vec())
}

#[test]
fn parses_added_and_waiting_events() {
    match QueueEvent::parse(&fields(&[("event", "added"), ("jobId", "7"), ("name", "email")])) {
        QueueEvent::Added { job_id, name } => {
            assert_eq!(job_id, "7");
            assert_eq!(name, "email");
        }
        other => panic!("{:?}", other),
    }
    match QueueEvent::parse(&fields(&[("event", "waiting"), ("jobId", "7"), ("prev", "")])) {
        QueueEvent::Waiting { job_id, prev } => {
            assert_eq!(job_id, "7");
            assert_eq!(prev, None);
        }
        other => panic!("{:?}", other),
    }
    match QueueEvent::parse(&fields(&[("event", "active"), ("prev", "waiting")])) {
        QueueEvent::Active { job_id, prev } => {
            assert_eq!(job_id, "");
            assert_eq!(prev.as_deref(), Some("waiting"));
        }
        other => panic!("{:?}", other),
    }
}

#[test]
fn parses_json_and_numeric_fields() {
    match QueueEvent::parse(&fields(&[("event", "completed"), ("jobId", "1"), ("returnvalue", "{\"ok\":true}")])) {
        QueueEvent::Completed { return_value, .. } => assert_eq!(return_value, "{\"ok\":true}"),
        other => panic!("{:?}", other),
    }
    match QueueEvent::parse(&fields(&[("event", "completed"), ("jobId", "1"), ("returnvalue", "{oops")])) {
        QueueEvent::Completed { return_value, .. } => assert_eq!(return_value, "null"),
        other => panic!("{:?}", other),
    }
    match QueueEvent::parse(&fields(&[("event", "progress"), ("jobId", "1")])) {
        QueueEvent::Progress { data, .. } => assert_eq!(data, "null"),
        other => panic!("{:?}", other),
    }
    match QueueEvent::parse(&fields(&[("event", "delayed"), ("jobId", "2"), ("delay", "1700000000000")])) {
        QueueEvent::Delayed { job_id, delay } => {
            assert_eq!(job_id, "2");
            assert_eq!(delay, 1_700_000_000_000);
        }
        other => panic!("{:?}", other),
    }
    match QueueEvent::parse(&fields(&[("event", "priority"), ("jobId", "2"), ("priority", "x")])) {
        QueueEvent::Priority { priority, .. } => assert_eq!(priority, 0),
        other => panic!("{:?}", other),
    }
    match QueueEvent::parse(&fields(&[("event", "failed"), ("jobId", "3"), ("failedReason", "boom")])) {
        QueueEvent::Failed { job_id, reason } => {
            assert_eq!(job_id, "3");
            assert_eq!(reason, "boom");
        }
        other => panic!("{:?}", other),
    }
}

#[test]
fn parses_queue_level_and_unknown_events() {
    assert!(matches!(QueueEvent::parse(&fields(&[("event", "paused")])), QueueEvent::Paused));
    assert!(matches!(QueueEvent::parse(&fields(&[("event", "resumed")])), QueueEvent::Resumed));
    assert!(matches!(QueueEvent::parse(&fields(&[("event", "drained")])), QueueEvent::Drained));
    match QueueEvent::parse(&fields(&[("event", "custom"), ("k", "v")])) {
        QueueEvent::Unknown { event, fields } => {
            assert_eq!(event, "custom");
            assert_eq!(fields.len(), 2);
        }
        other => panic!("{:?}", other),
    }
    match QueueEvent::parse(&fields(&[("event", "custom"), ("k", "a"), ("x", "y"), ("k", "b")])) {
        QueueEvent::Unknown { fields, .. } => {
            assert_eq!(
                fields,
                vec![
                    ("event".to_string(), "custom".to_string()),
                    ("x".to_string(), "y".to_string()),
                    ("k".to_string(), "b".to_string()),
                ]
            );
        }
        other => panic!("{:?}", other),
    }
    match QueueEvent::parse(&fields(&[("jobId", "1")])) {
        QueueEvent::Unknown { event, .. } => assert_eq!(event, ""),
        other => panic!("{:?}", other),
    }
    // The last value of a repeated field wins.
    match QueueEvent::parse(&fields(&[("event", "stalled"), ("jobId", "1"), ("jobId", "2")])) {
        QueueEvent::Stalled { job_id } => assert_eq!(job_id, "2"),
        other => panic!("{:?}", other),
    }
}

fn sample_reply() -> RespValue {
    let entry1 = RespValue::Array(vec![
        bulk("1-0"),
        RespValue::Array(vec![bulk("event"), bulk("added"), bulk("jobId"), bulk("5"), bulk("name")]),
    ]);
    let bad_entry = RespValue::Array(vec![RespValue::Int(3), RespValue::Array(vec![])]);
    let entry2 = RespValue::Array(vec![
        RespValue::SimpleString("2-0".to_string()),
        RespValue::Array(vec![bulk("event"), bulk("stalled"), RespValue::Int(1), bulk("x"), bulk("jobId"), RespValue::Nil]),
    ]);
    RespValue::Array(vec![RespValue::Array(vec![
        bulk("bull:q:events"),
        RespValue::Array(vec![entry1, bad_entry, entry2]),
    ])])
}

#[test]
fn decodes_xread_replies() {
    let entries = parse_xread_response(&sample_reply());
    assert_eq!(entries.len(), 2);
    assert_eq!(entries[0].0, "1-0");
    assert_eq!(entries[0].1, fields(&[("event", "added"), ("jobId", "5")]));
    assert_eq!(entries[1].0, "2-0");
    assert_eq!(entries[1].1, fields(&[("event", "stalled"), ("jobId", "")]));
    assert!(parse_xread_response(&RespValue::Nil).is_empty());
    assert!(parse_xread_response(&RespValue::Array(vec![RespValue::Int(1)])).is_empty());
}

#[test]
fn reading_loop_steps() {
    let (last, events) = on_xread_reply(&"$".to_string(), &sample_reply());
    assert_eq!(last, "2-0");
    assert_eq!(events.len(), 2);
    assert_eq!(events[0].1, "1-0");
    assert!(matches!(&events[0].0, QueueEvent::Added { job_id, .. } if job_id == "5"));
    assert!(matches!(&events[1].0, QueueEvent::Stalled { job_id } if job_id.is_empty()));
    let (last, events) = on_xread_reply(&"9-1".to_string(), &RespValue::Nil);
    assert_eq!(last, "9-1");
    assert!(events.is_empty());
    assert!(matches!(on_xread_error("Response was of incompatible type: response was nil"), XreadErrorStep::Retry));
    assert!(matches!(on_xread_error("types are not compatible"), XreadErrorStep::Retry));
    assert!(matches!(on_xread_error("Connection refused"), XreadErrorStep::BackOff));
}

#[test]
fn queue_events_builder_settings() {
    let b = QueueEventsBuilder::new("emails");
    assert_eq!(b.get_name(), "emails");
    assert_eq!(b.get_prefix(), "bull");
    assert_eq!(b.get_last_event_id(), "$");
    assert_eq!(b.get_blocking_timeout(), 10_000);
    assert_eq!(b.get_capacity(), 256);
    let b = b
        .connection(RedisConnection::new("redis://other:6379"))
        .prefix("p")
        .last_event_id("0-0")
        .blocking_timeout(5)
        .capacity(8);
    assert_eq!(b.get_connection().url(), "redis://other:6379");
    assert_eq!(b.get_prefix(), "p");
    assert_eq!(b.get_last_event_id(), "0-0");
    assert_eq!(b.get_blocking_timeout(), 5);
    assert_eq!(b.get_capacity(), 8);
    assert_eq!(b.get_name(), "emails");
}
