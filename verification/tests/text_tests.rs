use bullmq_rs::scheduler::scheduler_opts_json;
use bullmq_rs::RepeatOptions;
use bullmq_rs::resp::{value_to_string, RespValue};
use bullmq_rs::QueueEvent;
use bullmq_rs::text::{
    contains_str, i64_to_decimal, parse_i64, parse_u32, parse_u64, str_eq, u64_to_decimal,
};

#[test]
fn decimal_encoding_of_unsigned() {
    assert_eq!(u64_to_decimal(0), "0");
    assert_eq!(u64_to_decimal(7), "7");
    assert_eq!(u64_to_decimal(1234567890), "1234567890");
    assert_eq!(u64_to_decimal(u64::MAX), "18446744073709551615");
}

#[test]
fn decimal_encoding_of_signed() {
    assert_eq!(i64_to_decimal(-42), "-42");
    assert_eq!(i64_to_decimal(0), "0");
    assert_eq!(i64_to_decimal(i64::MIN), "-9223372036854775808");
    assert_eq!(i64_to_decimal(i64::MAX), "9223372036854775807");
}

#[test]
fn decimal_parsing_matches_std() {
    for s in ["0", "+12", "12", "", "+", "-1", "18446744073709551615", "18446744073709551616", "1a", " 1"] {
        assert_eq!(parse_u64(s), s.parse::<u64>().ok(), "u64 {:?}", s);
    }
    for s in ["4294967295", "4294967296", "+0", "00012"] {
        assert_eq!(parse_u32(s), s.parse::<u32>().ok(), "u32 {:?}", s);
    }
    for s in ["-9223372036854775808", "-9223372036854775809", "9223372036854775807", "9223372036854775808", "-", "-0", "+-1", "-12"] {
        assert_eq!(parse_i64(s), s.parse::<i64>().ok(), "i64 {:?}", s);
    }
}

#[test]
fn decimal_roundtrip_on_concrete_values() {
    for n in [0u64, 1, 9, 10, 99, 100, 1_700_000_000_000, u64::MAX] {
        assert_eq!(parse_u64(&u64_to_decimal(n)), Some(n));
    }
    for n in [i64::MIN, -1, 0, 1, i64::MAX] {
        assert_eq!(parse_i64(&i64_to_decimal(n)), Some(n));
    }
}

#[test]
fn string_equality_and_search() {
    assert!(str_eq("wait", "wait"));
    assert!(!str_eq("wait", "waits"));
    assert!(!str_eq("wait", "wain"));
    assert!(contains_str("Response was nil? response was nil", "response was nil"));
    assert!(contains_str("abc", ""));
    assert!(!contains_str("ab", "abc"));
    assert!(!contains_str("types are not compatibl", "not compatible"));
}

#[test]
fn json_quoting_escapes() {
    let tz = RepeatOptions { every: Some(1), tz: Some("a\"b\\c\n\t\r\u{8}\u{c}".to_string()), ..Default::default() };
    assert_eq!(
        scheduler_opts_json("n", &tz),
        "{\"every\":1,\"name\":\"n\",\"tz\":\"a\\\"b\\\\c\\n\\t\\r\\b\\f\"}"
    );
}

fn completed_value(text: &str) -> String {
    let fields = vec![
        ("event".to_string(), "completed".to_string()),
        ("returnvalue".to_string(), text.to_string()),
    ];
    match QueueEvent::parse(&fields) {
        QueueEvent::Completed { return_value, .. } => return_value,
        other => panic!("{:?}", other),
    }
}

#[test]
fn json_validity() {
    assert_eq!(completed_value("{\"a\":1}"), "{\"a\":1}");
    assert_eq!(completed_value("42"), "42");
    assert_eq!(completed_value("null"), "null");
    assert_eq!(completed_value("{broken"), "null");
    assert_eq!(completed_value(""), "null");
}

#[test]
fn json_object_writing() {
    let all = RepeatOptions {
        pattern: Some("* * * * *".to_string()),
        every: Some(2),
        limit: Some(3),
        start_date: Some(4),
        end_date: Some(5),
        tz: Some("UTC".to_string()),
        offset: Some(6),
        ..Default::default()
    };
    assert_eq!(
        scheduler_opts_json("j", &all),
        "{\"endDate\":5,\"every\":2,\"limit\":3,\"name\":\"j\",\"offset\":6,\"pattern\":\"* * * * *\",\"startDate\":4,\"tz\":\"UTC\"}"
    );
    assert_eq!(scheduler_opts_json("", &RepeatOptions::default()), "{\"name\":\"\"}");
}

#[test]
fn lossy_utf8_decoding() {
    assert_eq!(value_to_string(&RespValue::BulkString(b"job-1".to_vec())).unwrap(), "job-1");
    assert_eq!(value_to_string(&RespValue::BulkString(vec![b'a', 0xff, b'b'])).unwrap(), "a\u{FFFD}b");
}
