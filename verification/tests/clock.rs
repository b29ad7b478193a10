use punch::clock::{
    ends_in_byte, expiry_at, format_runtime, format_runtime_at, parse_expiry, parse_expiry_at,
    parse_span, Timestamp, FIRST_SECOND, LAST_SECOND,
};
use punch::number::{parse_i64, parse_u16, show, IntError};

fn at(seconds: i64) -> Timestamp {
    Timestamp::new(seconds, 0).expect("an instant")
}

#[test]
fn numbers_are_written_and_read_back() {
    for n in [0u64, 9, 10, 99, 100, 65535, u64::MAX] {
        assert_eq!(show(n), n.to_string());
    }
    assert_eq!(parse_u16("0080"), Ok(80));
    assert_eq!(parse_i64("-9223372036854775808"), Ok(i64::MIN));
    assert_eq!(parse_i64("9223372036854775808"), Err(IntError::PosOverflow));
    assert_eq!(parse_i64("-9223372036854775809"), Err(IntError::NegOverflow));
    assert_eq!(parse_i64("-"), Err(IntError::InvalidDigit));
    assert_eq!(parse_i64(""), Err(IntError::Empty));
}

#[test]
fn numbers_read_as_the_standard_library_does() {
    for text in ["", "+", "-", "+5", "-5", "5", "99999", "65535", "65536", " 5", "5 ", "٣"] {
        assert_eq!(parse_u16(text).ok(), text.parse::<u16>().ok(), "{text:?}");
        assert_eq!(parse_i64(text).ok(), text.parse::<i64>().ok(), "{text:?}");
        if let (Err(ours), Err(theirs)) = (parse_u16(text), text.parse::<u16>()) {
            assert_eq!(ours.message(), theirs.to_string(), "{text:?}");
        }
    }
}

#[test]
fn calendar_has_an_end() {
    assert!(Timestamp::new(LAST_SECOND, 999_999_999).is_some());
    assert!(Timestamp::new(LAST_SECOND + 1, 0).is_none());
    assert!(Timestamp::new(FIRST_SECOND, 0).is_some());
    assert!(Timestamp::new(FIRST_SECOND - 1, 0).is_none());
    assert!(Timestamp::new(59, 1_500_000_000).is_some());
    assert!(Timestamp::new(58, 1_500_000_000).is_none());
    assert!(Timestamp::new(59, 2_000_000_000).is_none());
}

#[test]
fn calendar_is_that_of_the_clock() {
    let last = chrono::DateTime::<chrono::Utc>::MAX_UTC;
    let first = chrono::DateTime::<chrono::Utc>::MIN_UTC;
    assert_eq!(last.timestamp(), LAST_SECOND);
    assert_eq!(first.timestamp(), FIRST_SECOND);
}

#[test]
fn the_clock_is_read() {
    let now = Timestamp::now();
    assert!(now.seconds() > 1_700_000_000);
    assert!(now.nanos() < 1_000_000_000);
    assert!(!Timestamp::now().is_before(&now));
    assert!(at(0).is_before(&now));
}

#[test]
fn runtimes_are_shown_in_hours_and_minutes() {
    let start = at(1_000_000);
    assert_eq!(format_runtime_at(&start, &at(1_000_000)), "0m");
    assert_eq!(format_runtime_at(&start, &at(1_000_059)), "0m");
    assert_eq!(format_runtime_at(&start, &at(1_000_060)), "1m");
    assert_eq!(format_runtime_at(&start, &at(1_003_599)), "59m");
    assert_eq!(format_runtime_at(&start, &at(1_003_600)), "1h00m");
    assert_eq!(format_runtime_at(&start, &at(1_003_600 + 9 * 60)), "1h09m");
    assert_eq!(format_runtime_at(&start, &at(1_000_000 + 100 * 3600 + 3599)), "100h59m");
}

#[test]
fn a_start_in_the_future_counts_as_now() {
    assert_eq!(format_runtime_at(&at(5_000), &at(0)), "0m");
}

#[test]
fn parts_of_a_second_are_dropped() {
    let start = Timestamp::new(0, 500_000_000).expect("an instant");
    assert_eq!(format_runtime_at(&start, &at(60)), "0m");
    let later = Timestamp::new(60, 500_000_000).expect("an instant");
    assert_eq!(format_runtime_at(&start, &later), "1m");
}

#[test]
fn runtime_until_now_ends_in_minutes() {
    let text = format_runtime(&at(0));
    assert!(text.ends_with('m') && text.contains('h'));
}

#[test]
fn leap_seconds_are_counted_as_the_clock_does() {
    let leap = Timestamp::new(1_483_228_799, 1_250_000_000).expect("a leap second");
    let after = at(1_483_228_800 + 3_600);
    let to = chrono::DateTime::<chrono::Utc>::from_timestamp(after.seconds(), after.nanos());
    let from = chrono::DateTime::<chrono::Utc>::from_timestamp(leap.seconds(), leap.nanos());
    let seconds = (to.expect("a time") - from.expect("a time")).num_seconds();
    let expected = format!("{}m", seconds.max(0) % 3600 / 60);
    assert_eq!(format_runtime_at(&leap, &after), expected);
    let end = expiry_at(&leap, -1).expect("an instant");
    assert_eq!((end.seconds(), end.nanos()), (1_483_228_799, 250_000_000));
    let same = expiry_at(&leap, 0).expect("an instant");
    assert_eq!((same.seconds(), same.nanos()), (1_483_228_799, 1_250_000_000));
}

#[test]
fn spans_are_read_in_their_units() {
    assert_eq!(parse_span("30m"), Ok(1_800));
    assert_eq!(parse_span(" 2h "), Ok(7_200));
    assert_eq!(parse_span("1d"), Ok(86_400));
    assert_eq!(parse_span("-1d"), Ok(-86_400));
    assert_eq!(parse_span("+3m"), Ok(180));
}

#[test]
fn bad_spans_are_refused() {
    assert_eq!(parse_span("").unwrap_err().line(), "无效过期时间: ");
    assert_eq!(parse_span("m").unwrap_err().line(), "无效过期时间: m");
    assert_eq!(
        parse_span("xm").unwrap_err().line(),
        "无效过期时间: xm: invalid digit found in string"
    );
    assert_eq!(
        parse_span("12").unwrap_err().line(),
        "无效过期时间单位: 2，支持 m/h/d"
    );
    assert_eq!(
        parse_span("12s").unwrap_err().line(),
        "无效过期时间单位: s，支持 m/h/d"
    );
    assert!(!ends_in_byte("12天"));
    assert!(ends_in_byte("12h"));
    assert!(ends_in_byte(""));
}

#[test]
fn expiry_lies_a_span_after_now() {
    let now = Timestamp::new(1_000, 5).expect("an instant");
    let end = parse_expiry_at("2h", &now).expect("a span").expect("an instant");
    assert_eq!((end.seconds(), end.nanos()), (8_200, 5));
    let end = parse_expiry_at("-1h", &now).expect("a span").expect("an instant");
    assert_eq!((end.seconds(), end.nanos()), (-2_600, 5));
}

#[test]
fn expiry_past_the_calendar_is_none() {
    let now = at(0);
    assert_eq!(parse_expiry_at("9223372036854775807d", &now), Ok(None));
    assert_eq!(parse_expiry_at("-9223372036854775808m", &now), Ok(None));
    assert_eq!(parse_expiry_at("95026236d", &now).expect("a span").is_some(), true);
    assert_eq!(parse_expiry_at("95026237d", &now), Ok(None));
}

#[test]
fn expiry_from_now_on_is_in_the_future() {
    let before = Timestamp::now();
    let end = parse_expiry("1m").expect("a span").expect("an instant");
    assert!(end.seconds() >= before.seconds() + 60);
    assert!(parse_expiry("1w").is_err());
}
