use covermint::timestamp::{format_timestamp_microseconds, parse_timestamp_microseconds, parse_timestamp_seconds};

#[test]
fn formats_minutes_and_padded_seconds() {
    assert_eq!(format_timestamp_microseconds(0), "0:00");
    assert_eq!(format_timestamp_microseconds(65_999_999), "1:05");
    assert_eq!(format_timestamp_microseconds(3_600_000_000), "60:00");
}

#[test]
fn parses_minutes_and_seconds() {
    assert_eq!(parse_timestamp_seconds("3:07"), Some(187));
    assert_eq!(parse_timestamp_seconds(" 12 : 30 "), Some(750));
    assert_eq!(parse_timestamp_seconds("1:60"), None);
    assert_eq!(parse_timestamp_seconds("abc"), None);
    assert_eq!(parse_timestamp_seconds("5"), None);
    assert_eq!(parse_timestamp_microseconds("0:42"), Some(42_000_000));
}

#[test]
fn formatted_time_reads_back_to_the_second() {
    for us in [0u64, 999_999, 61_500_000, 1_234_567_890] {
        let text = format_timestamp_microseconds(us);
        assert_eq!(parse_timestamp_microseconds(&text), Some(us / 1_000_000 * 1_000_000));
    }
}
