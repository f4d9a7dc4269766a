use sjavs::messages::GameMessage;
use sjavs::text::{format_u64, parse_u64, str_eq, str_eq_ignoring_case, str_starts_with};
use sjavs::timestamp::{is_newer_than, TimestampManager, Timestamped};

#[test]
fn test_timestamp_generation() {
    let ts1 = TimestampManager::now();
    let mut ts2 = TimestampManager::now();
    let mut tries: u64 = 0;
    while ts2 <= ts1 && tries < 4_000_000_000 {
        ts2 = TimestampManager::now();
        tries += 1;
    }

    assert!(ts2 > ts1);
}

#[test]
fn test_snapshot_timestamp_ordering() {
    let now = TimestampManager::now();
    let snapshot = TimestampManager::snapshot_timestamp();

    assert!(snapshot > now);
}

#[test]
fn test_timestamp_comparison() {
    let ts1 = TimestampManager::now();
    let ts2 = ts1 + 1000;

    assert!(TimestampManager::is_newer(ts2, ts1));
    assert!(!TimestampManager::is_newer(ts1, ts2));
}

#[test]
fn snapshots_are_one_tick_ahead() {
    assert_eq!(TimestampManager::snapshot_after(1000), 1001);
    assert_eq!(TimestampManager::snapshot_after(-1), 0);
    assert_eq!(TimestampManager::snapshot_after(i64::MAX), i64::MAX);
    assert!(TimestampManager::is_superseded(1000, TimestampManager::snapshot_after(1000)));
    assert!(!TimestampManager::is_superseded(1001, 1001));
    assert!(!TimestampManager::is_newer(5, 5));
    // The clock shows a time after the year 2020.
    assert!(TimestampManager::now() > 1_577_836_800_000);
}

#[test]
fn messages_carry_time_stamps() {
    let mut first = GameMessage::new("bid_made".to_string(), "{}".to_string())
        .with_game_id("g1".to_string())
        .with_phase("bidding".to_string())
        .with_timestamp(10);
    assert_eq!(first.event, "bid_made");
    assert_eq!(first.data, "{}");
    assert_eq!(first.game_id, Some("g1".to_string()));
    assert_eq!(first.phase, Some("bidding".to_string()));
    assert_eq!(first.timestamp(), 10);
    let second = GameMessage::new("x".to_string(), String::new()).with_timestamp(11);
    assert!(is_newer_than(&second, &first));
    assert!(!is_newer_than(&first, &second));
    first.set_timestamp(12);
    assert!(is_newer_than(&first, &second));
    let now = GameMessage::new("x".to_string(), String::new());
    assert!(now.timestamp > 1_577_836_800_000);
    assert_eq!(now.game_id, None);
    assert_eq!(now.phase, None);
}

#[test]
fn numbers_as_text() {
    assert_eq!(format_u64(0), "0");
    assert_eq!(format_u64(7), "7");
    assert_eq!(format_u64(10), "10");
    assert_eq!(format_u64(1234567890), "1234567890");
    assert_eq!(format_u64(u64::MAX), "18446744073709551615");
    assert_eq!(parse_u64("0", 10), Some(0));
    assert_eq!(parse_u64("10", 10), Some(10));
    assert_eq!(parse_u64("11", 10), None);
    assert_eq!(parse_u64("+7", 10), Some(7));
    assert_eq!(parse_u64("007", 10), Some(7));
    assert_eq!(parse_u64("", 10), None);
    assert_eq!(parse_u64("+", 10), None);
    assert_eq!(parse_u64("++1", 10), None);
    assert_eq!(parse_u64("-1", 10), None);
    assert_eq!(parse_u64("1 ", 10), None);
    assert_eq!(parse_u64("١", 10), None);
    assert_eq!(parse_u64("18446744073709551615", u64::MAX), Some(u64::MAX));
    assert_eq!(parse_u64("18446744073709551616", u64::MAX), None);
    assert_eq!(parse_u64("99999999999999999999999", u64::MAX), None);
    for n in [0u64, 1, 9, 10, 99, 100, 255, 256, 65535, 4294967295, 4294967296] {
        assert_eq!(parse_u64(&format_u64(n), u64::MAX), Some(n));
        assert_eq!(format_u64(n), n.to_string());
    }
}

#[test]
fn comparing_texts() {
    assert!(str_eq("clubs", "clubs"));
    assert!(!str_eq("clubs", "Clubs"));
    assert!(!str_eq("clubs", "club"));
    assert!(str_eq("", ""));
    assert!(str_eq_ignoring_case("CLubs", "clubs"));
    assert!(!str_eq_ignoring_case("clubz", "clubs"));
    assert!(!str_eq_ignoring_case("clubs", "CLUBS"));
    assert!(str_starts_with("10H", "10"));
    assert!(!str_starts_with("1", "10"));
    assert!(str_starts_with("x", ""));
}
