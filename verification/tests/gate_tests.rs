//! The time gate: offset table, query parsing and time verification.

use makeacat::gate::{
    correct_time_for_query, offset_is_listed, parse_query, valid_time_in_zone,
    valid_time_offsets, verify_time, verify_time_at,
};
use makeacat::server_gate;

/// Milliseconds of the moment `h:m:s` past midnight of the epoch's day.
fn ms_at(h: i64, m: i64, s: i64) -> i64 {
    ((h * 60 + m) * 60 + s) * 1000
}

#[test]
fn offsets_table_holds_every_zone() {
    let offsets = valid_time_offsets();
    assert_eq!(offsets.len(), 40);
    // Twelve hours west, universal time, six hours west, India (five and a
    // half east), Nepal (five and three quarters east), Chatham daylight
    // time (thirteen and three quarters east), fourteen hours east.
    for o in [720, 0, 360, -330, -345, -825, -840] {
        assert!(offsets.contains(&o));
    }
    // No half-step zones that the table does not hold.
    for o in [15, -15, 730, -860, 1, -1] {
        assert!(!offsets.contains(&o));
    }
    assert!(offset_is_listed(-345));
    assert!(!offset_is_listed(17));
}

#[test]
fn query_parses_time_and_offset() {
    assert_eq!(parse_query("123&456"), Some((123, 456)));
    assert_eq!(parse_query("1696969690000&-120"), Some((1696969690000, -120)));
    assert_eq!(parse_query("-5&+7"), Some((-5, 7)));
}

#[test]
fn query_rejects_malformed_input() {
    assert_eq!(parse_query(""), None);
    assert_eq!(parse_query("123"), None);
    assert_eq!(parse_query("&"), None);
    assert_eq!(parse_query("12&"), None);
    assert_eq!(parse_query("&34"), None);
    assert_eq!(parse_query("12a&34"), None);
    assert_eq!(parse_query("12&3.4"), None);
    assert_eq!(parse_query("12&+-3"), None);
    assert_eq!(parse_query(" 12&34"), None);
    assert_eq!(parse_query("café&34"), None);
}

#[test]
fn query_parses_extreme_values() {
    assert_eq!(
        parse_query("-9223372036854775808&0"),
        Some((i64::MIN, 0)),
    );
    assert_eq!(
        parse_query("9223372036854775807&0"),
        Some((i64::MAX, 0)),
    );
    // One past either end of the range must be rejected.
    assert_eq!(parse_query("9223372036854775808&0"), None);
    assert_eq!(parse_query("0&-9223372036854775809"), None);
    // Wildly long digit strings as well.
    assert_eq!(parse_query("123456789012345678901234567890123456789012345&0"), None);
}

#[test]
fn zone_check_accepts_the_appointed_minute() {
    // At 2:22:00 universal, universal time itself qualifies.
    assert!(valid_time_in_zone(ms_at(2, 22, 0), 0));
    // So does 14:22:00 (the afternoon reading of the same dial).
    assert!(valid_time_in_zone(ms_at(14, 22, 0), 0));
    // And a zone an hour east when it is 1:22 universal.
    assert!(valid_time_in_zone(ms_at(1, 22, 0), -60));
}

#[test]
fn zone_check_honors_the_leeway_boundary() {
    // The window is centered on 2:22:30 and reaches 31 seconds either way.
    assert!(valid_time_in_zone(ms_at(2, 21, 59), 0));
    assert!(!valid_time_in_zone(ms_at(2, 21, 58), 0));
    assert!(valid_time_in_zone(ms_at(2, 23, 1), 0));
    assert!(!valid_time_in_zone(ms_at(2, 23, 2), 0));
}

#[test]
fn zone_check_rejects_wrong_minute() {
    assert!(!valid_time_in_zone(ms_at(2, 25, 0), 0));
    assert!(!valid_time_in_zone(ms_at(3, 22, 0), 0));
}

#[test]
fn verification_accepts_a_correct_client() {
    let now = ms_at(2, 22, 10);
    assert_eq!(verify_time_at(now, 0, now), Some(()));
    // A client five seconds adrift still passes.
    assert_eq!(verify_time_at(now - 5_000, 0, now), Some(()));
    // A client in a zone an hour east, whose local clock reads 2:22.
    let now_east = ms_at(1, 22, 10);
    assert_eq!(verify_time_at(now_east, -60, now_east), Some(()));
}

#[test]
fn verification_rejects_bad_clients() {
    let now = ms_at(2, 22, 10);
    // An offset missing from the zone table.
    assert_eq!(verify_time_at(now, 17, now), None);
    // Too much drift between client and server.
    assert_eq!(verify_time_at(now - 15_001, 0, now), None);
    // A client whose own clock does not read the appointed time: shifting the
    // claimed time by a minute breaks both the zone check and the client's
    // local reading.
    assert_eq!(verify_time_at(now + 60_000, 0, now + 60_000), None);
    // A listed offset under which the local clock reads another hour.
    assert_eq!(verify_time_at(now, -60, now), None);
}

#[test]
fn queries_fail_without_a_valid_pair_whatever_the_clock_says() {
    assert!(!correct_time_for_query(None));
    assert!(!correct_time_for_query(Some("")));
    assert!(!correct_time_for_query(Some("garbage")));
    assert!(!correct_time_for_query(Some("123&not-a-number")));
    // A well-formed pair whose offset is not in the zone table fails at
    // any moment.
    assert!(!correct_time_for_query(Some("123&17")));
    assert!(verify_time(123, 17).is_none());
}

#[test]
fn server_verification_checks_quarter_hour_offsets() {
    let now = ms_at(2, 22, 10);
    assert!(server_gate::verify_time_at(now, 0, now));
    // A client an hour east whose local clock reads the appointed time; the
    // server minute still lands on the appointed minute.
    let now_east = ms_at(1, 22, 10);
    assert!(server_gate::verify_time_at(now_east, -60, now_east));
    // Not a quarter-hour step.
    assert!(!server_gate::verify_time_at(now, 7, now));
    // Beyond twelve hours.
    assert!(!server_gate::verify_time_at(now, 735, now));
    // Drift.
    assert!(!server_gate::verify_time_at(now - 15_001, 0, now));
}

#[test]
fn server_verification_leeway_branches_never_fire() {
    // A client reading 2:22:00 exactly, while the server clock still shows
    // 2:21:59: the leeway branch was meant to accept this, but it compares
    // the server minute with its own neighbours and so rejects it.
    let client = ms_at(2, 22, 0);
    let now = ms_at(2, 21, 59);
    assert!(!server_gate::verify_time_at(client, 0, now));
    // Same on the other side of the minute.
    let now_after = ms_at(2, 23, 0);
    assert!(!server_gate::verify_time_at(ms_at(2, 22, 59), 0, now_after));
}
