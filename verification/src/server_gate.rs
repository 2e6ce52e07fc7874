//! The time gate of the standalone server binary.
//!
//! This gate does without the time-zone table: it accepts any quarter-hour
//! offset within twelve hours of universal time, and instead of asking
//! whether it is the appointed time in the client's zone, it checks the
//! server's own clock minute directly. A curiosity of its wall-clock check
//! is that the two leeway branches around the minute boundary compare the
//! current minute with its own neighbours and so can never fire; the check
//! reduces to the minute itself, which the contract states and the proof
//! shows.

use vstd::prelude::*;

use crate::gate::{
    minute_of_ms, ms_in_range, now_millis, reads_gate_time, TIMESTAMP_MS_MAX, TIMESTAMP_MS_MIN,
};
use crate::{HOUR, MINUTE};

verus! {

/// Granularity, in minutes, of the server-side wall-clock check.
pub const DATETIME_GRANULARITY: i64 = 30;

/// Largest accepted offset magnitude, in minutes: twelve hours.
pub const SERVER_OFFSET_MAX: i64 = 720;

/// Everything the server binary's `verify_time` checks, for a given
/// reading `now` of the server clock: the offset is a quarter-hour step
/// within twelve hours; the client clock is within fifteen seconds of the
/// server's; the client's local clock, time less offset, exists in the
/// calendar and reads the appointed hour and minute; and the server's own
/// clock minute lands on the appointed minute within its granularity.
pub open spec fn verify_time_server_spec(time: i64, offset: i64, now: i64) -> bool {
    &&& offset % 15 == 0
    &&& -SERVER_OFFSET_MAX <= offset <= SERVER_OFFSET_MAX
    &&& -15_000 <= now - time <= 15_000
    &&& ms_in_range(time - offset * 60_000)
    &&& reads_gate_time(time - offset * 60_000)
    &&& minute_of_ms(now as int) % (DATETIME_GRANULARITY as int) == MINUTE as int % (
    DATETIME_GRANULARITY as int)
}

/// Verifies the client time and offset against one reading of the server
/// clock, as the server binary does. Succeeds exactly on the checks of
/// `verify_time_server_spec`; in particular the leeway branches around the
/// minute boundary contribute nothing.
pub fn verify_time_at(time: i64, offset: i64, now: i64) -> (r: bool)
    requires
        ms_in_range(now as int),
    ensures
        r == verify_time_server_spec(time, offset, now),
{
    // The client must have a plausible offset: a quarter-hour step within
    // twelve hours.
    if offset < -SERVER_OFFSET_MAX || offset > SERVER_OFFSET_MAX {
        return false;
    }
    if offset.checked_rem_euclid(15).unwrap() != 0 {
        return false;
    }

    // The client cannot be too desynced from the server clock.
    let drift: i128 = now as i128 - time as i128;
    if drift > 15_000 || drift < -15_000 {
        return false;
    }

    // The client must actually think it is the appointed time: its local
    // clock must exist in the calendar and read the appointed hour and
    // minute.
    let local: i64 = match time.checked_sub(offset * 60_000) {
        Some(v) => v,
        None => {
            // An overflowing difference lies far outside the calendar.
            return false;
        },
    };
    if local < TIMESTAMP_MS_MIN || local > TIMESTAMP_MS_MAX {
        return false;
    }
    let minute: i64 = local.checked_div_euclid(60_000).unwrap().checked_rem_euclid(60).unwrap();
    let hour: i64 = local.checked_div_euclid(3_600_000).unwrap().checked_rem_euclid(24).unwrap();
    if !(hour.checked_rem_euclid(12).unwrap() == HOUR as i64 && minute == MINUTE as i64) {
        return false;
    }

    // Verify on the server's own clock that it is a valid cat minute
    // somewhere: the minute within the granularity window must match. The
    // branches meant to extend the window across the minute boundary
    // compare that minute with its own neighbours, so they never hold.
    let now_min: i64 = now.checked_div_euclid(60_000).unwrap().checked_rem_euclid(60).unwrap();
    let now_sec: i64 = now.checked_div_euclid(1_000).unwrap().checked_rem_euclid(60).unwrap();
    let min: i64 = now_min.checked_rem_euclid(DATETIME_GRANULARITY).unwrap();
    let min_before: i64 = if min == 0 {
        // One less than the minute, in the wrapping arithmetic of an
        // unsigned 32-bit counter, then reduced by the granularity.
        (4_294_967_295i64).checked_rem_euclid(DATETIME_GRANULARITY).unwrap()
    } else {
        (min - 1).checked_rem_euclid(DATETIME_GRANULARITY).unwrap()
    };
    let min_after: i64 = (min + 1).checked_rem_euclid(DATETIME_GRANULARITY).unwrap();

    let valid_on_server = min == (MINUTE as i64).checked_rem_euclid(DATETIME_GRANULARITY).unwrap()
        || (min == min_before && now_sec >= 60 - 1) || (min == min_after && now_sec < 1);

    valid_on_server
}

/// Verifies the client time and offset against the server clock now, as
/// the server binary does. When it succeeds, the offset was a listed
/// quarter-hour step and the client's local clock read the appointed hour and
/// minute; whether it succeeds also depends on the moment the server clock
/// was read.
pub fn verify_time(time: i64, offset: i64) -> (r: bool)
    ensures
        r ==> offset % 15 == 0 && -SERVER_OFFSET_MAX <= offset <= SERVER_OFFSET_MAX,
        r ==> ms_in_range(time - offset * 60_000),
        r ==> reads_gate_time(time - offset * 60_000),
{
    let now = now_millis();
    verify_time_at(time, offset, now)
}

} // verus!
