//! The time gate.
//!
//! A cat may only be served when it is the right minute somewhere: the
//! client sends its clock and its time-zone offset in the URL query, and
//! the service checks that the offset exists in the time-zone table, that it
//! really is the right time in that zone, that the client's clock is not
//! too far from the server's, and that the client itself believes it is
//! the right time.
//!
//! Times are carried as milliseconds since the Unix epoch; offsets as
//! minutes west of universal time (the offset for six hours west is 360).

use vstd::prelude::*;

use vstd::string::StringSliceAdditionalSpecFns;

use crate::{CLIENT_LEEWAY, HOUR, MINUTE};

verus! {

/// Smallest timestamp, in milliseconds, the calendar arithmetic accepts
/// (midnight of the first day of year -262143).
pub const TIMESTAMP_MS_MIN: i64 = -8_334_601_228_800_000;

/// Largest timestamp, in milliseconds, the calendar arithmetic accepts
/// (the last millisecond of year 262142).
pub const TIMESTAMP_MS_MAX: i64 = 8_210_266_876_799_999;

/// Largest magnitude, in minutes, a duration can hold: the millisecond
/// count must fit a signed 64-bit value.
pub const DELTA_MINUTES_MAX: i64 = 153_722_867_280_912;

/// A timestamp the calendar arithmetic accepts.
pub open spec fn ms_in_range(ms: int) -> bool {
    TIMESTAMP_MS_MIN <= ms <= TIMESTAMP_MS_MAX
}

/// Second of its day (0 to 86399) of the timestamp `ms`.
pub open spec fn secs_of_day(ms: int) -> int {
    (ms / 1000) % 86400
}

/// Minute of its hour (0 to 59) of the timestamp `ms`.
pub open spec fn minute_of_ms(ms: int) -> int {
    (ms / 60_000) % 60
}

/// Hour of its day (0 to 23) of the timestamp `ms`.
pub open spec fn hour_of_ms(ms: int) -> int {
    (ms / 3_600_000) % 24
}

/// Whether the timestamp's clock reads the appointed hour and minute on a
/// 12-hour dial.
pub open spec fn reads_gate_time(ms: int) -> bool {
    &&& hour_of_ms(ms) % 12 == HOUR
    &&& minute_of_ms(ms) == MINUTE
}

/// Every time-zone offset of the zone table, in minutes west of universal
/// time, from twelve hours west to fourteen hours east.
pub open spec fn valid_offsets() -> Seq<i64> {
    seq![
        720i64, 660i64, 600i64, 570i64, 540i64, 480i64, 420i64, 360i64, 300i64, 240i64,
        210i64, 180i64, 150i64, 120i64, 60i64, 0i64, -60i64, -120i64, -180i64, -210i64,
        -240i64, -270i64, -300i64, -330i64, -345i64, -360i64, -390i64, -420i64, -480i64,
        -525i64, -540i64, -570i64, -600i64, -630i64, -660i64, -720i64, -765i64, -780i64,
        -825i64, -840i64,
    ]
}

/// Returns the list of every valid time-zone offset, per the zone table.
pub fn valid_time_offsets() -> (r: Vec<i64>)
    ensures
        r@ == valid_offsets(),
{
    let mut v: Vec<i64> = Vec::new();
    v.push(720);
    v.push(660);
    v.push(600);
    v.push(570);
    v.push(540);
    v.push(480);
    v.push(420);
    v.push(360);
    v.push(300);
    v.push(240);
    v.push(210);
    v.push(180);
    v.push(150);
    v.push(120);
    v.push(60);
    v.push(0);
    v.push(-60);
    v.push(-120);
    v.push(-180);
    v.push(-210);
    v.push(-240);
    v.push(-270);
    v.push(-300);
    v.push(-330);
    v.push(-345);
    v.push(-360);
    v.push(-390);
    v.push(-420);
    v.push(-480);
    v.push(-525);
    v.push(-540);
    v.push(-570);
    v.push(-600);
    v.push(-630);
    v.push(-660);
    v.push(-720);
    v.push(-765);
    v.push(-780);
    v.push(-825);
    v.push(-840);
    proof {
        assert(v@ =~= valid_offsets());
    }
    v
}

/// Whether the offset exists in the time-zone table.
pub open spec fn offset_listed(offset: i64) -> bool {
    valid_offsets().contains(offset)
}

/// Whether the offset exists in the time-zone table.
pub fn offset_is_listed(offset: i64) -> (b: bool)
    ensures
        b == offset_listed(offset),
{
    let offsets = valid_time_offsets();
    let n = offsets.len();
    for i in 0..n
        invariant
            n == offsets.len(),
            offsets@ == valid_offsets(),
            forall|j: int| 0 <= j < i ==> offsets@[j] != offset,
    {
        if offsets[i] == offset {
            return true;
        }
    }
    false
}

/// Second of the day at which the appointed minute is at its middle, before
/// noon.
pub open spec fn gate_secs_am() -> int {
    HOUR * 3600 + MINUTE * 60 + 30
}

/// Second of the day at which the appointed minute is at its middle, after
/// noon.
pub open spec fn gate_secs_pm() -> int {
    (HOUR + 12) * 3600 + MINUTE * 60 + 30
}

/// Distance in whole seconds from the timestamp to the nearer of the two
/// daily moments at the middle of the appointed minute.
pub open spec fn gate_distance_secs(ms: int) -> int {
    let s = secs_of_day(ms);
    let am = if s <= gate_secs_am() {
        gate_secs_am() - s
    } else {
        s - gate_secs_am()
    };
    let pm = if s <= gate_secs_pm() {
        gate_secs_pm() - s
    } else {
        s - gate_secs_pm()
    };
    if am <= pm {
        am
    } else {
        pm
    }
}

/// Whether the clock in the zone `offset` minutes west of universal time
/// reads close enough to the appointed hour and minute when the universal
/// time is `now`: the local time must exist in the calendar's range and
/// lie within the leeway of the middle of the appointed minute, before or
/// after noon.
pub open spec fn valid_time_in_zone_spec(now: int, offset: int) -> bool {
    &&& -DELTA_MINUTES_MAX <= offset <= DELTA_MINUTES_MAX
    &&& ms_in_range(now - offset * 60_000)
    &&& gate_distance_secs(now - offset * 60_000) <= 30 + CLIENT_LEEWAY
}

/// Returns whether the provided universal time has the correct hour and
/// minute in the given time-zone offset, allowing the leeway in either
/// direction. Failure of the calendar arithmetic (an offset too large for
/// a duration, a local time outside the calendar) is an invalid time, not
/// an error.
pub fn valid_time_in_zone(now: i64, offset: i64) -> (b: bool)
    requires
        ms_in_range(now as int),
    ensures
        b == valid_time_in_zone_spec(now as int, offset as int),
{
    if offset < -DELTA_MINUTES_MAX || offset > DELTA_MINUTES_MAX {
        return false;
    }
    let shift: i64 = offset * 60_000;
    let local: i64 = match now.checked_sub(shift) {
        Some(v) => v,
        None => {
            // An overflowing difference lies far outside the calendar.
            return false;
        },
    };
    if local < TIMESTAMP_MS_MIN || local > TIMESTAMP_MS_MAX {
        return false;
    }
    let secs: i64 = local.checked_div_euclid(1000).unwrap();
    let s: i64 = secs.checked_rem_euclid(86400).unwrap();
    let am_target: i64 = (HOUR as i64) * 3600 + (MINUTE as i64) * 60 + 30;
    let pm_target: i64 = am_target + 12 * 3600;
    let am = if s <= am_target {
        am_target - s
    } else {
        s - am_target
    };
    let pm = if s <= pm_target {
        pm_target - s
    } else {
        s - pm_target
    };
    let d = if am <= pm {
        am
    } else {
        pm
    };
    d <= 30 + CLIENT_LEEWAY
}

/// Every listed offset is at most fourteen hours east or twelve hours
/// west.
pub proof fn lemma_offset_listed_bound(offset: i64)
    requires
        offset_listed(offset),
    ensures
        -840 <= offset <= 720,
{
    let s = valid_offsets();
    assert(forall|j: int| 0 <= j < s.len() ==> -840 <= #[trigger] s[j] <= 720) by {
        assert(s.len() == 40);
    }
}

/// Relies on chrono's `Utc::now`: the milliseconds since the epoch of the
/// machine's clock, read as a calendar value, which always lies in the
/// calendar's range. Which moment it is depends on the clock alone.
#[verifier::external_body]
pub(crate) fn now_millis() -> (ms: i64)
    ensures
        ms_in_range(ms as int),
{
    chrono::Utc::now().timestamp_millis()
}

/// Everything `verify_time` checks, for a given reading `now` of the
/// server clock: the offset is in the zone table; it is the appointed time in
/// that zone; the client clock is within fifteen seconds of the server's;
/// and the client's own local clock, time less offset, exists in the
/// calendar and reads the appointed hour and minute exactly.
pub open spec fn verify_time_spec(time: i64, offset: i64, now: i64) -> bool {
    &&& offset_listed(offset)
    &&& valid_time_in_zone_spec(now as int, offset as int)
    &&& -15_000 <= now - time <= 15_000
    &&& ms_in_range(time as int)
    &&& ms_in_range(time - offset * 60_000)
    &&& reads_gate_time(time - offset * 60_000)
}

/// Verifies the client time and offset against one reading of the server
/// clock. Succeeds exactly on the checks of `verify_time_spec`.
pub fn verify_time_at(time: i64, offset: i64, now: i64) -> (r: Option<()>)
    requires
        ms_in_range(now as int),
    ensures
        r is Some <==> verify_time_spec(time, offset, now),
{
    // The client must have an offset that corresponds to a valid time zone.
    if !offset_is_listed(offset) {
        return None;
    }
    proof {
        lemma_offset_listed_bound(offset);
    }

    // Make sure the local time is actually valid.
    if !valid_time_in_zone(now, offset) {
        return None;
    }

    // The client cannot be too desynced from the server clock.
    let drift: i128 = now as i128 - time as i128;
    if drift > 15_000 || drift < -15_000 {
        return None;
    }

    // The client must itself think it is the right time: its local clock,
    // time less offset, must exist in the calendar and read the appointed
    // hour and minute.
    if time < TIMESTAMP_MS_MIN || time > TIMESTAMP_MS_MAX {
        return None;
    }
    let local: i64 = time - offset * 60_000;
    if local < TIMESTAMP_MS_MIN || local > TIMESTAMP_MS_MAX {
        return None;
    }
    let minute: i64 = local.checked_div_euclid(60_000).unwrap().checked_rem_euclid(60).unwrap();
    let hour: i64 = local.checked_div_euclid(3_600_000).unwrap().checked_rem_euclid(24).unwrap();
    if hour.checked_rem_euclid(12).unwrap() == HOUR as i64 && minute == MINUTE as i64 {
        Some(())
    } else {
        None
    }
}

/// Whether the byte is an ASCII decimal digit.
pub open spec fn is_digit(b: u8) -> bool {
    48 <= b <= 57
}

/// Whether every byte of the sequence is an ASCII decimal digit.
pub open spec fn all_digits(s: Seq<u8>) -> bool {
    forall|i: int| 0 <= i < s.len() ==> is_digit(#[trigger] s[i])
}

/// The value of a sequence of ASCII decimal digits, most significant
/// first.
pub open spec fn digits_val(s: Seq<u8>) -> int
    decreases s.len(),
{
    if s.len() == 0 {
        0
    } else {
        10 * digits_val(s.drop_last()) + (s.last() - 48)
    }
}

/// A digit string's value is nonnegative.
proof fn lemma_digits_val_nonneg(s: Seq<u8>)
    requires
        all_digits(s),
    ensures
        digits_val(s) >= 0,
    decreases s.len(),
{
    if s.len() > 0 {
        lemma_digits_val_nonneg(s.drop_last());
    }
}

/// Reading one more digit multiplies the prefix value by ten and adds the
/// digit.
proof fn lemma_digits_val_step(s: Seq<u8>, j: int)
    requires
        0 <= j < s.len(),
    ensures
        digits_val(s.take(j + 1)) == 10 * digits_val(s.take(j)) + (s[j] - 48),
{
    assert(s.take(j + 1).drop_last() =~= s.take(j));
    assert(s.take(j + 1).last() == s[j]);
}

/// A digit string's value only grows as more digits are read.
proof fn lemma_digits_val_grows(s: Seq<u8>, j: int)
    requires
        all_digits(s),
        0 <= j <= s.len(),
    ensures
        digits_val(s) >= digits_val(s.take(j)),
    decreases s.len() - j,
{
    if j < s.len() {
        lemma_digits_val_step(s, j);
        assert(all_digits(s.take(j)));
        lemma_digits_val_nonneg(s.take(j));
        lemma_digits_val_grows(s, j + 1);
    } else {
        assert(s.take(j) =~= s);
    }
}

/// What parsing a signed decimal integer yields: an optional single sign,
/// then at least one digit and nothing else, with the signed value in the
/// 64-bit range; any other input is rejected.
pub open spec fn parse_i64_spec(s: Seq<u8>) -> Option<i64> {
    let has_sign = s.len() > 0 && (s[0] == 43 || s[0] == 45);
    let neg = s.len() > 0 && s[0] == 45;
    let digs = if has_sign {
        s.skip(1)
    } else {
        s
    };
    if digs.len() > 0 && all_digits(digs) {
        if neg {
            if digits_val(digs) <= 0x8000_0000_0000_0000 {
                Some((-digits_val(digs)) as i64)
            } else {
                None
            }
        } else {
            if digits_val(digs) <= 0x7fff_ffff_ffff_ffff {
                Some(digits_val(digs) as i64)
            } else {
                None
            }
        }
    } else {
        None
    }
}

/// Parses the bytes `start` to `end` of `b` as a signed decimal integer,
/// as `parse_i64_spec` describes.
#[verifier::loop_isolation(false)]
fn parse_i64_range(b: &[u8], start: usize, end: usize) -> (r: Option<i64>)
    requires
        start <= end <= b@.len(),
    ensures
        r == parse_i64_spec(b@.subrange(start as int, end as int)),
{
    let ghost s = b@.subrange(start as int, end as int);
    if start == end {
        return None;
    }
    let first = b[start];
    let signed = first == 43 || first == 45;
    let neg = first == 45;
    let dstart = if signed {
        start + 1
    } else {
        start
    };
    let ghost digs = b@.subrange(dstart as int, end as int);
    proof {
        if signed {
            assert(digs =~= s.skip(1));
        }
    }
    if dstart == end {
        return None;
    }
    let mut mag: u128 = 0;
    let mut j = dstart;
    while j < end
        invariant
            dstart <= j <= end,
            end <= b@.len(),
            digs == b@.subrange(dstart as int, end as int),
            mag == digits_val(digs.take(j - dstart)),
            mag <= u64::MAX,
            all_digits(digs.take(j - dstart)),
        decreases end - j,
    {
        let d = b[j];
        if d < 48 || d > 57 {
            proof {
                assert(!is_digit(digs[j - dstart]));
            }
            return None;
        }
        proof {
            lemma_digits_val_step(digs, j - dstart);
            assert(digs.take(j - dstart + 1) =~= digs.take(j - dstart).push(digs[j - dstart]));
        }
        mag = mag * 10 + (d - 48) as u128;
        if mag > u64::MAX as u128 {
            // The value already exceeds the 64-bit range, and further
            // digits can only grow it.
            proof {
                if all_digits(digs) {
                    lemma_digits_val_grows(digs, j - dstart + 1);
                    lemma_digits_val_nonneg(digs);
                }
            }
            return None;
        }
        j = j + 1;
    }
    proof {
        assert(digs.take(end - dstart) =~= digs);
    }
    if neg {
        if mag <= 0x8000_0000_0000_0000u128 {
            Some((-(mag as i128)) as i64)
        } else {
            None
        }
    } else {
        if mag <= 0x7fff_ffff_ffff_ffffu128 {
            Some(mag as i64)
        } else {
            None
        }
    }
}

/// Index of the first ampersand of the sequence, if any.
pub open spec fn find_amp(s: Seq<u8>) -> Option<int>
    decreases s.len(),
{
    if s.len() == 0 {
        None
    } else if s[0] == 38 {
        Some(0)
    } else {
        match find_amp(s.skip(1)) {
            Some(i) => Some(i + 1),
            None => None,
        }
    }
}

/// What `find_amp` finds: the first ampersand where there is one, nothing
/// where there is none.
proof fn lemma_find_amp(s: Seq<u8>)
    ensures
        match find_amp(s) {
            Some(i) => 0 <= i < s.len() && s[i] == 38 && forall|j: int| 0 <= j < i ==> s[j] != 38,
            None => forall|j: int| 0 <= j < s.len() ==> s[j] != 38,
        },
    decreases s.len(),
{
    if s.len() > 0 && s[0] != 38 {
        lemma_find_amp(s.skip(1));
        match find_amp(s.skip(1)) {
            Some(i) => {
                assert(s[i + 1] == s.skip(1)[i]);
                assert forall|j: int| 0 <= j < i + 1 implies s[j] != 38 by {
                    if j >= 1 {
                        assert(s.skip(1)[j - 1] != 38);
                        assert(s[j] == s.skip(1)[j - 1]);
                    }
                }
            },
            None => {
                assert forall|j: int| 0 <= j < s.len() implies s[j] != 38 by {
                    if j >= 1 {
                        assert(s.skip(1)[j - 1] != 38);
                        assert(s[j] == s.skip(1)[j - 1]);
                    }
                }
            },
        }
    }
}

/// What a well-formed query parses to: the part before the first ampersand
/// as the client time, the part after it as the client offset, both signed
/// decimal integers.
pub open spec fn parse_query_spec(s: Seq<u8>) -> Option<(i64, i64)> {
    match find_amp(s) {
        None => None,
        Some(i) => match (parse_i64_spec(s.take(i)), parse_i64_spec(
            s.skip(i + 1),
        )) {
            (Some(t), Some(o)) => Some((t, o)),
            _ => None,
        },
    }
}

/// Finds the first ampersand of the byte string.
fn find_first_amp(b: &[u8]) -> (r: Option<usize>)
    ensures
        match r {
            Some(i) => find_amp(b@) == Some(i as int),
            None => find_amp(b@) is None,
        },
{
    let len = b.len();
    for i in 0..len
        invariant
            len == b@.len(),
            forall|j: int| 0 <= j < i ==> b@[j] != 38,
    {
        if b[i] == 38 {
            proof {
                lemma_find_amp(b@);
                match find_amp(b@) {
                    Some(k) => {
                        if k < i as int {
                            assert(b@[k] != 38);
                        }
                        if k > i as int {
                            assert(b@[i as int] != 38);
                        }
                    },
                    None => {
                        assert(b@[i as int] != 38);
                    },
                }
            }
            return Some(i);
        }
    }
    proof {
        lemma_find_amp(b@);
        match find_amp(b@) {
            Some(k) => {
                assert(b@[k] != 38);
            },
            None => {},
        }
    }
    None
}

/// Splits the query at its first ampersand and parses the two parts as the
/// client time and the client offset.
pub fn parse_query(q: &str) -> (r: Option<(i64, i64)>)
    ensures
        r == parse_query_spec(q.spec_bytes()),
{
    let b = q.as_bytes();
    let len = b.len();
    let amp = match find_first_amp(b) {
        Some(i) => i,
        None => {
            return None;
        },
    };
    proof {
        lemma_find_amp(b@);
    }
    let t = parse_i64_range(b, 0, amp);
    let o = parse_i64_range(b, amp + 1, len);
    proof {
        assert(b@.subrange(0, amp as int) =~= b@.take(amp as int));
        assert(b@.subrange(amp + 1, len as int) =~= b@.skip(amp + 1));
    }
    match (t, o) {
        (Some(t), Some(o)) => Some((t, o)),
        _ => None,
    }
}

/// Returns whether a cat should be served for the provided URL query: the
/// query must hold the client's time and its time-zone offset separated by
/// an ampersand, and the pair must pass `verify_time` against the server
/// clock. When it returns true, the query parsed and the parsed pair
/// passed the clock-independent conditions.
pub fn correct_time_for_query(query: Option<&str>) -> (r: bool)
    ensures
        r ==> ({
            &&& query matches Some(q)
            &&& parse_query_spec(q.spec_bytes()) matches Some(p)
            &&& offset_listed(p.1)
            &&& ms_in_range(p.0 as int)
            &&& ms_in_range(p.0 - p.1 * 60_000)
            &&& reads_gate_time(p.0 - p.1 * 60_000)
        }),
        query is None ==> !r,
{
    match query {
        None => false,
        Some(q) => match parse_query(q) {
            None => false,
            Some((time, offset)) => verify_time(time, offset).is_some(),
        },
    }
}

/// Verifies the client time and offset against the server clock now. When
/// it succeeds, the offset was in the zone table and the client's local
/// clock, time less offset, read the appointed hour and minute; whether it
/// succeeds also depends on the moment the server clock was read.
pub fn verify_time(time: i64, offset: i64) -> (r: Option<()>)
    ensures
        r is Some ==> offset_listed(offset),
        r is Some ==> ms_in_range(time as int),
        r is Some ==> ms_in_range(time - offset * 60_000),
        r is Some ==> reads_gate_time(time - offset * 60_000),
{
    let now = now_millis();
    verify_time_at(time, offset, now)
}

} // verus!
