// SPDX-License-Identifier: AGPL-3.0-only

//! Points in wall-clock time and the top of the minute that follows one.

use chrono::{DateTime, DurationRound, TimeDelta, Utc};
use vstd::prelude::*;

verus! {

/// Nanoseconds in a second.
pub const NANOS_PER_SECOND: u32 = 1_000_000_000;

/// Seconds in a minute, which is also the period of the tick timer.
pub const SECONDS_PER_MINUTE: i64 = 60;

/// Half a minute, in seconds.
pub const HALF_MINUTE: i64 = 30;

/// A point in wall-clock time: whole seconds since the start of 1970 in UTC,
/// and the nanoseconds into that second.
#[derive(Copy, Clone, Debug, PartialEq, Eq, Structural)]
pub struct ClockTime {
    pub seconds: i64,
    pub nanoseconds: u32,
}

impl ClockTime {
    /// The nanoseconds count a part of a second.
    pub open spec fn well_formed(self) -> bool {
        self.nanoseconds < NANOS_PER_SECOND
    }

    /// The point in time `nanoseconds` into the second `seconds`, if that is
    /// less than a whole second into it.
    pub fn new(seconds: i64, nanoseconds: u32) -> (time: Option<ClockTime>)
        ensures
            time == if nanoseconds < NANOS_PER_SECOND {
                Some(ClockTime { seconds, nanoseconds })
            } else {
                None
            },
            time matches Some(at) ==> at.well_formed(),
    {
        if nanoseconds < NANOS_PER_SECOND {
            Some(ClockTime { seconds, nanoseconds })
        } else {
            None
        }
    }

    /// The point in time as nanoseconds since the start of 1970.
    pub open spec fn nanos(self) -> int {
        self.seconds * 1_000_000_000 + self.nanoseconds
    }
}

/// The multiple of `span` that is nearest to `stamp`; half way between two,
/// the later one.
pub open spec fn nearest_multiple(stamp: int, span: int) -> int {
    if 2 * (stamp % span) >= span {
        stamp - stamp % span + span
    } else {
        stamp - stamp % span
    }
}

/// Whether a count of nanoseconds fits the 64 bits in which chrono rounds.
pub open spec fn fits_rounding(nanos: int) -> bool {
    i64::MIN <= nanos <= i64::MAX
}

/// chrono's `DurationRound::duration_round`, on the UTC date and time that
/// `DateTime::from_timestamp` makes of `time`, with a span of whole seconds.
/// chrono rounds the nanoseconds since 1970 to the nearest multiple of the
/// span, half way up, and refuses a time whose nanoseconds do not fit 64
/// bits; it refuses nothing else where the span is between a second and a
/// day. What comes back is the rounded time, again as seconds and
/// nanoseconds.
#[verifier::external_body]
fn round_to_seconds(time: ClockTime, span_seconds: i64) -> (rounded: Option<ClockTime>)
    requires
        time.well_formed(),
        1 <= span_seconds <= 86_400,
    ensures
        rounded is Some <==> fits_rounding(time.nanos()),
        rounded matches Some(at) ==> at.well_formed() && at.nanos() == nearest_multiple(
            time.nanos(),
            span_seconds * 1_000_000_000,
        ),
{
    let start: DateTime<Utc> = DateTime::from_timestamp(time.seconds, time.nanoseconds)?;
    match start.duration_round(TimeDelta::seconds(span_seconds)) {
        Ok(at) => Some(ClockTime { seconds: at.timestamp(), nanoseconds: at.timestamp_subsec_nanos() }),
        Err(_) => None,
    }
}

/// The time is too far from 1970 for the next minute to be worked out.
#[derive(Copy, Clone, Debug, PartialEq, Eq, Structural)]
pub struct TimestampExceedsLimit;

/// Whether the top of the minute after `now` can be worked out: half a minute
/// after `now` is a time that can be rounded.
pub open spec fn can_find_next_minute(now: ClockTime) -> bool {
    fits_rounding(now.nanos() + HALF_MINUTE * 1_000_000_000)
}

/// The top of the first minute that begins after `now`.
pub open spec fn next_minute(now: ClockTime) -> ClockTime {
    ClockTime {
        seconds: ((now.seconds / SECONDS_PER_MINUTE + 1) * SECONDS_PER_MINUTE) as i64,
        nanoseconds: 0,
    }
}

/// Works out the next deadline of the tick timer, as a time on the wall
/// clock: half a minute after `now`, rounded to the nearest minute. That is
/// the top of the first minute that begins after `now`, so it lies after
/// `now` and no more than a minute after it.
pub fn get_next_minute_absolute_timespec(now: ClockTime) -> (deadline: Result<ClockTime, TimestampExceedsLimit>)
    requires
        now.well_formed(),
    ensures
        deadline is Ok <==> can_find_next_minute(now),
        deadline matches Ok(at) ==> at == next_minute(now) && now.nanos() < at.nanos()
            <= now.nanos() + SECONDS_PER_MINUTE * 1_000_000_000,
{
    let shifted = match now.seconds.checked_add(HALF_MINUTE) {
        Some(seconds) => ClockTime { seconds, nanoseconds: now.nanoseconds },
        None => {
            return Err(TimestampExceedsLimit);
        },
    };
    match round_to_seconds(shifted, SECONDS_PER_MINUTE) {
        Some(at) => {
            proof {
                lemma_next_minute(now, at);
            }
            Ok(at)
        },
        None => Err(TimestampExceedsLimit),
    }
}

/// Half a minute later, rounded to the minute, is the top of the next minute.
proof fn lemma_next_minute(now: ClockTime, at: ClockTime)
    requires
        now.well_formed(),
        at.well_formed(),
        at.nanos() == nearest_multiple(
            now.nanos() + HALF_MINUTE * 1_000_000_000,
            SECONDS_PER_MINUTE * 1_000_000_000,
        ),
        fits_rounding(now.nanos() + HALF_MINUTE * 1_000_000_000),
    ensures
        at == next_minute(now),
        now.nanos() < at.nanos() <= now.nanos() + SECONDS_PER_MINUTE * 1_000_000_000,
{
    let minute = now.seconds as int / 60;
    let into = now.seconds as int % 60;
    assert(now.seconds == 60 * minute + into);
    let stamp = now.nanos() + 30_000_000_000;
    let span = 60_000_000_000int;
    let offset = into * 1_000_000_000 + now.nanoseconds + 30_000_000_000;
    assert(stamp == minute * span + offset);
    assert(30_000_000_000 <= offset < 90_000_000_000);
    if offset < span {
        assert(stamp % span == offset) by (nonlinear_arith)
            requires
                stamp == minute * span + offset,
                0 <= offset < span,
                span > 0,
        ;
    } else {
        assert(stamp % span == offset - span) by (nonlinear_arith)
            requires
                stamp == (minute + 1) * span + (offset - span),
                0 <= offset - span < span,
                span > 0,
        ;
    }
    assert(at.nanos() == (minute + 1) * span);
    assert(at.seconds * 1_000_000_000 + at.nanoseconds == (minute + 1) * 60 * 1_000_000_000);
    assert(at.nanoseconds == 0int && at.seconds == (minute + 1) * 60) by (nonlinear_arith)
        requires
            at.seconds * 1_000_000_000 + at.nanoseconds == ((minute + 1) * 60) * 1_000_000_000,
            0 <= at.nanoseconds < 1_000_000_000,
    ;
}

} // verus!
