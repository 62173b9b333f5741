//! Points in time.
use vstd::prelude::*;

verus! {

/// The first millisecond that a point in time can fall into.
pub const FIRST_MILLI: i64 = -8_334_601_228_800_000;

/// The last millisecond that a point in time can fall into.
pub const LAST_MILLI: i64 = 8_210_266_876_799_999;

/// A point in time, in UTC: the whole seconds since the Unix epoch, and the
/// nanoseconds that have gone by since that second began.
#[derive(Debug, Clone, Copy, PartialEq, Eq, Structural)]
pub struct UtcTime {
    pub seconds: i64,
    pub nanos: u32,
}

/// The seconds and nanoseconds that `millis` milliseconds since the Unix epoch
/// come to. Before the epoch, too, the seconds are rounded down.
pub open spec fn split_millis(millis: int) -> (int, int) {
    (millis / 1000, (millis % 1000) * 1_000_000)
}

impl UtcTime {
    /// The point in time `millis` milliseconds after the Unix epoch, where there
    /// is such a point.
    pub open spec fn spec_from_millis(millis: i64) -> Option<UtcTime> {
        if FIRST_MILLI <= millis <= LAST_MILLI {
            let (seconds, nanos) = split_millis(millis as int);
            Some(UtcTime { seconds: seconds as i64, nanos: nanos as u32 })
        } else {
            None
        }
    }

    /// The point in time `millis` milliseconds after the Unix epoch, or nothing
    /// where the calendar does not reach that far.
    pub fn from_millis(millis: i64) -> (time: Option<UtcTime>)
        ensures
            time == UtcTime::spec_from_millis(millis),
    {
        match calendar_time(millis) {
            Some((seconds, nanos)) => Some(UtcTime { seconds, nanos }),
            None => None,
        }
    }

    /// The whole seconds since the Unix epoch.
    pub fn timestamp(&self) -> (seconds: i64)
        ensures
            seconds == self.seconds,
    {
        self.seconds
    }
}

/// Calls `chrono::DateTime::<Utc>::from_timestamp_millis` and takes the seconds
/// and nanoseconds out of what it returns. Claimed of it: it returns a time
/// exactly for the milliseconds of the years that chrono's calendar has (from
/// the start of the year -262143 to the end of the year 262142), and the
/// seconds of that time are `millis` divided by a thousand and rounded down,
/// its nanoseconds what is left over.
#[verifier::external_body]
fn calendar_time(millis: i64) -> (time: Option<(i64, u32)>)
    ensures
        match time {
            Some((seconds, nanos)) => FIRST_MILLI <= millis <= LAST_MILLI
                && (seconds as int, nanos as int) == split_millis(millis as int),
            None => !(FIRST_MILLI <= millis <= LAST_MILLI),
        },
{
    chrono::DateTime::<chrono::Utc>::from_timestamp_millis(millis)
        .map(|time| (time.timestamp(), time.timestamp_subsec_nanos()))
}

/// No time is lost or gained: a point in time made from milliseconds lies in the
/// second that its timestamp names, and its seconds and nanoseconds together
/// come to those milliseconds.
pub proof fn law_millis_are_kept(millis: i64)
    requires
        UtcTime::spec_from_millis(millis) is Some,
    ensures
        ({
            let time = UtcTime::spec_from_millis(millis)->Some_0;
            &&& time.seconds * 1000 <= millis < (time.seconds + 1) * 1000
            &&& time.seconds * 1000 + time.nanos / 1_000_000 == millis
            &&& time.nanos < 1_000_000_000
            &&& time.nanos % 1_000_000 == 0
        }),
{
}

/// Later milliseconds never give an earlier timestamp.
pub proof fn law_timestamps_keep_order(earlier: i64, later: i64)
    requires
        earlier <= later,
        UtcTime::spec_from_millis(earlier) is Some,
        UtcTime::spec_from_millis(later) is Some,
    ensures
        UtcTime::spec_from_millis(earlier)->Some_0.seconds
            <= UtcTime::spec_from_millis(later)->Some_0.seconds,
{
}

/// There is a point in time for every millisecond that the calendar reaches, and
/// for no other.
pub proof fn law_every_millisecond_of_the_calendar_counts(millis: i64)
    ensures
        UtcTime::spec_from_millis(millis) is Some <==> -8_334_601_228_800_000 <= millis
            <= 8_210_266_876_799_999,
{
}

/// Different milliseconds are different points in time.
pub proof fn law_points_in_time_are_told_apart(one: i64, other: i64)
    requires
        UtcTime::spec_from_millis(one) is Some,
        UtcTime::spec_from_millis(one) == UtcTime::spec_from_millis(other),
    ensures
        one == other,
{
    law_millis_are_kept(one);
    law_millis_are_kept(other);
}

} // verus!
