//! The run-time readout logged once per timer tick, as hours, minutes and
//! seconds on the wall clock.

use vstd::prelude::*;
use crate::timer::TickTimer;

verus! {

/// The largest duration the readout accepts: `i64::MAX` milliseconds,
/// i.e. 9_223_372_036_854_775 whole seconds plus 807 milliseconds. A
/// longer run time is out of range, and the frame logs nothing.
pub const MAX_READOUT_SECS: u64 = 9_223_372_036_854_775;

/// The nanoseconds left over at the top second of the readout's range.
pub const MAX_READOUT_SUBSEC_NANOS: u32 = 807_000_000;

/// Whether a duration of `secs` whole seconds plus `subsec_nanos`
/// nanoseconds stays within `i64::MAX` milliseconds, nanoseconds under a
/// millisecond ignored.
pub open spec fn spec_readout_in_range(secs: u64, subsec_nanos: u32) -> bool {
    secs < MAX_READOUT_SECS || (secs == MAX_READOUT_SECS && subsec_nanos
        <= MAX_READOUT_SUBSEC_NANOS)
}

/// A run time split for display: whole hours, then the minutes past the
/// hour, then the seconds past the minute.
#[derive(Clone, Copy, PartialEq, Eq, Structural, Debug)]
pub struct ClockReadout {
    pub hours: u64,
    pub minutes: u64,
    pub seconds: u64,
}

impl ClockReadout {
    /// Minutes and seconds are positions on a clock face.
    pub open spec fn wf(self) -> bool {
        self.minutes < 60 && self.seconds < 60
    }
}

/// The readout of a run time of `secs` whole seconds plus `subsec_nanos`
/// nanoseconds, or `None` for a duration out of range (that frame logs
/// nothing). In range, the hours are the duration's whole hours, and the
/// minutes and seconds are the remainders on the clock face; the
/// sub-second part never shows.
pub fn clock_readout(secs: u64, subsec_nanos: u32) -> (r: Option<ClockReadout>)
    requires
        subsec_nanos < 1_000_000_000,
    ensures
        r is Some <==> spec_readout_in_range(secs, subsec_nanos),
        r matches Some(c) ==> {
            &&& c.hours == secs / 3600
            &&& c.minutes == (secs / 60) % 60
            &&& c.seconds == secs % 60
            &&& c.wf()
        },
{
    if secs > MAX_READOUT_SECS || (secs == MAX_READOUT_SECS && subsec_nanos
        > MAX_READOUT_SUBSEC_NANOS) {
        None
    } else {
        Some(
            ClockReadout {
                hours: secs / 3600,
                minutes: (secs / 60) % 60,
                seconds: secs % 60,
            },
        )
    }
}

/// One frame of the run-time log: the tick timer advances by the frame
/// time, and on a frame where it finishes — with the run time in range —
/// the readout to print is returned; every other frame prints nothing.
pub fn run_time_log(
    timer: &mut TickTimer,
    delta_ms: u64,
    secs: u64,
    subsec_nanos: u32,
) -> (r: Option<ClockReadout>)
    requires
        old(timer).wf(),
        old(timer).elapsed_ms + delta_ms <= u64::MAX,
        subsec_nanos < 1_000_000_000,
    ensures
        final(timer).wf(),
        final(timer).period_ms == old(timer).period_ms,
        final(timer).elapsed_ms == (old(timer).elapsed_ms + delta_ms) % (
        old(timer).period_ms as int),
        r is Some <==> (old(timer).elapsed_ms + delta_ms >= old(timer).period_ms
            && spec_readout_in_range(secs, subsec_nanos)),
        r matches Some(c) ==> {
            &&& c.hours == secs / 3600
            &&& c.minutes == (secs / 60) % 60
            &&& c.seconds == secs % 60
            &&& c.wf()
        },
{
    if timer.tick(delta_ms) {
        clock_readout(secs, subsec_nanos)
    } else {
        None
    }
}

} // verus!
