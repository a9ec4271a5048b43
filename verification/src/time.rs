//! Track positions and durations, kept as whole seconds plus milliseconds.
//!
//! The server reports positions as fractional seconds; the engine never
//! needs the fraction for anything but display of sub-second precision,
//! so a time is held exactly as two integers.

use vstd::prelude::*;

verus! {

/// A point in (or length of) track time: `secs` whole seconds plus
/// `millis` milliseconds.
#[derive(Clone, Copy, Debug, PartialEq, Eq, Structural)]
pub struct TrackTime {
    pub secs: u64,
    pub millis: u16,
}

impl TrackTime {
    /// The zero time, used whenever the display rule forces a position to
    /// zero (empty playlist, stopped player).
    pub fn zero() -> (t: TrackTime)
        ensures
            t == (TrackTime { secs: 0, millis: 0 }),
    {
        TrackTime { secs: 0, millis: 0 }
    }

    /// A time of `secs` whole seconds, for positions the server encodes
    /// as a bare integer.
    pub fn from_secs(secs: u64) -> (t: TrackTime)
        ensures
            t == (TrackTime { secs, millis: 0 }),
    {
        TrackTime { secs, millis: 0 }
    }

    /// Whether this time reaches one hour; decides the duration column shape.
    pub fn has_hours(&self) -> (b: bool)
        ensures
            b == (self.secs >= 3600),
    {
        self.secs >= 3600
    }
}

} // verus!
