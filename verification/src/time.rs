//! Clock / reference time: a monotonic zero point for the session, and the
//! conversion of raw device timestamps to session-relative durations.
//!
//! The device layer stamps events in milliseconds on its own clock
//! (`SdlTime`); the session clock is `std::time::Instant`. Both are anchored
//! once, at the first observed input event.

use vstd::prelude::*;

use std::time::Instant;

verus! {

/// `std::time::Instant` is opaque to the verifier; values of it are only
/// carried through and handed to the trusted readers below.
#[verifier::external_type_specification]
#[verifier::external_body]
pub struct ExInstant(Instant);

/// Relies on std::time::Instant::elapsed: the result is read from the
/// machine clock, so nothing is promised of it.
#[verifier::external_body]
fn instant_elapsed_micros(i: &Instant) -> u64 {
    i.elapsed().as_micros() as u64
}

/// Relies on std::time::Instant::duration_since: the elapsed time from
/// `earlier` to `later`, zero when `earlier` is the later one. The result
/// depends on the two opaque instants, so nothing is promised of it.
#[verifier::external_body]
fn instant_duration_since_micros(later: &Instant, earlier: &Instant) -> u64 {
    later.duration_since(*earlier).as_micros() as u64
}

/// A device timestamp in milliseconds on the device layer's own clock.
#[derive(Debug, Clone, Copy, PartialEq, Eq, Structural)]
pub struct SdlTime(pub usize);

/// The session's zero point: one instant on the session clock, the device
/// timestamp observed at that same moment, and the session start offset
/// (microseconds on the session clock) set when gameplay begins.
#[derive(Debug)]
pub struct ReferenceTime {
    pub ref_time: Instant,
    pub ref_sdl_time: SdlTime,
    pub start_time: u64,
}

impl ReferenceTime {
    pub fn new(ref_time: Instant, ref_sdl_time: SdlTime) -> (r: ReferenceTime)
        ensures
            r.ref_time == ref_time,
            r.ref_sdl_time == ref_sdl_time,
            r.start_time == 0,
    {
        ReferenceTime { ref_time, start_time: 0, ref_sdl_time }
    }

    /// Marks the current moment as the session start; the anchors are kept.
    pub fn start(&mut self)
        ensures
            final(self).ref_time == old(self).ref_time,
            final(self).ref_sdl_time == old(self).ref_sdl_time,
    {
        self.start_time = instant_elapsed_micros(&self.ref_time);
    }

    /// A device timestamp as session-relative microseconds: the time since
    /// the device anchor, less the session start offset (truncated to whole
    /// milliseconds), floored at zero. The flooring absorbs a start offset
    /// recorded just after the timestamp.
    pub open spec fn spec_elapsed_sdl_micros(self, current: SdlTime) -> int {
        let sdl_t = current.0 - self.ref_sdl_time.0 + 1000;
        let diff = sdl_t - self.start_time / 1000;
        let clamped = if diff < 1000 {
            1000int
        } else {
            diff
        };
        (clamped - 1000) * 1000
    }

    /// Converts a device timestamp to a session-relative duration. The
    /// timestamp must not predate the device anchor, nor the session start
    /// by more than the one-second grace the formula absorbs.
    pub fn elapsed_sdl_time(&self, current: SdlTime) -> (r: u64)
        requires
            self.ref_sdl_time.0 <= current.0,
            current.0 - self.ref_sdl_time.0 <= 1_000_000_000_000,
            self.start_time / 1000 <= current.0 - self.ref_sdl_time.0 + 1000,
        ensures
            r == self.spec_elapsed_sdl_micros(current),
    {
        let sdl_t = (current.0 - self.ref_sdl_time.0) as u64 + 1000;
        let mut result = sdl_t - self.start_time / 1000;
        if result < 1000 {
            result = 1000;
        }
        result -= 1000;
        result * 1000
    }

    /// Session-relative microseconds of a raw session-clock reading: the
    /// reading less the session start offset, floored at zero for a reading
    /// from before the start.
    pub fn session_time_of(&self, elapsed: u64) -> (r: u64)
        ensures
            r == if elapsed >= self.start_time {
                (elapsed - self.start_time) as int
            } else {
                0int
            },
    {
        if elapsed >= self.start_time {
            elapsed - self.start_time
        } else {
            0
        }
    }

    /// Session-relative microseconds of another session-clock instant: the
    /// clock reading handed through `session_time_of`.
    pub fn elapsed_sys_time(&self, current: Instant) -> u64 {
        let elapsed = instant_duration_since_micros(&current, &self.ref_time);
        self.session_time_of(elapsed)
    }

    /// Session-relative microseconds of the present moment: the clock
    /// reading handed through `session_time_of`.
    pub fn elapsed_now(&self) -> u64 {
        let elapsed = instant_elapsed_micros(&self.ref_time);
        self.session_time_of(elapsed)
    }
}

} // verus!
