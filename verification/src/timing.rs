//! Difficulty-driven timing model: two difficulty scalars determine five
//! judgement-window durations and two visual-timing durations.
//!
//! Difficulty values are fixed-point hundredths of a difficulty point, so the
//! playable range 0.0 ..= 10.0 is 0 ..= 1000. All durations are microseconds.

use vstd::prelude::*;

verus! {

/// Base width of the Great judgement window at difficulty 0, in microseconds.
pub const TIMING_WINDOW_GREAT: u64 = 79_500;
/// How many microseconds the Great window loses per difficulty point,
/// expressed per hundredth of a point.
pub const TIMING_WINDOW_GREAT_MULTIPLIER: u64 = 60;
/// Base width of the Good judgement window at difficulty 0, in microseconds.
pub const TIMING_WINDOW_GOOD: u64 = 139_500;
/// Microseconds the Good window loses per hundredth of a difficulty point.
pub const TIMING_WINDOW_GOOD_MULTIPLIER: u64 = 80;
/// Base width of the Meh judgement window at difficulty 0, in microseconds.
pub const TIMING_WINDOW_MEH: u64 = 199_500;
/// Microseconds the Meh window loses per hundredth of a difficulty point.
pub const TIMING_WINDOW_MEH_MULTIPLIER: u64 = 100;

/// Highest composed difficulty value, in hundredths of a point (10.00).
pub const DIFFICULTY_MAX: u32 = 1000;

/// Judgement difficulty (overall difficulty), in hundredths of a point.
#[derive(Debug, Copy, Clone, PartialEq, Eq, Structural)]
pub struct OsruOD(pub u32);

/// Approach rate, in hundredths of a point.
#[derive(Debug, Copy, Clone, PartialEq, Eq, Structural)]
pub struct OsruAR(pub u32);

impl OsruOD {
    /// Width of the Great window at this difficulty, in microseconds.
    pub open spec fn spec_timing_great(self) -> int {
        TIMING_WINDOW_GREAT - self.0 * TIMING_WINDOW_GREAT_MULTIPLIER
    }

    /// Width of the Good window at this difficulty, in microseconds.
    pub open spec fn spec_timing_good(self) -> int {
        TIMING_WINDOW_GOOD - self.0 * TIMING_WINDOW_GOOD_MULTIPLIER
    }

    /// Width of the Meh window at this difficulty, in microseconds.
    pub open spec fn spec_timing_meh(self) -> int {
        TIMING_WINDOW_MEH - self.0 * TIMING_WINDOW_MEH_MULTIPLIER
    }

    pub fn timing_great(&self) -> (r: u64)
        requires
            self.0 <= DIFFICULTY_MAX,
        ensures
            r == self.spec_timing_great(),
    {
        TIMING_WINDOW_GREAT - self.0 as u64 * TIMING_WINDOW_GREAT_MULTIPLIER
    }

    pub fn timing_good(&self) -> (r: u64)
        requires
            self.0 <= DIFFICULTY_MAX,
        ensures
            r == self.spec_timing_good(),
    {
        TIMING_WINDOW_GOOD - self.0 as u64 * TIMING_WINDOW_GOOD_MULTIPLIER
    }

    pub fn timing_meh(&self) -> (r: u64)
        requires
            self.0 <= DIFFICULTY_MAX,
        ensures
            r == self.spec_timing_meh(),
    {
        TIMING_WINDOW_MEH - self.0 as u64 * TIMING_WINDOW_MEH_MULTIPLIER
    }

    /// Multiplies two difficulty values without the upper clamp.
    pub fn mul_unchecked(&self, other: Self) -> (r: Self)
        requires
            self.0 <= DIFFICULTY_MAX,
            other.0 <= DIFFICULTY_MAX,
        ensures
            r.0 == self.0 * other.0 / 100,
    {
        assert(self.0 as u64 * other.0 as u64 <= 1_000_000) by (nonlinear_arith)
            requires self.0 <= 1000, other.0 <= 1000;
        OsruOD((self.0 as u64 * other.0 as u64 / 100) as u32)
    }

    /// Multiplies two difficulty values, clamping the result to 10.00.
    /// Only the upper bound is clamped; no lower clamp is applied.
    pub fn compose(&self, other: Self) -> (r: Self)
        requires
            self.0 <= DIFFICULTY_MAX,
            other.0 <= DIFFICULTY_MAX,
        ensures
            r.0 == if self.0 * other.0 / 100 > DIFFICULTY_MAX {
                DIFFICULTY_MAX as int
            } else {
                self.0 * other.0 / 100
            },
    {
        assert(self.0 as u64 * other.0 as u64 <= 1_000_000) by (nonlinear_arith)
            requires self.0 <= 1000, other.0 <= 1000;
        let raw = (self.0 as u64 * other.0 as u64 / 100) as u32;
        if raw > DIFFICULTY_MAX {
            OsruOD(DIFFICULTY_MAX)
        } else {
            OsruOD(raw)
        }
    }
}

/// Approach-rate pivot value (5.00) around which the visual timings are
/// piecewise linear.
pub const APPROACH_PIVOT: u32 = 500;

impl OsruAR {
    /// How long before its hit time an object becomes visible, in
    /// microseconds: 1.2 s at the pivot, up to 1.8 s at 0, down to 0.45 s
    /// at 10.
    pub open spec fn spec_preempt_time(self) -> int {
        if self.0 < APPROACH_PIVOT {
            1_200_000 + 1200 * (APPROACH_PIVOT - self.0)
        } else if self.0 > APPROACH_PIVOT {
            1_200_000 - 1500 * (self.0 - APPROACH_PIVOT)
        } else {
            1_200_000
        }
    }

    /// How long the fade-in lasts, in microseconds: 0.8 s at the pivot, up
    /// to 1.2 s at 0, down to 0.3 s at 10.
    pub open spec fn spec_fade_in_time(self) -> int {
        if self.0 < APPROACH_PIVOT {
            800_000 + 800 * (APPROACH_PIVOT - self.0)
        } else if self.0 > APPROACH_PIVOT {
            800_000 - 1000 * (self.0 - APPROACH_PIVOT)
        } else {
            800_000
        }
    }

    pub fn preempt_time(&self) -> (r: u64)
        requires
            self.0 <= DIFFICULTY_MAX,
        ensures
            r == self.spec_preempt_time(),
    {
        if self.0 < APPROACH_PIVOT {
            1_200_000 + 1200 * (APPROACH_PIVOT - self.0) as u64
        } else if self.0 > APPROACH_PIVOT {
            1_200_000 - 1500 * (self.0 - APPROACH_PIVOT) as u64
        } else {
            1_200_000
        }
    }

    pub fn fade_in_time(&self) -> (r: u64)
        requires
            self.0 <= DIFFICULTY_MAX,
        ensures
            r == self.spec_fade_in_time(),
    {
        if self.0 < APPROACH_PIVOT {
            800_000 + 800 * (APPROACH_PIVOT - self.0) as u64
        } else if self.0 > APPROACH_PIVOT {
            800_000 - 1000 * (self.0 - APPROACH_PIVOT) as u64
        } else {
            800_000
        }
    }

    /// Multiplies two approach-rate values without the upper clamp.
    pub fn mul_unchecked(&self, other: Self) -> (r: Self)
        requires
            self.0 <= DIFFICULTY_MAX,
            other.0 <= DIFFICULTY_MAX,
        ensures
            r.0 == self.0 * other.0 / 100,
    {
        assert(self.0 as u64 * other.0 as u64 <= 1_000_000) by (nonlinear_arith)
            requires self.0 <= 1000, other.0 <= 1000;
        OsruAR((self.0 as u64 * other.0 as u64 / 100) as u32)
    }

    /// Multiplies two approach-rate values, clamping the result to 10.00.
    /// Only the upper bound is clamped; no lower clamp is applied.
    pub fn compose(&self, other: Self) -> (r: Self)
        requires
            self.0 <= DIFFICULTY_MAX,
            other.0 <= DIFFICULTY_MAX,
        ensures
            r.0 == if self.0 * other.0 / 100 > DIFFICULTY_MAX {
                DIFFICULTY_MAX as int
            } else {
                self.0 * other.0 / 100
            },
    {
        assert(self.0 as u64 * other.0 as u64 <= 1_000_000) by (nonlinear_arith)
            requires self.0 <= 1000, other.0 <= 1000;
        let raw = (self.0 as u64 * other.0 as u64 / 100) as u32;
        if raw > DIFFICULTY_MAX {
            OsruAR(DIFFICULTY_MAX)
        } else {
            OsruAR(raw)
        }
    }
}

/// The timings derived once per beatmap difficulty, all in microseconds:
/// one preempt duration, one fade-in duration, and the three judgement
/// windows, strictly nested Great within Good within Meh.
#[derive(Debug, Copy, Clone)]
pub struct AnimationTiming {
    pub preempt: u64,
    pub fadein: u64,
    pub timing_great: u64,
    pub timing_good: u64,
    pub timing_meh: u64,
}

impl AnimationTiming {
    /// Well-formedness: the fade-in fits inside the preempt, the windows are
    /// nested and positive and no wider than the preempt, and every duration
    /// is small enough that the fade arithmetic cannot overflow.
    pub open spec fn wf(self) -> bool {
        &&& 0 < self.fadein <= self.preempt
        &&& 0 < self.timing_great <= self.timing_good
        &&& self.timing_good <= self.timing_meh <= self.preempt
        &&& self.preempt <= u64::MAX / 256
    }

    /// The timings that a pair of difficulty values determines.
    pub open spec fn spec_new_from(od: OsruOD, ar: OsruAR) -> AnimationTiming {
        AnimationTiming {
            preempt: ar.spec_preempt_time() as u64,
            fadein: ar.spec_fade_in_time() as u64,
            timing_great: od.spec_timing_great() as u64,
            timing_good: od.spec_timing_good() as u64,
            timing_meh: od.spec_timing_meh() as u64,
        }
    }

    pub fn new_from(od: OsruOD, ar: OsruAR) -> (r: AnimationTiming)
        requires
            od.0 <= DIFFICULTY_MAX,
            ar.0 <= DIFFICULTY_MAX,
        ensures
            r == Self::spec_new_from(od, ar),
            r.wf(),
    {
        AnimationTiming {
            preempt: ar.preempt_time(),
            fadein: ar.fade_in_time(),
            timing_great: od.timing_great(),
            timing_good: od.timing_good(),
            timing_meh: od.timing_meh(),
        }
    }

    pub fn preempt_duration(&self) -> (r: u64)
        ensures
            r == self.preempt,
    {
        self.preempt
    }

    pub fn fadein_duration(&self) -> (r: u64)
        ensures
            r == self.fadein,
    {
        self.fadein
    }

    pub fn timing_great_duration(&self) -> (r: u64)
        ensures
            r == self.timing_great,
    {
        self.timing_great
    }

    pub fn timing_good_duration(&self) -> (r: u64)
        ensures
            r == self.timing_good,
    {
        self.timing_good
    }

    pub fn timing_meh_duration(&self) -> (r: u64)
        ensures
            r == self.timing_meh,
    {
        self.timing_meh
    }

    /// When an object with the given hit time becomes visible.
    pub open spec fn spec_fadein_start(self, hit_time: u64) -> int {
        hit_time - self.preempt
    }

    /// When the fade-in of an object with the given hit time completes.
    pub open spec fn spec_fadein_end(self, hit_time: u64) -> int {
        hit_time + self.fadein - self.preempt
    }

    pub open spec fn spec_timing_meh_start(self, hit_time: u64) -> int {
        hit_time - self.timing_meh
    }

    pub open spec fn spec_timing_good_start(self, hit_time: u64) -> int {
        hit_time - self.timing_good
    }

    pub open spec fn spec_timing_great_start(self, hit_time: u64) -> int {
        hit_time - self.timing_great
    }

    pub open spec fn spec_timing_great_end(self, hit_time: u64) -> int {
        hit_time + self.timing_great
    }

    pub open spec fn spec_timing_good_end(self, hit_time: u64) -> int {
        hit_time + self.timing_good
    }

    pub open spec fn spec_timing_meh_end(self, hit_time: u64) -> int {
        hit_time + self.timing_meh
    }

    pub fn fadein_start(&self, hit_time: u64) -> (r: u64)
        requires
            self.preempt <= hit_time,
        ensures
            r == self.spec_fadein_start(hit_time),
    {
        hit_time - self.preempt
    }

    pub fn fadein_end(&self, hit_time: u64) -> (r: u64)
        requires
            self.fadein <= u64::MAX - hit_time,
            self.preempt <= hit_time + self.fadein,
        ensures
            r == self.spec_fadein_end(hit_time),
    {
        hit_time + self.fadein - self.preempt
    }

    pub fn timing_meh_start(&self, hit_time: u64) -> (r: u64)
        requires
            self.timing_meh <= hit_time,
        ensures
            r == self.spec_timing_meh_start(hit_time),
    {
        hit_time - self.timing_meh
    }

    pub fn timing_good_start(&self, hit_time: u64) -> (r: u64)
        requires
            self.timing_good <= hit_time,
        ensures
            r == self.spec_timing_good_start(hit_time),
    {
        hit_time - self.timing_good
    }

    pub fn timing_great_start(&self, hit_time: u64) -> (r: u64)
        requires
            self.timing_great <= hit_time,
        ensures
            r == self.spec_timing_great_start(hit_time),
    {
        hit_time - self.timing_great
    }

    pub fn timing_great_end(&self, hit_time: u64) -> (r: u64)
        requires
            self.timing_great <= u64::MAX - hit_time,
        ensures
            r == self.spec_timing_great_end(hit_time),
    {
        hit_time + self.timing_great
    }

    pub fn timing_good_end(&self, hit_time: u64) -> (r: u64)
        requires
            self.timing_good <= u64::MAX - hit_time,
        ensures
            r == self.spec_timing_good_end(hit_time),
    {
        hit_time + self.timing_good
    }

    pub fn timing_meh_end(&self, hit_time: u64) -> (r: u64)
        requires
            self.timing_meh <= u64::MAX - hit_time,
        ensures
            r == self.spec_timing_meh_end(hit_time),
    {
        hit_time + self.timing_meh
    }

    /// Strict open-interval membership in the Great window around hit time.
    pub open spec fn spec_is_timing_great(self, hit_time: u64, now: u64) -> bool {
        self.spec_timing_great_start(hit_time) < now < self.spec_timing_great_end(hit_time)
    }

    /// Strict open-interval membership in the Good window around hit time.
    pub open spec fn spec_is_timing_good(self, hit_time: u64, now: u64) -> bool {
        self.spec_timing_good_start(hit_time) < now < self.spec_timing_good_end(hit_time)
    }

    /// Strict open-interval membership in the Meh window around hit time.
    pub open spec fn spec_is_timing_meh(self, hit_time: u64, now: u64) -> bool {
        self.spec_timing_meh_start(hit_time) < now < self.spec_timing_meh_end(hit_time)
    }

    /// A miss: the Meh window is over. The boundary itself counts as a miss.
    pub open spec fn spec_is_timing_miss(self, hit_time: u64, now: u64) -> bool {
        now >= self.spec_timing_meh_end(hit_time)
    }

    pub fn is_timing_great(&self, hit_time: u64, current_time: u64) -> (r: bool)
        requires
            self.timing_great <= hit_time,
            self.timing_great <= u64::MAX - hit_time,
        ensures
            r == self.spec_is_timing_great(hit_time, current_time),
    {
        current_time > self.timing_great_start(hit_time) && current_time
            < self.timing_great_end(hit_time)
    }

    pub fn is_timing_good(&self, hit_time: u64, current_time: u64) -> (r: bool)
        requires
            self.timing_good <= hit_time,
            self.timing_good <= u64::MAX - hit_time,
        ensures
            r == self.spec_is_timing_good(hit_time, current_time),
    {
        current_time > self.timing_good_start(hit_time) && current_time
            < self.timing_good_end(hit_time)
    }

    pub fn is_timing_meh(&self, hit_time: u64, current_time: u64) -> (r: bool)
        requires
            self.timing_meh <= hit_time,
            self.timing_meh <= u64::MAX - hit_time,
        ensures
            r == self.spec_is_timing_meh(hit_time, current_time),
    {
        current_time > self.timing_meh_start(hit_time) && current_time
            < self.timing_meh_end(hit_time)
    }

    pub fn is_timing_miss(&self, hit_time: u64, current_time: u64) -> (r: bool)
        requires
            self.timing_meh <= u64::MAX - hit_time,
        ensures
            r == self.spec_is_timing_miss(hit_time, current_time),
    {
        current_time >= self.timing_meh_end(hit_time)
    }
}

impl Default for AnimationTiming {
    fn default() -> (r: AnimationTiming)
        ensures
            r.preempt == 600_000,
            r.fadein == 300_000,
            r.timing_great == TIMING_WINDOW_GREAT,
            r.timing_good == TIMING_WINDOW_GOOD,
            r.timing_meh == TIMING_WINDOW_MEH,
            r.wf(),
    {
        AnimationTiming {
            preempt: 600_000,
            fadein: 300_000,
            timing_great: TIMING_WINDOW_GREAT,
            timing_good: TIMING_WINDOW_GOOD,
            timing_meh: TIMING_WINDOW_MEH,
        }
    }
}

/// Law: for every difficulty pair in range, the judgement windows derived
/// from it are nested time intervals around the hit time. Membership in the
/// Great window implies membership in the Good window, which implies
/// membership in the Meh window, and all three windows are positive.
pub proof fn lemma_timing_windows_nested(od: OsruOD, ar: OsruAR, hit_time: u64, now: u64)
    requires
        od.0 <= DIFFICULTY_MAX,
        ar.0 <= DIFFICULTY_MAX,
    ensures
        0 < AnimationTiming::spec_new_from(od, ar).timing_great,
        AnimationTiming::spec_new_from(od, ar).timing_great <= AnimationTiming::spec_new_from(
            od,
            ar,
        ).timing_good,
        AnimationTiming::spec_new_from(od, ar).timing_good <= AnimationTiming::spec_new_from(
            od,
            ar,
        ).timing_meh,
        AnimationTiming::spec_new_from(od, ar).spec_is_timing_great(hit_time, now)
            ==> AnimationTiming::spec_new_from(od, ar).spec_is_timing_good(hit_time, now),
        AnimationTiming::spec_new_from(od, ar).spec_is_timing_good(hit_time, now)
            ==> AnimationTiming::spec_new_from(od, ar).spec_is_timing_meh(hit_time, now),
{
}

} // verus!
