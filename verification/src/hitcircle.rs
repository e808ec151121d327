//! The circle variant of the hit-object state machine: a single anchor
//! point, judged by one qualifying press.

use vstd::prelude::*;

use crate::global::{Colour, OsruHitSounds, ScalingFactor, Volume};
use crate::hitobject::{
    spec_outcome_colour, HitState, HitSuccess, UpdateResult, CAPTURE_RADIUS,
    HITCIRCLE_DEFAULT_SCALING, HITCIRCLE_HIT_SCALING, HITCIRCLE_MAX_OPACITY,
};
use crate::input::InputUpdate;
use crate::pixel::{cursor_in_range, osru_pos_to_screen_pos, spec_cursor_in_range, Pix2D, PixRect};
use crate::timing::AnimationTiming;

verus! {

/// A circle-type hit object: level data, then the mutable gameplay state
/// driven by `update`.
#[derive(Debug, Clone)]
pub struct HitCircle {
    pub position: Pix2D,
    pub time: u64,
    pub new_combo: bool,
    pub combo_colours_to_skip: u32,
    pub hitsounds: OsruHitSounds,
    pub hitsample_set: i32,
    pub hitsample_additional_set: i32,
    pub hitsample_index: i32,
    pub hitsample_volume: Volume,
    pub hitsample_filename: String,
    pub hit_state: HitState,
    pub colour: Colour<u8>,
    pub scale: ScalingFactor,
    pub screen_position: Pix2D,
    pub time_hit: u64,
    pub current_time: u64,
}

impl HitCircle {
    /// Internal invariant: the anchor stays on screen.
    pub open spec fn inv(self) -> bool {
        self.screen_position.screen_bounded()
    }

    /// The object's hit time leaves room for its preempt window on both
    /// sides of the clock range.
    pub open spec fn time_in_range(self, t: AnimationTiming) -> bool {
        &&& t.preempt <= self.time
        &&& self.time <= u64::MAX - t.preempt
    }

    /// Everything `update` preserves: the internal invariant, the hit time
    /// in range, and — since a judgement can only happen inside or at the
    /// end of the Meh window — a judged object's judgement timestamp past
    /// the window's opening.
    pub open spec fn wf_for(self, t: AnimationTiming) -> bool {
        &&& self.inv()
        &&& self.time_in_range(t)
        &&& (self.hit_state matches HitState::Hit(_) ==> self.time_hit
            > t.spec_timing_meh_start(self.time))
    }

    /// The fade-in opacity: the elapsed share of the fade-in interval,
    /// scaled to full opacity.
    pub open spec fn spec_fade_in_alpha(t: AnimationTiming, hit_time: u64, now: u64) -> int {
        (now - t.spec_fadein_start(hit_time)) * HITCIRCLE_MAX_OPACITY / (t.fadein as int)
    }

    /// The fade-out step: once twice the Meh window has elapsed since the
    /// judgement timestamp the object is done; until then its opacity decays
    /// linearly.
    pub open spec fn spec_fade_out(c: HitCircle, t: AnimationTiming) -> HitCircle {
        let num = c.current_time - c.time_hit;
        let den = 2 * (t.timing_meh as int);
        if num > den {
            HitCircle { hit_state: c.hit_state.spec_to_done_drawing(), ..c }
        } else {
            HitCircle {
                colour: Colour {
                    a: (HITCIRCLE_MAX_OPACITY - num * HITCIRCLE_MAX_OPACITY / den) as u8,
                    ..c.colour
                },
                ..c
            }
        }
    }

    /// The tightest tier whose window contains the press; `Meh` when only
    /// the Meh window matched.
    pub open spec fn spec_judged_outcome(t: AnimationTiming, hit_time: u64, now: u64)
        -> HitSuccess {
        if t.spec_is_timing_great(hit_time, now) {
            HitSuccess::Great
        } else if t.spec_is_timing_good(hit_time, now) {
            HitSuccess::Good
        } else {
            HitSuccess::Meh
        }
    }

    /// A press on this update that lands inside both the Meh window and the
    /// capture radius: the only thing that can judge the object early.
    pub open spec fn spec_press_qualifies(pre: HitCircle, upd: InputUpdate, t: AnimationTiming)
        -> bool {
        &&& t.spec_is_timing_meh(pre.time, upd.current.time)
        &&& upd.spec_action_pressed()
        &&& spec_cursor_in_range(
            pre.screen_position,
            upd.current.mouse_position,
            CAPTURE_RADIUS as int,
        )
    }

    /// The transition function of the circle state machine, evaluated in
    /// priority order: done objects are inert; before the preempt the object
    /// is invisible; before the Meh window it fades in; a judged object
    /// fades out; otherwise a qualifying press resolves it at the tightest
    /// matching tier, the end of the Meh window resolves it as a miss
    /// pinned to that boundary, and failing both it stays ready.
    pub open spec fn spec_step(pre: HitCircle, upd: InputUpdate, t: AnimationTiming) -> (
        HitCircle,
        UpdateResult,
    ) {
        let now = upd.current.time;
        let base = HitCircle { current_time: now, ..pre };
        if pre.hit_state matches HitState::DoneDrawing(_) {
            (base, UpdateResult::InputNotConsumed)
        } else if now < t.spec_fadein_start(pre.time) {
            (HitCircle { hit_state: HitState::NotDrawing, ..base }, UpdateResult::InputNotConsumed)
        } else if now < t.spec_timing_meh_start(pre.time) {
            let alpha = if now < t.spec_fadein_end(pre.time) {
                Self::spec_fade_in_alpha(t, pre.time, now) as u8
            } else {
                HITCIRCLE_MAX_OPACITY as u8
            };
            (
                HitCircle {
                    hit_state: HitState::Ready,
                    colour: Colour { a: alpha, ..base.colour },
                    ..base
                },
                UpdateResult::InputNotConsumed,
            )
        } else if pre.hit_state matches HitState::Hit(_) {
            (Self::spec_fade_out(base, t), UpdateResult::InputNotConsumed)
        } else {
            let ready = HitCircle {
                hit_state: HitState::Ready,
                colour: Colour { a: HITCIRCLE_MAX_OPACITY as u8, ..base.colour },
                ..base
            };
            if Self::spec_press_qualifies(pre, upd, t) {
                let outcome = Self::spec_judged_outcome(t, pre.time, now);
                let judged = HitCircle {
                    hit_state: HitState::Hit(outcome),
                    colour: spec_outcome_colour(outcome),
                    scale: ScalingFactor(HITCIRCLE_HIT_SCALING),
                    time_hit: now,
                    ..ready
                };
                (Self::spec_fade_out(judged, t), UpdateResult::InputConsumed)
            } else if t.spec_is_timing_miss(pre.time, now) {
                let missed = HitCircle {
                    hit_state: HitState::Hit(HitSuccess::Miss),
                    colour: spec_outcome_colour(HitSuccess::Miss),
                    scale: ScalingFactor(HITCIRCLE_HIT_SCALING),
                    time_hit: t.spec_timing_meh_end(pre.time) as u64,
                    ..ready
                };
                (Self::spec_fade_out(missed, t), UpdateResult::InputNotConsumed)
            } else {
                (ready, UpdateResult::InputNotConsumed)
            }
        }
    }

    /// One step of the state machine; see `spec_step` for the transition
    /// table. A judged object must not be stepped with a time before its
    /// judgement timestamp; the pipeline's monotone clock guarantees that.
    pub fn update(&mut self, update: &InputUpdate, timings: &AnimationTiming) -> (r: UpdateResult)
        requires
            timings.wf(),
            old(self).wf_for(*timings),
            update.wf(),
            old(self).hit_state matches HitState::Hit(_) ==> old(self).time_hit
                <= update.current.time,
        ensures
            (*final(self), r) == Self::spec_step(*old(self), *update, *timings),
            final(self).wf_for(*timings),
            final(self).current_time == update.current.time,
            final(self).time == old(self).time,
            final(self).position == old(self).position,
            final(self).screen_position == old(self).screen_position,
            final(self).hit_state matches HitState::Hit(_) ==> final(self).time_hit
                <= update.current.time,
            old(self).hit_state matches HitState::DoneDrawing(_) ==> final(self).hit_state == old(
                self,
            ).hit_state,
            old(self).hit_state matches HitState::Hit(o) ==> (update.current.time
                >= timings.spec_timing_meh_start(old(self).time) ==> final(self).hit_state
                == HitState::Hit(o) || final(self).hit_state == HitState::DoneDrawing(o)),
    {
        self.current_time = update.current_time();

        if let HitState::DoneDrawing(_) = self.hit_state {
        } else if self.current_time < timings.fadein_start(self.time) {
            self.hit_state = HitState::NotDrawing;
        } else if self.current_time < timings.timing_meh_start(self.time) {
            self.colour.a = HITCIRCLE_MAX_OPACITY as u8;
            self.hit_state = HitState::Ready;
            if self.current_time < timings.fadein_end(self.time) {
                let now = self.current_time;
                self.fade_in(now, timings);
            }
        } else if let HitState::Hit(_) = self.hit_state {
            self.fade_out(timings);
        } else {
            self.hit_state = HitState::Ready;
            self.colour.a = HITCIRCLE_MAX_OPACITY as u8;
            if timings.is_timing_meh(self.time, self.current_time) && (update.K1M1_pressed()
                || update.K2M2_pressed()) && cursor_in_range(
                &self.screen_position,
                update.current_mouse_pos(),
                CAPTURE_RADIUS,
            ) {
                self.hit_state = HitState::Hit(HitSuccess::Meh);
                self.colour = Colour { r: 255, g: 159, b: 0, a: 128 };
                self.scale = ScalingFactor(HITCIRCLE_HIT_SCALING);
                self.time_hit = self.current_time;

                if timings.is_timing_great(self.time, self.current_time) {
                    self.hit_state = HitState::Hit(HitSuccess::Great);
                    self.colour = Colour { r: 0, g: 180, b: 252, a: 128 };
                } else if timings.is_timing_good(self.time, self.current_time) {
                    self.hit_state = HitState::Hit(HitSuccess::Good);
                    self.colour = Colour { r: 141, g: 221, b: 0, a: 128 };
                }
                self.fade_out(timings);
                return UpdateResult::InputConsumed;
            } else if timings.is_timing_miss(self.time, self.current_time) {
                self.hit_state = HitState::Hit(HitSuccess::Miss);
                self.colour = Colour { r: 255, g: 39, b: 53, a: 128 };
                self.scale = ScalingFactor(HITCIRCLE_HIT_SCALING);
                self.time_hit = timings.timing_meh_end(self.time);
                self.fade_out(timings);
            }
        }
        UpdateResult::InputNotConsumed
    }

    /// Advances the fade-out of a judged object, retiring it once twice the
    /// Meh window has elapsed since the judgement timestamp.
    pub fn fade_out(&mut self, timings: &AnimationTiming)
        requires
            timings.wf(),
            old(self).hit_state matches HitState::Hit(_),
            old(self).time_hit <= old(self).current_time,
        ensures
            *final(self) == Self::spec_fade_out(*old(self), *timings),
    {
        let num = self.current_time - self.time_hit;
        let den = timings.timing_meh_duration() * 2;
        if num > den {
            self.hit_state = self.hit_state.to_done_drawing();
        } else {
            assert((num as int) * HITCIRCLE_MAX_OPACITY / (den as int) <= HITCIRCLE_MAX_OPACITY) by (nonlinear_arith)
                requires
                    0 < den,
                    num <= den,
            ;
            self.colour.a = (HITCIRCLE_MAX_OPACITY - ((num * HITCIRCLE_MAX_OPACITY) / den)) as u8;
        }
    }

    /// Sets the fade-in opacity for a time inside the fade-in interval.
    pub fn fade_in(&mut self, current_time: u64, timings: &AnimationTiming)
        requires
            timings.wf(),
            old(self).time_in_range(*timings),
            timings.spec_fadein_start(old(self).time) <= current_time,
            current_time < timings.spec_fadein_end(old(self).time),
        ensures
            *final(self) == (HitCircle {
                colour: Colour {
                    a: Self::spec_fade_in_alpha(*timings, old(self).time, current_time) as u8,
                    ..old(self).colour
                },
                ..*old(self)
            }),
    {
        let num = current_time - timings.fadein_start(self.time);
        let den = timings.fadein_end(self.time) - timings.fadein_start(self.time);
        assert((num as int) * HITCIRCLE_MAX_OPACITY / (den as int) < HITCIRCLE_MAX_OPACITY) by (nonlinear_arith)
            requires
                0 < den,
                num < den,
        ;
        self.colour.a = ((num * HITCIRCLE_MAX_OPACITY) / den) as u8;
    }

    /// Computes the screen-space anchor from the level-space position.
    pub fn prepare(&mut self, viewport_size: &PixRect)
        requires
            old(self).position.level_bounded(),
            viewport_size.viewport_bounded(),
        ensures
            *final(self) == (HitCircle {
                screen_position: final(self).screen_position,
                ..*old(self)
            }),
            final(self).screen_position.x == crate::pixel::spec_screen_x(
                old(self).position.x as int,
                *viewport_size,
            ),
            final(self).screen_position.y == crate::pixel::spec_screen_y(
                old(self).position.y as int,
                *viewport_size,
            ),
            final(self).screen_position.screen_bounded(),
    {
        self.screen_position = osru_pos_to_screen_pos(&self.position, viewport_size);
    }

    pub fn hit_state(&self) -> (r: HitState)
        ensures
            r == self.hit_state,
    {
        self.hit_state
    }

    pub fn time(&self) -> (r: u64)
        ensures
            r == self.time,
    {
        self.time
    }

    pub fn screen_position(&self) -> (r: Pix2D)
        ensures
            r == self.screen_position,
    {
        self.screen_position
    }
}

impl Default for HitCircle {
    fn default() -> (r: HitCircle)
        ensures
            r.position == (Pix2D { x: 0, y: 0 }),
            r.time == 0,
            r.new_combo == false,
            r.combo_colours_to_skip == 0,
            r.hitsounds == (OsruHitSounds {
                normal: false,
                whistle: false,
                finish: false,
                clap: false,
            }),
            r.hitsample_set == 0,
            r.hitsample_additional_set == 0,
            r.hitsample_index == 0,
            r.hitsample_volume.0 == 50,
            r.hitsample_filename@ == Seq::<char>::empty(),
            r.hit_state == HitState::NotDrawing,
            r.colour == (Colour { r: 255u8, g: 255u8, b: 255u8, a: 128u8 }),
            r.scale == ScalingFactor(HITCIRCLE_DEFAULT_SCALING),
            r.screen_position == (Pix2D { x: 0, y: 0 }),
            r.time_hit == 0,
            r.current_time == 0,
            r.inv(),
    {
        HitCircle {
            position: Pix2D { x: 0, y: 0 },
            time: 0,
            new_combo: false,
            combo_colours_to_skip: 0,
            hitsounds: OsruHitSounds::default(),
            hitsample_set: 0,
            hitsample_additional_set: 0,
            hitsample_index: 0,
            hitsample_volume: Volume::default(),
            hitsample_filename: String::new(),
            hit_state: HitState::default(),
            colour: Colour { r: 255, g: 255, b: 255, a: 128 },
            scale: ScalingFactor(HITCIRCLE_DEFAULT_SCALING),
            screen_position: Pix2D { x: 0, y: 0 },
            time_hit: 0,
            current_time: 0,
        }
    }
}

/// Law: a judgement-triggering press dead centre — `now == hit_time` —
/// always resolves the object as Great, and the input is consumed.
pub proof fn lemma_press_dead_center_resolves_great(
    pre: HitCircle,
    upd: InputUpdate,
    t: AnimationTiming,
)
    requires
        t.wf(),
        !(pre.hit_state matches HitState::Hit(_)),
        !(pre.hit_state matches HitState::DoneDrawing(_)),
        upd.current.time == pre.time,
        upd.spec_action_pressed(),
        spec_cursor_in_range(
            pre.screen_position,
            upd.current.mouse_position,
            CAPTURE_RADIUS as int,
        ),
    ensures
        HitCircle::spec_step(pre, upd, t).0.hit_state == HitState::Hit(HitSuccess::Great),
        HitCircle::spec_step(pre, upd, t).1 == UpdateResult::InputConsumed,
{
}

/// Law: an unresolved object that sees exactly the end of its Meh window
/// resolves as a miss, with the judgement timestamp pinned to that boundary
/// — a press on that very update no longer qualifies.
pub proof fn lemma_miss_exactly_at_meh_end(pre: HitCircle, upd: InputUpdate, t: AnimationTiming)
    requires
        t.wf(),
        !(pre.hit_state matches HitState::Hit(_)),
        !(pre.hit_state matches HitState::DoneDrawing(_)),
        upd.current.time == t.spec_timing_meh_end(pre.time),
    ensures
        HitCircle::spec_step(pre, upd, t).0.hit_state == HitState::Hit(HitSuccess::Miss),
        HitCircle::spec_step(pre, upd, t).0.time_hit == t.spec_timing_meh_end(pre.time),
        HitCircle::spec_step(pre, upd, t).1 == UpdateResult::InputNotConsumed,
{
}

/// Law: an unresolved object never resolves as a miss before the end of its
/// Meh window, whatever else the update carries.
pub proof fn lemma_no_miss_before_meh_end(pre: HitCircle, upd: InputUpdate, t: AnimationTiming)
    requires
        t.wf(),
        !(pre.hit_state matches HitState::Hit(_)),
        !(pre.hit_state matches HitState::DoneDrawing(_)),
        upd.current.time < t.spec_timing_meh_end(pre.time),
    ensures
        !(HitCircle::spec_step(pre, upd, t).0.hit_state matches HitState::Hit(HitSuccess::Miss)),
        !(HitCircle::spec_step(pre, upd, t).0.hit_state matches HitState::DoneDrawing(
        HitSuccess::Miss)),
{
}

/// Law: a time-only update that repeats the timestamp an already-done object
/// last saw changes nothing — so applying it twice is the same as applying
/// it once.
pub proof fn lemma_done_time_update_is_noop(pre: HitCircle, upd: InputUpdate, t: AnimationTiming)
    requires
        pre.hit_state matches HitState::DoneDrawing(_),
        upd.current.time == pre.current_time,
    ensures
        HitCircle::spec_step(pre, upd, t) == (pre, UpdateResult::InputNotConsumed),
{
}

} // verus!
