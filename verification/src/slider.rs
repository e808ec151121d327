//! The slider (path) variant of the hit-object state machine. Only the head
//! point is judged; full-length judging of the path — ticks along the
//! curve — is deliberately out of scope.

use vstd::prelude::*;

use crate::global::{Colour, ScalingFactor};
use crate::hitobject::{
    spec_colour_active, spec_outcome_colour, HitState, HitSuccess, UpdateResult, CAPTURE_RADIUS,
    HITCIRCLE_DEFAULT_SCALING, HITCIRCLE_HIT_SCALING, HITCIRCLE_MAX_OPACITY,
};
use crate::input::InputUpdate;
use crate::pixel::{cursor_in_range, osru_pos_to_screen_pos, spec_cursor_in_range, Pix2D, PixRect};
use crate::timing::AnimationTiming;

verus! {

/// How the curve points of a slider are interpolated.
#[derive(Debug, Copy, Eq, PartialEq, Clone, Structural)]
pub enum SliderCurveType {
    Bezier,
    CentripetalCatmullRom,
    Linear,
    PerfectCircle,
}

impl Default for SliderCurveType {
    fn default() -> (r: SliderCurveType)
        ensures
            r == SliderCurveType::Bezier,
    {
        SliderCurveType::Bezier
    }
}

/// A slider-type hit object: a curve in level space, judged at its head.
#[derive(Debug, Clone)]
pub struct Slider {
    pub curve_points: Vec<Pix2D>,
    pub time: u64,
    pub new_combo: bool,
    pub combo_colours_to_skip: u32,
    pub curve_type: SliderCurveType,
    pub num_slides: u32,
    pub length_of_slider: i64,
    pub colour: Colour<u8>,
    pub hit_state: HitState,
    pub curve_points_screen: Vec<Pix2D>,
    pub length_to_window: i64,
    pub active: bool,
    pub scale: ScalingFactor,
    pub time_hit: u64,
}

impl Slider {
    /// Internal invariant: the head's screen anchor exists and stays on
    /// screen. The slider keeps no clock of its own, so the bound on a
    /// judged object's timestamp is stated against the caller's time in
    /// `update`'s requires.
    pub open spec fn inv(self) -> bool {
        &&& self.curve_points_screen.len() >= 1
        &&& self.curve_points_screen[0].screen_bounded()
    }

    /// The object's hit time leaves room for its preempt window on both
    /// sides of the clock range.
    pub open spec fn time_in_range(self, t: AnimationTiming) -> bool {
        &&& t.preempt <= self.time
        &&& self.time <= u64::MAX - t.preempt
    }

    /// Everything `update` preserves: the internal invariant, the hit time
    /// in range, and a judged head's judgement timestamp past the Meh
    /// window's opening.
    pub open spec fn wf_for(self, t: AnimationTiming) -> bool {
        &&& self.inv()
        &&& self.time_in_range(t)
        &&& (self.hit_state matches HitState::Hit(_) ==> self.time_hit
            > t.spec_timing_meh_start(self.time))
    }

    /// The fade-out step, as for a circle: retire after twice the Meh
    /// window, otherwise decay the opacity linearly.
    pub open spec fn spec_fade_out(s: Slider, current_time: u64, t: AnimationTiming) -> Slider {
        let num = current_time - s.time_hit;
        let den = 2 * (t.timing_meh as int);
        if num > den {
            Slider { hit_state: s.hit_state.spec_to_done_drawing(), ..s }
        } else {
            Slider {
                colour: Colour {
                    a: (HITCIRCLE_MAX_OPACITY - num * HITCIRCLE_MAX_OPACITY / den) as u8,
                    ..s.colour
                },
                ..s
            }
        }
    }

    /// The fade-in opacity, as for a circle.
    pub open spec fn spec_fade_in_alpha(t: AnimationTiming, hit_time: u64, now: u64) -> int {
        (now - t.spec_fadein_start(hit_time)) * HITCIRCLE_MAX_OPACITY / (t.fadein as int)
    }

    /// A press on this update that lands inside the Meh window and within
    /// the capture radius of the slider's head.
    pub open spec fn spec_press_qualifies(pre: Slider, upd: InputUpdate, t: AnimationTiming)
        -> bool {
        &&& t.spec_is_timing_meh(pre.time, upd.current.time)
        &&& upd.spec_action_pressed()
        &&& spec_cursor_in_range(
            pre.curve_points_screen[0],
            upd.current.mouse_position,
            CAPTURE_RADIUS as int,
        )
    }

    /// The tightest tier whose window contains the press; `Meh` when only
    /// the Meh window matched.
    pub open spec fn spec_judged_outcome(t: AnimationTiming, hit_time: u64, now: u64)
        -> HitSuccess {
        if t.spec_is_timing_great(hit_time, now) {
            HitSuccess::Great
        } else if t.spec_is_timing_good(hit_time, now) {
            HitSuccess::Good
        } else {
            HitSuccess::Meh
        }
    }

    /// The transition function of the slider state machine: the circle's
    /// table, judged against the head anchor. A qualifying press resolves
    /// the head at the tightest matching tier (Meh by default), consumes the
    /// input, and marks the slider active; `active` only gates re-judging,
    /// while the judged head fades out and retires like a circle.
    pub open spec fn spec_step(pre: Slider, upd: InputUpdate, t: AnimationTiming) -> (
        Slider,
        UpdateResult,
    ) {
        let now = upd.current.time;
        let r = UpdateResult::InputNotConsumed;
        if pre.hit_state matches HitState::DoneDrawing(_) {
            (pre, r)
        } else if now < t.spec_fadein_start(pre.time) {
            (Slider { hit_state: HitState::NotDrawing, ..pre }, r)
        } else if now < t.spec_timing_meh_start(pre.time) {
            let alpha = if now < t.spec_fadein_end(pre.time) {
                Self::spec_fade_in_alpha(t, pre.time, now) as u8
            } else {
                HITCIRCLE_MAX_OPACITY as u8
            };
            (
                Slider {
                    hit_state: HitState::Ready,
                    colour: Colour { a: alpha, ..pre.colour },
                    ..pre
                },
                r,
            )
        } else if pre.hit_state matches HitState::Hit(_) {
            (Self::spec_fade_out(pre, now, t), r)
        } else if !pre.active {
            let ready = Slider {
                hit_state: HitState::Ready,
                colour: Colour { a: HITCIRCLE_MAX_OPACITY as u8, ..pre.colour },
                ..pre
            };
            if Self::spec_press_qualifies(pre, upd, t) {
                let outcome = Self::spec_judged_outcome(t, pre.time, now);
                let activated = Slider {
                    active: true,
                    colour: spec_colour_active(),
                    scale: ScalingFactor(HITCIRCLE_HIT_SCALING),
                    time_hit: now,
                    hit_state: HitState::Hit(outcome),
                    ..ready
                };
                (Self::spec_fade_out(activated, now, t), UpdateResult::InputConsumed)
            } else if t.spec_is_timing_miss(pre.time, now) {
                let missed = Slider {
                    hit_state: HitState::Hit(HitSuccess::Miss),
                    colour: spec_outcome_colour(HitSuccess::Miss),
                    scale: ScalingFactor(HITCIRCLE_HIT_SCALING),
                    time_hit: t.spec_timing_meh_end(pre.time) as u64,
                    ..ready
                };
                (Self::spec_fade_out(missed, now, t), r)
            } else {
                (ready, r)
            }
        } else {
            (pre, r)
        }
    }

    /// One step of the state machine; see `spec_step` for the transition
    /// table. A judged slider must not be stepped with a time before its
    /// judgement timestamp; the pipeline's monotone clock guarantees that.
    pub fn update(&mut self, update: &InputUpdate, timings: &AnimationTiming) -> (r: UpdateResult)
        requires
            timings.wf(),
            old(self).wf_for(*timings),
            update.wf(),
            old(self).hit_state matches HitState::Hit(_) ==> old(self).time_hit
                <= update.current.time,
        ensures
            (*final(self), r) == Self::spec_step(*old(self), *update, *timings),
            final(self).wf_for(*timings),
            final(self).time == old(self).time,
            final(self).curve_points_screen == old(self).curve_points_screen,
            final(self).hit_state matches HitState::Hit(_) ==> final(self).time_hit
                <= update.current.time,
            old(self).hit_state matches HitState::DoneDrawing(_) ==> *final(self) == *old(self),
            old(self).hit_state matches HitState::Hit(o) ==> (update.current.time
                >= timings.spec_timing_meh_start(old(self).time) ==> final(self).hit_state
                == HitState::Hit(o) || final(self).hit_state == HitState::DoneDrawing(o)),
    {
        let current_time = update.current_time();

        if let HitState::DoneDrawing(_) = self.hit_state {
        } else if current_time < timings.fadein_start(self.time) {
            self.hit_state = HitState::NotDrawing;
        } else if current_time < timings.timing_meh_start(self.time) {
            self.colour.a = HITCIRCLE_MAX_OPACITY as u8;
            self.hit_state = HitState::Ready;
            if current_time < timings.fadein_end(self.time) {
                self.fade_in(current_time, timings);
            }
        } else if let HitState::Hit(_) = self.hit_state {
            self.fade_out(current_time, timings);
        } else if !self.active {
            self.hit_state = HitState::Ready;
            self.colour.a = HITCIRCLE_MAX_OPACITY as u8;
            if timings.is_timing_meh(self.time, current_time) && (update.K1M1_pressed()
                || update.K2M2_pressed()) && cursor_in_range(
                &self.curve_points_screen[0],
                update.current_mouse_pos(),
                CAPTURE_RADIUS,
            ) {
                self.active = true;
                self.colour = Colour { r: 230, g: 230, b: 250, a: 128 };
                self.scale = ScalingFactor(HITCIRCLE_HIT_SCALING);
                self.time_hit = current_time;

                self.hit_state = HitState::Hit(HitSuccess::Meh);
                if timings.is_timing_great(self.time, current_time) {
                    self.hit_state = HitState::Hit(HitSuccess::Great);
                } else if timings.is_timing_good(self.time, current_time) {
                    self.hit_state = HitState::Hit(HitSuccess::Good);
                }
                self.fade_out(current_time, timings);
                return UpdateResult::InputConsumed;
            } else if timings.is_timing_miss(self.time, current_time) {
                self.hit_state = HitState::Hit(HitSuccess::Miss);
                self.colour = Colour { r: 255, g: 39, b: 53, a: 128 };
                self.scale = ScalingFactor(HITCIRCLE_HIT_SCALING);
                self.time_hit = timings.timing_meh_end(self.time);
                self.fade_out(current_time, timings);
            }
        }
        UpdateResult::InputNotConsumed
    }

    /// Advances the fade-out, retiring the object once twice the Meh window
    /// has elapsed since the judgement timestamp. An activated head that
    /// carries no outcome only decays; it is never retired here.
    pub fn fade_out(&mut self, current_time: u64, timings: &AnimationTiming)
        requires
            timings.wf(),
            old(self).time_hit <= current_time,
            old(self).hit_state matches HitState::Hit(_) || current_time - old(self).time_hit <= 2
                * timings.timing_meh,
        ensures
            *final(self) == Self::spec_fade_out(*old(self), current_time, *timings),
    {
        let num = current_time - self.time_hit;
        let den = timings.timing_meh_duration() * 2;
        if num > den {
            self.hit_state = self.hit_state.to_done_drawing();
        } else {
            assert((num as int) * HITCIRCLE_MAX_OPACITY / (den as int) <= HITCIRCLE_MAX_OPACITY)
                by (nonlinear_arith)
                requires
                    0 < den,
                    num <= den,
            ;
            self.colour.a = (HITCIRCLE_MAX_OPACITY - ((num * HITCIRCLE_MAX_OPACITY) / den)) as u8;
        }
    }

    /// Sets the fade-in opacity for a time inside the fade-in interval.
    pub fn fade_in(&mut self, current_time: u64, timings: &AnimationTiming)
        requires
            timings.wf(),
            old(self).time_in_range(*timings),
            timings.spec_fadein_start(old(self).time) <= current_time,
            current_time < timings.spec_fadein_end(old(self).time),
        ensures
            *final(self) == (Slider {
                colour: Colour {
                    a: Self::spec_fade_in_alpha(*timings, old(self).time, current_time) as u8,
                    ..old(self).colour
                },
                ..*old(self)
            }),
    {
        let num = current_time - timings.fadein_start(self.time);
        let den = timings.fadein_end(self.time) - timings.fadein_start(self.time);
        assert((num as int) * HITCIRCLE_MAX_OPACITY / (den as int) < HITCIRCLE_MAX_OPACITY) by (
        nonlinear_arith)
            requires
                0 < den,
                num < den,
        ;
        self.colour.a = ((num * HITCIRCLE_MAX_OPACITY) / den) as u8;
    }

    /// Appends the screen-space image of every curve point to the screen
    /// list, head first.
    pub fn prepare(&mut self, viewport_size: &PixRect)
        requires
            viewport_size.viewport_bounded(),
            forall|i: int|
                #![trigger old(self).curve_points@[i]]
                0 <= i < old(self).curve_points@.len()
                    ==> old(self).curve_points@[i].level_bounded(),
        ensures
            final(self).curve_points_screen@.len() == old(self).curve_points_screen@.len() + old(
                self,
            ).curve_points@.len(),
            forall|i: int|
                #![trigger final(self).curve_points_screen@[i]]
                0 <= i < old(self).curve_points_screen@.len()
                    ==> final(self).curve_points_screen@[i] == old(self).curve_points_screen@[i],
            forall|i: int|
                #![trigger final(self).curve_points_screen@[i]]
                old(self).curve_points_screen@.len() <= i && i < old(
                    self,
                ).curve_points_screen@.len() + old(self).curve_points@.len() ==> (final(
                    self).curve_points_screen@[i]).screen_bounded() && (final(
                    self).curve_points_screen@[i]).x == crate::pixel::spec_screen_x(
                    old(self).curve_points@[i - old(self).curve_points_screen@.len()].x as int,
                    *viewport_size,
                ) && (final(self).curve_points_screen@[i]).y == crate::pixel::spec_screen_y(
                    old(self).curve_points@[i - old(self).curve_points_screen@.len()].y as int,
                    *viewport_size,
                ),
            *final(self) == (Slider {
                curve_points_screen: final(self).curve_points_screen,
                ..*old(self)
            }),
    {
        let ghost old_screen = self.curve_points_screen@;
        let n = self.curve_points.len();
        let mut idx: usize = 0;
        while idx < n
            invariant
                n == self.curve_points.len(),
                idx <= n,
                viewport_size.viewport_bounded(),
                forall|i: int| 0 <= i < n ==> self.curve_points[i].level_bounded(),
                self.curve_points_screen@.len() == old_screen.len() + idx,
                forall|i: int|
                    0 <= i < old_screen.len() ==> self.curve_points_screen@[i] == old_screen[i],
                forall|i: int|
                    #![trigger self.curve_points_screen@[i]]
                    old_screen.len() <= i < old_screen.len() + idx
                        ==> self.curve_points_screen@[i].screen_bounded()
                        && self.curve_points_screen@[i].x == crate::pixel::spec_screen_x(
                        self.curve_points@[i - old_screen.len()].x as int,
                        *viewport_size,
                    ) && self.curve_points_screen@[i].y == crate::pixel::spec_screen_y(
                        self.curve_points@[i - old_screen.len()].y as int,
                        *viewport_size,
                    ),
                *self == (Slider { curve_points_screen: self.curve_points_screen, ..*old(self) }),
            decreases n - idx,
        {
            let screen = osru_pos_to_screen_pos(&self.curve_points[idx], viewport_size);
            self.curve_points_screen.push(screen);
            idx = idx + 1;
        }
    }

    pub fn hit_state(&self) -> (r: HitState)
        ensures
            r == self.hit_state,
    {
        self.hit_state
    }

    pub fn time(&self) -> (r: u64)
        ensures
            r == self.time,
    {
        self.time
    }

    /// The screen-space anchor of the slider's head.
    pub fn screen_position(&self) -> (r: Pix2D)
        requires
            self.inv(),
        ensures
            r == self.curve_points_screen[0],
    {
        self.curve_points_screen[0]
    }
}

impl Default for Slider {
    fn default() -> (r: Slider)
        ensures
            r.curve_points@ == Seq::<Pix2D>::empty(),
            r.time == 0,
            r.new_combo == false,
            r.combo_colours_to_skip == 0,
            r.curve_type == SliderCurveType::Bezier,
            r.num_slides == 1,
            r.length_of_slider == 0,
            r.colour == (Colour { r: 182u8, g: 39u8, b: 246u8, a: 128u8 }),
            r.hit_state == HitState::NotDrawing,
            r.curve_points_screen@ == Seq::<Pix2D>::empty(),
            r.length_to_window == 0,
            r.active == false,
            r.scale == ScalingFactor(HITCIRCLE_DEFAULT_SCALING),
            r.time_hit == 0,
    {
        Slider {
            curve_points: Vec::new(),
            time: 0,
            new_combo: false,
            combo_colours_to_skip: 0,
            curve_type: SliderCurveType::default(),
            num_slides: 1,
            length_of_slider: 0,
            colour: Colour { r: 182, g: 39, b: 246, a: 128 },
            hit_state: HitState::default(),
            curve_points_screen: Vec::new(),
            length_to_window: 0,
            active: false,
            scale: ScalingFactor(HITCIRCLE_DEFAULT_SCALING),
            time_hit: 0,
        }
    }
}

/// Law: a press on the slider's head dead centre — `now == hit_time` —
/// assigns the Great outcome, activates the slider, and consumes the input.
pub proof fn lemma_press_dead_center_resolves_great(pre: Slider, upd: InputUpdate, t: AnimationTiming)
    requires
        t.wf(),
        !pre.active,
        !(pre.hit_state matches HitState::Hit(_)),
        !(pre.hit_state matches HitState::DoneDrawing(_)),
        upd.current.time == pre.time,
        upd.spec_action_pressed(),
        spec_cursor_in_range(
            pre.curve_points_screen[0],
            upd.current.mouse_position,
            CAPTURE_RADIUS as int,
        ),
    ensures
        Slider::spec_step(pre, upd, t).0.hit_state == HitState::Hit(HitSuccess::Great),
        Slider::spec_step(pre, upd, t).0.active,
        Slider::spec_step(pre, upd, t).1 == UpdateResult::InputConsumed,
{
}

/// Law: an update on an already-done slider changes nothing, whatever its
/// timestamp — so a repeated time-only update is a no-op.
pub proof fn lemma_done_update_is_noop(pre: Slider, upd: InputUpdate, t: AnimationTiming)
    requires
        pre.hit_state matches HitState::DoneDrawing(_),
    ensures
        Slider::spec_step(pre, upd, t) == (pre, UpdateResult::InputNotConsumed),
{
}

} // verus!
