//! Hit-object state machine: the per-object states, judgement outcomes, and
//! the polymorphic hit-object type dispatching over its variants.

use vstd::prelude::*;

use crate::global::Colour;
use crate::hitcircle::HitCircle;
use crate::input::InputUpdate;
use crate::pixel::{spec_screen_x, spec_screen_y, Pix2D, PixRect};
use crate::slider::Slider;
use crate::timing::AnimationTiming;

verus! {

/// Radius of the capture test around an object's anchor, in screen units.
pub const CAPTURE_RADIUS: i64 = 150;

/// Full opacity of a hit-circle sprite.
pub const HITCIRCLE_MAX_OPACITY: u64 = 128;

/// Sprite scale of an object waiting to be hit, in hundredths.
pub const HITCIRCLE_DEFAULT_SCALING: u32 = 200;

/// Sprite scale of a judged object, in hundredths.
pub const HITCIRCLE_HIT_SCALING: u32 = 50;

/// The colour a judged object is tinted with, per outcome.
pub open spec fn spec_outcome_colour(outcome: HitSuccess) -> Colour<u8> {
    match outcome {
        HitSuccess::Great => Colour { r: 0, g: 180, b: 252, a: 128 },
        HitSuccess::Good => Colour { r: 141, g: 221, b: 0, a: 128 },
        HitSuccess::Meh => Colour { r: 255, g: 159, b: 0, a: 128 },
        HitSuccess::Miss => Colour { r: 255, g: 39, b: 53, a: 128 },
    }
}

/// The colour of a slider whose head was hit and which is being followed.
pub open spec fn spec_colour_active() -> Colour<u8> {
    Colour { r: 230, g: 230, b: 250, a: 128 }
}

/// Whether a per-object update consumed the input edge it was offered.
#[derive(Debug, Copy, Clone, Eq, PartialEq, Structural)]
pub enum UpdateResult {
    InputConsumed,
    InputNotConsumed,
}

/// Whether a draw call actually drew the object.
#[derive(Debug, Copy, Clone, Eq, PartialEq, Structural)]
pub enum DrawResult {
    Drawed,
    NotDrawed,
}

/// The accuracy tier assigned to a resolved object.
#[derive(PartialEq, Eq, Debug, Copy, Clone, Structural)]
pub enum HitSuccess {
    Meh,
    Good,
    Great,
    Miss,
}

/// The lifecycle of a hit object: invisible, visible and unresolved, judged
/// and fading out, then done. The outcome is fixed on entering `Hit` and
/// carried unchanged into `DoneDrawing`.
#[derive(PartialEq, Eq, Debug, Copy, Clone, Structural)]
pub enum HitState {
    NotDrawing,
    Ready,
    Hit(HitSuccess),
    DoneDrawing(HitSuccess),
}

impl HitState {
    /// The outcome carried by `Hit` or `DoneDrawing`; meaningless in the
    /// other states.
    pub open spec fn spec_hit_success(self) -> HitSuccess {
        match self {
            HitState::Hit(hit_success) => hit_success,
            HitState::DoneDrawing(hit_success) => hit_success,
            _ => HitSuccess::Miss,
        }
    }

    /// The outcome of a judged object. Querying an object that has not been
    /// judged is a caller error.
    pub fn hit_success(&self) -> (r: HitSuccess)
        requires
            self matches HitState::Hit(_) || self matches HitState::DoneDrawing(_),
        ensures
            r == self.spec_hit_success(),
    {
        match self {
            HitState::Hit(hit_success) => *hit_success,
            HitState::DoneDrawing(hit_success) => *hit_success,
            HitState::NotDrawing => HitSuccess::Miss,
            HitState::Ready => HitSuccess::Miss,
        }
    }

    pub fn not_yet_drawing(&self) -> (r: bool)
        ensures
            r == (self matches HitState::NotDrawing),
    {
        match self {
            HitState::NotDrawing => true,
            _ => false,
        }
    }

    pub fn is_ready(&self) -> (r: bool)
        ensures
            r == (self matches HitState::Ready),
    {
        match self {
            HitState::Ready => true,
            _ => false,
        }
    }

    /// Visible states: `Ready` and `Hit`.
    pub open spec fn spec_is_drawing(self) -> bool {
        match self {
            HitState::NotDrawing => false,
            HitState::Ready => true,
            HitState::Hit(_) => true,
            HitState::DoneDrawing(_) => false,
        }
    }

    pub fn is_drawing(&self) -> (r: bool)
        ensures
            r == self.spec_is_drawing(),
    {
        match self {
            HitState::NotDrawing => false,
            HitState::Ready => true,
            HitState::Hit(_) => true,
            HitState::DoneDrawing(_) => false,
        }
    }

    pub fn is_hit(&self) -> (r: bool)
        ensures
            r == (self matches HitState::Hit(_)),
    {
        match self {
            HitState::Hit(_) => true,
            _ => false,
        }
    }

    pub fn is_done(&self) -> (r: bool)
        ensures
            r == (self matches HitState::DoneDrawing(_)),
    {
        match self {
            HitState::DoneDrawing(_) => true,
            _ => false,
        }
    }

    /// `Hit(outcome)` ends as `DoneDrawing(outcome)`; any other state keeps
    /// its value (the conversion is only meaningful from `Hit`).
    pub open spec fn spec_to_done_drawing(self) -> HitState {
        match self {
            HitState::Hit(v) => HitState::DoneDrawing(v),
            _ => self,
        }
    }

    /// The terminal state carrying this judged object's outcome. Converting
    /// an unjudged object is a caller error.
    pub fn to_done_drawing(&self) -> (r: HitState)
        requires
            self matches HitState::Hit(_),
        ensures
            r == self.spec_to_done_drawing(),
    {
        match self {
            HitState::Hit(v) => HitState::DoneDrawing(*v),
            _ => *self,
        }
    }
}

impl Default for HitState {
    fn default() -> (r: HitState)
        ensures
            r == HitState::NotDrawing,
    {
        HitState::NotDrawing
    }
}

/// A hit object, polymorphic over its variants. Its identity is its position
/// in the scheduler's ordered sequence.
#[derive(Debug, Clone)]
pub enum HitObject {
    HitCircle(HitCircle),
    Slider(Slider),
}

impl HitObject {
    /// The object's current lifecycle state.
    pub open spec fn spec_hit_state(self) -> HitState {
        match self {
            HitObject::HitCircle(c) => c.hit_state,
            HitObject::Slider(s) => s.hit_state,
        }
    }

    /// The object's nominal hit time, in session microseconds.
    pub open spec fn spec_time(self) -> u64 {
        match self {
            HitObject::HitCircle(c) => c.time,
            HitObject::Slider(s) => s.time,
        }
    }

    /// The per-variant invariant together with the hit time leaving room for
    /// the preempt window.
    pub open spec fn wf_for(self, t: AnimationTiming) -> bool {
        match self {
            HitObject::HitCircle(c) => c.wf_for(t),
            HitObject::Slider(s) => s.wf_for(t),
        }
    }

    /// A judged object's judgement timestamp does not lie in the future of
    /// `now`: the step function may be fed any timestamp from `now` onward.
    pub open spec fn ok_at(self, now: u64) -> bool {
        match self {
            HitObject::HitCircle(c) => c.hit_state matches HitState::Hit(_) ==> c.time_hit <= now,
            HitObject::Slider(s) => s.hit_state matches HitState::Hit(_) ==> s.time_hit <= now,
        }
    }

    /// The object is untouched since loading: no judgement has started.
    pub open spec fn fresh(self) -> bool {
        match self {
            HitObject::HitCircle(c) => c.hit_state == HitState::NotDrawing && c.current_time == 0,
            HitObject::Slider(s) => s.hit_state == HitState::NotDrawing && !s.active,
        }
    }

    /// The object can be prepared: its level-space anchors are in range and,
    /// for a slider, the screen list is still empty and the curve nonempty.
    pub open spec fn preparable(self) -> bool {
        match self {
            HitObject::HitCircle(c) => c.position.level_bounded(),
            HitObject::Slider(s) => {
                &&& s.curve_points@.len() >= 1
                &&& s.curve_points_screen@.len() == 0
                &&& forall|i: int|
                    0 <= i < s.curve_points@.len() ==> (#[trigger] s.curve_points@[i]).level_bounded()
            },
        }
    }

    /// What `prepare` does to an object against a viewport: everything but
    /// the screen anchors is unchanged, and each screen anchor is exactly
    /// the level-to-screen image of its level anchor — the circle's
    /// position, or each of the slider's curve points in order.
    pub open spec fn anchors_mapped(pre: HitObject, post: HitObject, viewport: PixRect) -> bool {
        match (pre, post) {
            (HitObject::HitCircle(c), HitObject::HitCircle(c2)) => {
                &&& c2 == HitCircle { screen_position: c2.screen_position, ..c }
                &&& c2.screen_position.x == spec_screen_x(c.position.x as int, viewport)
                &&& c2.screen_position.y == spec_screen_y(c.position.y as int, viewport)
            },
            (HitObject::Slider(s), HitObject::Slider(s2)) => {
                &&& s2 == Slider { curve_points_screen: s2.curve_points_screen, ..s }
                &&& s2.curve_points_screen@.len() == s.curve_points_screen@.len()
                    + s.curve_points@.len()
                &&& forall|j: int|
                    0 <= j < s.curve_points_screen@.len()
                        ==> #[trigger] s2.curve_points_screen@[j] == s.curve_points_screen@[j]
                &&& forall|j: int|
                    #![trigger s.curve_points@[j]]
                    0 <= j < s.curve_points@.len()
                        ==> s2.curve_points_screen@[s.curve_points_screen@.len() + j].x
                        == spec_screen_x(s.curve_points@[j].x as int, viewport)
                        && s2.curve_points_screen@[s.curve_points_screen@.len() + j].y
                        == spec_screen_y(s.curve_points@[j].y as int, viewport)
            },
            _ => false,
        }
    }

    /// The transition function of either variant.
    pub open spec fn spec_step(pre: HitObject, upd: InputUpdate, t: AnimationTiming) -> (
        HitObject,
        UpdateResult,
    ) {
        match pre {
            HitObject::HitCircle(c) => {
                let (c2, r) = HitCircle::spec_step(c, upd, t);
                (HitObject::HitCircle(c2), r)
            },
            HitObject::Slider(s) => {
                let (s2, r) = Slider::spec_step(s, upd, t);
                (HitObject::Slider(s2), r)
            },
        }
    }

    /// One step of the object's state machine; dispatches on the variant.
    pub fn update(&mut self, update: &InputUpdate, timing: &AnimationTiming) -> (r: UpdateResult)
        requires
            timing.wf(),
            old(self).wf_for(*timing),
            update.wf(),
            old(self).ok_at(update.current.time),
        ensures
            (*final(self), r) == Self::spec_step(*old(self), *update, *timing),
            final(self).wf_for(*timing),
            final(self).ok_at(update.current.time),
            final(self).spec_time() == old(self).spec_time(),
            old(self).spec_hit_state() matches HitState::DoneDrawing(_) ==> (final(
                self).spec_hit_state()) == old(self).spec_hit_state(),
            old(self).spec_hit_state() matches HitState::Hit(o) ==> (update.current.time
                >= timing.spec_timing_meh_start(old(self).spec_time()) ==> (final(
                self).spec_hit_state()) == HitState::Hit(o) || (final(self).spec_hit_state())
                == HitState::DoneDrawing(o)),
    {
        match self {
            HitObject::HitCircle(hit_circle) => hit_circle.update(update, timing),
            HitObject::Slider(slider) => slider.update(update, timing),
        }
    }

    /// Computes the screen-space anchors from the level-space data.
    pub fn prepare(&mut self, viewport_size: &PixRect)
        requires
            old(self).preparable(),
            viewport_size.viewport_bounded(),
        ensures
            Self::anchors_mapped(*old(self), *final(self), *viewport_size),
            final(self).spec_hit_state() == old(self).spec_hit_state(),
            final(self).spec_time() == old(self).spec_time(),
            old(self).fresh() ==> final(self).fresh(),
            forall|t: AnimationTiming|
                old(self).spec_time() >= t.preempt && old(self).spec_time() <= u64::MAX - t.preempt
                    && old(self).fresh() ==> (#[trigger] final(self).wf_for(t)),
            forall|now: u64| old(self).fresh() ==> #[trigger] final(self).ok_at(now),
    {
        match self {
            HitObject::HitCircle(hit_circle) => hit_circle.prepare(viewport_size),
            HitObject::Slider(slider) => {
                let ghost pre = *slider;
                slider.prepare(viewport_size);
                proof {
                    assert forall|j: int|
                        #![trigger pre.curve_points@[j]]
                        0 <= j < pre.curve_points@.len() implies slider.curve_points_screen@[
                    pre.curve_points_screen@.len() + j].x == spec_screen_x(
                        pre.curve_points@[j].x as int,
                        *viewport_size,
                    ) && slider.curve_points_screen@[pre.curve_points_screen@.len() + j].y
                        == spec_screen_y(pre.curve_points@[j].y as int, *viewport_size) by {
                        assert(slider.curve_points_screen@[pre.curve_points_screen@.len() + j]
                            == slider.curve_points_screen@[pre.curve_points_screen@.len() + j]);
                    }
                }
            },
        }
    }

    pub fn hit_state(&self) -> (r: HitState)
        ensures
            r == self.spec_hit_state(),
    {
        match self {
            HitObject::HitCircle(hit_circle) => hit_circle.hit_state(),
            HitObject::Slider(slider) => slider.hit_state(),
        }
    }

    pub fn time(&self) -> (r: u64)
        ensures
            r == self.spec_time(),
    {
        match self {
            HitObject::HitCircle(hit_circle) => hit_circle.time(),
            HitObject::Slider(slider) => slider.time(),
        }
    }

    /// The screen-space anchor the object is judged against: the circle's
    /// position, or the slider's head.
    pub fn screen_position(&self) -> (r: Pix2D)
        requires
            self matches HitObject::Slider(s) ==> s.inv(),
        ensures
            r == match *self {
                HitObject::HitCircle(c) => c.screen_position,
                HitObject::Slider(s) => s.curve_points_screen[0],
            },
    {
        match self {
            HitObject::HitCircle(hit_circle) => hit_circle.screen_position(),
            HitObject::Slider(slider) => slider.screen_position(),
        }
    }
}

} // verus!
