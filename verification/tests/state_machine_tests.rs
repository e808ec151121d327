//! Hit-object state machine tests: the transition table of circles and
//! sliders, judged against concrete times and inputs.

use osru_core::global::Colour;
use osru_core::hitobject::{HitObject, HitState, HitSuccess, UpdateResult};
use osru_core::hitcircle::HitCircle;
use osru_core::input::{InputSnapshot, InputUpdate};
use osru_core::pixel::Pix2D;
use osru_core::slider::Slider;
use osru_core::timing::{AnimationTiming, OsruAR, OsruOD};

fn timings() -> AnimationTiming {
    // preempt 1.2 s, fade-in 0.8 s, windows 49.5 / 99.5 / 149.5 ms.
    AnimationTiming::new_from(OsruOD(500), OsruAR(500))
}

fn circle_at(time: u64) -> HitCircle {
    HitCircle {
        time,
        ..HitCircle::default()
    }
}

fn time_only(now: u64) -> InputUpdate {
    let snap = InputSnapshot {
        time: now,
        ..InputSnapshot::default()
    };
    InputUpdate::new(&snap, &snap)
}

fn press_at(now: u64, x: i64, y: i64) -> InputUpdate {
    let prev = InputSnapshot {
        time: now,
        ..InputSnapshot::default()
    };
    let curr = InputSnapshot {
        K1: true,
        time: now,
        mouse_position: Pix2D { x, y },
        ..InputSnapshot::default()
    };
    InputUpdate::new(&prev, &curr)
}

#[test]
fn invisible_before_preempt() {
    let t = timings();
    let mut c = circle_at(2_000_000);
    // fadein_start = 800_000; one microsecond earlier stays invisible.
    assert_eq!(UpdateResult::InputNotConsumed, c.update(&time_only(799_999), &t));
    assert_eq!(HitState::NotDrawing, c.hit_state());
}

#[test]
fn fade_in_alpha_is_proportional() {
    let t = timings();
    let mut c = circle_at(2_000_000);
    // fade-in runs 800_000 .. 1_600_000; half way the opacity is half of 128.
    c.update(&time_only(1_200_000), &t);
    assert_eq!(HitState::Ready, c.hit_state());
    assert_eq!(64, c.colour.a);
    // After the fade-in but before the Meh window: fully opaque.
    c.update(&time_only(1_700_000), &t);
    assert_eq!(HitState::Ready, c.hit_state());
    assert_eq!(128, c.colour.a);
}

#[test]
fn press_dead_center_resolves_great() {
    let t = timings();
    let mut c = circle_at(2_000_000);
    let r = c.update(&press_at(2_000_000, 0, 0), &t);
    assert_eq!(UpdateResult::InputConsumed, r);
    assert_eq!(HitState::Hit(HitSuccess::Great), c.hit_state());
    assert_eq!(2_000_000, c.time_hit);
    assert_eq!(Colour { r: 0, g: 180, b: 252, a: 128 }, c.colour);
    // A second press against the judged object consumes nothing.
    let r2 = c.update(&press_at(2_010_000, 0, 0), &t);
    assert_eq!(UpdateResult::InputNotConsumed, r2);
    assert_eq!(HitState::Hit(HitSuccess::Great), c.hit_state());
}

#[test]
fn press_tiers_follow_the_windows() {
    let t = timings();
    // Inside Good but outside Great: 60 ms early.
    let mut c = circle_at(2_000_000);
    assert_eq!(UpdateResult::InputConsumed, c.update(&press_at(1_940_000, 0, 0), &t));
    assert_eq!(HitState::Hit(HitSuccess::Good), c.hit_state());
    // Inside Meh but outside Good: 120 ms late.
    let mut c = circle_at(2_000_000);
    assert_eq!(UpdateResult::InputConsumed, c.update(&press_at(2_120_000, 0, 0), &t));
    assert_eq!(HitState::Hit(HitSuccess::Meh), c.hit_state());
}

#[test]
fn press_out_of_capture_range_does_not_judge() {
    let t = timings();
    let mut c = circle_at(2_000_000);
    // 151 pixels away: outside the capture radius of 150.
    let r = c.update(&press_at(2_000_000, 151, 0), &t);
    assert_eq!(UpdateResult::InputNotConsumed, r);
    assert_eq!(HitState::Ready, c.hit_state());
    // Exactly 150 pixels away: still inside.
    let r = c.update(&press_at(2_000_100, 150, 0), &t);
    assert_eq!(UpdateResult::InputConsumed, r);
    assert_eq!(HitState::Hit(HitSuccess::Great), c.hit_state());
}

#[test]
fn miss_resolves_exactly_at_meh_end_and_never_earlier() {
    let t = timings();
    let mut c = circle_at(2_000_000);
    // One microsecond before the boundary: still Ready.
    c.update(&time_only(2_149_499), &t);
    assert_eq!(HitState::Ready, c.hit_state());
    // Exactly at hit_time + meh window: Miss, pinned to the boundary.
    c.update(&time_only(2_149_500), &t);
    assert_eq!(HitState::Hit(HitSuccess::Miss), c.hit_state());
    assert_eq!(2_149_500, c.time_hit);
}

#[test]
fn fade_out_decays_then_retires() {
    let t = timings();
    let mut c = circle_at(2_000_000);
    assert_eq!(UpdateResult::InputConsumed, c.update(&press_at(2_000_000, 0, 0), &t));
    assert_eq!(128, c.colour.a);
    // Half of the fade-out (2 * 149_500 = 299_000) has elapsed: half opacity.
    c.update(&time_only(2_149_500), &t);
    assert_eq!(HitState::Hit(HitSuccess::Great), c.hit_state());
    assert_eq!(64, c.colour.a);
    // Just past the full fade-out: done, outcome carried unchanged.
    c.update(&time_only(2_299_001), &t);
    assert_eq!(HitState::DoneDrawing(HitSuccess::Great), c.hit_state());
}

#[test]
fn done_object_ignores_time_updates() {
    let t = timings();
    let mut c = circle_at(2_000_000);
    c.update(&time_only(2_149_500), &t);
    c.update(&time_only(2_448_501), &t);
    assert_eq!(HitState::DoneDrawing(HitSuccess::Miss), c.hit_state());
    let before = (c.hit_state(), c.colour, c.scale, c.time_hit, c.current_time);
    // The time-only update applied twice with the same timestamp: no change.
    c.update(&time_only(2_448_501), &t);
    let between = (c.hit_state(), c.colour, c.scale, c.time_hit, c.current_time);
    c.update(&time_only(2_448_501), &t);
    let after = (c.hit_state(), c.colour, c.scale, c.time_hit, c.current_time);
    assert_eq!(before, between);
    assert_eq!(between, after);
}

#[test]
fn outcome_query_on_judged_states() {
    assert_eq!(HitSuccess::Good, HitState::Hit(HitSuccess::Good).hit_success());
    assert_eq!(HitSuccess::Miss, HitState::DoneDrawing(HitSuccess::Miss).hit_success());
    assert!(HitState::Ready.is_drawing());
    assert!(HitState::Hit(HitSuccess::Meh).is_drawing());
    assert!(!HitState::NotDrawing.is_drawing());
    assert!(!HitState::DoneDrawing(HitSuccess::Great).is_drawing());
    assert!(HitState::NotDrawing.not_yet_drawing());
    assert!(HitState::Ready.is_ready());
    assert!(HitState::Hit(HitSuccess::Meh).is_hit());
    assert!(HitState::DoneDrawing(HitSuccess::Meh).is_done());
    assert_eq!(
        HitState::DoneDrawing(HitSuccess::Good),
        HitState::Hit(HitSuccess::Good).to_done_drawing()
    );
}

fn slider_at(time: u64) -> Slider {
    let mut s = Slider::default();
    s.time = time;
    s.curve_points_screen.push(Pix2D { x: 0, y: 0 });
    s
}

#[test]
fn slider_head_press_activates_with_great() {
    let t = timings();
    let mut s = slider_at(2_000_000);
    let r = s.update(&press_at(2_000_000, 100, 0), &t);
    assert_eq!(UpdateResult::InputConsumed, r);
    assert_eq!(HitState::Hit(HitSuccess::Great), s.hit_state());
    assert!(s.active);
    assert_eq!(Colour { r: 230, g: 230, b: 250, a: 128 }, s.colour);
    // A further press against the activated head consumes nothing.
    let r2 = s.update(&press_at(2_010_000, 100, 0), &t);
    assert_eq!(UpdateResult::InputNotConsumed, r2);
    assert_eq!(HitState::Hit(HitSuccess::Great), s.hit_state());
    // The judged head fades out and retires like a circle.
    s.update(&time_only(2_299_001), &t);
    assert_eq!(HitState::DoneDrawing(HitSuccess::Great), s.hit_state());
}

#[test]
fn slider_head_press_in_meh_only_resolves_meh() {
    let t = timings();
    let mut s = slider_at(2_000_000);
    // 120 ms late: inside Meh, outside Good — the tightest matching tier is
    // the Meh default.
    let r = s.update(&press_at(2_120_000, 0, 0), &t);
    assert_eq!(UpdateResult::InputConsumed, r);
    assert!(s.active);
    assert_eq!(HitState::Hit(HitSuccess::Meh), s.hit_state());
    assert_eq!(2_120_000, s.time_hit);
}

#[test]
fn slider_misses_like_a_circle() {
    let t = timings();
    let mut s = slider_at(2_000_000);
    s.update(&time_only(2_149_499), &t);
    assert_eq!(HitState::Ready, s.hit_state());
    s.update(&time_only(2_149_500), &t);
    assert_eq!(HitState::Hit(HitSuccess::Miss), s.hit_state());
    assert_eq!(2_149_500, s.time_hit);
    s.update(&time_only(2_448_501), &t);
    assert_eq!(HitState::DoneDrawing(HitSuccess::Miss), s.hit_state());
}

#[test]
fn hitobject_dispatches_to_both_variants() {
    let t = timings();
    let mut circle = HitObject::HitCircle(circle_at(2_000_000));
    let mut slider = HitObject::Slider(slider_at(2_000_000));
    assert_eq!(2_000_000, circle.time());
    assert_eq!(2_000_000, slider.time());
    assert_eq!(UpdateResult::InputConsumed, circle.update(&press_at(2_000_000, 0, 0), &t));
    assert_eq!(UpdateResult::InputConsumed, slider.update(&press_at(2_000_000, 0, 0), &t));
    assert_eq!(HitState::Hit(HitSuccess::Great), circle.hit_state());
    assert_eq!(HitState::Hit(HitSuccess::Great), slider.hit_state());
    assert_eq!(Pix2D { x: 0, y: 0 }, slider.screen_position());
}
