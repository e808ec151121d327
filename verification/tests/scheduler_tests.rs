//! End-to-end scheduler scenarios: a session driven frame by frame through
//! the input pipeline and the object sequence.

use osru_core::beatmap::Beatmap;
use osru_core::hitcircle::HitCircle;
use osru_core::hitobject::{HitObject, HitState, HitSuccess};
use osru_core::input::{ActionKey, InputEvent, InputManager};
use osru_core::pixel::{Pix2D, PixRect};
use osru_core::timing::{OsruAR, OsruOD};

fn viewport() -> PixRect {
    // Same size as the nominal window: the level-to-screen mapping is the
    // identity.
    PixRect::new(0, 0, 640, 480)
}

fn single_circle_beatmap(hit_time: u64, x: i64, y: i64) -> Beatmap {
    let mut b = Beatmap::new();
    let circle = HitCircle {
        position: Pix2D { x, y },
        time: hit_time,
        ..HitCircle::default()
    };
    b.hitobjects.push(HitObject::HitCircle(circle));
    b.prepare(&viewport(), OsruOD(500), OsruAR(500));
    b
}

fn tally(b: &Beatmap) -> (u32, u32, u32, u32, u32) {
    let mut great = 0;
    let mut good = 0;
    let mut meh = 0;
    let mut miss = 0;
    let mut unknown = 0;
    for obj in &b.hitobjects {
        if let HitState::DoneDrawing(v) = obj.hit_state() {
            match v {
                HitSuccess::Great => great += 1,
                HitSuccess::Good => good += 1,
                HitSuccess::Meh => meh += 1,
                HitSuccess::Miss => miss += 1,
            }
        } else {
            unknown += 1;
        }
    }
    (great, good, meh, miss, unknown)
}

#[test]
fn single_circle_without_input_resolves_miss() {
    // A single circle at 2000 ms, judgement difficulty 5, no input events:
    // NotDrawing -> Ready -> Hit(Miss) -> DoneDrawing, tally one miss, and
    // the session reports done.
    let mut b = single_circle_beatmap(2_000_000, 100, 100);
    let mut im = InputManager::new();
    assert_eq!(HitState::NotDrawing, b.hitobjects[0].hit_state());

    let mut saw_ready = false;
    let mut saw_hit_miss = false;
    let mut done_at = None;
    let mut t: u64 = 0;
    while t <= 3_000_000 {
        b.full_update(&mut im, t);
        match b.hitobjects[0].hit_state() {
            HitState::Ready => saw_ready = true,
            HitState::Hit(HitSuccess::Miss) => saw_hit_miss = true,
            HitState::DoneDrawing(_) => {
                if done_at.is_none() {
                    done_at = Some(t);
                }
            },
            _ => (),
        }
        t += 10_000;
    }
    assert!(saw_ready);
    assert!(saw_hit_miss);
    assert!(done_at.is_some());
    assert_eq!(HitState::DoneDrawing(HitSuccess::Miss), b.hitobjects[0].hit_state());
    // The judgement timestamp is pinned to the end of the Meh window, so the
    // fade-out ends 2 * 149_500 after 2_149_500.
    assert!(done_at.unwrap() <= 2_460_000);
    assert_eq!((0, 0, 0, 1, 0), tally(&b));
    assert!(b.is_done());
}

#[test]
fn single_circle_with_qualifying_press_resolves_great() {
    // A single circle at 2000 ms; a qualifying press delivered at exactly
    // 2000 ms with the pointer on the circle resolves Great, and exactly one
    // input edge is consumed (the update cursor advances exactly once).
    let mut b = single_circle_beatmap(2_000_000, 100, 100);
    let mut im = InputManager::new();

    let mut t: u64 = 0;
    while t < 2_000_000 {
        b.full_update(&mut im, t);
        assert_eq!(0, b.update_start_index);
        t += 100_000;
    }
    im.handle_event(&InputEvent::MouseMotion { x: 100, y: 100 }, 1_999_000);
    im.handle_event(&InputEvent::KeyDown { key: Some(ActionKey::First) }, 2_000_000);
    b.full_update(&mut im, 2_000_000);
    assert_eq!(HitState::Hit(HitSuccess::Great), b.hitobjects[0].hit_state());
    // The consuming update advanced the cursor past the object: the one
    // press was consumed exactly once.
    assert_eq!(1, b.update_start_index);

    while t <= 2_400_000 {
        b.full_update(&mut im, t);
        t += 10_000;
    }
    assert_eq!((1, 0, 0, 0, 0), tally(&b));
    assert!(b.is_done());
}

#[test]
fn cursors_never_decrease_across_a_session() {
    let mut b = Beatmap::new();
    b.hitobjects.push(HitObject::HitCircle(HitCircle {
        position: Pix2D { x: 100, y: 100 },
        time: 2_000_000,
        ..HitCircle::default()
    }));
    b.hitobjects.push(HitObject::HitCircle(HitCircle {
        position: Pix2D { x: 300, y: 200 },
        time: 2_600_000,
        ..HitCircle::default()
    }));
    b.prepare(&viewport(), OsruOD(500), OsruAR(500));

    let mut im = InputManager::new();
    let mut last_update_cursor = 0;
    let mut last_draw_end = 0;
    let mut t: u64 = 0;
    while t <= 3_300_000 {
        b.full_update(&mut im, t);
        assert!(b.update_start_index >= last_update_cursor);
        assert!(b.draw_end_index >= last_draw_end);
        let (start, end) = b.draw_range();
        assert!(start <= end && end <= b.hitobjects.len());
        last_update_cursor = b.update_start_index;
        last_draw_end = b.draw_end_index;
        t += 10_000;
    }
    assert_eq!((0, 0, 0, 2, 0), tally(&b));
    assert!(b.is_done());
}

#[test]
fn draw_range_stops_at_first_invisible_object() {
    // Two objects far apart: while the first is visible the second is not,
    // and the render range must not extend past it.
    let mut b = Beatmap::new();
    b.hitobjects.push(HitObject::HitCircle(HitCircle {
        position: Pix2D { x: 100, y: 100 },
        time: 2_000_000,
        ..HitCircle::default()
    }));
    b.hitobjects.push(HitObject::HitCircle(HitCircle {
        position: Pix2D { x: 300, y: 200 },
        time: 9_000_000,
        ..HitCircle::default()
    }));
    b.prepare(&viewport(), OsruOD(500), OsruAR(500));
    let mut im = InputManager::new();
    b.full_update(&mut im, 1_000_000);
    // The first object is fading in, the second still invisible.
    assert_eq!(HitState::Ready, b.hitobjects[0].hit_state());
    assert_eq!(HitState::NotDrawing, b.hitobjects[1].hit_state());
    // The range covers every non-done object touched, the first invisible
    // one included; the scan stopped there.
    assert_eq!((0, 2), b.draw_range());
    assert!(!b.is_done());
}

#[test]
fn quit_event_is_terminal() {
    let mut im = InputManager::new();
    assert!(im.is_running());
    im.handle_event(&InputEvent::MouseMotion { x: 1, y: 1 }, 100);
    assert!(im.is_running());
    im.handle_event(&InputEvent::Quit, 200);
    assert!(!im.is_running());
    // The flag is monotone: nothing turns it back on.
    im.handle_event(&InputEvent::KeyDown { key: Some(ActionKey::Second) }, 300);
    assert!(!im.is_running());
}
