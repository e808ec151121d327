//! Input pipeline tests: snapshot edges, the diff combinators, and the
//! queue's floor of two snapshots.

use osru_core::input::{ActionKey, InputEvent, InputManager, InputSnapshot, InputUpdate};
use osru_core::pixel::Pix2D;

fn snap(k1: bool, k2: bool, m1: bool, m2: bool, time: u64) -> InputSnapshot {
    InputSnapshot {
        K1: k1,
        K2: k2,
        M1: m1,
        M2: m2,
        time,
        mouse_position: Pix2D { x: 0, y: 0 },
    }
}

#[test]
fn edges_of_single_buttons() {
    let up = snap(false, false, false, false, 0);
    let down = snap(true, false, false, true, 10);

    let press = InputUpdate::new(&up, &down);
    assert!(press.K1_pressed());
    assert!(!press.K2_pressed());
    assert!(!press.M1_pressed());
    assert!(press.M2_pressed());
    assert!(!press.K1_released());
    assert!(!press.K1_held());

    let release = InputUpdate::new(&down, &up);
    assert!(release.K1_released());
    assert!(release.M2_released());
    assert!(!release.K2_released());
    assert!(!release.M1_released());
    assert!(!release.K1_pressed());

    let hold = InputUpdate::new(&down, &down);
    assert!(hold.K1_held());
    assert!(hold.M2_held());
    assert!(!hold.K2_held());
    assert!(!hold.M1_held());
    assert!(!hold.K1_pressed());
    assert!(!hold.K1_released());
}

#[test]
fn combined_action_edges_or_key_and_mouse() {
    let none = snap(false, false, false, false, 0);
    let key_only = snap(true, false, false, false, 10);
    let mouse_only = snap(false, false, true, false, 20);

    // Key press counts as the first action going down.
    assert!(InputUpdate::new(&none, &key_only).K1M1_pressed());
    // Mouse press counts too.
    assert!(InputUpdate::new(&none, &mouse_only).K1M1_pressed());
    // Switching from key to mouse is no new press: the action was already
    // down.
    let switch = InputUpdate::new(&key_only, &mouse_only);
    assert!(!switch.K1M1_pressed());
    assert!(switch.K1M1_held());
    assert!(!switch.K1M1_released());
    // Letting both go releases the action.
    assert!(InputUpdate::new(&mouse_only, &none).K1M1_released());
    // The second action pair is independent.
    assert!(!InputUpdate::new(&none, &key_only).K2M2_pressed());
    let k2 = snap(false, true, false, false, 10);
    assert!(InputUpdate::new(&none, &k2).K2M2_pressed());
}

#[test]
fn update_accessors_expose_both_samples() {
    let a = InputSnapshot {
        time: 5,
        mouse_position: Pix2D { x: 1, y: 2 },
        ..InputSnapshot::default()
    };
    let b = InputSnapshot {
        time: 9,
        mouse_position: Pix2D { x: 3, y: 4 },
        ..InputSnapshot::default()
    };
    let u = InputUpdate::new(&a, &b);
    assert_eq!(5, u.previous_time());
    assert_eq!(9, u.current_time());
    assert_eq!(&Pix2D { x: 1, y: 2 }, u.previous_mouse_pos());
    assert_eq!(&Pix2D { x: 3, y: 4 }, u.current_mouse_pos());
}

#[test]
fn snapshot_copy_and_new_from() {
    let a = snap(true, false, true, false, 42);
    let b = InputSnapshot::new_from(&a);
    assert_eq!(a, b);
    let mut c = InputSnapshot::default();
    c.copy(&a);
    assert_eq!(a, c);
    assert!(a.K1() && !a.K2() && a.M1() && !a.M2());
    assert_eq!(42, a.time());
}

#[test]
fn queue_never_drops_below_two() {
    let mut im = InputManager::new();
    assert_eq!(2, im.pending_snapshots.len());
    // Popping a fresh pipeline yields nothing and keeps the pair.
    assert!(im.pop_snapshot().is_none());
    assert_eq!(2, im.pending_snapshots.len());
    assert!(im.next_update().is_none());
    assert_eq!(2, im.pending_snapshots.len());

    // However hard the queue is drained after heavy polling, it keeps two.
    for i in 0..100u64 {
        im.handle_event(&InputEvent::TimeOnly, i * 10);
    }
    assert_eq!(102, im.pending_snapshots.len());
    while im.pop_snapshot().is_some() {}
    assert_eq!(2, im.pending_snapshots.len());

    for i in 0..10u64 {
        im.handle_event(&InputEvent::MouseMotion { x: i as i64, y: 0 }, 1_000 + i);
    }
    im.clear();
    assert_eq!(2, im.pending_snapshots.len());
}

#[test]
fn events_append_snapshots_with_fields_overwritten() {
    let mut im = InputManager::new();
    im.handle_event(&InputEvent::MouseMotion { x: 7, y: 9 }, 100);
    assert_eq!(3, im.pending_snapshots.len());
    assert_eq!(Pix2D { x: 7, y: 9 }, im.pending_snapshots[2].mouse_position);
    assert_eq!(100, im.pending_snapshots[2].time);

    im.handle_event(&InputEvent::KeyDown { key: Some(ActionKey::First) }, 200);
    assert!(im.pending_snapshots[3].K1);
    assert!(!im.pending_snapshots[3].K2);
    // The pointer position is carried forward.
    assert_eq!(Pix2D { x: 7, y: 9 }, im.pending_snapshots[3].mouse_position);

    im.handle_event(&InputEvent::KeyDown { key: Some(ActionKey::Second) }, 300);
    assert!(im.pending_snapshots[4].K1 && im.pending_snapshots[4].K2);

    im.handle_event(&InputEvent::KeyUp { key: Some(ActionKey::First) }, 400);
    assert!(!im.pending_snapshots[5].K1 && im.pending_snapshots[5].K2);

    // A key that is no action key still refreshes the timestamp.
    im.handle_event(&InputEvent::KeyDown { key: None }, 500);
    assert_eq!(500, im.pending_snapshots[6].time);
    assert!(im.pending_snapshots[6].K2);

    // An unrecognized event appends nothing.
    im.handle_event(&InputEvent::Ignored, 600);
    assert_eq!(7, im.pending_snapshots.len());
}

#[test]
fn next_update_consumes_one_snapshot_and_forms_the_pair() {
    let mut im = InputManager::new();
    im.handle_event(&InputEvent::MouseMotion { x: 5, y: 5 }, 100);
    im.handle_event(&InputEvent::KeyDown { key: Some(ActionKey::First) }, 200);
    assert_eq!(4, im.pending_snapshots.len());

    // The pair is (oldest remaining, next): after one pop that is the
    // initial snapshot and the mouse move.
    let u = im.next_update().unwrap();
    assert_eq!(3, im.pending_snapshots.len());
    assert_eq!(0, u.previous_time());
    assert_eq!(100, u.current_time());
    assert!(!u.K1M1_pressed());

    let u = im.next_update().unwrap();
    assert_eq!(2, im.pending_snapshots.len());
    assert_eq!(100, u.previous_time());
    assert_eq!(200, u.current_time());
    assert!(u.K1M1_pressed());

    assert!(im.next_update().is_none());

    // last_update reads without consuming.
    let u = im.last_update();
    assert_eq!(100, u.previous_time());
    assert_eq!(200, u.current_time());
    assert_eq!(2, im.pending_snapshots.len());
    assert_eq!(100, im.prev_snapshot().time());
    assert_eq!(200, im.curr_snapshot().time());
}

#[test]
fn force_time_update_carries_state_forward() {
    let mut im = InputManager::new();
    im.handle_event(&InputEvent::KeyDown { key: Some(ActionKey::First) }, 100);
    im.force_time_update(250);
    let n = im.pending_snapshots.len();
    assert_eq!(4, n);
    assert_eq!(250, im.pending_snapshots[n - 1].time);
    // The key state is carried forward: a forced update makes no edge.
    assert!(im.pending_snapshots[n - 1].K1);
    let prev = im.pending_snapshots[n - 2];
    let latest = im.pending_snapshots[n - 1];
    assert!(!InputUpdate::new(&prev, &latest).K1_pressed());
}
