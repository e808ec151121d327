//! Input snapshot pipeline: immutable samples of the full device state, the
//! diff of two adjacent samples, and the queue that guarantees a diff can
//! always be formed.

#![allow(non_snake_case)]

use vstd::prelude::*;

use crate::pixel::{Pix2D, SCREEN_COORD_LIMIT};
use crate::time::ReferenceTime;
use std::collections::VecDeque;

verus! {

/// Whether a poll call found a device event to consume.
#[derive(Eq, PartialEq, Debug, Structural)]
pub enum PollResult {
    Success,
    Failed,
}

/// The two logical action buttons on the keyboard.
#[derive(Eq, PartialEq, Debug, Copy, Clone, Structural)]
pub enum ActionKey {
    First,
    Second,
}

/// A device event, already reduced to the fields the pipeline reads. The
/// platform layer translates its own event type into this one; a key event
/// whose key is no action key still refreshes the timestamp, and a repeated
/// key event must be handed in as `Ignored`.
#[derive(Debug, Copy, Clone, PartialEq, Eq, Structural)]
pub enum InputEvent {
    /// A quit request or the escape key: ends the session.
    Quit,
    /// The pointer moved to this screen position.
    MouseMotion { x: i64, y: i64 },
    /// A non-repeated key went down; `None` when it is no action key.
    KeyDown { key: Option<ActionKey> },
    /// A non-repeated key went up; `None` when it is no action key.
    KeyUp { key: Option<ActionKey> },
    /// A user event: refreshes the timestamp only.
    TimeOnly,
    /// Any other event: consumed without effect.
    Ignored,
}

/// An immutable sample of the full input-device state at one instant:
/// two key states, two pointer-button states, a session-relative timestamp
/// in microseconds, and the pointer position.
#[derive(Debug, Copy, Clone, PartialEq, Eq, Structural)]
pub struct InputSnapshot {
    pub K1: bool,
    pub K2: bool,
    pub M1: bool,
    pub M2: bool,
    pub time: u64,
    pub mouse_position: Pix2D,
}

impl InputSnapshot {
    /// The pointer position stays within the screen-space bounds the capture
    /// test needs.
    pub open spec fn wf(self) -> bool {
        self.mouse_position.screen_bounded()
    }

    pub fn new_from(other: &InputSnapshot) -> (r: InputSnapshot)
        ensures
            r == *other,
    {
        *other
    }

    pub fn copy(&mut self, other: &InputSnapshot)
        ensures
            *final(self) == *other,
    {
        self.K1 = other.K1;
        self.K2 = other.K2;
        self.M1 = other.M1;
        self.M2 = other.M2;
        self.time = other.time;
        self.mouse_position = other.mouse_position;
    }

    pub fn K1(&self) -> (r: bool)
        ensures
            r == self.K1,
    {
        self.K1
    }

    pub fn K2(&self) -> (r: bool)
        ensures
            r == self.K2,
    {
        self.K2
    }

    pub fn M1(&self) -> (r: bool)
        ensures
            r == self.M1,
    {
        self.M1
    }

    pub fn M2(&self) -> (r: bool)
        ensures
            r == self.M2,
    {
        self.M2
    }

    pub fn time(&self) -> (r: u64)
        ensures
            r == self.time,
    {
        self.time
    }

    pub fn mouse_position(&self) -> (r: &Pix2D)
        ensures
            *r == self.mouse_position,
    {
        &self.mouse_position
    }
}

impl Default for InputSnapshot {
    fn default() -> (r: InputSnapshot)
        ensures
            r == (InputSnapshot {
                K1: false,
                K2: false,
                M1: false,
                M2: false,
                time: 0,
                mouse_position: Pix2D { x: 0, y: 0 },
            }),
            r.wf(),
    {
        InputSnapshot {
            K1: false,
            K2: false,
            M1: false,
            M2: false,
            time: 0,
            mouse_position: Pix2D { x: 0, y: 0 },
        }
    }
}

/// The diff of two adjacent snapshots. It holds copies of both samples and
/// derives press, release and held edges on demand; it is never persisted.
#[derive(Debug, Copy, Clone)]
pub struct InputUpdate {
    pub previous: InputSnapshot,
    pub current: InputSnapshot,
}

impl InputUpdate {
    /// Both samples are well formed and the pair is in time order.
    pub open spec fn wf(self) -> bool {
        &&& self.previous.wf()
        &&& self.current.wf()
        &&& self.previous.time <= self.current.time
    }

    /// The first action (key or pointer button) went down on this update.
    pub open spec fn spec_K1M1_pressed(self) -> bool {
        (self.current.K1 || self.current.M1) && !(self.previous.K1 || self.previous.M1)
    }

    /// The second action (key or pointer button) went down on this update.
    pub open spec fn spec_K2M2_pressed(self) -> bool {
        (self.current.K2 || self.current.M2) && !(self.previous.K2 || self.previous.M2)
    }

    /// Some action went down on this update: the edge that can judge an
    /// object.
    pub open spec fn spec_action_pressed(self) -> bool {
        self.spec_K1M1_pressed() || self.spec_K2M2_pressed()
    }

    /// A diff never outlives its samples here: it owns copies of both.
    pub fn new(previous: &InputSnapshot, current: &InputSnapshot) -> (r: InputUpdate)
        ensures
            r.previous == *previous,
            r.current == *current,
    {
        InputUpdate { previous: *previous, current: *current }
    }

    pub fn K1_pressed(&self) -> (r: bool)
        ensures
            r == (self.current.K1 && !self.previous.K1),
    {
        self.current.K1() && !self.previous.K1()
    }

    pub fn K2_pressed(&self) -> (r: bool)
        ensures
            r == (self.current.K2 && !self.previous.K2),
    {
        self.current.K2() && !self.previous.K2()
    }

    pub fn M1_pressed(&self) -> (r: bool)
        ensures
            r == (self.current.M1 && !self.previous.M1),
    {
        self.current.M1() && !self.previous.M1()
    }

    pub fn M2_pressed(&self) -> (r: bool)
        ensures
            r == (self.current.M2 && !self.previous.M2),
    {
        self.current.M2() && !self.previous.M2()
    }

    pub fn K1_released(&self) -> (r: bool)
        ensures
            r == (self.previous.K1 && !self.current.K1),
    {
        self.previous.K1() && !self.current.K1()
    }

    pub fn K2_released(&self) -> (r: bool)
        ensures
            r == (self.previous.K2 && !self.current.K2),
    {
        self.previous.K2() && !self.current.K2()
    }

    pub fn M1_released(&self) -> (r: bool)
        ensures
            r == (self.previous.M1 && !self.current.M1),
    {
        self.previous.M1() && !self.current.M1()
    }

    pub fn M2_released(&self) -> (r: bool)
        ensures
            r == (self.previous.M2 && !self.current.M2),
    {
        self.previous.M2() && !self.current.M2()
    }

    pub fn K1_held(&self) -> (r: bool)
        ensures
            r == (self.current.K1 && self.previous.K1),
    {
        self.current.K1() && self.previous.K1()
    }

    pub fn K2_held(&self) -> (r: bool)
        ensures
            r == (self.current.K2 && self.previous.K2),
    {
        self.current.K2() && self.previous.K2()
    }

    pub fn M1_held(&self) -> (r: bool)
        ensures
            r == (self.current.M1 && self.previous.M1),
    {
        self.current.M1() && self.previous.M1()
    }

    pub fn M2_held(&self) -> (r: bool)
        ensures
            r == (self.current.M2 && self.previous.M2),
    {
        self.current.M2() && self.previous.M2()
    }

    pub fn K1M1_pressed(&self) -> (r: bool)
        ensures
            r == self.spec_K1M1_pressed(),
    {
        (self.current.K1() || self.current.M1()) && !(self.previous.K1() || self.previous.M1())
    }

    pub fn K1M1_released(&self) -> (r: bool)
        ensures
            r == (!(self.current.K1 || self.current.M1) && (self.previous.K1 || self.previous.M1)),
    {
        !(self.current.K1() || self.current.M1()) && (self.previous.K1() || self.previous.M1())
    }

    pub fn K1M1_held(&self) -> (r: bool)
        ensures
            r == ((self.current.K1 || self.current.M1) && (self.previous.K1 || self.previous.M1)),
    {
        (self.current.K1() || self.current.M1()) && (self.previous.K1() || self.previous.M1())
    }

    pub fn K2M2_pressed(&self) -> (r: bool)
        ensures
            r == self.spec_K2M2_pressed(),
    {
        (self.current.K2() || self.current.M2()) && !(self.previous.K2() || self.previous.M2())
    }

    pub fn K2M2_released(&self) -> (r: bool)
        ensures
            r == (!(self.current.K2 || self.current.M2) && (self.previous.K2 || self.previous.M2)),
    {
        !(self.current.K2() || self.current.M2()) && (self.previous.K2() || self.previous.M2())
    }

    pub fn K2M2_held(&self) -> (r: bool)
        ensures
            r == ((self.current.K2 || self.current.M2) && (self.previous.K2 || self.previous.M2)),
    {
        (self.current.K2() || self.current.M2()) && (self.previous.K2() || self.previous.M2())
    }

    pub fn current_time(&self) -> (r: u64)
        ensures
            r == self.current.time,
    {
        self.current.time()
    }

    pub fn previous_time(&self) -> (r: u64)
        ensures
            r == self.previous.time,
    {
        self.previous.time()
    }

    pub fn current_mouse_pos(&self) -> (r: &Pix2D)
        ensures
            *r == self.current.mouse_position,
    {
        self.current.mouse_position()
    }

    pub fn previous_mouse_pos(&self) -> (r: &Pix2D)
        ensures
            *r == self.previous.mouse_position,
    {
        self.previous.mouse_position()
    }
}

} // verus!

verus! {

/// The input pipeline: an ordered queue of snapshots, oldest first, plus the
/// monotone session-termination flag and the session's reference time. The
/// queue always holds at least two snapshots, so the diff of (previous,
/// current) = (queue[0], queue[1]) can always be formed; the platform layer
/// feeds it events through `handle_event`.
pub struct InputManager {
    pub keep_running: bool,
    pub reference_time: Option<ReferenceTime>,
    pub pending_snapshots: VecDeque<InputSnapshot>,
}

/// The snapshot an event turns the latest snapshot into: the relevant field
/// overwritten and the timestamp set to `now`. Only meaningful for the
/// events that append a snapshot.
pub open spec fn spec_event_snapshot(latest: InputSnapshot, event: InputEvent, now: u64)
    -> InputSnapshot {
    match event {
        InputEvent::MouseMotion { x, y } => InputSnapshot {
            time: now,
            mouse_position: Pix2D { x, y },
            ..latest
        },
        InputEvent::KeyDown { key } => match key {
            Some(ActionKey::First) => InputSnapshot { time: now, K1: true, ..latest },
            Some(ActionKey::Second) => InputSnapshot { time: now, K2: true, ..latest },
            None => InputSnapshot { time: now, ..latest },
        },
        InputEvent::KeyUp { key } => match key {
            Some(ActionKey::First) => InputSnapshot { time: now, K1: false, ..latest },
            Some(ActionKey::Second) => InputSnapshot { time: now, K2: false, ..latest },
            None => InputSnapshot { time: now, ..latest },
        },
        InputEvent::TimeOnly => InputSnapshot { time: now, ..latest },
        InputEvent::Quit => latest,
        InputEvent::Ignored => latest,
    }
}

/// Whether an event appends a snapshot to the queue: quit requests and
/// unrecognized events do not.
pub open spec fn spec_event_pushes(event: InputEvent) -> bool {
    !(event matches InputEvent::Quit || event matches InputEvent::Ignored)
}

impl InputManager {
    /// The queue invariant: never below two snapshots, timestamps
    /// non-decreasing oldest-first, and every snapshot well formed.
    pub open spec fn wf(self) -> bool {
        &&& self.pending_snapshots@.len() >= 2
        &&& forall|i: int, j: int|
            #![trigger self.pending_snapshots@[i].time, self.pending_snapshots@[j].time]
            0 <= i <= j < self.pending_snapshots@.len() ==> self.pending_snapshots@[i].time
                <= self.pending_snapshots@[j].time
        &&& forall|i: int|
            0 <= i < self.pending_snapshots@.len() ==> (
            #[trigger] self.pending_snapshots@[i]).wf()
    }

    /// The timestamp of the current snapshot — the one every update formed
    /// now would carry.
    pub open spec fn spec_curr_time(self) -> u64 {
        self.pending_snapshots@[1].time
    }

    /// The timestamp of the newest snapshot.
    pub open spec fn spec_latest_time(self) -> u64 {
        self.pending_snapshots@.last().time
    }

    /// A fresh pipeline: an initial default pair in the queue, the session
    /// running, no reference time yet.
    pub fn new() -> (r: InputManager)
        ensures
            r.keep_running,
            (r.reference_time is None),
            r.pending_snapshots@.len() == 2,
            r.pending_snapshots@[0] == (InputSnapshot {
                K1: false,
                K2: false,
                M1: false,
                M2: false,
                time: 0,
                mouse_position: Pix2D { x: 0, y: 0 },
            }),
            r.pending_snapshots@[1] == r.pending_snapshots@[0],
            r.wf(),
    {
        let mut pending_snapshots: VecDeque<InputSnapshot> = VecDeque::new();
        pending_snapshots.push_back(InputSnapshot::default());
        pending_snapshots.push_back(InputSnapshot::default());
        InputManager { keep_running: true, reference_time: None, pending_snapshots }
    }

    /// Installs the session's reference time, once the platform layer has
    /// observed the first timestamped event.
    pub fn set_reference_time(&mut self, reference: ReferenceTime)
        ensures
            final(self).reference_time == Some(reference),
            final(self).keep_running == old(self).keep_running,
            final(self).pending_snapshots == old(self).pending_snapshots,
    {
        self.reference_time = Some(reference);
    }

    /// Marks the current moment as the session start.
    pub fn start_timer(&mut self)
        requires
            (old(self).reference_time is Some),
        ensures
            (final(self).reference_time is Some),
            final(self).keep_running == old(self).keep_running,
            final(self).pending_snapshots == old(self).pending_snapshots,
    {
        match &mut self.reference_time {
            Some(rt) => rt.start(),
            None => (),
        }
    }

    /// The session's reference time. Asking before it is installed is a
    /// caller error.
    pub fn reference_time(&self) -> (r: &ReferenceTime)
        requires
            (self.reference_time is Some),
        ensures
            Some(*r) == self.reference_time,
    {
        match &self.reference_time {
            Some(rt) => rt,
            None => unreached(),
        }
    }

    /// The older snapshot of the pair every update is formed from.
    pub fn prev_snapshot(&self) -> (r: &InputSnapshot)
        requires
            self.wf(),
        ensures
            *r == self.pending_snapshots@[0],
    {
        &self.pending_snapshots[0]
    }

    /// The newer snapshot of the pair every update is formed from.
    pub fn curr_snapshot(&self) -> (r: &InputSnapshot)
        requires
            self.wf(),
        ensures
            *r == self.pending_snapshots@[1],
    {
        &self.pending_snapshots[1]
    }

    fn len(&self) -> (r: usize)
        ensures
            r == self.pending_snapshots@.len(),
    {
        self.pending_snapshots.len()
    }

    /// The newest snapshot: the one a forced time update just appended.
    pub fn latest_snapshot(&self) -> (r: &InputSnapshot)
        requires
            self.wf(),
        ensures
            *r == self.pending_snapshots@.last(),
    {
        let n = self.pending_snapshots.len();
        &self.pending_snapshots[n - 1]
    }

    /// Appends a snapshot; the queue stays ordered, so the timestamp must
    /// not precede the newest one.
    fn push_snapshot(&mut self, snapshot: InputSnapshot)
        requires
            old(self).wf(),
            snapshot.wf(),
            old(self).spec_latest_time() <= snapshot.time,
        ensures
            final(self).pending_snapshots@ == old(self).pending_snapshots@.push(snapshot),
            final(self).keep_running == old(self).keep_running,
            final(self).reference_time == old(self).reference_time,
            final(self).wf(),
    {
        self.pending_snapshots.push_back(snapshot);
    }

    /// Removes and returns the oldest snapshot, but only while at least
    /// three remain: the queue never drops below the two snapshots an update
    /// needs.
    pub fn pop_snapshot(&mut self) -> (r: Option<InputSnapshot>)
        requires
            old(self).wf(),
        ensures
            old(self).pending_snapshots@.len() > 2 ==> r == Some(old(self).pending_snapshots@[0])
                && final(self).pending_snapshots@ == old(self).pending_snapshots@.subrange(
                1,
                old(self).pending_snapshots@.len() as int,
            ),
            old(self).pending_snapshots@.len() <= 2 ==> (r is None) && final(
                self).pending_snapshots@ == old(self).pending_snapshots@,
            final(self).pending_snapshots@.len() >= 2,
            final(self).keep_running == old(self).keep_running,
            final(self).reference_time == old(self).reference_time,
            final(self).wf(),
            old(self).spec_curr_time() <= final(self).spec_curr_time(),
            final(self).pending_snapshots@.last() == old(self).pending_snapshots@.last(),
    {
        if self.len() > 2 {
            let r = self.pending_snapshots.pop_front();
            proof {
                assert(self.pending_snapshots@.last() == old(
                    self,
                ).pending_snapshots@.subrange(1, old(self).pending_snapshots@.len() as int).last());
            }
            r
        } else {
            None
        }
    }

    /// Drains the queue down to the two newest snapshots.
    pub fn clear(&mut self)
        requires
            old(self).wf(),
        ensures
            final(self).pending_snapshots@ == old(self).pending_snapshots@.subrange(
                old(self).pending_snapshots@.len() - 2,
                old(self).pending_snapshots@.len() as int,
            ),
            final(self).keep_running == old(self).keep_running,
            final(self).reference_time == old(self).reference_time,
            final(self).wf(),
    {
        let ghost orig = self.pending_snapshots@;
        let ghost orig_keep = self.keep_running;
        let ghost orig_ref = self.reference_time;
        proof {
            assert(self.pending_snapshots@ =~= orig.subrange(0, orig.len() as int));
        }
        while self.pending_snapshots.len() > 2
            invariant
                self.wf(),
                self.keep_running == orig_keep,
                self.reference_time == orig_ref,
                self.pending_snapshots@.len() <= orig.len(),
                self.pending_snapshots@ == orig.subrange(
                    orig.len() - self.pending_snapshots@.len(),
                    orig.len() as int,
                ),
            decreases self.pending_snapshots@.len(),
        {
            let ghost pre = self.pending_snapshots@;
            let _ = self.pop_snapshot();
            proof {
                assert forall|i: int| 0 <= i < self.pending_snapshots@.len() implies
                    self.pending_snapshots@[i] == orig[orig.len() - self.pending_snapshots@.len() + i] by {
                    assert(pre.subrange(1, pre.len() as int)[i] == pre[i + 1]);
                    assert(orig.subrange(orig.len() - pre.len(), orig.len() as int)[i + 1] == orig[
                        orig.len() - pre.len() + i + 1]);
                }
                assert(self.pending_snapshots@ =~= orig.subrange(
                    orig.len() - self.pending_snapshots@.len(),
                    orig.len() as int,
                ));
            }
        }
    }

    /// Consumes the oldest snapshot and hands out the next update, formed
    /// from the two oldest snapshots that remain; `None` once no snapshot
    /// can be spared.
    pub fn next_update(&mut self) -> (r: Option<InputUpdate>)
        requires
            old(self).wf(),
        ensures
            (r is Some) == (old(self).pending_snapshots@.len() > 2),
            r matches Some(u) ==> u.previous == old(self).pending_snapshots@[1] && u.current == old(
                self,
            ).pending_snapshots@[2] && u.wf() && u.current.time == final(self).spec_curr_time(),
            old(self).pending_snapshots@.len() > 2 ==> final(self).pending_snapshots@ == old(
                self,
            ).pending_snapshots@.subrange(1, old(self).pending_snapshots@.len() as int),
            old(self).pending_snapshots@.len() <= 2 ==> final(self).pending_snapshots@ == old(
                self,
            ).pending_snapshots@,
            final(self).keep_running == old(self).keep_running,
            final(self).reference_time == old(self).reference_time,
            final(self).wf(),
            old(self).spec_curr_time() <= final(self).spec_curr_time(),
            final(self).pending_snapshots@.last() == old(self).pending_snapshots@.last(),
    {
        match self.pop_snapshot() {
            Some(_snapshot) => Some(self.last_update()),
            None => None,
        }
    }

    /// The update formed from the two oldest snapshots, without consuming
    /// anything.
    pub fn last_update(&self) -> (r: InputUpdate)
        requires
            self.wf(),
        ensures
            r.previous == self.pending_snapshots@[0],
            r.current == self.pending_snapshots@[1],
            r.wf(),
    {
        InputUpdate::new(self.prev_snapshot(), self.curr_snapshot())
    }

    /// Appends a snapshot that carries the latest state forward under a
    /// fresh timestamp, so that time progresses once per frame even with no
    /// device events. The caller supplies the session clock, which must not
    /// run backwards.
    pub fn force_time_update(&mut self, now: u64)
        requires
            old(self).wf(),
            old(self).spec_latest_time() <= now,
        ensures
            final(self).pending_snapshots@ == old(self).pending_snapshots@.push(
                InputSnapshot { time: now, ..old(self).pending_snapshots@.last() },
            ),
            final(self).keep_running == old(self).keep_running,
            final(self).reference_time == old(self).reference_time,
            final(self).wf(),
            final(self).spec_curr_time() >= old(self).spec_curr_time(),
    {
        let mut new_snap = InputSnapshot::new_from(self.latest_snapshot());
        new_snap.time = now;
        self.push_snapshot(new_snap);
    }

    /// Applies one device event, already translated by the platform layer:
    /// a quit request clears the running flag; most other events append a
    /// snapshot cloned from the latest with the relevant field overwritten
    /// and the timestamp set to `now`. The session clock must not run
    /// backwards, and pointer coordinates must be on screen.
    pub fn handle_event(&mut self, event: &InputEvent, now: u64)
        requires
            old(self).wf(),
            old(self).spec_latest_time() <= now,
            *event matches InputEvent::MouseMotion { x, y } ==> -SCREEN_COORD_LIMIT <= x
                <= SCREEN_COORD_LIMIT && -SCREEN_COORD_LIMIT <= y <= SCREEN_COORD_LIMIT,
        ensures
            final(self).keep_running == (old(self).keep_running && !(*event
                matches InputEvent::Quit)),
            final(self).reference_time == old(self).reference_time,
            spec_event_pushes(*event) ==> final(self).pending_snapshots@ == old(
                self,
            ).pending_snapshots@.push(
                spec_event_snapshot(old(self).pending_snapshots@.last(), *event, now),
            ),
            !spec_event_pushes(*event) ==> final(self).pending_snapshots@ == old(
                self,
            ).pending_snapshots@,
            final(self).wf(),
    {
        let mut new_snap = InputSnapshot::new_from(self.latest_snapshot());
        new_snap.time = now;

        match event {
            InputEvent::Quit => {
                self.keep_running = false;
            },
            InputEvent::MouseMotion { x, y } => {
                new_snap.mouse_position = Pix2D { x: *x, y: *y };
                self.push_snapshot(new_snap);
            },
            InputEvent::KeyDown { key } => {
                match key {
                    Some(ActionKey::First) => new_snap.K1 = true,
                    Some(ActionKey::Second) => new_snap.K2 = true,
                    None => (),
                }
                self.push_snapshot(new_snap);
            },
            InputEvent::KeyUp { key } => {
                match key {
                    Some(ActionKey::First) => new_snap.K1 = false,
                    Some(ActionKey::Second) => new_snap.K2 = false,
                    None => (),
                }
                self.push_snapshot(new_snap);
            },
            InputEvent::TimeOnly => {
                self.push_snapshot(new_snap);
            },
            InputEvent::Ignored => (),
        }
    }

    /// The monotone session flag: false is terminal.
    pub fn is_running(&self) -> (r: bool)
        ensures
            r == self.keep_running,
    {
        self.keep_running
    }
}

} // verus!
