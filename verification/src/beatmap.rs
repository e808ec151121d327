//! The scheduler: owns the ordered object sequence and three monotonically
//! advancing cursors, drives per-frame and per-poll updates without
//! re-scanning resolved objects, and exposes the sub-range of objects that
//! must be rendered this frame.

use vstd::prelude::*;

use crate::event::EventBackground;
use crate::global::Colour;
use crate::hitobject::{HitObject, HitState, UpdateResult};
use crate::input::{InputManager, InputSnapshot, InputUpdate};
use crate::pixel::PixRect;
use crate::timing::{AnimationTiming, OsruAR, OsruOD, DIFFICULTY_MAX};

verus! {

/// The widest preempt the timing model can produce (approach rate 0), in
/// microseconds: every hit time must leave at least this much room.
pub const PREEMPT_MAX: u64 = 1_800_000;

/// A timing point of the level format: tempo and sample data, carried for
/// the excluded audio collaborator. `beat_length_micros` is microseconds per
/// beat.
#[derive(Debug, Copy, Clone)]
pub struct TimingPoint {
    pub start_time: i64,
    pub beat_length_micros: i64,
    pub meter: i64,
    pub sample_set: i64,
    pub sample_index: i64,
    pub volume: i64,
    pub uninherited: i64,
    pub effects: u64,
}

/// A combo-colour entry of the level format, carried for the excluded
/// rendering collaborator.
#[derive(Debug, Copy, Clone)]
pub struct BeatmapColour {
    pub combo_colour: Colour<u8>,
    pub slider_track_override_colour: Colour<u8>,
    pub slider_border_colour: Colour<u8>,
}

/// The sections of the level file format.
#[derive(Debug, Copy, Clone, Eq, PartialEq, Structural)]
pub enum BeatmapSection {
    General,
    Editor,
    Metadata,
    Difficulty,
    Events,
    TimingPoints,
    Colours,
    HitObjects,
}

/// A loaded beatmap: the immutable level data and the scheduler state that
/// drives it through a session.
pub struct Beatmap {
    pub timing_points: Vec<TimingPoint>,
    pub hitobjects: Vec<HitObject>,
    pub event_backgrounds: Vec<EventBackground>,
    /// Objects before this index are judgement-resolved; never decreases.
    pub update_start_index: usize,
    /// Start of the half-open render range; objects behind it are done and
    /// never revisited.
    pub draw_start_index: usize,
    /// End of the half-open render range; never decreases.
    pub draw_end_index: usize,
    pub animation_timings: AnimationTiming,
}

impl Beatmap {
    /// Scheduler well-formedness: the timings are well formed, the cursors
    /// are in range with `draw_start <= draw_end <= len`, every object is
    /// well formed against the timings, every object behind the update
    /// cursor is judgement-resolved, and every object behind the render
    /// cursor is done drawing — once it falls behind, it is never revisited.
    pub open spec fn wf(self) -> bool {
        &&& self.animation_timings.wf()
        &&& self.update_start_index <= self.hitobjects@.len()
        &&& self.draw_start_index <= self.draw_end_index
        &&& self.draw_end_index <= self.hitobjects@.len()
        &&& forall|i: int|
            0 <= i < self.hitobjects@.len() ==> (#[trigger] self.hitobjects@[i]).wf_for(
                self.animation_timings,
            )
        &&& forall|i: int|
            0 <= i < self.update_start_index ==> ((#[trigger] self.hitobjects@[i]).spec_hit_state()
                matches HitState::Hit(_) || self.hitobjects@[i].spec_hit_state()
                matches HitState::DoneDrawing(_))
        &&& forall|i: int|
            0 <= i < self.draw_start_index ==> (#[trigger] self.hitobjects@[i]).spec_hit_state()
                matches HitState::DoneDrawing(_)
    }

    /// No object has seen a time later than `now`: any timestamp from `now`
    /// onward may be applied to all of them.
    pub open spec fn objects_ok_at(self, now: u64) -> bool {
        forall|i: int|
            0 <= i < self.hitobjects@.len() ==> (#[trigger] self.hitobjects@[i]).ok_at(now)
    }

    /// An empty beatmap with default timings.
    pub fn new() -> (r: Beatmap)
        ensures
            r.timing_points@.len() == 0,
            r.hitobjects@.len() == 0,
            r.event_backgrounds@.len() == 0,
            r.update_start_index == 0,
            r.draw_start_index == 0,
            r.draw_end_index == 0,
            r.wf(),
            forall|now: u64| #[trigger] r.objects_ok_at(now),
    {
        Beatmap {
            timing_points: Vec::new(),
            hitobjects: Vec::new(),
            event_backgrounds: Vec::new(),
            update_start_index: 0,
            draw_start_index: 0,
            draw_end_index: 0,
            animation_timings: AnimationTiming::default(),
        }
    }

    /// Derives the animation timings from the two difficulty values and
    /// computes every object's screen-space anchors. Runs once, before
    /// gameplay: the objects must be untouched, their anchors in range, and
    /// each hit time must leave room for the widest preempt.
    pub fn prepare(&mut self, viewport_size: &PixRect, od: OsruOD, ar: OsruAR)
        requires
            viewport_size.viewport_bounded(),
            od.0 <= DIFFICULTY_MAX,
            ar.0 <= DIFFICULTY_MAX,
            old(self).update_start_index == 0,
            old(self).draw_start_index == 0,
            old(self).draw_end_index == 0,
            forall|i: int|
                0 <= i < old(self).hitobjects@.len() ==> (
                #[trigger] old(self).hitobjects@[i]).preparable(),
            forall|i: int|
                0 <= i < old(self).hitobjects@.len() ==> (#[trigger] old(self).hitobjects@[i]).fresh(),
            forall|i: int|
                0 <= i < old(self).hitobjects@.len() ==> PREEMPT_MAX <= (#[trigger] old(
                    self,
                ).hitobjects@[i]).spec_time() && old(self).hitobjects@[i].spec_time() <= u64::MAX
                    - PREEMPT_MAX,
        ensures
            final(self).animation_timings == AnimationTiming::spec_new_from(od, ar),
            final(self).hitobjects@.len() == old(self).hitobjects@.len(),
            final(self).update_start_index == old(self).update_start_index,
            final(self).draw_start_index == old(self).draw_start_index,
            final(self).draw_end_index == old(self).draw_end_index,
            final(self).wf(),
            forall|now: u64| #[trigger] final(self).objects_ok_at(now),
            forall|i: int|
                0 <= i < old(self).hitobjects@.len() ==> (#[trigger] final(
                    self).hitobjects@[i]).spec_time() == old(self).hitobjects@[i].spec_time()
                    && final(self).hitobjects@[i].spec_hit_state() == old(
                    self,
                ).hitobjects@[i].spec_hit_state(),
            forall|i: int|
                0 <= i < old(self).hitobjects@.len() ==> HitObject::anchors_mapped(
                    old(self).hitobjects@[i],
                    #[trigger] final(self).hitobjects@[i],
                    *viewport_size,
                ),
    {
        self.animation_timings = AnimationTiming::new_from(od, ar);
        let ghost timings = self.animation_timings;
        let len = self.hitobjects.len();
        let mut i: usize = 0;
        while i < len
            invariant
                len == self.hitobjects@.len(),
                i <= len,
                viewport_size.viewport_bounded(),
                self.animation_timings == timings,
                timings == AnimationTiming::spec_new_from(od, ar),
                timings.wf(),
                timings.preempt <= PREEMPT_MAX,
                self.update_start_index == old(self).update_start_index,
                self.draw_start_index == old(self).draw_start_index,
                self.draw_end_index == old(self).draw_end_index,
                self.timing_points == old(self).timing_points,
                self.event_backgrounds == old(self).event_backgrounds,
                forall|k: int|
                    i <= k < len ==> #[trigger] self.hitobjects@[k] == old(self).hitobjects@[k],
                forall|k: int|
                    0 <= k < len ==> (#[trigger] old(self).hitobjects@[k]).preparable() && old(
                        self,
                    ).hitobjects@[k].fresh() && PREEMPT_MAX <= old(self).hitobjects@[k].spec_time()
                        && old(self).hitobjects@[k].spec_time() <= u64::MAX - PREEMPT_MAX,
                forall|k: int|
                    0 <= k < i ==> (#[trigger] self.hitobjects@[k]).wf_for(timings)
                        && self.hitobjects@[k].fresh() && self.hitobjects@[k].spec_time() == old(
                        self,
                    ).hitobjects@[k].spec_time() && self.hitobjects@[k].spec_hit_state() == old(
                        self,
                    ).hitobjects@[k].spec_hit_state() && HitObject::anchors_mapped(
                        old(self).hitobjects@[k],
                        self.hitobjects@[k],
                        *viewport_size,
                    ),
            decreases len - i,
        {
            let obj = &mut self.hitobjects[i];
            obj.prepare(viewport_size);
            i = i + 1;
        }
        proof {
            assert forall|now: u64| #[trigger] self.objects_ok_at(now) by {
                assert forall|i2: int|
                    0 <= i2 < self.hitobjects@.len() implies (
                #[trigger] self.hitobjects@[i2]).ok_at(now) by {
                    assert(self.hitobjects@[i2].fresh());
                }
            }
        }
    }

    /// The input-drain step as a function of the scheduler's ghost state:
    /// objects, update cursor, snapshot queue. While the cursor has not
    /// reached the end of the sequence: an object that is ready or invisible
    /// receives the next update when one can be spared — the oldest snapshot
    /// is consumed and the update is formed from the two oldest that remain —
    /// and the cursor passes the object exactly when it consumed the input;
    /// an object in any other state is passed unconditionally; the drain
    /// stops as soon as no update can be spared. Each spared update is thus
    /// applied to exactly one object, in queue order: no discrete edge is
    /// skipped or consumed twice.
    pub open spec fn spec_lazy_update(
        objs: Seq<HitObject>,
        cursor: int,
        queue: Seq<InputSnapshot>,
        t: AnimationTiming,
    ) -> (Seq<HitObject>, int, Seq<InputSnapshot>)
        decreases objs.len() - cursor, queue.len(),
    {
        if cursor < 0 || cursor >= objs.len() {
            (objs, cursor, queue)
        } else {
            let st = objs[cursor].spec_hit_state();
            if (st matches HitState::Ready) || (st matches HitState::NotDrawing) {
                if queue.len() > 2 {
                    let upd = InputUpdate { previous: queue[1], current: queue[2] };
                    let stepped = HitObject::spec_step(objs[cursor], upd, t);
                    let cursor2 = if stepped.1 == UpdateResult::InputConsumed {
                        cursor + 1
                    } else {
                        cursor
                    };
                    Self::spec_lazy_update(
                        objs.update(cursor, stepped.0),
                        cursor2,
                        queue.drop_first(),
                        t,
                    )
                } else {
                    (objs, cursor, queue)
                }
            } else {
                Self::spec_lazy_update(objs, cursor + 1, queue, t)
            }
        }
    }

    /// Drains pending input against the object at the update cursor: at most
    /// one object is judged from any single discrete input edge. The cursor
    /// advances past an object only when it consumes input or no longer
    /// wants any, and it never decreases; the loop stops as soon as no
    /// update is available. The new objects, cursor and queue are exactly
    /// what `spec_lazy_update` gives.
    pub fn lazy_update(&mut self, input_manager: &mut InputManager)
        requires
            old(self).wf(),
            old(input_manager).wf(),
            old(self).objects_ok_at(old(input_manager).spec_latest_time()),
        ensures
            final(self).wf(),
            final(input_manager).wf(),
            final(self).update_start_index >= old(self).update_start_index,
            final(self).objects_ok_at(final(input_manager).spec_latest_time()),
            final(self).hitobjects@.len() == old(self).hitobjects@.len(),
            final(self).draw_start_index == old(self).draw_start_index,
            final(self).draw_end_index == old(self).draw_end_index,
            final(self).animation_timings == old(self).animation_timings,
            final(input_manager).keep_running == old(input_manager).keep_running,
            final(input_manager).reference_time == old(input_manager).reference_time,
            final(input_manager).pending_snapshots@.last() == old(
                input_manager,
            ).pending_snapshots@.last(),
            final(self).update_start_index == final(self).hitobjects@.len() || (final(
                input_manager).pending_snapshots@.len()) <= 2,
            (
                final(self).hitobjects@,
                final(self).update_start_index as int,
                final(input_manager).pending_snapshots@,
            ) == Self::spec_lazy_update(
                old(self).hitobjects@,
                old(self).update_start_index as int,
                old(input_manager).pending_snapshots@,
                old(self).animation_timings,
            ),
    {
        let ghost start_index = self.update_start_index;
        let len = self.hitobjects.len();
        while self.update_start_index < len
            invariant
                len == self.hitobjects@.len(),
                self.wf(),
                input_manager.wf(),
                self.objects_ok_at(input_manager.spec_latest_time()),
                self.update_start_index >= start_index,
                self.draw_start_index == old(self).draw_start_index,
                self.draw_end_index == old(self).draw_end_index,
                self.animation_timings == old(self).animation_timings,
                input_manager.keep_running == old(input_manager).keep_running,
                input_manager.reference_time == old(input_manager).reference_time,
                input_manager.pending_snapshots@.last() == old(
                    input_manager,
                ).pending_snapshots@.last(),
                Self::spec_lazy_update(
                    self.hitobjects@,
                    self.update_start_index as int,
                    input_manager.pending_snapshots@,
                    self.animation_timings,
                ) == Self::spec_lazy_update(
                    old(self).hitobjects@,
                    old(self).update_start_index as int,
                    old(input_manager).pending_snapshots@,
                    old(self).animation_timings,
                ),
            ensures
                self.update_start_index == len || (input_manager.pending_snapshots@.len() <= 2 && (
                self.hitobjects@[self.update_start_index as int].spec_hit_state()
                    matches HitState::Ready
                    || self.hitobjects@[self.update_start_index as int].spec_hit_state()
                    matches HitState::NotDrawing)),
            decreases len - self.update_start_index + input_manager.pending_snapshots@.len(),
        {
            let ghost pre_objs = self.hitobjects@;
            let ghost pre_cursor = self.update_start_index as int;
            let ghost pre_queue = input_manager.pending_snapshots@;
            let i = self.update_start_index;
            let wants_input = {
                let st = self.hitobjects[i].hit_state();
                st.is_ready() || st.not_yet_drawing()
            };
            if wants_input {
                match input_manager.next_update() {
                    Some(update) => {
                        proof {
                            // The object at the cursor is ready or invisible,
                            // so any timestamp may be applied to it; the
                            // update's time never exceeds the newest one.
                            assert(self.hitobjects@[i as int].ok_at(update.current.time));
                            assert(update.current.time
                                <= input_manager.pending_snapshots@.last().time);
                        }
                        let timings = self.animation_timings;
                        let obj = &mut self.hitobjects[i];
                        let consumed = obj.update(&update, &timings);
                        proof {
                            assert forall|k: int|
                                0 <= k < len implies (#[trigger] self.hitobjects@[k]).ok_at(
                                input_manager.spec_latest_time(),
                            ) by {}
                        }
                        if consumed == UpdateResult::InputConsumed {
                            self.update_start_index = i + 1;
                        }
                        proof {
                            // The exec step took exactly one unfolding of the
                            // drain model.
                            assert(update == (InputUpdate {
                                previous: pre_queue[1],
                                current: pre_queue[2],
                            }));
                            assert(input_manager.pending_snapshots@ =~= pre_queue.drop_first());
                            assert(Self::spec_lazy_update(
                                self.hitobjects@,
                                self.update_start_index as int,
                                input_manager.pending_snapshots@,
                                self.animation_timings,
                            ) == Self::spec_lazy_update(
                                pre_objs,
                                pre_cursor,
                                pre_queue,
                                self.animation_timings,
                            ));
                        }
                    },
                    None => {
                        break ;
                    },
                }
            } else {
                self.update_start_index = i + 1;
                proof {
                    assert(Self::spec_lazy_update(
                        self.hitobjects@,
                        self.update_start_index as int,
                        input_manager.pending_snapshots@,
                        self.animation_timings,
                    ) == Self::spec_lazy_update(pre_objs, pre_cursor, pre_queue, self.animation_timings));
                }
            }
        }
        proof {
            // At the exit the model takes its base case: the cursor is at
            // the end, or the cursor object wants input and no snapshot can
            // be spared.
            assert(Self::spec_lazy_update(
                self.hitobjects@,
                self.update_start_index as int,
                input_manager.pending_snapshots@,
                self.animation_timings,
            ) == (
                self.hitobjects@,
                self.update_start_index as int,
                input_manager.pending_snapshots@,
            ));
        }
    }

    /// The per-frame rescan as a function of ghost state. From index `i` on,
    /// each object takes one step under the time-only update; over the
    /// objects whose stepped state is not yet done, `new_start` becomes the
    /// first such index (once `found`) and `new_end` the greatest such index
    /// plus one, floored at the range end carried in; the scan stops right
    /// after the first object still invisible — the sequence is time-ordered,
    /// so everything beyond it is invisible too. Objects before `i` are not
    /// touched.
    pub open spec fn spec_rescan(
        objs: Seq<HitObject>,
        upd: InputUpdate,
        t: AnimationTiming,
        i: int,
        new_start: int,
        found: bool,
        new_end: int,
    ) -> (Seq<HitObject>, int, bool, int)
        decreases objs.len() - i,
    {
        if i < 0 || i >= objs.len() {
            (objs, new_start, found, new_end)
        } else {
            let stepped = HitObject::spec_step(objs[i], upd, t).0;
            let objs2 = objs.update(i, stepped);
            if !(stepped.spec_hit_state() matches HitState::DoneDrawing(_)) {
                let ns = if !found {
                    i
                } else {
                    new_start
                };
                let ne = if i + 1 > new_end {
                    i + 1
                } else {
                    new_end
                };
                if (stepped.spec_hit_state() matches HitState::NotDrawing) {
                    (objs2, ns, true, ne)
                } else {
                    Self::spec_rescan(objs2, upd, t, i + 1, ns, true, ne)
                }
            } else {
                Self::spec_rescan(objs2, upd, t, i + 1, new_start, found, new_end)
            }
        }
    }

    /// The timestamp a frame at clock reading `now` runs under: the reading,
    /// clamped up to the pipeline's newest timestamp so that time never runs
    /// backwards through the queue. The session clock is monotone, so the
    /// clamp changes nothing on it; it only absorbs a stale reading instead
    /// of rejecting it.
    pub open spec fn spec_frame_time(queue: Seq<InputSnapshot>, now: u64) -> u64 {
        if now >= queue.last().time {
            now
        } else {
            queue.last().time
        }
    }

    /// The per-frame update: forces a fresh time-only snapshot so time
    /// progresses even with no events, drains pending input, then re-applies
    /// a time-only update to every object from the render range on,
    /// recomputing the range as the tightest one covering the objects still
    /// to draw. The scan stops early at the first not-yet-visible object:
    /// objects are time-ordered, so everything beyond it is invisible too.
    /// `now` comes from the session clock; see `spec_frame_time` for how a
    /// stale reading is absorbed.
    /// The frame is exactly the composition the last `ensures` clause spells
    /// out: the forced snapshot is appended, `spec_lazy_update` drains the
    /// queue, and `spec_rescan` from the old render-range start re-applies
    /// the fresh time-only update; a scan that saw no unfinished object
    /// collapses the render range to the end of the sequence.
    pub fn full_update(&mut self, input_manager: &mut InputManager, now: u64)
        requires
            old(self).wf(),
            old(input_manager).wf(),
            old(self).objects_ok_at(old(input_manager).spec_latest_time()),
        ensures
            final(self).wf(),
            final(input_manager).wf(),
            final(self).update_start_index >= old(self).update_start_index,
            final(self).draw_end_index >= old(self).draw_end_index,
            final(self).objects_ok_at(final(input_manager).spec_latest_time()),
            final(self).hitobjects@.len() == old(self).hitobjects@.len(),
            final(self).animation_timings == old(self).animation_timings,
            final(self).draw_start_index >= old(self).draw_start_index,
            final(input_manager).keep_running == old(input_manager).keep_running,
            final(input_manager).reference_time == old(input_manager).reference_time,
            final(input_manager).spec_latest_time() == Self::spec_frame_time(
                old(input_manager).pending_snapshots@,
                now,
            ),
            ({
                let fsnap = InputSnapshot {
                    time: Self::spec_frame_time(old(input_manager).pending_snapshots@, now),
                    ..old(input_manager).pending_snapshots@.last()
                };
                let drained = Self::spec_lazy_update(
                    old(self).hitobjects@,
                    old(self).update_start_index as int,
                    old(input_manager).pending_snapshots@.push(fsnap),
                    old(self).animation_timings,
                );
                let scan = Self::spec_rescan(
                    drained.0,
                    InputUpdate { previous: fsnap, current: fsnap },
                    old(self).animation_timings,
                    old(self).draw_start_index as int,
                    0,
                    false,
                    old(self).draw_end_index as int,
                );
                &&& final(self).hitobjects@ == scan.0
                &&& final(self).update_start_index as int == drained.1
                &&& final(input_manager).pending_snapshots@ == drained.2
                &&& final(self).draw_start_index as int == if scan.2 {
                    scan.1
                } else {
                    final(self).hitobjects@.len() as int
                }
                &&& final(self).draw_end_index as int == if scan.2 {
                    scan.3
                } else {
                    final(self).hitobjects@.len() as int
                }
            }),
    {
        let latest_time = input_manager.latest_snapshot().time();
        let frame_now = if now >= latest_time {
            now
        } else {
            latest_time
        };
        input_manager.force_time_update(frame_now);
        proof {
            assert forall|k: int|
                0 <= k < self.hitobjects@.len() implies (#[trigger] self.hitobjects@[k]).ok_at(
                input_manager.spec_latest_time(),
            ) by {}
        }
        self.lazy_update(input_manager);

        let snap = *input_manager.latest_snapshot();
        let update = InputUpdate::new(&snap, &snap);
        let ghost mid_objs = self.hitobjects@;
        let ghost t0 = self.animation_timings;
        let ghost start0 = self.draw_start_index as int;
        let ghost end0 = self.draw_end_index as int;
        proof {
            assert(update.wf());
            assert(snap == (InputSnapshot {
                time: Self::spec_frame_time(old(input_manager).pending_snapshots@, now),
                ..old(input_manager).pending_snapshots@.last()
            }));
        }

        let len = self.hitobjects.len();
        let draw_start_index = self.draw_start_index;
        let mut new_start: usize = 0;
        let mut found = false;
        let mut new_end = self.draw_end_index;
        let mut i = draw_start_index;
        while i < len
            invariant_except_break
                Self::spec_rescan(
                    self.hitobjects@,
                    update,
                    t0,
                    i as int,
                    new_start as int,
                    found,
                    new_end as int,
                ) == Self::spec_rescan(mid_objs, update, t0, start0, 0, false, end0),
            invariant
                len == self.hitobjects@.len(),
                self.wf(),
                input_manager.wf(),
                snap == input_manager.pending_snapshots@.last(),
                update.previous == snap,
                update.current == snap,
                update.wf(),
                self.objects_ok_at(input_manager.spec_latest_time()),
                draw_start_index <= i,
                i <= len,
                self.draw_end_index == old(self).draw_end_index,
                self.draw_end_index <= new_end,
                new_end <= len,
                found ==> draw_start_index <= new_start <= i && new_start < new_end,
                forall|k: int|
                    draw_start_index <= k < (if found {
                        new_start as int
                    } else {
                        i as int
                    }) ==> (#[trigger] self.hitobjects@[k]).spec_hit_state()
                        matches HitState::DoneDrawing(_),
                self.update_start_index >= old(self).update_start_index,
                self.update_start_index == Self::spec_lazy_update(
                    old(self).hitobjects@,
                    old(self).update_start_index as int,
                    old(input_manager).pending_snapshots@.push(snap),
                    t0,
                ).1,
                input_manager.pending_snapshots@ == Self::spec_lazy_update(
                    old(self).hitobjects@,
                    old(self).update_start_index as int,
                    old(input_manager).pending_snapshots@.push(snap),
                    t0,
                ).2,
                self.draw_start_index == draw_start_index,
                self.animation_timings == t0,
                t0 == old(self).animation_timings,
                start0 == old(self).draw_start_index,
                end0 == old(self).draw_end_index,
                draw_start_index as int == start0,
                self.update_start_index <= len,
                input_manager.keep_running == old(input_manager).keep_running,
                input_manager.reference_time == old(input_manager).reference_time,
            ensures
                !found ==> i == len,
                ({
                    let scan = Self::spec_rescan(mid_objs, update, t0, start0, 0, false, end0);
                    &&& self.hitobjects@ == scan.0
                    &&& new_start as int == scan.1
                    &&& found == scan.2
                    &&& new_end as int == scan.3
                }),
            decreases len - i,
        {
            let ghost pre_objs = self.hitobjects@;
            let ghost pre_i = i as int;
            let ghost pre_ns = new_start as int;
            let ghost pre_found = found;
            let ghost pre_ne = new_end as int;
            proof {
                assert(self.hitobjects@[i as int].ok_at(update.current.time));
            }
            let timings = self.animation_timings;
            let obj = &mut self.hitobjects[i];
            let _ = obj.update(&update, &timings);
            proof {
                assert forall|k: int|
                    0 <= k < len implies (#[trigger] self.hitobjects@[k]).ok_at(
                    input_manager.spec_latest_time(),
                ) by {}
                // A judged object stays judged: the frame time cannot
                // precede its judgement timestamp, which lies past the Meh
                // window's opening.
                assert forall|k: int|
                    0 <= k < self.update_start_index implies ((
                #[trigger] self.hitobjects@[k]).spec_hit_state() matches HitState::Hit(_)
                    || self.hitobjects@[k].spec_hit_state() matches HitState::DoneDrawing(_)) by {
                    if k != i as int {
                        assert(self.hitobjects@[k] == pre_objs[k]);
                    } else {
                        assert(pre_objs[k].wf_for(self.animation_timings));
                        assert(pre_objs[k].ok_at(snap.time));
                    }
                }
                assert forall|k: int|
                    0 <= k < self.draw_start_index implies (
                #[trigger] self.hitobjects@[k]).spec_hit_state() matches HitState::DoneDrawing(
                    _,
                ) by {
                    if k != i as int {
                        assert(self.hitobjects@[k] == pre_objs[k]);
                    }
                }
            }
            let st = self.hitobjects[i].hit_state();
            if !st.is_done() {
                if !found {
                    new_start = i;
                    found = true;
                }
                if i + 1 > new_end {
                    new_end = i + 1;
                }
                if st.not_yet_drawing() {
                    proof {
                        // The scan model stops here, with exactly this state.
                        assert(Self::spec_rescan(pre_objs, update, t0, pre_i, pre_ns, pre_found, pre_ne)
                            == (self.hitobjects@, new_start as int, true, new_end as int));
                    }
                    break ;
                }
            }
            i = i + 1;
            proof {
                // The exec step took exactly one unfolding of the scan model.
                assert(Self::spec_rescan(
                    self.hitobjects@,
                    update,
                    t0,
                    i as int,
                    new_start as int,
                    found,
                    new_end as int,
                ) == Self::spec_rescan(pre_objs, update, t0, pre_i, pre_ns, pre_found, pre_ne));
            }
        }
        if found {
            self.draw_start_index = new_start;
            self.draw_end_index = new_end;
        } else {
            self.draw_start_index = len;
            self.draw_end_index = len;
        }
    }

    /// The half-open render range `[start, end)` of objects the rendering
    /// collaborator must draw this frame.
    pub fn draw_range(&self) -> (r: (usize, usize))
        ensures
            r == (self.draw_start_index, self.draw_end_index),
    {
        (self.draw_start_index, self.draw_end_index)
    }

    /// The session is complete: the render cursor has reached the final
    /// object and that object is done drawing.
    pub fn is_done(&self) -> (r: bool)
        requires
            self.wf(),
            self.hitobjects@.len() >= 1,
        ensures
            r == (self.draw_start_index >= self.hitobjects@.len() - 1
                && self.hitobjects@.last().spec_hit_state() matches HitState::DoneDrawing(_)),
            r ==> forall|i: int|
                0 <= i < self.hitobjects@.len() ==> (#[trigger] self.hitobjects@[i]).spec_hit_state()
                    matches HitState::DoneDrawing(_),
    {
        let len = self.hitobjects.len();
        self.draw_start_index >= len - 1 && self.hitobjects[len - 1].hit_state().is_done()
    }
}

} // verus!
