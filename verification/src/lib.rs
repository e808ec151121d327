//! Timing and judgement core of a rhythm-game runtime.
//!
//! Given a time-ordered sequence of hit objects and a stream of timestamped
//! input snapshots, the library decides, frame by frame, which objects are
//! visible, which have been hit (and at what accuracy tier), which were
//! missed, and when they can be discarded.
//!
//! All durations and timestamps are session-relative microseconds (`u64`);
//! difficulty scalars are fixed-point hundredths of a difficulty point
//! (`OsruOD(500)` is a judgement difficulty of 5.00); pixel coordinates are
//! integer screen units.

pub mod beatmap;
pub mod event;
pub mod global;
pub mod hitcircle;
pub mod hitobject;
pub mod input;
pub mod pixel;
pub mod slider;
pub mod time;
pub mod timing;
