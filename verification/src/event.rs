//! Beatmap events, as parsed by the level-format loader. The core only
//! carries them; the excluded rendering collaborator consumes them.

use vstd::prelude::*;

use crate::pixel::Pix2D;

verus! {

/// A background image shown from `start_time` (milliseconds), offset from
/// the playfield centre.
#[derive(Debug, Clone)]
pub struct EventBackground {
    pub start_time: i32,
    pub filename: String,
    pub offset_from_center: Pix2D,
}

/// A background video shown from `start_time` (milliseconds).
#[derive(Debug, Clone)]
pub struct EventVideo {
    pub start_time: i32,
    pub offset_from_center: Pix2D,
}

/// A gameplay break between the two times (milliseconds).
#[derive(Debug, Clone)]
pub struct EventBreak {
    pub start_time: i32,
    pub end_time: i32,
}

} // verus!
