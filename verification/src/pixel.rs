//! Integer pixel coordinates. Level-space ("osru") coordinates come from the
//! beatmap loader; screen-space coordinates come from the platform input
//! layer and from the level-to-screen mapping below. Both are plain `i64`
//! screen units.

use vstd::prelude::*;

verus! {

/// Width of the nominal window the level-to-screen mapping is scaled
/// against.
pub const ASSUMED_WINDOW_WIDTH: i64 = 640;
/// Height of the nominal window the level-to-screen mapping is scaled
/// against.
pub const ASSUMED_WINDOW_HEIGHT: i64 = 480;

/// Largest magnitude a screen coordinate may take; keeps the squared
/// distances of the capture test inside `i64`.
pub const SCREEN_COORD_LIMIT: i64 = 16_777_216;

/// Largest level-space coordinate and largest viewport dimension the
/// level-to-screen mapping accepts; keeps its products inside `i64` and its
/// results inside `SCREEN_COORD_LIMIT`.
pub const LEVEL_COORD_LIMIT: i64 = 65_536;

/// A 2D position in integer pixel units.
#[derive(Debug, Copy, Clone, PartialEq, Eq, Structural)]
pub struct Pix2D {
    pub x: i64,
    pub y: i64,
}

impl Pix2D {
    /// Both coordinates are within the screen-space magnitude limit.
    pub open spec fn screen_bounded(self) -> bool {
        &&& -SCREEN_COORD_LIMIT <= self.x <= SCREEN_COORD_LIMIT
        &&& -SCREEN_COORD_LIMIT <= self.y <= SCREEN_COORD_LIMIT
    }

    /// Both coordinates are non-negative level-space coordinates in range
    /// for the level-to-screen mapping.
    pub open spec fn level_bounded(self) -> bool {
        &&& 0 <= self.x <= LEVEL_COORD_LIMIT
        &&& 0 <= self.y <= LEVEL_COORD_LIMIT
    }

    pub fn new(x: i64, y: i64) -> (r: Pix2D)
        ensures
            r == (Pix2D { x, y }),
    {
        Pix2D { x, y }
    }

    pub fn set_pix(&mut self, x: i64, y: i64)
        ensures
            *final(self) == (Pix2D { x, y }),
    {
        self.x = x;
        self.y = y;
    }

    pub fn x(&self) -> (r: i64)
        ensures
            r == self.x,
    {
        self.x
    }

    pub fn y(&self) -> (r: i64)
        ensures
            r == self.y,
    {
        self.y
    }
}

impl Default for Pix2D {
    fn default() -> (r: Pix2D)
        ensures
            r == (Pix2D { x: 0, y: 0 }),
    {
        Pix2D { x: 0, y: 0 }
    }
}

/// An axis-aligned rectangle in integer pixel units; `width` and `height`
/// are extents, not corners.
#[derive(Debug, Copy, Clone, PartialEq, Eq, Structural)]
pub struct PixRect {
    pub x: i64,
    pub y: i64,
    pub width: i64,
    pub height: i64,
}

impl PixRect {
    /// A viewport the level-to-screen mapping accepts: positive extents,
    /// within the level-space size limit.
    pub open spec fn viewport_bounded(self) -> bool {
        &&& 0 < self.width <= LEVEL_COORD_LIMIT
        &&& 0 < self.height <= LEVEL_COORD_LIMIT
    }

    pub fn new(x: i64, y: i64, width: i64, height: i64) -> (r: PixRect)
        ensures
            r == (PixRect { x, y, width, height }),
    {
        PixRect { x, y, width, height }
    }

    pub fn x(&self) -> (r: i64)
        ensures
            r == self.x,
    {
        self.x
    }

    pub fn y(&self) -> (r: i64)
        ensures
            r == self.y,
    {
        self.y
    }

    pub fn width(&self) -> (r: i64)
        ensures
            r == self.width,
    {
        self.width
    }

    pub fn height(&self) -> (r: i64)
        ensures
            r == self.height,
    {
        self.height
    }
}

/// The scale ratio of the level-to-screen mapping, as numerator and
/// denominator. Letterboxing keeps the whole nominal window visible, so the
/// smaller of width-ratio and height-ratio wins.
pub open spec fn spec_scale_num(viewport: PixRect) -> int {
    if viewport.width * ASSUMED_WINDOW_HEIGHT > viewport.height * ASSUMED_WINDOW_WIDTH {
        viewport.height as int
    } else {
        viewport.width as int
    }
}

pub open spec fn spec_scale_den(viewport: PixRect) -> int {
    if viewport.width * ASSUMED_WINDOW_HEIGHT > viewport.height * ASSUMED_WINDOW_WIDTH {
        ASSUMED_WINDOW_HEIGHT as int
    } else {
        ASSUMED_WINDOW_WIDTH as int
    }
}

/// Screen x of a level-space x: scale, then centre the scaled nominal window
/// inside the viewport.
pub open spec fn spec_screen_x(x: int, viewport: PixRect) -> int {
    x * spec_scale_num(viewport) / spec_scale_den(viewport) + (viewport.width
        - ASSUMED_WINDOW_WIDTH * spec_scale_num(viewport) / spec_scale_den(viewport)) / 2
}

/// Screen y of a level-space y, analogous to `spec_screen_x`.
pub open spec fn spec_screen_y(y: int, viewport: PixRect) -> int {
    y * spec_scale_num(viewport) / spec_scale_den(viewport) + (viewport.height
        - ASSUMED_WINDOW_HEIGHT * spec_scale_num(viewport) / spec_scale_den(viewport)) / 2
}

/// Maps a level-space position to screen space: uniform scale chosen so the
/// nominal window fits the viewport, letterboxed and centred.
pub fn osru_pos_to_screen_pos(osru_coord: &Pix2D, viewport_size: &PixRect) -> (r: Pix2D)
    requires
        osru_coord.level_bounded(),
        viewport_size.viewport_bounded(),
    ensures
        r.x == spec_screen_x(osru_coord.x as int, *viewport_size),
        r.y == spec_screen_y(osru_coord.y as int, *viewport_size),
        r.screen_bounded(),
        0 <= r.x,
        0 <= r.y,
{
    let vw = viewport_size.width;
    let vh = viewport_size.height;
    let (num, den): (i64, i64) = if vw * ASSUMED_WINDOW_HEIGHT > vh * ASSUMED_WINDOW_WIDTH {
        (vh, ASSUMED_WINDOW_HEIGHT)
    } else {
        (vw, ASSUMED_WINDOW_WIDTH)
    };
    let offset_x = (vw - ASSUMED_WINDOW_WIDTH * num / den) / 2;
    let offset_y = (vh - ASSUMED_WINDOW_HEIGHT * num / den) / 2;
    assert(ASSUMED_WINDOW_WIDTH * num as int / den as int <= vw && ASSUMED_WINDOW_HEIGHT
        * num as int / den as int <= vh) by (nonlinear_arith)
        requires
            num == spec_scale_num(*viewport_size),
            den == spec_scale_den(*viewport_size),
            viewport_size.viewport_bounded(),
            vw == viewport_size.width,
            vh == viewport_size.height,
    ;
    assert(0 <= osru_coord.x * num <= LEVEL_COORD_LIMIT * LEVEL_COORD_LIMIT && 0 <= osru_coord.y
        * num <= LEVEL_COORD_LIMIT * LEVEL_COORD_LIMIT) by (nonlinear_arith)
        requires
            osru_coord.level_bounded(),
            0 < num <= LEVEL_COORD_LIMIT,
    ;
    let sx = osru_coord.x * num / den;
    let sy = osru_coord.y * num / den;
    assert(0 <= sx <= LEVEL_COORD_LIMIT * LEVEL_COORD_LIMIT / 480 && 0 <= sy <= LEVEL_COORD_LIMIT
        * LEVEL_COORD_LIMIT / 480) by (nonlinear_arith)
        requires
            sx == osru_coord.x as int * num as int / den as int,
            sy == osru_coord.y as int * num as int / den as int,
            0 <= osru_coord.x * num <= LEVEL_COORD_LIMIT * LEVEL_COORD_LIMIT,
            0 <= osru_coord.y * num <= LEVEL_COORD_LIMIT * LEVEL_COORD_LIMIT,
            480 <= den,
    ;
    Pix2D { x: sx + offset_x, y: sy + offset_y }
}

/// The capture test: the cursor lies within `radius` of the circle's
/// anchor, measured as squared Euclidean distance.
pub open spec fn spec_cursor_in_range(circle_pos: Pix2D, cursor_pos: Pix2D, radius: int) -> bool {
    radius * radius >= (circle_pos.x - cursor_pos.x) * (circle_pos.x - cursor_pos.x) + (
    circle_pos.y - cursor_pos.y) * (circle_pos.y - cursor_pos.y)
}

/// The capture test: true when the cursor lies within `radius` of the
/// circle's anchor, measured as squared Euclidean distance.
pub fn cursor_in_range(circle_pos: &Pix2D, cursor_pos: &Pix2D, radius: i64) -> (r: bool)
    requires
        circle_pos.screen_bounded(),
        cursor_pos.screen_bounded(),
        0 <= radius <= SCREEN_COORD_LIMIT,
    ensures
        r == spec_cursor_in_range(*circle_pos, *cursor_pos, radius as int),
{
    let dx = circle_pos.x - cursor_pos.x;
    let dy = circle_pos.y - cursor_pos.y;
    assert(dx * dx + dy * dy <= 4 * SCREEN_COORD_LIMIT * (2 * SCREEN_COORD_LIMIT) && 0 <= dx * dx
        && 0 <= dy * dy && radius * radius <= SCREEN_COORD_LIMIT * SCREEN_COORD_LIMIT) by (
    nonlinear_arith)
        requires
            -2 * SCREEN_COORD_LIMIT <= dx <= 2 * SCREEN_COORD_LIMIT,
            -2 * SCREEN_COORD_LIMIT <= dy <= 2 * SCREEN_COORD_LIMIT,
            0 <= radius <= SCREEN_COORD_LIMIT,
    ;
    let x_sq = dx * dx;
    let y_sq = dy * dy;
    let r_sq = radius * radius;
    r_sq >= x_sq + y_sq
}

} // verus!
