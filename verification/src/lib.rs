//! Core of a two-player ball-and-paddle game.
//!
//! A ball bounces between two vertically sliding paddles inside a fixed
//! rectangular arena; a ball that escapes past a paddle scores a point for
//! the opposite side.  This crate holds the per-frame physics and collision
//! resolution: position/velocity integration, paddle clamping against the
//! arena, ball/paddle collision classification with directional bounce
//! response, and out-of-bounds handling that drives scoring and respawn.
//!
//! All coordinates are plain integers.  A caller chooses how fine one
//! coordinate unit is (for example, a fraction of a screen pixel) and how
//! long one time unit lasts; the contracts here are stated over exact
//! integer arithmetic in those units.  Window setup, input polling,
//! rendering and the random respawn direction belong to the surrounding
//! driver, which hands this core plain values once per frame.

use vstd::prelude::*;

pub mod ball;
pub mod player;

verus! {

/// Largest magnitude admitted for a position coordinate, an extent, or an
/// arena dimension.  Keeps every sum and difference of a handful of
/// coordinates well inside `i64`.
pub const COORD_LIMIT: i64 = 1_000_000_000_000;

/// Largest frame delta-time admitted by the integration steps.
pub const DT_LIMIT: i64 = 1_000_000;

/// Largest speed magnitude (paddle speed, or a ball velocity component
/// being integrated) admitted by the integration steps; chosen so that
/// `SPEED_LIMIT * DT_LIMIT` stays far inside `i64`.
pub const SPEED_LIMIT: i64 = 1_000_000_000;

/// Largest velocity-component magnitude admitted where a velocity is only
/// negated or steered (collision and out-of-bounds resolution).
pub const VEL_LIMIT: i64 = 1_000_000_000_000_000_000;

/// A 2D vector of integer coordinates; used for both positions and
/// velocities.  The origin is the arena's top-left corner, `x` grows to the
/// right and `y` grows downward.
#[derive(Clone, Copy, PartialEq, Eq, Structural, Debug)]
pub struct Vec2 {
    pub x: i64,
    pub y: i64,
}

/// Width and height of an entity's bounding rectangle, or of the arena.
#[derive(Clone, Copy, PartialEq, Eq, Structural, Debug)]
pub struct Size {
    pub width: i64,
    pub height: i64,
}

/// Position and velocity of one moving entity.  The position names the
/// top-left corner of the entity's rectangle.
#[derive(Clone, Copy, PartialEq, Eq, Structural, Debug)]
pub struct Transform {
    pub position: Vec2,
    pub velocity: Vec2,
}

/// Where a rectangle stands relative to the arena; produced by
/// [`is_out_of_bounds`].
#[derive(Clone, Copy, PartialEq, Eq, Structural, Debug)]
pub enum OutOfBoundsType {
    Left,
    Right,
    Top,
    Bottom,
    InBounds,
}

/// How two rectangles overlap; produced by [`collide`].  `Horizontal` marks
/// a hit on a paddle's vertical face (the horizontal velocity reflects);
/// `Vertical` marks a hit on a paddle's horizontal edge (the vertical
/// velocity reflects).
#[derive(Clone, Copy, PartialEq, Eq, Structural, Debug)]
pub enum CollideType {
    Horizontal,
    Vertical,
    Separate,
}

/// Magnitude of an integer.
pub open spec fn abs_int(x: int) -> int {
    if x >= 0 {
        x
    } else {
        -x
    }
}

/// Whether both components of `v` are within `limit` in magnitude.
pub open spec fn within(v: Vec2, limit: int) -> bool {
    &&& -limit <= v.x <= limit
    &&& -limit <= v.y <= limit
}

/// Whether `s` is a usable extent or arena size: non-negative and bounded.
pub open spec fn size_ok(s: Size) -> bool {
    &&& 0 <= s.width <= COORD_LIMIT
    &&& 0 <= s.height <= COORD_LIMIT
}

/// The arena's center point (halves rounded toward zero).
pub open spec fn spec_arena_center(arena: Size) -> Vec2 {
    Vec2 { x: (arena.width / 2) as i64, y: (arena.height / 2) as i64 }
}

/// The offset from a rectangle's top-left corner to its center (halves
/// rounded toward zero).
pub open spec fn spec_center_offset(extent: Size) -> Vec2 {
    Vec2 { x: (extent.width / 2) as i64, y: (extent.height / 2) as i64 }
}

/// The arena's center point.
pub fn arena_center(arena: Size) -> (c: Vec2)
    requires
        size_ok(arena),
    ensures
        c == spec_arena_center(arena),
{
    Vec2 { x: arena.width / 2, y: arena.height / 2 }
}

/// The offset from a rectangle's top-left corner to its center.
pub fn center_offset(extent: Size) -> (c: Vec2)
    requires
        size_ok(extent),
    ensures
        c == spec_center_offset(extent),
{
    Vec2 { x: extent.width / 2, y: extent.height / 2 }
}

/// Classification of a rectangle at `position` with size `extent` against
/// the arena, checked in a fixed priority order: left, right, top, bottom,
/// else in bounds.  Exactly one class results; on a simultaneous violation
/// only the higher-priority one is reported.
pub open spec fn spec_out_of_bounds(position: Vec2, extent: Size, arena: Size) -> OutOfBoundsType {
    if position.x < 0 {
        OutOfBoundsType::Left
    } else if position.x + extent.width > arena.width {
        OutOfBoundsType::Right
    } else if position.y < 0 {
        OutOfBoundsType::Top
    } else if position.y + extent.height > arena.height {
        OutOfBoundsType::Bottom
    } else {
        OutOfBoundsType::InBounds
    }
}

/// Classifies a rectangle's position against the arena.
pub fn is_out_of_bounds(position: Vec2, extent: Size, arena: Size) -> (r: OutOfBoundsType)
    requires
        0 <= extent.width,
        0 <= extent.height,
        position.x + extent.width <= i64::MAX,
        position.y + extent.height <= i64::MAX,
    ensures
        r == spec_out_of_bounds(position, extent, arena),
{
    if position.x < 0 {
        OutOfBoundsType::Left
    } else if position.x + extent.width > arena.width {
        OutOfBoundsType::Right
    } else if position.y < 0 {
        OutOfBoundsType::Top
    } else if position.y + extent.height > arena.height {
        OutOfBoundsType::Bottom
    } else {
        OutOfBoundsType::InBounds
    }
}

/// Overlap classification of two axis-aligned rectangles, tuned for a ball
/// meeting a paddle.  Each rectangle's center is its position plus half its
/// extent (halves rounded toward zero); `dx`/`dy` are the absolute center
/// distances.  When the centers are at least the combined half-widths
/// apart the rectangles are `Separate`.  Otherwise, exactly flush
/// horizontal edges (one rectangle's bottom on the other's top) classify
/// as `Vertical` — this edge-grazing case takes priority over the general
/// vertical check so a ball settled exactly on a paddle edge does not
/// oscillate.  Otherwise centers closer than the combined half-heights
/// classify as `Horizontal` (the face hit), and anything else is
/// `Separate`.
pub open spec fn spec_collide(a: Vec2, a_extent: Size, b: Vec2, b_extent: Size) -> CollideType {
    let acx = a.x + (a_extent.width as int) / 2;
    let acy = a.y + (a_extent.height as int) / 2;
    let bcx = b.x + (b_extent.width as int) / 2;
    let bcy = b.y + (b_extent.height as int) / 2;
    let dx = abs_int(bcx - acx);
    let dy = abs_int(bcy - acy);
    if dx < (a_extent.width as int) / 2 + (b_extent.width as int) / 2 {
        if a.y + a_extent.height == b.y || b.y + b_extent.height == a.y {
            CollideType::Vertical
        } else if dy < (a_extent.height as int) / 2 + (b_extent.height as int) / 2 {
            CollideType::Horizontal
        } else {
            CollideType::Separate
        }
    } else {
        CollideType::Separate
    }
}

/// Classifies the overlap of two axis-aligned rectangles.
pub fn collide(a: Vec2, a_extent: Size, b: Vec2, b_extent: Size) -> (r: CollideType)
    requires
        within(a, COORD_LIMIT as int),
        within(b, COORD_LIMIT as int),
        size_ok(a_extent),
        size_ok(b_extent),
    ensures
        r == spec_collide(a, a_extent, b, b_extent),
{
    let half_aw: i64 = a_extent.width / 2;
    let half_ah: i64 = a_extent.height / 2;
    let half_bw: i64 = b_extent.width / 2;
    let half_bh: i64 = b_extent.height / 2;
    let acx: i64 = a.x + half_aw;
    let acy: i64 = a.y + half_ah;
    let bcx: i64 = b.x + half_bw;
    let bcy: i64 = b.y + half_bh;
    let dx: i64 = if bcx >= acx {
        bcx - acx
    } else {
        acx - bcx
    };
    let dy: i64 = if bcy >= acy {
        bcy - acy
    } else {
        acy - bcy
    };
    if dx < half_aw + half_bw {
        if a.y + a_extent.height == b.y || b.y + b_extent.height == a.y {
            CollideType::Vertical
        } else if dy < half_ah + half_bh {
            CollideType::Horizontal
        } else {
            CollideType::Separate
        }
    } else {
        CollideType::Separate
    }
}

/// Consistency of `Separate` under swapped arguments: whenever the centers
/// are at least the combined half-widths apart horizontally, the
/// classification is `Separate` in either argument order.  (The full
/// classification is not symmetric: the roles of the two rectangles are
/// fixed by construction.)
pub proof fn lemma_separate_symmetric(a: Vec2, a_extent: Size, b: Vec2, b_extent: Size)
    ensures
        abs_int(
            (b.x + (b_extent.width as int) / 2) - (a.x + (a_extent.width as int) / 2),
        ) >= (a_extent.width as int) / 2 + (b_extent.width as int) / 2 ==> spec_collide(
            a,
            a_extent,
            b,
            b_extent,
        ) == CollideType::Separate && spec_collide(b, b_extent, a, a_extent)
            == CollideType::Separate,
{
}

/// Exactly one of the five bounds classes holds, and simultaneous
/// violations resolve by the fixed priority left > right > top > bottom,
/// with in-bounds only when no edge is violated.
pub proof fn lemma_bounds_priority(position: Vec2, extent: Size, arena: Size)
    ensures
        position.x < 0 ==> spec_out_of_bounds(position, extent, arena) == OutOfBoundsType::Left,
        position.x >= 0 && position.x + extent.width > arena.width ==> spec_out_of_bounds(
            position,
            extent,
            arena,
        ) == OutOfBoundsType::Right,
        position.x >= 0 && position.x + extent.width <= arena.width && position.y < 0
            ==> spec_out_of_bounds(position, extent, arena) == OutOfBoundsType::Top,
        position.x >= 0 && position.x + extent.width <= arena.width && position.y >= 0
            && position.y + extent.height > arena.height ==> spec_out_of_bounds(
            position,
            extent,
            arena,
        ) == OutOfBoundsType::Bottom,
        position.x >= 0 && position.x + extent.width <= arena.width && position.y >= 0
            && position.y + extent.height <= arena.height ==> spec_out_of_bounds(
            position,
            extent,
            arena,
        ) == OutOfBoundsType::InBounds,
{
}

} // verus!
