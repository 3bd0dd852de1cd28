//! A player: a score and a vertically sliding paddle.
//!
//! Each frame the surrounding driver turns input polling into an [`Intent`],
//! hands it to [`Player::process_input`], and then advances the paddle with
//! [`Player::tick`], which integrates the position and clamps it against the
//! top and bottom arena edges.

use vstd::prelude::*;

use crate::{
    arena_center, center_offset, size_ok, spec_arena_center, spec_center_offset,
    spec_out_of_bounds, within, OutOfBoundsType, Size, Transform, Vec2, COORD_LIMIT, DT_LIMIT,
    SPEED_LIMIT,
};

verus! {

/// A per-frame movement wish for a paddle, derived externally from input
/// polling: slide up, slide down, or hold still.
#[derive(Clone, Copy, PartialEq, Eq, Structural, Debug)]
pub enum Intent {
    Up,
    Down,
    Neutral,
}

/// Offset, in coordinate units, that a clamped paddle keeps from the arena
/// edge it violated.  Clamping to a strictly interior position (rather than
/// exactly onto the edge) keeps the next frame's bounds classification from
/// reporting the same edge again.  One coordinate unit; with coordinates
/// finer than a screen pixel this is a sub-pixel margin.
pub const CLAMP_MARGIN: i64 = 1;

/// A paddle: its transform and its fixed rectangle extent.
#[derive(Clone, Copy, PartialEq, Eq, Structural, Debug)]
pub struct Paddle {
    pub transform: Transform,
    pub extent: Size,
}

/// A player: an identifier, a score, and the paddle the player slides.
#[derive(Clone, Copy, PartialEq, Eq, Structural, Debug)]
pub struct Player {
    pub id: usize,
    pub score: usize,
    pub paddle: Paddle,
}

/// The velocity an intent sets: one unit up, one unit down, or rest.  The
/// paddle speed scales it only during integration, so the stored velocity
/// always stays in `{-1, 0, 1}` on the vertical axis and `0` horizontally.
pub open spec fn spec_intent_velocity(intent: Intent) -> Vec2 {
    match intent {
        Intent::Up => Vec2 { x: 0i64, y: -1i64 },
        Intent::Down => Vec2 { x: 0i64, y: 1i64 },
        Intent::Neutral => Vec2 { x: 0i64, y: 0i64 },
    }
}

/// A paddle's transform is well formed when its velocity is an intent
/// velocity: nothing horizontal, at most one unit vertical.
pub open spec fn paddle_velocity_ok(t: Transform) -> bool {
    &&& t.velocity.x == 0
    &&& -1 <= t.velocity.y <= 1
}

/// One paddle step: the position advances by `velocity * speed * dt`, then
/// the moved rectangle is classified against the arena.  On a top exit the
/// vertical position is clamped to [`CLAMP_MARGIN`] and the vertical
/// velocity zeroed; on a bottom exit it is clamped to
/// `arena.height - extent.height - CLAMP_MARGIN` and the vertical velocity
/// zeroed; any other class leaves the moved transform untouched.
pub open spec fn spec_paddle_tick(t: Transform, extent: Size, arena: Size, speed: i64, dt: i64) -> Transform {
    let moved = Vec2 {
        x: (t.position.x + t.velocity.x * speed * dt) as i64,
        y: (t.position.y + t.velocity.y * speed * dt) as i64,
    };
    match spec_out_of_bounds(moved, extent, arena) {
        OutOfBoundsType::Top => Transform {
            position: Vec2 { x: moved.x, y: CLAMP_MARGIN },
            velocity: Vec2 { x: t.velocity.x, y: 0i64 },
        },
        OutOfBoundsType::Bottom => Transform {
            position: Vec2 { x: moved.x, y: (arena.height - extent.height - CLAMP_MARGIN) as i64 },
            velocity: Vec2 { x: t.velocity.x, y: 0i64 },
        },
        _ => Transform { position: moved, velocity: t.velocity },
    }
}

impl Player {
    /// A freshly created player: given identifier, score zero, and a paddle
    /// standing at horizontal offset `x_pos`, vertically centered (top-left
    /// corner at the arena's vertical center minus half the paddle height),
    /// at rest.
    pub fn spawn(arena: Size, extent: Size, id: usize, x_pos: i64) -> (p: Player)
        requires
            size_ok(arena),
            size_ok(extent),
        ensures
            p.id == id,
            p.score == 0,
            p.paddle.extent == extent,
            p.paddle.transform.position.x == x_pos,
            p.paddle.transform.position.y == spec_arena_center(arena).y - spec_center_offset(
                extent,
            ).y,
            p.paddle.transform.velocity == (Vec2 { x: 0, y: 0 }),
    {
        let center = arena_center(arena);
        let offset = center_offset(extent);
        Player {
            id,
            score: 0,
            paddle: Paddle {
                transform: Transform {
                    position: Vec2 { x: x_pos, y: center.y - offset.y },
                    velocity: Vec2 { x: 0, y: 0 },
                },
                extent,
            },
        }
    }

    /// Resets the paddle's velocity from this frame's intent.  The velocity
    /// is recomputed fresh, never accumulated from the previous frame;
    /// nothing else about the player changes.
    pub fn process_input(&mut self, intent: Intent)
        ensures
            final(self).paddle.transform.velocity == spec_intent_velocity(intent),
            final(self).paddle.transform.position == old(self).paddle.transform.position,
            final(self).paddle.extent == old(self).paddle.extent,
            final(self).id == old(self).id,
            final(self).score == old(self).score,
    {
        self.paddle.transform.velocity = match intent {
            Intent::Up => Vec2 { x: 0, y: -1 },
            Intent::Down => Vec2 { x: 0, y: 1 },
            Intent::Neutral => Vec2 { x: 0, y: 0 },
        };
    }

    /// Advances the paddle by one frame: integrate the position, then clamp
    /// it against the top and bottom arena edges, exactly as
    /// [`spec_paddle_tick`] states.  Whenever the paddle's horizontal span
    /// lies inside the arena and the paddle fits vertically with room for
    /// the clamp margin, the resulting vertical position lies within
    /// `[0, arena.height - extent.height]`.
    pub fn tick(&mut self, arena: Size, speed: i64, dt: i64)
        requires
            within(old(self).paddle.transform.position, COORD_LIMIT as int),
            within(old(self).paddle.transform.velocity, 1),
            size_ok(old(self).paddle.extent),
            size_ok(arena),
            0 <= speed <= SPEED_LIMIT,
            0 <= dt <= DT_LIMIT,
        ensures
            final(self).paddle.transform == spec_paddle_tick(
                old(self).paddle.transform,
                old(self).paddle.extent,
                arena,
                speed,
                dt,
            ),
            final(self).paddle.extent == old(self).paddle.extent,
            final(self).id == old(self).id,
            final(self).score == old(self).score,
            old(self).paddle.transform.velocity.x == 0 && 0 <= old(
                self,
            ).paddle.transform.position.x && old(self).paddle.transform.position.x + old(
                self,
            ).paddle.extent.width <= arena.width && old(self).paddle.extent.height + CLAMP_MARGIN
                <= arena.height ==> 0 <= final(self).paddle.transform.position.y <= arena.height
                - old(self).paddle.extent.height,
    {
        proof {
            assert(0 <= speed * dt <= SPEED_LIMIT * DT_LIMIT) by (nonlinear_arith)
                requires
                    0 <= speed <= SPEED_LIMIT,
                    0 <= dt <= DT_LIMIT,
            ;
        }
        let step: i64 = speed * dt;
        let vx: i64 = self.paddle.transform.velocity.x;
        let vy: i64 = self.paddle.transform.velocity.y;
        proof {
            assert(-(SPEED_LIMIT * DT_LIMIT) <= vx * step <= SPEED_LIMIT * DT_LIMIT && vx * step
                == vx * speed * dt) by (nonlinear_arith)
                requires
                    -1 <= vx <= 1,
                    0 <= step <= SPEED_LIMIT * DT_LIMIT,
                    step == speed * dt,
            ;
            assert(-(SPEED_LIMIT * DT_LIMIT) <= vy * step <= SPEED_LIMIT * DT_LIMIT && vy * step
                == vy * speed * dt) by (nonlinear_arith)
                requires
                    -1 <= vy <= 1,
                    0 <= step <= SPEED_LIMIT * DT_LIMIT,
                    step == speed * dt,
            ;
            assert(vx == 0 ==> vx * step == 0) by (nonlinear_arith);
        }
        self.paddle.transform.position.x = self.paddle.transform.position.x + vx * step;
        self.paddle.transform.position.y = self.paddle.transform.position.y + vy * step;
        match crate::is_out_of_bounds(self.paddle.transform.position, self.paddle.extent, arena) {
            OutOfBoundsType::Top => {
                self.paddle.transform.position.y = CLAMP_MARGIN;
                self.paddle.transform.velocity.y = 0;
            },
            OutOfBoundsType::Bottom => {
                self.paddle.transform.position.y = arena.height - self.paddle.extent.height
                    - CLAMP_MARGIN;
                self.paddle.transform.velocity.y = 0;
            },
            _ => {},
        }
    }
}

/// Paddle clamp invariant: whatever the intent velocity and frame delta,
/// one paddle step leaves the vertical position inside
/// `[0, arena.height - extent.height]`, and whenever a clamp fired the
/// vertical velocity is zero afterwards.  Holding after every step, this
/// gives the invariant for any sequence of intents and deltas.
pub proof fn lemma_paddle_clamp(t: Transform, extent: Size, arena: Size, speed: i64, dt: i64)
    requires
        within(t.position, COORD_LIMIT as int),
        paddle_velocity_ok(t),
        size_ok(extent),
        size_ok(arena),
        0 <= speed <= SPEED_LIMIT,
        0 <= dt <= DT_LIMIT,
        0 <= t.position.x,
        t.position.x + extent.width <= arena.width,
        extent.height + CLAMP_MARGIN <= arena.height,
    ensures
        0 <= spec_paddle_tick(t, extent, arena, speed, dt).position.y <= arena.height
            - extent.height,
        spec_paddle_tick(t, extent, arena, speed, dt).velocity.y != t.velocity.y ==> spec_paddle_tick(
            t,
            extent,
            arena,
            speed,
            dt,
        ).velocity.y == 0,
{
    assert(t.velocity.x * speed * dt == 0) by (nonlinear_arith)
        requires
            t.velocity.x == 0,
    ;
    assert(-(SPEED_LIMIT * DT_LIMIT) <= t.velocity.y * speed * dt <= SPEED_LIMIT * DT_LIMIT)
        by (nonlinear_arith)
        requires
            -1 <= t.velocity.y <= 1,
            0 <= speed <= SPEED_LIMIT,
            0 <= dt <= DT_LIMIT,
    ;
}

} // verus!
