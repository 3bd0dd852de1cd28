//! The ball: self-accelerating motion, paddle collision resolution, and
//! out-of-bounds handling that scores points and respawns the ball.
//!
//! Per frame, in order: [`Ball::check_player_collision`] resolves the ball
//! against the players' paddles (at most one per frame),
//! [`Ball::check_out_of_bounds`] turns an arena exit into a bounce or into
//! a score plus respawn, and [`Ball::tick`] integrates position and
//! self-accelerating velocity.  The respawn direction is a capability of
//! the caller: the new velocity is handed in as a plain value, so every
//! contract here is exact whatever direction was drawn.

use vstd::prelude::*;

use crate::player::{paddle_velocity_ok, Player};
use crate::{
    abs_int, arena_center, center_offset, size_ok, spec_arena_center, spec_center_offset,
    spec_collide, spec_out_of_bounds, within, CollideType, OutOfBoundsType, Size, Transform, Vec2,
    COORD_LIMIT, DT_LIMIT, SPEED_LIMIT, VEL_LIMIT,
};

verus! {

/// Offset, in coordinate units, by which a ball that bounced off a flush
/// paddle edge is pushed away from that edge, so the exactly-flush
/// condition cannot re-trigger on the next frame.  One coordinate unit;
/// with coordinates finer than a screen pixel this is a sub-pixel nudge.
pub const EDGE_NUDGE: i64 = 1;

/// Largest acceleration numerator admitted by [`Ball::tick`]; chosen so
/// that `SPEED_LIMIT * RATE_LIMIT * DT_LIMIT` stays inside `i64`.
pub const RATE_LIMIT: i64 = 1_000;

/// The ball: its transform and its fixed rectangle extent.
#[derive(Clone, Copy, PartialEq, Eq, Structural, Debug)]
pub struct Ball {
    pub transform: Transform,
    pub extent: Size,
}

/// One velocity component after self-acceleration over one frame: the
/// magnitude grows by `|v| * num * dt / den` (integer division, so the
/// quotient is the growth in whole units), keeping the sign of `v`.  This
/// is `v + v * (num/den) * dt` evaluated with division rounded toward
/// zero: the acceleration rate is the rational `num / den` per squared
/// time unit.
pub open spec fn spec_accel_component(v: int, num: int, den: int, dt: int) -> int {
    if v >= 0 {
        v + (v * num * dt) / den
    } else {
        v - ((-v) * num * dt) / den
    }
}

/// A velocity component after `n` frames of self-acceleration at constant
/// rate and frame delta.
pub open spec fn spec_accel_iter(v: int, num: int, den: int, dt: int, n: nat) -> int
    decreases n,
{
    if n == 0 {
        v
    } else {
        spec_accel_component(spec_accel_iter(v, num, den, dt, (n - 1) as nat), num, den, dt)
    }
}

/// The squared magnitude of a velocity given by its two components.
pub open spec fn speed_sq(vx: int, vy: int) -> int {
    vx * vx + vy * vy
}

/// Whether one frame of acceleration actually enlarges the velocity: some
/// component's `|v| * num * dt` reaches `den`, so its growth quotient is
/// at least one whole unit.
pub open spec fn accel_effective(vx: int, vy: int, num: int, den: int, dt: int) -> bool {
    abs_int(vx) * num * dt >= den || abs_int(vy) * num * dt >= den
}

/// One frame of acceleration never shrinks a component's magnitude, and
/// strictly grows it when `|v| * num * dt` reaches `den`.
proof fn lemma_accel_component_grows(v: int, num: int, den: int, dt: int)
    requires
        num >= 0,
        dt >= 0,
        den >= 1,
    ensures
        abs_int(spec_accel_component(v, num, den, dt)) >= abs_int(v),
        abs_int(v) * num * dt >= den ==> abs_int(spec_accel_component(v, num, den, dt)) > abs_int(
            v,
        ),
        v >= 0 ==> spec_accel_component(v, num, den, dt) >= v,
        v < 0 ==> spec_accel_component(v, num, den, dt) <= v,
{
    let m = abs_int(v);
    assert(m * num * dt >= 0) by (nonlinear_arith)
        requires
            m >= 0,
            num >= 0,
            dt >= 0,
    ;
    assert((m * num * dt) / den >= 0) by (nonlinear_arith)
        requires
            m * num * dt >= 0,
            den >= 1,
    ;
    assert(m * num * dt >= den ==> (m * num * dt) / den >= 1) by (nonlinear_arith)
        requires
            den >= 1,
    ;
}

/// Speed growth: while `accel_effective` holds, every further frame of
/// acceleration strictly enlarges the squared speed, and the condition
/// keeps holding; so with a positive rate and a constant frame delta the
/// speed after `n` frames strictly increases with `n`.
pub proof fn lemma_speed_growth(vx: int, vy: int, num: int, den: int, dt: int, n: nat)
    requires
        num >= 0,
        dt >= 0,
        den >= 1,
        accel_effective(vx, vy, num, den, dt),
    ensures
        accel_effective(
            spec_accel_iter(vx, num, den, dt, n),
            spec_accel_iter(vy, num, den, dt, n),
            num,
            den,
            dt,
        ),
        speed_sq(spec_accel_iter(vx, num, den, dt, n), spec_accel_iter(vy, num, den, dt, n))
            < speed_sq(
            spec_accel_iter(vx, num, den, dt, (n + 1) as nat),
            spec_accel_iter(vy, num, den, dt, (n + 1) as nat),
        ),
    decreases n,
{
    if n > 0 {
        lemma_speed_growth(vx, vy, num, den, dt, (n - 1) as nat);
    }
    let cx = spec_accel_iter(vx, num, den, dt, n);
    let cy = spec_accel_iter(vy, num, den, dt, n);
    if n > 0 {
        let px = spec_accel_iter(vx, num, den, dt, (n - 1) as nat);
        let py = spec_accel_iter(vy, num, den, dt, (n - 1) as nat);
        lemma_accel_component_grows(px, num, den, dt);
        lemma_accel_component_grows(py, num, den, dt);
        assert(abs_int(px) * num * dt >= den && abs_int(cx) >= abs_int(px) ==> abs_int(cx) * num
            * dt >= den) by (nonlinear_arith)
            requires
                num >= 0,
                dt >= 0,
                abs_int(px) >= 0,
        ;
        assert(abs_int(py) * num * dt >= den && abs_int(cy) >= abs_int(py) ==> abs_int(cy) * num
            * dt >= den) by (nonlinear_arith)
            requires
                num >= 0,
                dt >= 0,
                abs_int(py) >= 0,
        ;
    }
    lemma_accel_component_grows(cx, num, den, dt);
    lemma_accel_component_grows(cy, num, den, dt);
    let nx = spec_accel_component(cx, num, den, dt);
    let ny = spec_accel_component(cy, num, den, dt);
    assert(spec_accel_iter(vx, num, den, dt, (n + 1) as nat) == nx);
    assert(spec_accel_iter(vy, num, den, dt, (n + 1) as nat) == ny);
    let ax = abs_int(cx);
    let ay = abs_int(cy);
    let axn = abs_int(nx);
    let ayn = abs_int(ny);
    assert(axn > ax || ayn > ay);
    assert(speed_sq(cx, cy) < speed_sq(nx, ny)) by (nonlinear_arith)
        requires
            axn >= ax >= 0,
            ayn >= ay >= 0,
            axn > ax || ayn > ay,
            cx == ax || cx == -ax,
            cy == ay || cy == -ay,
            nx == axn || nx == -axn,
            ny == ayn || ny == -ayn,
            speed_sq(cx, cy) == cx * cx + cy * cy,
            speed_sq(nx, ny) == nx * nx + ny * ny,
    ;
}

/// Speed growth over any two counts of frames: while `accel_effective`
/// holds of the starting velocity, more frames of acceleration always
/// mean a strictly larger squared speed — the speed after `m` frames
/// strictly increases with `m`.
pub proof fn lemma_speed_monotone(vx: int, vy: int, num: int, den: int, dt: int, n: nat, m: nat)
    requires
        num >= 0,
        dt >= 0,
        den >= 1,
        accel_effective(vx, vy, num, den, dt),
        n < m,
    ensures
        speed_sq(spec_accel_iter(vx, num, den, dt, n), spec_accel_iter(vy, num, den, dt, n))
            < speed_sq(spec_accel_iter(vx, num, den, dt, m), spec_accel_iter(vy, num, den, dt, m)),
    decreases m - n,
{
    lemma_speed_growth(vx, vy, num, den, dt, n);
    if n + 1 < m {
        lemma_speed_monotone(vx, vy, num, den, dt, (n + 1) as nat, m);
    }
}

/// The geometric bounds [`Ball::check_player_collision`] asks of each
/// player: coordinates in range, a usable paddle extent, and a paddle
/// velocity as an intent sets it.
pub open spec fn player_ok(p: Player) -> bool {
    &&& within(p.paddle.transform.position, COORD_LIMIT as int)
    &&& size_ok(p.paddle.extent)
    &&& paddle_velocity_ok(p.paddle.transform)
}

/// Whether the ball's rectangle is not separate from `p`'s paddle.
pub open spec fn hits(b: Ball, p: Player) -> bool {
    spec_collide(b.transform.position, b.extent, p.paddle.transform.position, p.paddle.extent)
        != CollideType::Separate
}

/// The ball after bouncing off one paddle, by the overlap class:
/// `Horizontal` (a face hit) reflects the horizontal velocity and, when
/// the paddle is moving, steers the vertical velocity by multiplying it
/// with the paddle's one-unit vertical velocity; `Vertical` (an edge hit)
/// reflects the vertical velocity and nudges an exactly edge-flush ball
/// [`EDGE_NUDGE`] away from the edge; `Separate` leaves the ball alone.
pub open spec fn spec_resolve_collision(b: Ball, p: Player) -> Ball {
    match spec_collide(
        b.transform.position,
        b.extent,
        p.paddle.transform.position,
        p.paddle.extent,
    ) {
        CollideType::Separate => b,
        CollideType::Horizontal => Ball {
            transform: Transform {
                position: b.transform.position,
                velocity: Vec2 {
                    x: (-b.transform.velocity.x) as i64,
                    y: if p.paddle.transform.velocity.y != 0 {
                        (b.transform.velocity.y * p.paddle.transform.velocity.y) as i64
                    } else {
                        b.transform.velocity.y
                    },
                },
            },
            extent: b.extent,
        },
        CollideType::Vertical => Ball {
            transform: Transform {
                position: Vec2 {
                    x: b.transform.position.x,
                    y: if b.transform.position.y + b.extent.height
                        == p.paddle.transform.position.y {
                        (b.transform.position.y - EDGE_NUDGE) as i64
                    } else if b.transform.position.y == p.paddle.transform.position.y
                        + p.paddle.extent.height {
                        (b.transform.position.y + EDGE_NUDGE) as i64
                    } else {
                        b.transform.position.y
                    },
                },
                velocity: Vec2 {
                    x: b.transform.velocity.x,
                    y: (-b.transform.velocity.y) as i64,
                },
            },
            extent: b.extent,
        },
    }
}

/// The ball after collision resolution against a list of players in order:
/// the first player whose paddle is not separate from the ball resolves
/// the bounce, and the rest are ignored — a ball bounces off at most one
/// paddle per frame.
pub open spec fn spec_resolve_players(b: Ball, players: Seq<Player>) -> Ball
    decreases players.len(),
{
    if players.len() == 0 {
        b
    } else if hits(b, players[0]) {
        spec_resolve_collision(b, players[0])
    } else {
        spec_resolve_players(b, players.drop_first())
    }
}

/// Skipping a prefix of players that the ball misses does not change the
/// outcome of [`spec_resolve_players`].
proof fn lemma_resolve_players_skip(b: Ball, players: Seq<Player>, i: int)
    requires
        0 <= i <= players.len(),
        forall|j: int| 0 <= j < i ==> !hits(b, #[trigger] players[j]),
    ensures
        spec_resolve_players(b, players) == spec_resolve_players(b, players.skip(i)),
    decreases i,
{
    if i == 0 {
        assert(players.skip(0) =~= players);
    } else {
        lemma_resolve_players_skip(b, players, i - 1);
        let tail = players.skip(i - 1);
        assert(tail[0] == players[i - 1]);
        assert(!hits(b, tail[0]));
        assert(spec_resolve_players(b, tail) == spec_resolve_players(b, tail.drop_first()));
        assert(tail.drop_first() =~= players.skip(i));
    }
}

impl Ball {
    /// A freshly spawned ball: top-left corner at the arena center minus
    /// half the ball's extent (so the ball's center sits on the arena
    /// center), moving with the given velocity.  The caller supplies the
    /// velocity, normally a randomly directed vector of the base ball
    /// speed.
    pub fn spawn(arena: Size, extent: Size, velocity: Vec2) -> (b: Ball)
        requires
            size_ok(arena),
            size_ok(extent),
        ensures
            b.transform.position.x == spec_arena_center(arena).x - spec_center_offset(extent).x,
            b.transform.position.y == spec_arena_center(arena).y - spec_center_offset(extent).y,
            b.transform.velocity == velocity,
            b.extent == extent,
    {
        let center = arena_center(arena);
        let offset = center_offset(extent);
        Ball {
            transform: Transform {
                position: Vec2 { x: center.x - offset.x, y: center.y - offset.y },
                velocity,
            },
            extent,
        }
    }

    /// Resolves the ball against the players' paddles, in the order given:
    /// the first paddle not separate from the ball determines the bounce
    /// (as [`spec_resolve_collision`] states) and resolution stops there;
    /// when every paddle is separate the ball is unchanged.
    #[verifier::loop_isolation(false)]
    pub fn check_player_collision(&mut self, players: &[Player])
        requires
            within(old(self).transform.position, COORD_LIMIT as int),
            size_ok(old(self).extent),
            within(old(self).transform.velocity, VEL_LIMIT as int),
            forall|i: int| 0 <= i < players@.len() ==> player_ok(#[trigger] players@[i]),
        ensures
            *final(self) == spec_resolve_players(*old(self), players@),
    {
        let ghost orig: Ball = *self;
        let mut i: usize = 0;
        while i < players.len()
            invariant
                0 <= i <= players.len(),
                *self == orig,
                forall|j: int| 0 <= j < i ==> !hits(orig, #[trigger] players@[j]),
            decreases players.len() - i,
        {
            let vy: i64 = self.transform.velocity.y;
            let pvy: i64 = players[i].paddle.transform.velocity.y;
            match crate::collide(
                self.transform.position,
                self.extent,
                players[i].paddle.transform.position,
                players[i].paddle.extent,
            ) {
                CollideType::Separate => {
                    i = i + 1;
                },
                CollideType::Horizontal => {
                    self.transform.velocity.x = -self.transform.velocity.x;
                    if pvy != 0 {
                        proof {
                            assert(-(VEL_LIMIT as int) <= vy * pvy <= VEL_LIMIT as int)
                                by (nonlinear_arith)
                                requires
                                    -(VEL_LIMIT as int) <= vy <= VEL_LIMIT as int,
                                    -1 <= pvy <= 1,
                            ;
                        }
                        self.transform.velocity.y = vy * pvy;
                    }
                    proof {
                        lemma_resolve_players_skip(orig, players@, i as int);
                        assert(players@.skip(i as int)[0] == players@[i as int]);
                    }
                    return ;
                },
                CollideType::Vertical => {
                    self.transform.velocity.y = -vy;
                    if self.transform.position.y + self.extent.height
                        == players[i].paddle.transform.position.y {
                        self.transform.position.y = self.transform.position.y - EDGE_NUDGE;
                    } else if self.transform.position.y == players[i].paddle.transform.position.y
                        + players[i].paddle.extent.height {
                        self.transform.position.y = self.transform.position.y + EDGE_NUDGE;
                    }
                    proof {
                        lemma_resolve_players_skip(orig, players@, i as int);
                        assert(players@.skip(i as int)[0] == players@[i as int]);
                    }
                    return ;
                },
            }
        }
        proof {
            lemma_resolve_players_skip(orig, players@, players@.len() as int);
        }
    }

    /// Resolves an arena exit, after classifying the ball against the
    /// arena.  A left exit scores one point for the right-side player and
    /// a right exit one for the left-side player; either respawns the
    /// ball at the arena center with the caller-supplied velocity
    /// (normally a randomly directed vector of the base speed).  A top or
    /// bottom exit just reflects the vertical velocity, and an in-bounds
    /// ball is untouched.  The untouched score never changes, so scores
    /// only ever grow.
    pub fn check_out_of_bounds(
        &mut self,
        arena: Size,
        left_score: &mut usize,
        right_score: &mut usize,
        respawn_velocity: Vec2,
    )
        requires
            within(old(self).transform.position, COORD_LIMIT as int),
            size_ok(old(self).extent),
            size_ok(arena),
            within(old(self).transform.velocity, VEL_LIMIT as int),
            *old(left_score) < usize::MAX,
            *old(right_score) < usize::MAX,
        ensures
            final(self).extent == old(self).extent,
            ({
                let class = spec_out_of_bounds(old(self).transform.position, old(self).extent, arena);
                &&& class == OutOfBoundsType::Left ==> {
                    &&& final(self).transform.position == respawn_position(arena, old(self).extent)
                    &&& final(self).transform.velocity == respawn_velocity
                    &&& *final(right_score) == *old(right_score) + 1
                    &&& *final(left_score) == *old(left_score)
                }
                &&& class == OutOfBoundsType::Right ==> {
                    &&& final(self).transform.position == respawn_position(arena, old(self).extent)
                    &&& final(self).transform.velocity == respawn_velocity
                    &&& *final(left_score) == *old(left_score) + 1
                    &&& *final(right_score) == *old(right_score)
                }
                &&& class == OutOfBoundsType::Top || class == OutOfBoundsType::Bottom ==> {
                    &&& final(self).transform.position == old(self).transform.position
                    &&& final(self).transform.velocity.x == old(self).transform.velocity.x
                    &&& final(self).transform.velocity.y == -old(self).transform.velocity.y
                    &&& *final(left_score) == *old(left_score)
                    &&& *final(right_score) == *old(right_score)
                }
                &&& class == OutOfBoundsType::InBounds ==> {
                    &&& *final(self) == *old(self)
                    &&& *final(left_score) == *old(left_score)
                    &&& *final(right_score) == *old(right_score)
                }
            }),
    {
        match crate::is_out_of_bounds(self.transform.position, self.extent, arena) {
            OutOfBoundsType::Left => {
                *right_score = *right_score + 1;
                let center = arena_center(arena);
                let offset = center_offset(self.extent);
                self.transform.position = Vec2 { x: center.x - offset.x, y: center.y - offset.y };
                self.transform.velocity = respawn_velocity;
            },
            OutOfBoundsType::Right => {
                *left_score = *left_score + 1;
                let center = arena_center(arena);
                let offset = center_offset(self.extent);
                self.transform.position = Vec2 { x: center.x - offset.x, y: center.y - offset.y };
                self.transform.velocity = respawn_velocity;
            },
            OutOfBoundsType::Top | OutOfBoundsType::Bottom => {
                self.transform.velocity.y = -self.transform.velocity.y;
            },
            OutOfBoundsType::InBounds => {},
        }
    }

    /// Advances the ball by one frame: the position moves by
    /// `velocity * dt`, then the velocity self-accelerates — each
    /// component grows in magnitude by `|v| * accel_num * dt / accel_den`
    /// as [`spec_accel_component`] states, so the speed compounds frame
    /// over frame rather than growing by a fixed increment.
    pub fn tick(&mut self, dt: i64, accel_num: i64, accel_den: i64)
        requires
            within(old(self).transform.position, COORD_LIMIT as int),
            within(old(self).transform.velocity, SPEED_LIMIT as int),
            0 <= dt <= DT_LIMIT,
            0 <= accel_num <= RATE_LIMIT,
            1 <= accel_den,
        ensures
            final(self).extent == old(self).extent,
            final(self).transform.position.x == old(self).transform.position.x + old(
                self,
            ).transform.velocity.x * dt,
            final(self).transform.position.y == old(self).transform.position.y + old(
                self,
            ).transform.velocity.y * dt,
            final(self).transform.velocity.x == spec_accel_component(
                old(self).transform.velocity.x as int,
                accel_num as int,
                accel_den as int,
                dt as int,
            ),
            final(self).transform.velocity.y == spec_accel_component(
                old(self).transform.velocity.y as int,
                accel_num as int,
                accel_den as int,
                dt as int,
            ),
    {
        let vx: i64 = self.transform.velocity.x;
        let vy: i64 = self.transform.velocity.y;
        proof {
            assert(-(SPEED_LIMIT * DT_LIMIT) <= vx * dt <= SPEED_LIMIT * DT_LIMIT)
                by (nonlinear_arith)
                requires
                    -SPEED_LIMIT <= vx <= SPEED_LIMIT,
                    0 <= dt <= DT_LIMIT,
            ;
            assert(-(SPEED_LIMIT * DT_LIMIT) <= vy * dt <= SPEED_LIMIT * DT_LIMIT)
                by (nonlinear_arith)
                requires
                    -SPEED_LIMIT <= vy <= SPEED_LIMIT,
                    0 <= dt <= DT_LIMIT,
            ;
        }
        self.transform.position.x = self.transform.position.x + vx * dt;
        self.transform.position.y = self.transform.position.y + vy * dt;
        self.transform.velocity.x = accelerate_component(vx, accel_num, accel_den, dt);
        self.transform.velocity.y = accelerate_component(vy, accel_num, accel_den, dt);
    }
}

/// Where a respawned ball stands: the arena center minus half the ball's
/// extent, so the ball's center sits on the arena center.
pub open spec fn respawn_position(arena: Size, extent: Size) -> Vec2 {
    Vec2 {
        x: (spec_arena_center(arena).x - spec_center_offset(extent).x) as i64,
        y: (spec_arena_center(arena).y - spec_center_offset(extent).y) as i64,
    }
}

/// One velocity component after one frame of self-acceleration, computed
/// on magnitudes so the division is between non-negative integers.
fn accelerate_component(v: i64, num: i64, den: i64, dt: i64) -> (r: i64)
    requires
        -SPEED_LIMIT <= v <= SPEED_LIMIT,
        0 <= dt <= DT_LIMIT,
        0 <= num <= RATE_LIMIT,
        1 <= den,
    ensures
        r == spec_accel_component(v as int, num as int, den as int, dt as int),
{
    let m: u64 = if v >= 0 {
        v as u64
    } else {
        (-v) as u64
    };
    proof {
        assert(m * (num as u64) <= (SPEED_LIMIT * RATE_LIMIT) as u64) by (nonlinear_arith)
            requires
                0 <= m <= SPEED_LIMIT as u64,
                0 <= num <= RATE_LIMIT,
        ;
        assert(m * (num as u64) * (dt as u64) <= (SPEED_LIMIT * RATE_LIMIT * DT_LIMIT) as u64)
            by (nonlinear_arith)
            requires
                0 <= m * (num as u64) <= (SPEED_LIMIT * RATE_LIMIT) as u64,
                0 <= dt <= DT_LIMIT,
        ;
        assert((m as int) * (num as int) * (dt as int) / (den as int) <= (m as int) * (num as int)
            * (dt as int)) by (nonlinear_arith)
            requires
                1 <= den,
                0 <= m,
                0 <= num,
                0 <= dt,
        ;
    }
    let inc: u64 = m * (num as u64) * (dt as u64) / (den as u64);
    if v >= 0 {
        v + (inc as i64)
    } else {
        v - (inc as i64)
    }
}

} // verus!
