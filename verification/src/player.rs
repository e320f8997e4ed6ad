//! The player subsystem: per-tick kinematics (acceleration, deceleration,
//! speed cap, per-axis wall clamping), velocity-gated sprite animation, and
//! the camera that follows the player within the level.
//!
//! Positions are micro-units, velocities milli-units/s, time milliseconds;
//! a velocity times a time delta is then a displacement in micro-units with
//! no rounding anywhere.

use vstd::prelude::*;
use crate::config::{GameConfig, MAX_DT_MS, MAX_RATE, MILLI, POS_LIMIT};

verus! {

/// Marker for the single player-controlled entity.
#[derive(Clone, Copy, PartialEq, Eq, Structural, Debug)]
pub struct Player;

/// A plain 2D vector in the fixed-point scale of velocities.
#[derive(Clone, Copy, PartialEq, Eq, Structural, Debug)]
pub struct Vec2i {
    pub x: i64,
    pub y: i64,
}

/// An entity's position, in micro-units.
#[derive(Clone, Copy, PartialEq, Eq, Structural, Debug)]
pub struct Position {
    pub x: i64,
    pub y: i64,
}

/// An entity's velocity, in milli-units per second.
#[derive(Clone, Copy, PartialEq, Eq, Structural, Debug)]
pub struct Velocity {
    pub x: i64,
    pub y: i64,
}

/// The repeating animation timer: accumulates elapsed milliseconds while the
/// entity moves and wraps each time the period is exceeded.
#[derive(Clone, Copy, PartialEq, Eq, Structural, Debug)]
pub struct AnimationTimer {
    /// The fixed period, in milliseconds.
    pub period_ms: u64,
    /// Time accumulated toward the next firing, in milliseconds.
    pub elapsed_ms: u64,
}

/// Descriptor of the sliced sprite sheet the player animates with: only the
/// frame count matters to the simulation; the pixels stay with the renderer.
#[derive(Clone, Copy, PartialEq, Eq, Structural, Debug)]
pub struct PlayerSheet {
    pub frame_count: usize,
}

impl PlayerSheet {
    /// Load-time validation: a sheet with no frames is rejected before the
    /// Playing state can ever be entered.
    pub fn new(frame_count: usize) -> (r: Option<PlayerSheet>)
        ensures
            r is Some <==> frame_count >= 1,
            r is Some ==> r->0.frame_count == frame_count,
    {
        if frame_count >= 1 {
            Some(PlayerSheet { frame_count })
        } else {
            None
        }
    }
}

impl Velocity {
    /// The zero vector: the velocity an entity spawns at rest with.
    pub fn new() -> (v: Velocity)
        ensures
            v.x == 0 && v.y == 0,
    {
        Velocity { x: 0, y: 0 }
    }
}

impl From<Vec2i> for Velocity {
    /// A velocity holding the given vector's components.
    fn from(v: Vec2i) -> (r: Velocity) {
        Velocity { x: v.x, y: v.y }
    }
}

impl vstd::std_specs::convert::FromSpecImpl<Vec2i> for Velocity {
    open spec fn obeys_from_spec() -> bool {
        true
    }

    open spec fn from_spec(v: Vec2i) -> Velocity {
        Velocity { x: v.x, y: v.y }
    }
}

/// Magnitude of a signed quantity.
pub open spec fn abs_i(v: int) -> int {
    if v < 0 {
        -v
    } else {
        v
    }
}

/// `v` held to `[lo, hi]`.
pub open spec fn clamp_i(v: int, lo: int, hi: int) -> int {
    if v < lo {
        lo
    } else if v > hi {
        hi
    } else {
        v
    }
}

/// The time delta actually used by a tick: a negative or absurdly large
/// delta from the clock is held to `[0, MAX_DT_MS]` rather than propagated.
pub open spec fn clamp_dt_spec(dt: int) -> int {
    clamp_i(dt, 0, MAX_DT_MS as int)
}

/// Desired horizontal direction from the input snapshot: -1 when only left
/// is held, +1 when only right is held, 0 when neither or both are held.
pub open spec fn dir_spec(left: bool, right: bool) -> int {
    (if right {
        1int
    } else {
        0int
    }) - (if left {
        1int
    } else {
        0int
    })
}

/// One deceleration step along one axis: the speed drops by `acc` toward
/// zero, and snaps to exactly zero once no larger than `acc` — the velocity
/// never overshoots and never keeps a residual creep.
pub open spec fn decel_spec(v: int, acc: int) -> int {
    if abs_i(v) > acc {
        if v > 0 {
            v - acc
        } else {
            v + acc
        }
    } else {
        0
    }
}

/// One tick of the kinematic rule on one axis: accelerate in the desired
/// direction capped at `vmax` when input is present, else decelerate.
pub open spec fn axis_step_spec(v: int, dir: int, acc: int, vmax: int) -> int {
    if dir != 0 {
        clamp_i(v + dir * acc, -vmax, vmax)
    } else {
        decel_spec(v, acc)
    }
}

/// Reads the input snapshot into the desired horizontal direction.
pub fn desired_dir(left: bool, right: bool) -> (d: i64)
    ensures
        d as int == dir_spec(left, right),
{
    let mut d: i64 = 0;
    if left {
        d = d - 1;
    }
    if right {
        d = d + 1;
    }
    d
}

/// One axis of the per-tick velocity update.
pub fn axis_step(v: i64, dir: i64, acc: i64, vmax: i64) -> (r: i64)
    requires
        -1 <= dir <= 1,
        0 <= acc <= MAX_RATE * MAX_DT_MS,
        0 <= vmax <= MAX_RATE * MILLI,
        abs_i(v as int) <= vmax,
    ensures
        r as int == axis_step_spec(v as int, dir as int, acc as int, vmax as int),
{
    if dir != 0 {
        let da: i64 = if dir > 0 {
            acc
        } else {
            -acc
        };
        proof {
            assert(da == dir * acc) by (nonlinear_arith)
                requires
                    dir == 1 || dir == -1,
                    da == (if dir == 1 {
                        acc as int
                    } else {
                        -acc
                    }),
            ;
        }
        let t: i64 = v + da;
        if t > vmax {
            vmax
        } else if t < -vmax {
            -vmax
        } else {
            t
        }
    } else {
        let mag: i64 = if v < 0 {
            -v
        } else {
            v
        };
        if mag > acc {
            if v > 0 {
                v - acc
            } else {
                v + acc
            }
        } else {
            0
        }
    }
}

/// `x` lies in the horizontal band the level and viewport leave the player.
pub open spec fn x_in_bounds(c: GameConfig, x: int) -> bool {
    c.x_min() <= x <= c.x_max()
}

/// `y` lies in the vertical band the window leaves the player.
pub open spec fn y_in_bounds(c: GameConfig, y: int) -> bool {
    c.y_min() <= y <= c.y_max()
}

/// The position lies inside both bands.
pub open spec fn pos_in_bounds(c: GameConfig, p: Position) -> bool {
    x_in_bounds(c, p.x as int) && y_in_bounds(c, p.y as int)
}

/// Both components are within the configured speed bound.
pub open spec fn vel_bounded(c: GameConfig, v: Velocity) -> bool {
    abs_i(v.x as int) <= c.vmax_mups() && abs_i(v.y as int) <= c.vmax_mups()
}

/// The position's magnitude leaves room for one displacement in `i64`.
pub open spec fn pos_sane(p: Position) -> bool {
    abs_i(p.x as int) <= POS_LIMIT && abs_i(p.y as int) <= POS_LIMIT
}

/// The new velocity follows from the old one by the kinematic rule, with the
/// desired direction on the horizontal axis and no input on the vertical.
pub open spec fn vel_stepped(
    c: GameConfig,
    d: int,
    left: bool,
    right: bool,
    ov: Velocity,
    nv: Velocity,
) -> bool {
    &&& nv.x == axis_step_spec(ov.x as int, dir_spec(left, right), c.accel_rate * d, c.vmax_mups())
    &&& nv.y == axis_step_spec(ov.y as int, 0, c.accel_rate * d, c.vmax_mups())
}

/// The new position commits each axis's displacement from the new velocity
/// exactly when the tentative coordinate stays in bounds, and otherwise
/// keeps that axis unchanged (a hard wall that leaves the velocity alone).
pub open spec fn pos_stepped(c: GameConfig, d: int, nv: Velocity, op: Position, np: Position) -> bool {
    &&& np.x == (if x_in_bounds(c, op.x + nv.x * d) {
        op.x + nv.x * d
    } else {
        op.x as int
    })
    &&& np.y == (if y_in_bounds(c, op.y + nv.y * d) {
        op.y + nv.y * d
    } else {
        op.y as int
    })
}

/// A product of bounded factors is bounded.
proof fn lemma_abs_mul_bound(v: int, d: int, vb: int, db: int)
    requires
        abs_i(v) <= vb,
        0 <= d <= db,
    ensures
        abs_i(v * d) <= vb * db,
        v >= 0 ==> v * d >= 0,
{
    assert(-(vb * db) <= v * d <= vb * db && (v >= 0 ==> v * d >= 0)) by (nonlinear_arith)
        requires
            -vb <= v <= vb,
            0 <= d <= db,
    ;
}

/// The movement controller. Once per tick, with the elapsed time and the
/// input snapshot: update the velocity by the kinematic rule (cancelled
/// opposing keys give no input), then integrate each axis of the position
/// independently, discarding an axis's change when it would leave the
/// player's band. Runs strictly before the animation and camera systems.
pub fn move_player(
    cfg: &GameConfig,
    dt_ms: i64,
    left: bool,
    right: bool,
    pos: &mut Position,
    vel: &mut Velocity,
)
    requires
        cfg.wf(),
        vel_bounded(*cfg, *old(vel)),
        pos_sane(*old(pos)),
    ensures
        vel_stepped(*cfg, clamp_dt_spec(dt_ms as int), left, right, *old(vel), *final(vel)),
        pos_stepped(*cfg, clamp_dt_spec(dt_ms as int), *final(vel), *old(pos), *final(pos)),
        vel_bounded(*cfg, *final(vel)),
        pos_sane(*final(pos)),
        pos_in_bounds(*cfg, *old(pos)) ==> pos_in_bounds(*cfg, *final(pos)),
{
    let d: i64 = if dt_ms < 0 {
        0
    } else if dt_ms > MAX_DT_MS {
        MAX_DT_MS
    } else {
        dt_ms
    };
    proof {
        lemma_abs_mul_bound(cfg.accel_rate as int, d as int, MAX_RATE as int, MAX_DT_MS as int);
    }
    let acc: i64 = cfg.accel_rate * d;
    let vmax: i64 = cfg.max_speed * MILLI;
    let dir: i64 = desired_dir(left, right);
    vel.x = axis_step(vel.x, dir, acc, vmax);
    vel.y = axis_step(vel.y, 0, acc, vmax);
    proof {
        lemma_abs_mul_bound(vel.x as int, d as int, MAX_RATE * MILLI, MAX_DT_MS as int);
        lemma_abs_mul_bound(vel.y as int, d as int, MAX_RATE * MILLI, MAX_DT_MS as int);
    }
    let dx: i64 = vel.x * d;
    let dy: i64 = vel.y * d;
    let x_lo: i64 = cfg.half_tile - cfg.half_win_w;
    let x_hi: i64 = cfg.level_len - (cfg.half_win_w + cfg.half_tile);
    let tx: i64 = pos.x + dx;
    if x_lo <= tx && tx <= x_hi {
        pos.x = tx;
    }
    let y_lo: i64 = 3 * cfg.half_tile - cfg.half_win_h;
    let y_hi: i64 = cfg.half_win_h - cfg.half_tile;
    let ty: i64 = pos.y + dy;
    if y_lo <= ty && ty <= y_hi {
        pos.y = ty;
    }
}

/// Whether the timer fires this tick: the accumulated time strictly exceeds
/// the period.
pub open spec fn anim_fires(t: AnimationTimer, d: int) -> bool {
    t.elapsed_ms + d > t.period_ms
}

/// The timer's period is set and its accumulated time never past the period.
pub open spec fn timer_wf(t: AnimationTimer) -> bool {
    1 <= t.period_ms <= crate::config::MAX_PERIOD_MS && 0 <= t.elapsed_ms <= t.period_ms
}

/// The animation step: a moving entity accumulates time and, when the timer
/// fires, advances the frame by exactly one modulo the frame count while the
/// timer wraps; an entity at rest holds its frame and its residual time.
pub open spec fn anim_stepped(
    n: int,
    d: int,
    vel: Velocity,
    ot: AnimationTimer,
    nt: AnimationTimer,
    of: int,
    nf: int,
) -> bool {
    if vel.x == 0 && vel.y == 0 {
        nt == ot && nf == of
    } else {
        &&& nt.period_ms == ot.period_ms
        &&& if anim_fires(ot, d) {
            nt.elapsed_ms == (ot.elapsed_ms + d) % (ot.period_ms as int) && nf == (of + 1) % n
        } else {
            nt.elapsed_ms == ot.elapsed_ms + d && nf == of
        }
    }
}

/// The animation driver. Once per tick, ordered after the movement
/// controller: while the (updated) velocity is non-zero, accumulate the
/// elapsed time and advance the frame index by one modulo the frame count
/// each time the period is exceeded; while the velocity is exactly zero,
/// hold both the frame and the accumulated time.
pub fn animate_player(
    frame_count: usize,
    dt_ms: i64,
    vel: &Velocity,
    timer: &mut AnimationTimer,
    frame: &mut usize,
)
    requires
        1 <= frame_count,
        timer_wf(*old(timer)),
        *old(frame) < frame_count,
    ensures
        anim_stepped(
            frame_count as int,
            clamp_dt_spec(dt_ms as int),
            *vel,
            *old(timer),
            *final(timer),
            *old(frame) as int,
            *final(frame) as int,
        ),
        timer_wf(*final(timer)),
        *final(frame) < frame_count,
{
    if vel.x != 0 || vel.y != 0 {
        let d: i64 = if dt_ms < 0 {
            0
        } else if dt_ms > MAX_DT_MS {
            MAX_DT_MS
        } else {
            dt_ms
        };
        let e: u64 = timer.elapsed_ms + (d as u64);
        if e > timer.period_ms {
            timer.elapsed_ms = e % timer.period_ms;
            *frame = (*frame + 1) % frame_count;
        } else {
            timer.elapsed_ms = e;
        }
    }
}

/// The camera tracker. Once per tick, ordered after the movement
/// controller: the camera's horizontal position follows the player's,
/// clamped so the view never leaves the level; the vertical framing is
/// fixed and left untouched.
pub fn move_camera(cfg: &GameConfig, player_pos: &Position, cam: &mut Position)
    requires
        cfg.wf(),
    ensures
        final(cam).x as int == clamp_i(player_pos.x as int, 0, cfg.cam_max()),
        final(cam).y == old(cam).y,
{
    let hi: i64 = cfg.level_len - 2 * cfg.half_win_w;
    cam.x = if player_pos.x < 0 {
        0
    } else if player_pos.x > hi {
        hi
    } else {
        player_pos.x
    };
}

/// Whatever the input and however large the (clamped) acceleration, a
/// velocity within the speed bound stays within it after a tick: the cap
/// holds across arbitrarily many accelerating ticks.
pub proof fn lemma_speed_bounded(v: int, dir: int, acc: int, vmax: int)
    requires
        abs_i(v) <= vmax,
        0 <= acc,
    ensures
        abs_i(axis_step_spec(v, dir, acc, vmax)) <= vmax,
{
}

/// Deceleration is monotonic toward zero: with no input, the speed never
/// grows, the sign never flips, and a velocity already at rest stays there.
pub proof fn lemma_decel_monotone(v: int, acc: int)
    requires
        0 <= acc,
    ensures
        abs_i(decel_spec(v, acc)) <= abs_i(v),
        v >= 0 ==> 0 <= decel_spec(v, acc) <= v,
        v <= 0 ==> v <= decel_spec(v, acc) <= 0,
        v == 0 ==> decel_spec(v, acc) == 0,
{
}

/// The velocity after `n` input-free ticks of deceleration by `acc`.
pub open spec fn decel_iter_spec(v: int, acc: int, n: nat) -> int
    decreases n,
{
    if n == 0 {
        v
    } else {
        decel_iter_spec(decel_spec(v, acc), acc, (n - 1) as nat)
    }
}

/// Once input stops, the velocity reaches exactly zero in finitely many
/// ticks: after any `n` ticks whose total deceleration covers the speed,
/// the velocity is zero — no perpetual residual creep.
pub proof fn lemma_decel_reaches_zero(v: int, acc: int, n: nat)
    requires
        1 <= acc,
        n * acc >= abs_i(v),
    ensures
        decel_iter_spec(v, acc, n) == 0,
    decreases n,
{
    if n == 0 {
        assert(n * acc == 0) by (nonlinear_arith)
            requires
                n == 0,
        ;
        assert(v == 0);
    } else {
        let w = decel_spec(v, acc);
        assert((n - 1) * acc == n * acc - acc) by (nonlinear_arith);
        assert((n - 1) * acc >= 0) by (nonlinear_arith)
            requires
                n >= 1,
                acc >= 1,
        ;
        assert(abs_i(w) <= abs_i(v) - acc || w == 0);
        lemma_decel_reaches_zero(w, acc, (n - 1) as nat);
    }
}

/// Holding left and right together is the same tick as holding neither: the
/// desired direction cancels to zero, so the whole velocity update agrees.
pub proof fn lemma_opposed_keys_cancel(v: int, acc: int, vmax: int)
    ensures
        dir_spec(true, true) == 0,
        dir_spec(false, false) == 0,
        axis_step_spec(v, dir_spec(true, true), acc, vmax) == axis_step_spec(
            v,
            dir_spec(false, false),
            acc,
            vmax,
        ),
{
}

/// A position inside the level/window bands never leaves them: each axis
/// either commits a tentative coordinate already checked against its band
/// or keeps the old in-band coordinate, so any sequence of ticks starting
/// in bounds stays in bounds.
pub proof fn lemma_bounds_preserved(
    c: GameConfig,
    d: int,
    nv: Velocity,
    op: Position,
    np: Position,
)
    requires
        pos_stepped(c, d, nv, op, np),
        pos_in_bounds(c, op),
    ensures
        pos_in_bounds(c, np),
{
}

} // verus!
