//! Tuning values for the simulation: level geometry, movement rates and the
//! animation period, together with the derived level/window bounds that the
//! movement controller and the camera clamp against.

use vstd::prelude::*;

verus! {

/// Largest length (in micro-units) a well-formed configuration may hold.
pub const MAX_LEN_MICRO: i64 = 1_000_000_000_000;

/// Largest rate (acceleration in units/s^2, top speed in units/s) allowed.
pub const MAX_RATE: i64 = 1_000_000;

/// Elapsed time handed to a tick is clamped to this many milliseconds, so a
/// malformed time delta can never push the arithmetic out of range.
pub const MAX_DT_MS: i64 = 1_000_000;

/// Largest animation period (in milliseconds) allowed.
pub const MAX_PERIOD_MS: u64 = 1_000_000_000;

/// Milli-units per unit: converts a speed in units/s to milli-units/s.
pub const MILLI: i64 = 1000;

/// Positions the movement controller accepts stay within this magnitude
/// (micro-units), which keeps every displacement sum inside `i64`.
pub const POS_LIMIT: i64 = 4_000_000_000_000_000;

/// Level geometry and movement/animation tuning.
///
/// Distances are in micro-units, rates in whole units: `accel_rate` in
/// units/s^2, `max_speed` in units/s, and `anim_period_ms` in milliseconds.
#[derive(Clone, Copy, PartialEq, Eq, Structural, Debug)]
pub struct GameConfig {
    /// Horizontal extent of the level, in micro-units.
    pub level_len: i64,
    /// Half the viewport width, in micro-units.
    pub half_win_w: i64,
    /// Half the viewport height, in micro-units.
    pub half_win_h: i64,
    /// Half of one tile, in micro-units.
    pub half_tile: i64,
    /// Horizontal acceleration while a key is held, in units/s^2.
    pub accel_rate: i64,
    /// Speed the velocity never exceeds, in units/s.
    pub max_speed: i64,
    /// Period of the sprite animation timer, in milliseconds.
    pub anim_period_ms: u64,
}

impl GameConfig {
    /// All values positive and in range, the tile small enough to fit the
    /// viewport, and the viewport no wider than the level, so that every
    /// bound below is non-empty and the spawn point lies inside them.
    pub open spec fn wf(self) -> bool {
        &&& 1 <= self.level_len <= MAX_LEN_MICRO
        &&& 1 <= self.half_win_w <= MAX_LEN_MICRO
        &&& 1 <= self.half_win_h <= MAX_LEN_MICRO
        &&& 1 <= self.half_tile <= MAX_LEN_MICRO
        &&& 1 <= self.accel_rate <= MAX_RATE
        &&& 1 <= self.max_speed <= MAX_RATE
        &&& 1 <= self.anim_period_ms <= MAX_PERIOD_MS
        &&& self.half_tile <= self.half_win_w
        &&& 2 * self.half_tile <= self.half_win_h
        &&& 2 * self.half_win_w <= self.level_len
    }

    /// Smallest horizontal position the player may occupy.
    pub open spec fn x_min(self) -> int {
        self.half_tile - self.half_win_w
    }

    /// Largest horizontal position the player may occupy.
    pub open spec fn x_max(self) -> int {
        self.level_len - (self.half_win_w + self.half_tile)
    }

    /// Smallest vertical position the player may occupy; also the spawn height.
    pub open spec fn y_min(self) -> int {
        3 * self.half_tile - self.half_win_h
    }

    /// Largest vertical position the player may occupy.
    pub open spec fn y_max(self) -> int {
        self.half_win_h - self.half_tile
    }

    /// Largest camera position: the camera never shows area past the level.
    pub open spec fn cam_max(self) -> int {
        self.level_len - 2 * self.half_win_w
    }

    /// The speed bound in milli-units/s, the scale velocities are stored in.
    pub open spec fn vmax_mups(self) -> int {
        self.max_speed * MILLI
    }

    /// Runtime check of `wf`, for callers outside verified code.
    pub fn is_valid(&self) -> (b: bool)
        ensures
            b == self.wf(),
    {
        1 <= self.level_len && self.level_len <= MAX_LEN_MICRO
            && 1 <= self.half_win_w && self.half_win_w <= MAX_LEN_MICRO
            && 1 <= self.half_win_h && self.half_win_h <= MAX_LEN_MICRO
            && 1 <= self.half_tile && self.half_tile <= MAX_LEN_MICRO
            && 1 <= self.accel_rate && self.accel_rate <= MAX_RATE
            && 1 <= self.max_speed && self.max_speed <= MAX_RATE
            && 1 <= self.anim_period_ms && self.anim_period_ms <= MAX_PERIOD_MS
            && self.half_tile <= self.half_win_w
            && 2 * self.half_tile <= self.half_win_h
            && 2 * self.half_win_w <= self.level_len
    }
}

} // verus!
