//! The spawn controller's computations: derive the two placement seeds,
//! pick a spot where the pumpkin fits on the monitor, and compute the
//! pursuer's rendezvous point for the walk that follows.

use vstd::prelude::*;

use crate::geometry::{
    bounds_in_range, random_between, rendezvous_point, size_in_range, spec_random_between,
    spec_rendezvous_x, spec_rendezvous_y, Bounds,
};

verus! {

/// The pumpkin window's fixed square size, in pixels.
pub const PUMPKIN_SIZE: i32 = 220;

/// Golden-ratio-derived odd constant folded into the x seed.
pub const SPAWN_SEED_X_SALT: u64 = 0x9E37_79B9_7F4A_7C15;

/// Large odd constant folded into the y seed.
pub const SPAWN_SEED_Y_SALT: u64 = 0xC2B2_AE3D_27D4_EB4F;

/// The pursuer's position bit-packed into one word: x in the high half,
/// folded with y in the low half.
pub open spec fn spec_pack_position_seed(x: i32, y: i32) -> u64 {
    (((x as i64) as u64) << 32) ^ ((y as i64) as u64)
}

/// Bit-pack a position into a seed word, one ingredient of the spawn
/// placement entropy.
pub fn pack_position_seed(x: i32, y: i32) -> (seed: u64)
    ensures
        seed == spec_pack_position_seed(x, y),
{
    (((x as i64) as u64) << 32) ^ ((y as i64) as u64)
}

/// `v` rotated left by 17 bits.
pub open spec fn spec_rotate_left_17(v: u64) -> u64 {
    (v << 17) | (v >> 47)
}

/// The x-axis placement seed: time and position XOR-combined with the x
/// salt.
pub open spec fn spec_spawn_seed_x(time_seed: u64, position_seed: u64) -> u64 {
    time_seed ^ position_seed ^ SPAWN_SEED_X_SALT
}

/// The y-axis placement seed: the time word rotated to decorrelate it from
/// the x axis, XOR-combined with position and the y salt.
pub open spec fn spec_spawn_seed_y(time_seed: u64, position_seed: u64) -> u64 {
    spec_rotate_left_17(time_seed) ^ position_seed ^ SPAWN_SEED_Y_SALT
}

/// Both placement seeds from the time word and the packed position word.
pub fn spawn_seeds(time_seed: u64, position_seed: u64) -> (seeds: (u64, u64))
    ensures
        seeds.0 == spec_spawn_seed_x(time_seed, position_seed),
        seeds.1 == spec_spawn_seed_y(time_seed, position_seed),
{
    let rotated: u64 = (time_seed << 17) | (time_seed >> 47);
    (
        time_seed ^ position_seed ^ SPAWN_SEED_X_SALT,
        rotated ^ position_seed ^ SPAWN_SEED_Y_SALT,
    )
}

/// Highest x at which a pumpkin of `size` still fits the monitor
/// horizontally (the monitor origin when the monitor is narrower than the
/// pumpkin).
pub open spec fn spec_spawn_max_x(b: Bounds, size: int) -> int {
    b.x + (if b.width - size >= 0 {
        b.width - size
    } else {
        0
    })
}

/// Highest y at which a pumpkin of `size` still fits the monitor
/// vertically.
pub open spec fn spec_spawn_max_y(b: Bounds, size: int) -> int {
    b.y + (if b.height - size >= 0 {
        b.height - size
    } else {
        0
    })
}

/// Pick the pumpkin's spawn position from the two placement seeds: each
/// axis a deterministic range pick over the span where the pumpkin still
/// fits the monitor.
pub fn pick_spawn_position(seed_x: u64, seed_y: u64, bounds: Bounds) -> (p: (i32, i32))
    requires
        bounds_in_range(bounds),
    ensures
        p.0 as int == spec_random_between(
            seed_x,
            bounds.x as int,
            spec_spawn_max_x(bounds, PUMPKIN_SIZE as int),
        ),
        p.1 as int == spec_random_between(
            seed_y,
            bounds.y as int,
            spec_spawn_max_y(bounds, PUMPKIN_SIZE as int),
        ),
        bounds.x <= p.0 <= spec_spawn_max_x(bounds, PUMPKIN_SIZE as int),
        bounds.y <= p.1 <= spec_spawn_max_y(bounds, PUMPKIN_SIZE as int),
{
    let spare_w = bounds.width as i32 - PUMPKIN_SIZE;
    let max_x = bounds.x + (if spare_w >= 0 {
        spare_w
    } else {
        0
    });
    let spare_h = bounds.height as i32 - PUMPKIN_SIZE;
    let max_y = bounds.y + (if spare_h >= 0 {
        spare_h
    } else {
        0
    });
    (random_between(seed_x, bounds.x, max_x), random_between(seed_y, bounds.y, max_y))
}

/// Everything the spawn controller decides before any window moves: where
/// the pumpkin appears, and where the walk that stalks it must end.
#[derive(Clone, Copy, PartialEq, Eq, Structural, Debug)]
pub struct SpawnPlan {
    pub pumpkin_x: i32,
    pub pumpkin_y: i32,
    pub walk_target_x: i32,
    pub walk_target_y: i32,
}

/// Plan a spawn: derive the placement seeds from the time word and the
/// packed pursuer position, pick the pumpkin's spot inside the monitor, and
/// compute the pursuer's rendezvous point against it (left of the pumpkin
/// if that fits, else right, else centered; vertically centered; clamped to
/// the monitor).
pub fn plan_spawn(
    time_seed: u64,
    position_seed: u64,
    main_w: i32,
    main_h: i32,
    bounds: Bounds,
) -> (plan: SpawnPlan)
    requires
        size_in_range(main_w as int),
        size_in_range(main_h as int),
        bounds_in_range(bounds),
    ensures
        plan.pumpkin_x as int == spec_random_between(
            spec_spawn_seed_x(time_seed, position_seed),
            bounds.x as int,
            spec_spawn_max_x(bounds, PUMPKIN_SIZE as int),
        ),
        plan.pumpkin_y as int == spec_random_between(
            spec_spawn_seed_y(time_seed, position_seed),
            bounds.y as int,
            spec_spawn_max_y(bounds, PUMPKIN_SIZE as int),
        ),
        plan.walk_target_x as int == spec_rendezvous_x(
            plan.pumpkin_x as int,
            PUMPKIN_SIZE as int,
            main_w as int,
            bounds,
        ),
        plan.walk_target_y as int == spec_rendezvous_y(
            plan.pumpkin_y as int,
            PUMPKIN_SIZE as int,
            main_h as int,
            bounds,
        ),
{
    let (seed_x, seed_y) = spawn_seeds(time_seed, position_seed);
    let (pumpkin_x, pumpkin_y) = pick_spawn_position(seed_x, seed_y, bounds);
    let (walk_target_x, walk_target_y) = rendezvous_point(
        pumpkin_x,
        pumpkin_y,
        PUMPKIN_SIZE,
        PUMPKIN_SIZE,
        main_w,
        main_h,
        bounds,
    );
    SpawnPlan { pumpkin_x, pumpkin_y, walk_target_x, walk_target_y }
}

} // verus!
