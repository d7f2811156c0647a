//! The follow worker's per-tick motion: while the pumpkin is dragged, the
//! pursuer is nudged toward the live rendezvous point by a fraction of the
//! remaining distance each tick, with a small vertical bob, clamped to the
//! monitor.

use vstd::prelude::*;

use crate::geometry::{
    bounds_in_range, clamp_i32, coord_in_range, rendezvous_point, size_in_range, spec_clamp_i32,
    spec_max_main_x, spec_max_main_y, spec_min_main_x, spec_min_main_y, spec_rendezvous_x,
    spec_rendezvous_y, Bounds,
};
use crate::state::{spec_advance_phase, spec_bob, ChaseEngine};

verus! {

/// How often the follow worker ticks, approximating a 60 Hz cadence.
pub const FOLLOW_TICK_MS: u64 = 16;

/// The absolute value of a coordinate difference.
pub open spec fn spec_abs(v: int) -> int {
    if v >= 0 {
        v
    } else {
        -v
    }
}

/// The sign of a coordinate difference.
pub open spec fn spec_signum(v: int) -> int {
    if v > 0 {
        1
    } else if v < 0 {
        -1
    } else {
        0
    }
}

/// `delta * 0.18` rounded to the nearest integer, halves away from zero:
/// exactly `(|delta| * 18 + 50) / 100` with `delta`'s sign put back.
pub open spec fn spec_round_follow_ratio(delta: int) -> int {
    if delta >= 0 {
        (delta * 18 + 50) / 100
    } else {
        -(((-delta) * 18 + 50) / 100)
    }
}

/// One axis of a follow step: 18% of the remaining distance, rounded; a
/// forced unit step in `delta`'s sign when the rounding would stall at zero;
/// the whole clamped to eight pixels per tick.
pub open spec fn spec_follow_step(delta: int) -> int {
    let rounded = spec_round_follow_ratio(delta);
    let forced = if rounded == 0 && delta != 0 {
        spec_signum(delta)
    } else {
        rounded
    };
    spec_clamp_i32(forced, -8, 8)
}

/// Per-axis step of the follow worker. Never zero while any distance
/// remains, so the pursuer always converges instead of stalling on
/// rounding.
pub fn follow_step(delta: i64) -> (step: i32)
    requires
        -0x1_0000_0000 <= delta <= 0x1_0000_0000,
    ensures
        step as int == spec_follow_step(delta as int),
        -8 <= step <= 8,
        delta == 0 ==> step == 0,
        delta > 0 ==> 1 <= step,
        delta < 0 ==> step <= -1,
{
    let magnitude: i64 = if delta >= 0 {
        delta
    } else {
        -delta
    };
    let rounded_magnitude: i64 = (magnitude * 18 + 50) / 100;
    let forced_magnitude: i64 = if rounded_magnitude == 0 && delta != 0 {
        1
    } else {
        rounded_magnitude
    };
    let clamped: i64 = if forced_magnitude > 8 {
        8
    } else {
        forced_magnitude
    };
    if delta >= 0 {
        clamped as i32
    } else {
        -(clamped as i32)
    }
}

/// Whether the pursuer is already within one pixel of the rendezvous point
/// on both axes; the tick then skips movement (the collision check is still
/// the caller's).
pub open spec fn spec_follow_close_enough(delta_x: int, delta_y: int) -> bool {
    spec_abs(delta_x) <= 1 && spec_abs(delta_y) <= 1
}

/// Where one follow tick puts the pursuer horizontally: its position plus
/// the follow step toward `target_x`, clamped to the monitor.
pub open spec fn spec_follow_move_x(main_x: int, target_x: int, main_w: int, b: Bounds) -> int {
    spec_clamp_i32(
        main_x + spec_follow_step(target_x - main_x),
        spec_min_main_x(b),
        spec_max_main_x(b, main_w),
    )
}

/// Where one follow tick puts the pursuer vertically: its position plus the
/// follow step toward `target_y` and the bob offset, clamped to the monitor.
pub open spec fn spec_follow_move_y(
    main_y: int,
    target_y: int,
    bob: int,
    main_h: int,
    b: Bounds,
) -> int {
    spec_clamp_i32(
        main_y + spec_follow_step(target_y - main_y) + bob,
        spec_min_main_y(b),
        spec_max_main_y(b, main_h),
    )
}

/// One tick of the follow worker's motion, given the pursuer's and the
/// pumpkin's live geometry. Returns where to move the pursuer, or `None`
/// when no move is due: the chase already timed out, or the pursuer is
/// within a pixel of the rendezvous point on both axes. The collision test
/// and the actual window move stay with the caller, which runs them around
/// this tick.
pub fn follow_tick(
    engine: &mut ChaseEngine,
    main_x: i32,
    main_y: i32,
    main_w: i32,
    main_h: i32,
    pumpkin_x: i32,
    pumpkin_y: i32,
    pumpkin_w: i32,
    pumpkin_h: i32,
    bounds: Bounds,
) -> (r: Option<(i32, i32)>)
    requires
        coord_in_range(main_x as int),
        coord_in_range(main_y as int),
        size_in_range(main_w as int),
        size_in_range(main_h as int),
        coord_in_range(pumpkin_x as int),
        coord_in_range(pumpkin_y as int),
        size_in_range(pumpkin_w as int),
        size_in_range(pumpkin_h as int),
        bounds_in_range(bounds),
    ensures
        old(engine).timed_out ==> r is None && *final(engine) == *old(engine),
        !old(engine).timed_out && spec_follow_close_enough(
            spec_rendezvous_x(pumpkin_x as int, pumpkin_w as int, main_w as int, bounds) - main_x,
            spec_rendezvous_y(pumpkin_y as int, pumpkin_h as int, main_h as int, bounds) - main_y,
        ) ==> r is None && *final(engine) == *old(engine),
        !old(engine).timed_out && !spec_follow_close_enough(
            spec_rendezvous_x(pumpkin_x as int, pumpkin_w as int, main_w as int, bounds) - main_x,
            spec_rendezvous_y(pumpkin_y as int, pumpkin_h as int, main_h as int, bounds) - main_y,
        ) ==> {
            &&& *final(engine) == spec_advance_phase(*old(engine))
            &&& r matches Some(p) && p.0 as int == spec_follow_move_x(
                main_x as int,
                spec_rendezvous_x(pumpkin_x as int, pumpkin_w as int, main_w as int, bounds),
                main_w as int,
                bounds,
            ) && p.1 as int == spec_follow_move_y(
                main_y as int,
                spec_rendezvous_y(pumpkin_y as int, pumpkin_h as int, main_h as int, bounds),
                spec_bob(final(engine).follow_phase as int),
                main_h as int,
                bounds,
            )
        },
{
    if engine.is_pumpkin_chase_timed_out() {
        return None;
    }

    let (target_x, target_y) = rendezvous_point(
        pumpkin_x,
        pumpkin_y,
        pumpkin_w,
        pumpkin_h,
        main_w,
        main_h,
        bounds,
    );
    let delta_x: i64 = target_x as i64 - main_x as i64;
    let delta_y: i64 = target_y as i64 - main_y as i64;
    if -1 <= delta_x && delta_x <= 1 && -1 <= delta_y && delta_y <= 1 {
        return None;
    }

    let bob = engine.advance_follow_phase();
    let step_x = follow_step(delta_x);
    let step_y = follow_step(delta_y);

    let min_main_x = bounds.x;
    let spare_w = bounds.width as i32 - main_w;
    let max_main_x = bounds.x + (if spare_w >= 0 {
        spare_w
    } else {
        0
    });
    let min_main_y = bounds.y;
    let spare_h = bounds.height as i32 - main_h;
    let max_main_y = bounds.y + (if spare_h >= 0 {
        spare_h
    } else {
        0
    });

    let next_x = clamp_i32(main_x + step_x, min_main_x, max_main_x);
    let next_y = clamp_i32(main_y + step_y + bob, min_main_y, max_main_y);
    Some((next_x, next_y))
}

} // verus!
