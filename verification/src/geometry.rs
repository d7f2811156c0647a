//! Leaf geometry helpers: two-sided clamping, the boundary-inclusive
//! rectangle overlap test used for capture detection, and the deterministic
//! pseudo-random range pick used to place the pumpkin.

use vstd::prelude::*;

verus! {

/// Coordinates the geometry works on: screen positions, origin top-left,
/// y increasing downward. Keeping every coordinate within this range lets
/// every intermediate sum of the rendezvous arithmetic stay inside `i32`.
pub open spec fn coord_in_range(v: int) -> bool {
    -0x4000_0000 <= v <= 0x4000_0000
}

/// A width or height, in pixels.
pub open spec fn size_in_range(v: int) -> bool {
    0 <= v <= 0x2000_0000
}

/// An axis-aligned usable-screen rectangle.
#[derive(Clone, Copy, PartialEq, Eq, Structural, Debug)]
pub struct Bounds {
    pub x: i32,
    pub y: i32,
    pub width: u32,
    pub height: u32,
}

/// Monitor bounds the engine can safely do arithmetic on.
pub open spec fn bounds_in_range(b: Bounds) -> bool {
    &&& -0x2000_0000 <= b.x <= 0x2000_0000
    &&& -0x2000_0000 <= b.y <= 0x2000_0000
    &&& b.width <= 0x2000_0000
    &&& b.height <= 0x2000_0000
}

/// The usable area assumed when the real monitor cannot be determined.
pub open spec fn spec_default_bounds() -> Bounds {
    Bounds { x: 0, y: 0, width: 1920, height: 1080 }
}

/// Fallback monitor bounds: `(0, 0, 1920, 1080)`.
pub fn default_monitor_bounds() -> (b: Bounds)
    ensures
        b == spec_default_bounds(),
{
    Bounds { x: 0, y: 0, width: 1920, height: 1080 }
}

/// The monitor bounds to use given what the windowing layer reported.
pub fn monitor_bounds_or_default(reported: Option<Bounds>) -> (b: Bounds)
    ensures
        reported matches Some(r) ==> b == r,
        reported is None ==> b == spec_default_bounds(),
{
    match reported {
        Some(r) => r,
        None => default_monitor_bounds(),
    }
}

/// `value.max(min).min(max)`: the monotone two-sided clamp. When
/// `min > max`, the upper bound wins, as in the chained `max`/`min` calls.
pub open spec fn spec_clamp_i32(value: int, min: int, max: int) -> int {
    let raised = if value >= min {
        value
    } else {
        min
    };
    if raised <= max {
        raised
    } else {
        max
    }
}

/// Two-sided clamp on `i32`.
pub fn clamp_i32(value: i32, min: i32, max: i32) -> (r: i32)
    ensures
        r == spec_clamp_i32(value as int, min as int, max as int),
        min <= max ==> min <= r <= max,
{
    let raised = if value >= min {
        value
    } else {
        min
    };
    if raised <= max {
        raised
    } else {
        max
    }
}

/// Whether the rectangle at `(ax, ay)` sized `(aw, ah)` touches or overlaps
/// the one at `(bx, by)` sized `(bw, bh)`. Touching counts: a shared edge or
/// corner is already an overlap.
pub open spec fn spec_touching_or_overlapping(
    ax: int,
    ay: int,
    aw: int,
    ah: int,
    bx: int,
    by: int,
    bw: int,
    bh: int,
) -> bool {
    !(ax + aw < bx || ax > bx + bw || ay + ah < by || ay > by + bh)
}

/// Boundary-inclusive rectangle overlap test. A 1-pixel touch counts as a
/// capture, so the comparisons are strict on the outside.
pub fn touching_or_overlapping(
    ax: i32,
    ay: i32,
    aw: i32,
    ah: i32,
    bx: i32,
    by: i32,
    bw: i32,
    bh: i32,
) -> (r: bool)
    ensures
        r == spec_touching_or_overlapping(
            ax as int,
            ay as int,
            aw as int,
            ah as int,
            bx as int,
            by as int,
            bw as int,
            bh as int,
        ),
{
    let a_right: i64 = ax as i64 + aw as i64;
    let a_bottom: i64 = ay as i64 + ah as i64;
    let b_right: i64 = bx as i64 + bw as i64;
    let b_bottom: i64 = by as i64 + bh as i64;
    !(a_right < bx as i64 || ax as i64 > b_right || a_bottom < by as i64 || ay as i64 > b_bottom)
}

/// The overlap test does not care which rectangle is named first.
pub proof fn lemma_touching_symmetric(
    ax: int,
    ay: int,
    aw: int,
    ah: int,
    bx: int,
    by: int,
    bw: int,
    bh: int,
)
    ensures
        spec_touching_or_overlapping(ax, ay, aw, ah, bx, by, bw, bh)
            == spec_touching_or_overlapping(bx, by, bw, bh, ax, ay, aw, ah),
{
}

/// `random_between`: `min` when the span is degenerate, otherwise
/// `min + seed % (max - min + 1)`, which always lands in `[min, max]`.
pub open spec fn spec_random_between(seed: u64, min: int, max: int) -> int {
    if max <= min {
        min
    } else {
        min + (seed as int) % (max - min + 1)
    }
}

/// Deterministic pick of a value in `[min, max]` from a seed. A best-effort
/// randomizer: the caller supplies the entropy, the pick itself is a pure
/// function of it.
pub fn random_between(seed: u64, min: i32, max: i32) -> (r: i32)
    ensures
        r == spec_random_between(seed, min as int, max as int),
        max <= min ==> r == min,
        min <= max ==> min <= r <= max,
{
    if max <= min {
        return min;
    }
    let span: u64 = (max as i64 - min as i64 + 1) as u64;
    let offset: u64 = seed % span;
    assert(offset < span);
    (min as i64 + offset as i64) as i32
}

/// Lowest x at which the pursuer may stand inside the monitor.
pub open spec fn spec_min_main_x(b: Bounds) -> int {
    b.x as int
}

/// Highest x at which a pursuer of width `main_w` still fits the monitor
/// (the monitor origin itself when the pursuer is wider than the monitor).
pub open spec fn spec_max_main_x(b: Bounds, main_w: int) -> int {
    b.x + (if b.width - main_w >= 0 {
        b.width - main_w
    } else {
        0
    })
}

/// Lowest y at which the pursuer may stand inside the monitor.
pub open spec fn spec_min_main_y(b: Bounds) -> int {
    b.y as int
}

/// Highest y at which a pursuer of height `main_h` still fits the monitor.
pub open spec fn spec_max_main_y(b: Bounds, main_h: int) -> int {
    b.y + (if b.height - main_h >= 0 {
        b.height - main_h
    } else {
        0
    })
}

/// Horizontal rendezvous rule: put the pursuer immediately to the pumpkin's
/// left when that stays on the monitor; else immediately to its right when
/// that fits; else center it on the pumpkin, clamped to the monitor.
pub open spec fn spec_rendezvous_x(
    pumpkin_x: int,
    pumpkin_w: int,
    main_w: int,
    b: Bounds,
) -> int {
    let left_candidate = pumpkin_x - main_w;
    let right_candidate = pumpkin_x + pumpkin_w;
    let centered = pumpkin_x + pumpkin_w / 2 - main_w / 2;
    if left_candidate >= spec_min_main_x(b) {
        left_candidate
    } else if right_candidate <= spec_max_main_x(b, main_w) {
        right_candidate
    } else {
        spec_clamp_i32(centered, spec_min_main_x(b), spec_max_main_x(b, main_w))
    }
}

/// Vertical rendezvous rule: center the pursuer on the pumpkin, clamped to
/// the monitor.
pub open spec fn spec_rendezvous_y(
    pumpkin_y: int,
    pumpkin_h: int,
    main_h: int,
    b: Bounds,
) -> int {
    spec_clamp_i32(
        pumpkin_y + pumpkin_h / 2 - main_h / 2,
        spec_min_main_y(b),
        spec_max_main_y(b, main_h),
    )
}

/// The rendezvous point for a pursuer of size `(main_w, main_h)` stalking a
/// pumpkin at `(pumpkin_x, pumpkin_y)` of size `(pumpkin_w, pumpkin_h)`:
/// left of the pumpkin if that fits the monitor, else right of it, else
/// centered on it; vertically always centered; both axes clamped to the
/// monitor.
pub fn rendezvous_point(
    pumpkin_x: i32,
    pumpkin_y: i32,
    pumpkin_w: i32,
    pumpkin_h: i32,
    main_w: i32,
    main_h: i32,
    bounds: Bounds,
) -> (r: (i32, i32))
    requires
        coord_in_range(pumpkin_x as int),
        coord_in_range(pumpkin_y as int),
        size_in_range(pumpkin_w as int),
        size_in_range(pumpkin_h as int),
        size_in_range(main_w as int),
        size_in_range(main_h as int),
        bounds_in_range(bounds),
    ensures
        r.0 == spec_rendezvous_x(pumpkin_x as int, pumpkin_w as int, main_w as int, bounds),
        r.1 == spec_rendezvous_y(pumpkin_y as int, pumpkin_h as int, main_h as int, bounds),
{
    let min_main_x = bounds.x;
    let spare_w = bounds.width as i32 - main_w;
    let max_main_x = bounds.x + (if spare_w >= 0 {
        spare_w
    } else {
        0
    });
    let left_candidate = pumpkin_x - main_w;
    let right_candidate = pumpkin_x + pumpkin_w;
    let centered_x = pumpkin_x + pumpkin_w / 2 - main_w / 2;
    let target_x = if left_candidate >= min_main_x {
        left_candidate
    } else if right_candidate <= max_main_x {
        right_candidate
    } else {
        clamp_i32(centered_x, min_main_x, max_main_x)
    };

    let min_main_y = bounds.y;
    let spare_h = bounds.height as i32 - main_h;
    let max_main_y = bounds.y + (if spare_h >= 0 {
        spare_h
    } else {
        0
    });
    let centered_y = pumpkin_y + pumpkin_h / 2 - main_h / 2;
    let target_y = clamp_i32(centered_y, min_main_y, max_main_y);

    (target_x, target_y)
}

} // verus!
