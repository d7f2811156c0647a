//! The walk animator's state machine: a one-shot background worker walks the
//! pursuer along a curved path toward its rendezvous point, one bounded step
//! per tick, aborting when the chase times out, a drag begins, or the
//! pumpkin is snatched away, and snapping exactly onto the target point when
//! the step budget runs out. The curved intermediate points are cosmetic and
//! supplied by the caller per step; every decision, the step budget, and the
//! final snap live here.

use vstd::prelude::*;

use crate::follow::spec_abs;
use crate::geometry::coord_in_range;

verus! {

/// Fewest steps any walk takes, however short the path.
pub const WALK_MIN_STEPS: i32 = 24;

/// Most steps any walk takes, however long the path.
pub const WALK_MAX_STEPS: i32 = 320;

/// How far the pumpkin may drift from where the walk found it before the
/// walk treats it as grabbed by the user and aborts.
pub const PUMPKIN_GRAB_TOLERANCE: i32 = 2;

/// Base pause between walk steps, in milliseconds.
pub const WALK_STEP_BASE_DELAY_MS: u64 = 8;

/// Longest extra pause near the path's ends, in milliseconds; mid-path
/// steps run at the base pace.
pub const WALK_STEP_EXTRA_DELAY_MS: u64 = 4;

/// What the animator tells its driver to do next.
#[derive(Clone, Copy, PartialEq, Eq, Structural, Debug)]
pub enum WalkAction {
    /// The walk is over without reaching the target: no further moves.
    Abort,
    /// Move the pursuer to the caller's proposed curved point and come back
    /// for the next step after the collision check and the pacing sleep.
    Move { x: i32, y: i32 },
    /// The step budget is spent: move the pursuer exactly onto the target
    /// point, run one last collision check, and stop.
    Snap { x: i32, y: i32 },
}

/// The squared Euclidean length of the walk's displacement.
pub open spec fn spec_walk_distance_sq(
    start_x: int,
    start_y: int,
    target_x: int,
    target_y: int,
) -> int {
    (target_x - start_x) * (target_x - start_x) + (target_y - start_y) * (target_y - start_y)
}

/// Pins the step budget for a squared distance `n`: the smallest step count
/// whose quarter-length stride covers the path — the least `s` with
/// `(4s)^2 >= n` — clamped to `[WALK_MIN_STEPS, WALK_MAX_STEPS]`. Any two
/// values satisfying this for the same `n` are equal.
pub open spec fn spec_walk_steps_pinned(steps: int, n: int) -> bool {
    &&& WALK_MIN_STEPS <= steps <= WALK_MAX_STEPS
    &&& steps > WALK_MIN_STEPS ==> 16 * (steps - 1) * (steps - 1) < n
    &&& steps < WALK_MAX_STEPS ==> 16 * steps * steps >= n
}

/// Whether the pumpkin has moved more than the grab tolerance on either
/// axis since the walk started — the signal that the user grabbed it.
pub open spec fn spec_pumpkin_grabbed(
    pumpkin_x: int,
    pumpkin_y: int,
    initial_x: int,
    initial_y: int,
) -> bool {
    spec_abs(pumpkin_x - initial_x) > PUMPKIN_GRAB_TOLERANCE
        || spec_abs(pumpkin_y - initial_y) > PUMPKIN_GRAB_TOLERANCE
}

/// One walk toward a fixed target point, with its step budget and the
/// pumpkin position it must watch for drift.
#[derive(Clone, Copy, PartialEq, Eq, Structural, Debug)]
pub struct WalkAnimator {
    /// Where the walk ends: the pursuer's rendezvous point.
    pub target_x: i32,
    pub target_y: i32,
    /// Where the pumpkin stood when the walk began.
    pub initial_pumpkin_x: i32,
    pub initial_pumpkin_y: i32,
    /// The step budget, fixed at construction.
    pub total_steps: i32,
    /// The next step to take, counting from 1; one past `total_steps` once
    /// only the final snap remains.
    pub next_step: i32,
}

impl WalkAnimator {
    /// The shape every animator keeps: a budget within the global clamp and
    /// a cursor between the first step and the snap position.
    pub open spec fn wf(self) -> bool {
        &&& WALK_MIN_STEPS <= self.total_steps <= WALK_MAX_STEPS
        &&& 1 <= self.next_step <= self.total_steps + 1
    }

    /// Whether the next `advance` call aborts: during stepping, a timeout,
    /// an active drag, or a grabbed pumpkin all end the walk; at the final
    /// snap only a timeout still does.
    pub open spec fn spec_aborts(
        self,
        timed_out: bool,
        dragging: bool,
        pumpkin_position: Option<(i32, i32)>,
    ) -> bool {
        if self.next_step <= self.total_steps {
            timed_out || dragging || (pumpkin_position matches Some(p)
                && spec_pumpkin_grabbed(
                p.0 as int,
                p.1 as int,
                self.initial_pumpkin_x as int,
                self.initial_pumpkin_y as int,
            ))
        } else {
            timed_out
        }
    }

    /// Set up the walk from the pursuer's start point toward its target.
    /// `None` when start and target coincide — a distance under one pixel —
    /// so there is nothing to animate. Otherwise the step budget is the
    /// smallest count whose four-pixel stride covers the distance, clamped
    /// to `[WALK_MIN_STEPS, WALK_MAX_STEPS]`.
    pub fn new(
        start_x: i32,
        start_y: i32,
        target_x: i32,
        target_y: i32,
        initial_pumpkin_x: i32,
        initial_pumpkin_y: i32,
    ) -> (r: Option<WalkAnimator>)
        requires
            coord_in_range(start_x as int),
            coord_in_range(start_y as int),
            coord_in_range(target_x as int),
            coord_in_range(target_y as int),
        ensures
            r is None <==> (start_x == target_x && start_y == target_y),
            r matches Some(a) ==> {
                &&& a.wf()
                &&& a.target_x == target_x
                &&& a.target_y == target_y
                &&& a.initial_pumpkin_x == initial_pumpkin_x
                &&& a.initial_pumpkin_y == initial_pumpkin_y
                &&& a.next_step == 1
                &&& spec_walk_steps_pinned(
                    a.total_steps as int,
                    spec_walk_distance_sq(
                        start_x as int,
                        start_y as int,
                        target_x as int,
                        target_y as int,
                    ),
                )
            },
    {
        if start_x == target_x && start_y == target_y {
            return None;
        }
        let delta_x: i64 = target_x as i64 - start_x as i64;
        let delta_y: i64 = target_y as i64 - start_y as i64;
        proof {
            assert(delta_x * delta_x <= 0x8000_0000i64 * 0x8000_0000i64 && delta_x * delta_x
                >= 0) by (nonlinear_arith)
                requires
                    -0x8000_0000i64 <= delta_x <= 0x8000_0000i64,
            ;
            assert(delta_y * delta_y <= 0x8000_0000i64 * 0x8000_0000i64 && delta_y * delta_y
                >= 0) by (nonlinear_arith)
                requires
                    -0x8000_0000i64 <= delta_y <= 0x8000_0000i64,
            ;
        }
        let distance_sq: u64 = (delta_x * delta_x) as u64 + (delta_y * delta_y) as u64;
        let ghost n = spec_walk_distance_sq(
            start_x as int,
            start_y as int,
            target_x as int,
            target_y as int,
        );

        let mut steps: i32 = WALK_MIN_STEPS;
        loop
            invariant
                WALK_MIN_STEPS <= steps <= WALK_MAX_STEPS,
                steps > WALK_MIN_STEPS ==> 16 * (steps - 1) * (steps - 1) < n,
                distance_sq == n,
            ensures
                spec_walk_steps_pinned(steps as int, n),
            decreases WALK_MAX_STEPS - steps,
        {
            if steps >= WALK_MAX_STEPS {
                break;
            }
            proof {
                assert(16 * (steps as int) * (steps as int) <= 16 * 320 * 320) by (nonlinear_arith)
                    requires
                        0 <= steps <= 320,
                ;
            }
            let stride_sq: u64 = 16 * (steps as u64) * (steps as u64);
            if stride_sq >= distance_sq {
                break;
            }
            steps = steps + 1;
        }

        Some(
            WalkAnimator {
                target_x,
                target_y,
                initial_pumpkin_x,
                initial_pumpkin_y,
                total_steps: steps,
                next_step: 1,
            },
        )
    }

    /// One turn of the walk loop. The driver reports the shared flags and
    /// the pumpkin's live position (or `None` when it could not be read,
    /// which never aborts the walk by itself), and proposes the next curved
    /// point for this step. While steps remain and nothing aborts, the
    /// animator orders a move to the proposed point; once the budget is
    /// spent it orders the snap onto the exact target point, whatever the
    /// proposals were along the way.
    pub fn advance(
        &mut self,
        timed_out: bool,
        dragging: bool,
        pumpkin_position: Option<(i32, i32)>,
        proposed_x: i32,
        proposed_y: i32,
    ) -> (action: WalkAction)
        requires
            old(self).wf(),
        ensures
            final(self).wf(),
            old(self).spec_aborts(timed_out, dragging, pumpkin_position) ==> {
                &&& action == WalkAction::Abort
                &&& *final(self) == *old(self)
            },
            !old(self).spec_aborts(timed_out, dragging, pumpkin_position) && old(self).next_step
                <= old(self).total_steps ==> {
                &&& action == (WalkAction::Move { x: proposed_x, y: proposed_y })
                &&& *final(self) == (WalkAnimator {
                    next_step: (old(self).next_step + 1) as i32,
                    ..*old(self)
                })
            },
            !old(self).spec_aborts(timed_out, dragging, pumpkin_position) && old(self).next_step
                > old(self).total_steps ==> {
                &&& action == (WalkAction::Snap { x: old(self).target_x, y: old(self).target_y })
                &&& *final(self) == *old(self)
            },
    {
        let stepping = self.next_step <= self.total_steps;
        if timed_out {
            return WalkAction::Abort;
        }
        if stepping {
            if dragging {
                return WalkAction::Abort;
            }
            if let Some(p) = pumpkin_position {
                let drift_x: i64 = p.0 as i64 - self.initial_pumpkin_x as i64;
                let drift_y: i64 = p.1 as i64 - self.initial_pumpkin_y as i64;
                let grabbed = drift_x > PUMPKIN_GRAB_TOLERANCE as i64
                    || drift_x < -(PUMPKIN_GRAB_TOLERANCE as i64)
                    || drift_y > PUMPKIN_GRAB_TOLERANCE as i64
                    || drift_y < -(PUMPKIN_GRAB_TOLERANCE as i64);
                if grabbed {
                    return WalkAction::Abort;
                }
            }
            self.next_step = self.next_step + 1;
            WalkAction::Move { x: proposed_x, y: proposed_y }
        } else {
            WalkAction::Snap { x: self.target_x, y: self.target_y }
        }
    }
}

} // verus!
