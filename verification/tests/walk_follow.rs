use pumpkin_chase::follow::{follow_step, follow_tick, FOLLOW_TICK_MS};
use pumpkin_chase::geometry::Bounds;
use pumpkin_chase::walk::{WalkAction, WalkAnimator};
use pumpkin_chase::ChaseEngine;

fn screen() -> Bounds {
    Bounds { x: 0, y: 0, width: 1920, height: 1080 }
}

#[test]
fn walk_needs_no_animation_in_place() {
    assert!(WalkAnimator::new(10, 20, 10, 20, 0, 0).is_none());
    assert!(WalkAnimator::new(10, 20, 10, 21, 0, 0).is_some());
}

#[test]
fn walk_step_budget_covers_the_distance() {
    // 100 px: 25 strides of 4 px, above the floor of 24.
    let a = WalkAnimator::new(0, 0, 100, 0, 500, 500).unwrap();
    assert_eq!(a.total_steps, 25);
    // A short hop still takes the minimum number of steps.
    let b = WalkAnimator::new(0, 0, 0, 10, 500, 500).unwrap();
    assert_eq!(b.total_steps, 24);
    // A walk across many screens is capped.
    let c = WalkAnimator::new(0, 0, 20000, 0, 500, 500).unwrap();
    assert_eq!(c.total_steps, 320);
}

#[test]
fn uninterrupted_walk_ends_exactly_on_target() {
    let mut a = WalkAnimator::new(0, 0, 100, 0, 500, 500).unwrap();
    let mut position = (0i32, 0i32);
    let mut moves = 0;
    loop {
        // The curved proposals are cosmetic; the final snap must win out.
        let wobbled = (moves * 4 + 1, 3);
        match a.advance(false, false, Some((500, 500)), wobbled.0, wobbled.1) {
            WalkAction::Move { x, y } => {
                position = (x, y);
                moves += 1;
            }
            WalkAction::Snap { x, y } => {
                position = (x, y);
                break;
            }
            WalkAction::Abort => panic!("nothing interrupts this walk"),
        }
        assert!(moves <= 25);
    }
    assert_eq!(moves, 25);
    assert_eq!(position, (100, 0));
}

#[test]
fn walk_aborts_when_drag_begins() {
    let mut a = WalkAnimator::new(0, 0, 100, 0, 500, 500).unwrap();
    assert!(matches!(
        a.advance(false, true, Some((500, 500)), 4, 0),
        WalkAction::Abort
    ));
}

#[test]
fn walk_aborts_once_timed_out() {
    let mut a = WalkAnimator::new(0, 0, 100, 0, 500, 500).unwrap();
    assert!(matches!(a.advance(true, false, Some((500, 500)), 4, 0), WalkAction::Abort));
}

#[test]
fn walk_tolerates_two_pixels_of_pumpkin_drift() {
    let mut a = WalkAnimator::new(0, 0, 100, 0, 500, 500).unwrap();
    assert!(matches!(
        a.advance(false, false, Some((502, 498)), 4, 0),
        WalkAction::Move { .. }
    ));
    assert!(matches!(
        a.advance(false, false, Some((503, 500)), 8, 0),
        WalkAction::Abort
    ));
    assert!(matches!(
        a.advance(false, false, Some((500, 497)), 8, 0),
        WalkAction::Abort
    ));
}

#[test]
fn walk_continues_when_pumpkin_unreadable() {
    let mut a = WalkAnimator::new(0, 0, 100, 0, 500, 500).unwrap();
    assert!(matches!(a.advance(false, false, None, 4, 0), WalkAction::Move { x: 4, y: 0 }));
}

#[test]
fn follow_step_rounds_but_never_stalls() {
    assert_eq!(follow_step(0), 0);
    assert_eq!(follow_step(3), 1);
    assert_eq!(follow_step(-3), -1);
    // Rounding alone would stall at zero; the unit step is forced.
    assert_eq!(follow_step(2), 1);
    assert_eq!(follow_step(-2), -1);
    assert_eq!(follow_step(10), 2);
    assert_eq!(follow_step(44), 8);
    // The per-tick step is capped at eight pixels.
    assert_eq!(follow_step(50), 8);
    assert_eq!(follow_step(-50), -8);
    assert_eq!(follow_step(100000), 8);
}

#[test]
fn follow_tick_moves_toward_rendezvous_with_bob() {
    let mut e = ChaseEngine::new();
    // Rendezvous for this layout is (600, 460): left of the pumpkin,
    // vertically centered.
    let next = follow_tick(&mut e, 500, 400, 400, 300, 1000, 500, 220, 220, screen());
    // Steps are 8 px each axis; the first tick's bob adds one more.
    assert_eq!(next, Some((508, 409)));
    assert_eq!(e.follow_phase_state(), 1);
}

#[test]
fn follow_tick_bob_cycles_four_phases() {
    let mut e = ChaseEngine::new();
    let mut ys = Vec::new();
    for _ in 0..4 {
        // Far enough that each axis steps its full 8 px; only the bob
        // varies from tick to tick.
        let next = follow_tick(&mut e, 0, 0, 400, 300, 1000, 500, 220, 220, screen()).unwrap();
        ys.push(next.1);
    }
    // Phases 1, 2, 3, 0: bob +1, 0, -1, 0 on top of the 8 px step.
    assert_eq!(ys, vec![9, 8, 7, 8]);
    assert_eq!(e.follow_phase_state(), 0);
}

#[test]
fn follow_tick_rests_within_one_pixel() {
    let mut e = ChaseEngine::new();
    let next = follow_tick(&mut e, 600, 460, 400, 300, 1000, 500, 220, 220, screen());
    assert_eq!(next, None);
    let nearly = follow_tick(&mut e, 601, 459, 400, 300, 1000, 500, 220, 220, screen());
    assert_eq!(nearly, None);
    assert_eq!(e.follow_phase_state(), 0);
}

#[test]
fn follow_tick_stops_after_timeout() {
    let mut e = ChaseEngine::new();
    e.set_pumpkin_chase_timed_out(true);
    let next = follow_tick(&mut e, 0, 0, 400, 300, 1000, 500, 220, 220, screen());
    assert_eq!(next, None);
    assert_eq!(e.follow_phase_state(), 0);
}

#[test]
fn follow_tick_cadence_is_sixty_hertz() {
    assert_eq!(FOLLOW_TICK_MS, 16);
}
