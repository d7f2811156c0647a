use pumpkin_chase::ChaseEngine;

#[test]
fn fresh_engine_is_quiet() {
    let e = ChaseEngine::new();
    assert_eq!(e.pumpkin_session_id_state(), 0);
    assert!(!e.pumpkin_dragging_state());
    assert_eq!(e.follow_phase_state(), 0);
    assert!(!e.follow_worker_running_state());
    assert!(!e.pumpkin_eaten_pending_state());
    assert!(!e.pumpkin_timeout_pending_state());
    assert!(!e.pumpkin_chase_timed_out_state());
}

#[test]
fn session_id_strictly_increases() {
    let mut e = ChaseEngine::new();
    let mut last = e.current_pumpkin_session_id();
    for _ in 0..5 {
        let id = e.begin_pumpkin_session();
        assert!(id > last);
        last = id;
        e.on_pumpkin_eaten();
        let after_capture = e.current_pumpkin_session_id();
        assert!(after_capture > last);
        last = after_capture;
    }
}

#[test]
fn begin_session_clears_flags() {
    let mut e = ChaseEngine::new();
    e.mark_pumpkin_timeout_pending();
    e.set_pumpkin_chase_timed_out(true);
    e.on_pumpkin_eaten();
    let id = e.begin_pumpkin_session();
    assert_eq!(id, e.current_pumpkin_session_id());
    assert!(!e.pumpkin_eaten_pending_state());
    assert!(!e.pumpkin_timeout_pending_state());
    assert!(!e.pumpkin_chase_timed_out_state());
}

#[test]
fn capture_sets_eaten_and_clears_timeout_even_after_timeout_fired() {
    let mut e = ChaseEngine::new();
    e.begin_pumpkin_session();
    // A timeout fires moments before the capture in the same session.
    e.on_pumpkin_timeout();
    assert!(e.pumpkin_timeout_pending_state());
    assert!(e.pumpkin_chase_timed_out_state());
    e.on_pumpkin_eaten();
    assert!(e.pumpkin_eaten_pending_state());
    assert!(!e.pumpkin_timeout_pending_state());
    assert!(!e.pumpkin_chase_timed_out_state());
    assert!(!e.pumpkin_dragging_state());
    assert_eq!(e.follow_phase_state(), 0);
}

#[test]
fn stale_timeout_worker_never_fires() {
    let mut e = ChaseEngine::new();
    let stale_id = e.begin_pumpkin_session();
    // A capture advances the id past the worker's session before its sleep
    // elapses.
    e.on_pumpkin_eaten();
    e.take_pumpkin_eaten_flag();
    e.handle_timeout_for_session(stale_id, true);
    assert!(!e.pumpkin_timeout_pending_state());
    assert!(!e.pumpkin_chase_timed_out_state());

    // A fresh spawn advances it as well.
    let superseded = e.begin_pumpkin_session();
    e.begin_pumpkin_session();
    e.handle_timeout_for_session(superseded, true);
    assert!(!e.pumpkin_timeout_pending_state());
}

#[test]
fn live_timeout_worker_fires() {
    let mut e = ChaseEngine::new();
    let id = e.begin_pumpkin_session();
    e.set_pumpkin_dragging_state(true);
    e.handle_timeout_for_session(id, true);
    assert!(e.pumpkin_timeout_pending_state());
    assert!(e.pumpkin_chase_timed_out_state());
    assert!(!e.pumpkin_dragging_state());
}

#[test]
fn timeout_worker_ignores_missing_pumpkin() {
    let mut e = ChaseEngine::new();
    let id = e.begin_pumpkin_session();
    e.handle_timeout_for_session(id, false);
    assert!(!e.pumpkin_timeout_pending_state());
    assert!(!e.pumpkin_chase_timed_out_state());
}

#[test]
fn take_eaten_flag_is_one_shot() {
    let mut e = ChaseEngine::new();
    e.on_pumpkin_eaten();
    assert!(e.take_pumpkin_eaten_flag());
    assert!(!e.take_pumpkin_eaten_flag());
}

#[test]
fn take_timeout_flag_is_one_shot() {
    let mut e = ChaseEngine::new();
    e.begin_pumpkin_session();
    e.on_pumpkin_timeout();
    assert!(e.take_pumpkin_timeout_flag());
    assert!(!e.take_pumpkin_timeout_flag());
}

#[test]
fn follow_worker_gate_admits_one_instance() {
    let mut e = ChaseEngine::new();
    assert!(e.try_start_follow_worker());
    assert!(!e.try_start_follow_worker());
    e.finish_follow_worker();
    assert!(e.try_start_follow_worker());
}

#[test]
fn drag_start_claims_worker_once() {
    let mut e = ChaseEngine::new();
    assert!(e.start_pumpkin_drag());
    assert!(e.pumpkin_dragging_state());
    // A second explicit start while the worker runs changes nothing.
    assert!(!e.start_pumpkin_drag());
}

#[test]
fn drag_stop_halts_follow_worker_next_tick() {
    let mut e = ChaseEngine::new();
    e.start_pumpkin_drag();
    assert!(e.follow_worker_should_continue());
    e.stop_pumpkin_drag();
    assert!(!e.follow_worker_should_continue());
    assert_eq!(e.follow_phase_state(), 0);
}

#[test]
fn session_id_counts_every_invalidation() {
    let mut e = ChaseEngine::new();
    for _ in 0..3 {
        e.invalidate_pumpkin_session();
    }
    assert_eq!(e.current_pumpkin_session_id(), 3);
}

#[test]
fn session_id_saturates_at_ceiling() {
    let mut e = ChaseEngine {
        dragging: false,
        follow_phase: 0,
        follow_worker_running: false,
        eaten_pending: false,
        timeout_pending: false,
        session_id: u64::MAX,
        timed_out: false,
    };
    e.invalidate_pumpkin_session();
    assert_eq!(e.current_pumpkin_session_id(), u64::MAX);
}
