//! The shared chase state: the session generation counter plus the small set
//! of flags that the spawn path, the walk animator, the follow worker and the
//! timeout worker coordinate through. The whole state lives in one owned
//! `ChaseEngine` value; callers that run workers concurrently share it behind
//! a lock of their choosing.

use vstd::prelude::*;

verus! {

/// All session and flag state of one chase engine.
///
/// - `dragging`: true while the user is actively moving the pumpkin.
/// - `follow_phase`: cyclic `0..4` counter driving the follow worker's bob.
/// - `follow_worker_running`: single-instance gate for the follow worker.
/// - `eaten_pending` / `timeout_pending`: one-shot flags consumed exactly
///   once by the external poller.
/// - `session_id`: generation counter; the sole cross-worker cancellation
///   primitive. Capture and a fresh spawn both bump it.
/// - `timed_out`: sticky until the next session begins; makes in-flight walk
///   steps abort without moving further.
#[derive(Clone, Copy, PartialEq, Eq, Structural, Debug)]
pub struct ChaseEngine {
    pub dragging: bool,
    pub follow_phase: u8,
    pub follow_worker_running: bool,
    pub eaten_pending: bool,
    pub timeout_pending: bool,
    pub session_id: u64,
    pub timed_out: bool,
}

/// The state a fresh engine starts in: no session yet, nothing pending.
pub open spec fn spec_initial_engine() -> ChaseEngine {
    ChaseEngine {
        dragging: false,
        follow_phase: 0,
        follow_worker_running: false,
        eaten_pending: false,
        timeout_pending: false,
        session_id: 0,
        timed_out: false,
    }
}

/// The next session id: one more, saturating at the counter's ceiling so
/// that issuing an id can never wrap back to an old one.
pub open spec fn spec_bump_session(id: u64) -> u64 {
    if id == u64::MAX {
        id
    } else {
        (id + 1) as u64
    }
}

/// Beginning a session: clear both one-shot flags and the sticky timeout,
/// then issue a fresh id. Dragging and the bob phase are left to the drag
/// boundary calls.
pub open spec fn spec_begin_session(e: ChaseEngine) -> ChaseEngine {
    ChaseEngine {
        eaten_pending: false,
        timeout_pending: false,
        timed_out: false,
        session_id: spec_bump_session(e.session_id),
        ..e
    }
}

/// A timeout firing: end the drag, reset the bob phase, mark the chase
/// timed out and hand the poller its one-shot flag. The session id is left
/// alone; the session dies by starvation, not by supersession.
pub open spec fn spec_timeout_fire(e: ChaseEngine) -> ChaseEngine {
    ChaseEngine { dragging: false, follow_phase: 0, timed_out: true, timeout_pending: true, ..e }
}

/// A capture: invalidate the session (bump the id), end the drag, reset the
/// bob phase, clear the timeout state, and hand the poller the eaten flag.
pub open spec fn spec_capture(e: ChaseEngine) -> ChaseEngine {
    ChaseEngine {
        session_id: spec_bump_session(e.session_id),
        dragging: false,
        follow_phase: 0,
        timed_out: false,
        timeout_pending: false,
        eaten_pending: true,
        ..e
    }
}

/// What a timeout worker started for `worker_session_id` does once its delay
/// elapses: nothing when stale (the id moved on) or when the pumpkin is
/// already gone; otherwise the timeout fires.
pub open spec fn spec_handle_timeout(
    e: ChaseEngine,
    worker_session_id: u64,
    target_exists: bool,
) -> ChaseEngine {
    if e.session_id == worker_session_id && target_exists {
        spec_timeout_fire(e)
    } else {
        e
    }
}

/// Ending a drag: clear `dragging` and reset the bob phase.
pub open spec fn spec_stop_drag(e: ChaseEngine) -> ChaseEngine {
    ChaseEngine { dragging: false, follow_phase: 0, ..e }
}

/// Consuming the eaten flag.
pub open spec fn spec_take_eaten(e: ChaseEngine) -> ChaseEngine {
    ChaseEngine { eaten_pending: false, ..e }
}

/// Consuming the timeout flag.
pub open spec fn spec_take_timeout(e: ChaseEngine) -> ChaseEngine {
    ChaseEngine { timeout_pending: false, ..e }
}

/// One follow tick's advance of the cyclic bob phase.
pub open spec fn spec_advance_phase(e: ChaseEngine) -> ChaseEngine {
    ChaseEngine { follow_phase: (((e.follow_phase as int) + 1) % 4) as u8, ..e }
}

/// The vertical bob offset for a phase: `+1` at phase 1, `-1` at phase 3,
/// level otherwise.
pub open spec fn spec_bob(phase: int) -> int {
    if phase == 1 {
        1
    } else if phase == 3 {
        -1
    } else {
        0
    }
}

impl ChaseEngine {
    /// A fresh engine: session 0, every flag clear.
    pub fn new() -> (e: ChaseEngine)
        ensures
            e == spec_initial_engine(),
    {
        ChaseEngine {
            dragging: false,
            follow_phase: 0,
            follow_worker_running: false,
            eaten_pending: false,
            timeout_pending: false,
            session_id: 0,
            timed_out: false,
        }
    }

    /// The dragging flag as currently stored.
    pub fn pumpkin_dragging_state(&self) -> (r: bool)
        ensures
            r == self.dragging,
    {
        self.dragging
    }

    /// The bob phase as currently stored.
    pub fn follow_phase_state(&self) -> (r: u8)
        ensures
            r == self.follow_phase,
    {
        self.follow_phase
    }

    /// The follow-worker gate as currently stored.
    pub fn follow_worker_running_state(&self) -> (r: bool)
        ensures
            r == self.follow_worker_running,
    {
        self.follow_worker_running
    }

    /// The pending eaten flag as currently stored.
    pub fn pumpkin_eaten_pending_state(&self) -> (r: bool)
        ensures
            r == self.eaten_pending,
    {
        self.eaten_pending
    }

    /// The pending timeout flag as currently stored.
    pub fn pumpkin_timeout_pending_state(&self) -> (r: bool)
        ensures
            r == self.timeout_pending,
    {
        self.timeout_pending
    }

    /// The session counter as currently stored.
    pub fn pumpkin_session_id_state(&self) -> (r: u64)
        ensures
            r == self.session_id,
    {
        self.session_id
    }

    /// The sticky timed-out flag as currently stored.
    pub fn pumpkin_chase_timed_out_state(&self) -> (r: bool)
        ensures
            r == self.timed_out,
    {
        self.timed_out
    }

    /// Set or clear the dragging flag.
    pub fn set_pumpkin_dragging_state(&mut self, is_dragging: bool)
        ensures
            *final(self) == (ChaseEngine { dragging: is_dragging, ..*old(self) }),
    {
        self.dragging = is_dragging;
    }

    /// Whether the user is dragging the pumpkin right now.
    pub fn is_pumpkin_dragging(&self) -> (r: bool)
        ensures
            r == self.dragging,
    {
        self.dragging
    }

    /// Set or clear the sticky timed-out flag.
    pub fn set_pumpkin_chase_timed_out(&mut self, is_timed_out: bool)
        ensures
            *final(self) == (ChaseEngine { timed_out: is_timed_out, ..*old(self) }),
    {
        self.timed_out = is_timed_out;
    }

    /// Whether the current chase has timed out.
    pub fn is_pumpkin_chase_timed_out(&self) -> (r: bool)
        ensures
            r == self.timed_out,
    {
        self.timed_out
    }

    /// Drop a pending timeout notification, if any.
    pub fn clear_pumpkin_timeout_pending(&mut self)
        ensures
            *final(self) == spec_take_timeout(*old(self)),
    {
        self.timeout_pending = false;
    }

    /// Post the timeout notification for the poller.
    pub fn mark_pumpkin_timeout_pending(&mut self)
        ensures
            *final(self) == (ChaseEngine { timeout_pending: true, ..*old(self) }),
    {
        self.timeout_pending = true;
    }

    /// Read and clear the pending timeout flag in one step.
    pub fn take_pumpkin_timeout_pending(&mut self) -> (was_pending: bool)
        ensures
            was_pending == old(self).timeout_pending,
            *final(self) == spec_take_timeout(*old(self)),
    {
        let was_pending = self.timeout_pending;
        self.timeout_pending = false;
        was_pending
    }

    /// Issue the next session id: strictly larger than the one before until
    /// the counter saturates at its ceiling.
    pub fn next_pumpkin_session_id(&mut self) -> (id: u64)
        ensures
            *final(self) == (ChaseEngine {
                session_id: spec_bump_session(old(self).session_id),
                ..*old(self)
            }),
            id == final(self).session_id,
            old(self).session_id < u64::MAX ==> id > old(self).session_id,
    {
        self.session_id = if self.session_id == u64::MAX {
            u64::MAX
        } else {
            self.session_id + 1
        };
        self.session_id
    }

    /// The id of the current session: the last id issued.
    pub fn current_pumpkin_session_id(&self) -> (id: u64)
        ensures
            id == self.session_id,
    {
        self.session_id
    }

    /// Invalidate whatever session is current by bumping the id, so that
    /// workers started for it find themselves stale.
    pub fn invalidate_pumpkin_session(&mut self)
        ensures
            *final(self) == (ChaseEngine {
                session_id: spec_bump_session(old(self).session_id),
                ..*old(self)
            }),
    {
        let _ = self.next_pumpkin_session_id();
    }

    /// Apply a timeout's effects: end the drag, reset the bob phase, mark
    /// the chase timed out, post the one-shot timeout flag.
    pub fn on_pumpkin_timeout(&mut self)
        ensures
            *final(self) == spec_timeout_fire(*old(self)),
    {
        self.dragging = false;
        self.follow_phase = 0;
        self.timed_out = true;
        self.timeout_pending = true;
    }

    /// What a timeout worker started for `worker_session_id` does when its
    /// delay elapses: nothing at all when the session id has moved on or the
    /// pumpkin is gone, the timeout effects otherwise.
    pub fn handle_timeout_for_session(&mut self, worker_session_id: u64, target_exists: bool)
        ensures
            *final(self) == spec_handle_timeout(*old(self), worker_session_id, target_exists),
            old(self).session_id != worker_session_id ==> *final(self) == *old(self),
    {
        if self.session_id == worker_session_id && target_exists {
            self.on_pumpkin_timeout();
        }
    }

    /// Begin a session: clear both one-shot flags and the sticky timeout,
    /// then issue a fresh id, which the caller binds its timeout worker to.
    pub fn begin_pumpkin_session(&mut self) -> (id: u64)
        ensures
            *final(self) == spec_begin_session(*old(self)),
            id == final(self).session_id,
            old(self).session_id < u64::MAX ==> id > old(self).session_id,
    {
        self.eaten_pending = false;
        self.clear_pumpkin_timeout_pending();
        self.set_pumpkin_chase_timed_out(false);
        self.next_pumpkin_session_id()
    }

    /// Apply a capture's effects: invalidate the session, end the drag,
    /// reset the bob phase, clear the timeout state, post the eaten flag.
    /// After this, `eaten_pending` is set and `timeout_pending` is clear,
    /// whatever fired before.
    pub fn on_pumpkin_eaten(&mut self)
        ensures
            *final(self) == spec_capture(*old(self)),
            final(self).eaten_pending,
            !final(self).timeout_pending,
    {
        self.invalidate_pumpkin_session();
        self.set_pumpkin_dragging_state(false);
        self.follow_phase = 0;
        self.set_pumpkin_chase_timed_out(false);
        self.clear_pumpkin_timeout_pending();
        self.eaten_pending = true;
    }

    /// Read and clear the pending eaten flag in one step.
    pub fn take_pumpkin_eaten_pending(&mut self) -> (was_pending: bool)
        ensures
            was_pending == old(self).eaten_pending,
            *final(self) == spec_take_eaten(*old(self)),
    {
        let was_pending = self.eaten_pending;
        self.eaten_pending = false;
        was_pending
    }

    /// The follow worker's compare-and-set gate: claims the single running
    /// slot. Returns whether the caller should actually start a worker; a
    /// second start while one runs is a no-op.
    pub fn try_start_follow_worker(&mut self) -> (should_start: bool)
        ensures
            should_start == !old(self).follow_worker_running,
            *final(self) == (ChaseEngine { follow_worker_running: true, ..*old(self) }),
    {
        if self.follow_worker_running {
            false
        } else {
            self.follow_worker_running = true;
            true
        }
    }

    /// Release the follow worker's running slot when its loop ends.
    pub fn finish_follow_worker(&mut self)
        ensures
            *final(self) == (ChaseEngine { follow_worker_running: false, ..*old(self) }),
    {
        self.follow_worker_running = false;
    }

    /// The follow worker's loop guard: it keeps ticking only while the
    /// pumpkin is being dragged.
    pub fn follow_worker_should_continue(&self) -> (r: bool)
        ensures
            r == self.dragging,
    {
        self.dragging
    }

    /// Explicit drag begin: set `dragging` and claim the follow worker's
    /// slot. Returns whether the caller should start the worker.
    pub fn start_pumpkin_drag(&mut self) -> (should_start_worker: bool)
        ensures
            should_start_worker == !old(self).follow_worker_running,
            *final(self) == (ChaseEngine {
                dragging: true,
                follow_worker_running: true,
                ..*old(self)
            }),
    {
        self.set_pumpkin_dragging_state(true);
        self.try_start_follow_worker()
    }

    /// Explicit drag end: clear `dragging` (the follow worker observes this
    /// and exits on its next tick) and reset the bob phase.
    pub fn stop_pumpkin_drag(&mut self)
        ensures
            *final(self) == spec_stop_drag(*old(self)),
    {
        self.set_pumpkin_dragging_state(false);
        self.follow_phase = 0;
    }

    /// Atomically read and clear `eaten_pending` for the external poller.
    pub fn take_pumpkin_eaten_flag(&mut self) -> (was_pending: bool)
        ensures
            was_pending == old(self).eaten_pending,
            *final(self) == spec_take_eaten(*old(self)),
    {
        self.take_pumpkin_eaten_pending()
    }

    /// Atomically read and clear `timeout_pending` for the external poller.
    pub fn take_pumpkin_timeout_flag(&mut self) -> (was_pending: bool)
        ensures
            was_pending == old(self).timeout_pending,
            *final(self) == spec_take_timeout(*old(self)),
    {
        self.take_pumpkin_timeout_pending()
    }

    /// One follow tick's bob: advance the phase cyclically through
    /// `0, 1, 2, 3` and return the vertical offset for the new phase.
    pub fn advance_follow_phase(&mut self) -> (bob: i32)
        ensures
            *final(self) == spec_advance_phase(*old(self)),
            bob == spec_bob(final(self).follow_phase as int),
            -1 <= bob <= 1,
    {
        let next_phase: u8 = (((self.follow_phase as u32) + 1) % 4) as u8;
        self.follow_phase = next_phase;
        if next_phase == 1 {
            1
        } else if next_phase == 3 {
            -1
        } else {
            0
        }
    }
}

/// The session id never moves backward: beginning a session and capturing
/// both bump it (strictly, until the counter saturates at its ceiling), and
/// no other transition touches it.
pub proof fn lemma_session_id_monotonic(e: ChaseEngine)
    ensures
        spec_begin_session(e).session_id >= e.session_id,
        spec_capture(e).session_id >= e.session_id,
        e.session_id < u64::MAX ==> spec_begin_session(e).session_id > e.session_id,
        e.session_id < u64::MAX ==> spec_capture(e).session_id > e.session_id,
        spec_timeout_fire(e).session_id == e.session_id,
        spec_stop_drag(e).session_id == e.session_id,
        spec_take_eaten(e).session_id == e.session_id,
        spec_take_timeout(e).session_id == e.session_id,
        spec_advance_phase(e).session_id == e.session_id,
{
}

/// A timeout worker bound to session `k` never posts `timeout_pending` once
/// a capture or a fresh spawn has advanced the id past `k`: against such a
/// state its check leaves the engine exactly as it found it.
pub proof fn lemma_stale_timeout_worker(e: ChaseEngine, k: u64, target_exists: bool)
    requires
        e.session_id != k,
    ensures
        spec_handle_timeout(e, k, target_exists) == e,
{
}

/// One of the two calls that advance the session id.
pub enum SessionBump {
    /// `begin_pumpkin_session`: a fresh spawn.
    Begin,
    /// `on_pumpkin_eaten`: a capture.
    Capture,
}

/// The engine after one session-bumping call.
pub open spec fn spec_apply_bump(e: ChaseEngine, bump: SessionBump) -> ChaseEngine {
    match bump {
        SessionBump::Begin => spec_begin_session(e),
        SessionBump::Capture => spec_capture(e),
    }
}

/// The engine after a whole sequence of session-bumping calls, applied in
/// order.
pub open spec fn spec_run_bumps(e: ChaseEngine, bumps: Seq<SessionBump>) -> ChaseEngine
    decreases bumps.len(),
{
    if bumps.len() == 0 {
        e
    } else {
        spec_apply_bump(spec_run_bumps(e, bumps.drop_last()), bumps.last())
    }
}

/// Across any sequence of `begin session` / `capture` calls that stays
/// below the counter's ceiling, the session id grows by exactly one per
/// call — in particular it is strictly increasing call over call.
pub proof fn lemma_session_id_strictly_increases(e: ChaseEngine, bumps: Seq<SessionBump>)
    requires
        e.session_id + bumps.len() <= u64::MAX,
    ensures
        spec_run_bumps(e, bumps).session_id == e.session_id + bumps.len(),
    decreases bumps.len(),
{
    if bumps.len() > 0 {
        lemma_session_id_strictly_increases(e, bumps.drop_last());
    }
}

/// The staleness story in full: once at least one spawn or capture has
/// advanced the id past a timeout worker's session `k` (the counter staying
/// below its ceiling), that worker's later check leaves the engine exactly
/// as it found it — it never posts `timeout_pending`.
pub proof fn lemma_advanced_session_starves_timeout(
    e: ChaseEngine,
    bumps: Seq<SessionBump>,
    target_exists: bool,
)
    requires
        bumps.len() >= 1,
        e.session_id + bumps.len() <= u64::MAX,
    ensures
        spec_handle_timeout(spec_run_bumps(e, bumps), e.session_id, target_exists)
            == spec_run_bumps(e, bumps),
{
    lemma_session_id_strictly_increases(e, bumps);
}

/// After a capture, `eaten_pending` is set and `timeout_pending` is clear —
/// unconditionally, even when a timeout fired moments earlier in the same
/// session.
pub proof fn lemma_capture_overrides_timeout(e: ChaseEngine)
    ensures
        spec_capture(e).eaten_pending,
        !spec_capture(e).timeout_pending,
        spec_capture(spec_timeout_fire(e)).eaten_pending,
        !spec_capture(spec_timeout_fire(e)).timeout_pending,
        !spec_capture(spec_timeout_fire(e)).timed_out,
{
}

/// The poller's flags are one-shot: consuming one hands back whatever was
/// pending and leaves nothing, so consuming it again immediately hands back
/// `false` and changes nothing further.
pub proof fn lemma_take_flags_one_shot(e: ChaseEngine)
    ensures
        !spec_take_eaten(e).eaten_pending,
        spec_take_eaten(spec_take_eaten(e)) == spec_take_eaten(e),
        !spec_take_timeout(e).timeout_pending,
        spec_take_timeout(spec_take_timeout(e)) == spec_take_timeout(e),
{
}

/// Ending a drag halts the follow worker: after `stop_pumpkin_drag` the
/// loop's guard — the dragging flag — is false, so the next tick exits.
pub proof fn lemma_stop_drag_halts_follow(e: ChaseEngine)
    ensures
        !spec_stop_drag(e).dragging,
{
}

} // verus!
