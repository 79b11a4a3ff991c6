//! The lock manager's guarantees, stated and proved over the spec-level
//! transitions of [`crate::fsmodel`]: what one acquisition step decides
//! ([`step_kind`]), what it leaves behind ([`step_state`]), and what
//! reclamation leaves behind ([`LockView::cleaned`]).

use vstd::prelude::*;

use crate::fsmodel::{LockView, StepKind, reclaim_state, step_kind, step_state};
use crate::pidfile::{is_valid_pid_text, lemma_pid_line_round_trip, pid_line, pid_of_text};

verus! {

/// Mutual exclusion: while the lock directory stands, no acquisition attempt
/// acquires; whoever acquires leaves the directory standing; so of two
/// attempts made one after the other on the same lock path, at most one
/// acquires.
pub proof fn lemma_mutual_exclusion(
    s: LockView,
    pid_a: u32,
    alive_a: bool,
    pid_b: u32,
    alive_b: bool,
)
    ensures
        s.dir_exists ==> !(step_kind(s, alive_a) is Acquired),
        step_kind(s, alive_a) is Acquired ==> step_state(s, pid_a, alive_a).dir_exists,
        !(step_kind(s, alive_a) is Acquired && step_kind(
            step_state(s, pid_a, alive_a),
            alive_b,
        ) is Acquired),
{
}

/// Idempotent reclamation: reclaiming a lock path twice leaves the same
/// state as reclaiming it once — the second pass finds nothing and removes
/// nothing. That each invocation also reports success is
/// [`crate::fsmodel::clean_up_path`]'s contract, which promises `Ok` for
/// every well-formed state, the already-cleaned one included.
pub proof fn lemma_reclamation_idempotent(s: LockView)
    ensures
        reclaim_state(reclaim_state(s)) == reclaim_state(s),
        reclaim_state(s).wf(),
        !reclaim_state(s).dir_exists,
        reclaim_state(s).pid_file is None,
{
}

/// Staleness recovery: on a lock directory whose pid file names a holder the
/// oracle reports gone, one attempt reclaims and the next acquires, leaving
/// the lock held by the new process — no external intervention needed.
pub proof fn lemma_staleness_recovery(s: LockView, my_pid: u32)
    requires
        s.dir_exists,
        s.pid_file matches Some(c) && c.len() > 0 && is_valid_pid_text(c) && pid_of_text(c) != 0,
    ensures
        step_kind(s, false) is Reclaimed,
        step_kind(step_state(s, my_pid, false), false) is Acquired,
        step_state(step_state(s, my_pid, false), my_pid, false) == LockView::held_by(my_pid),
{
}

/// Non-staleness preservation: while the pid file names a holder whose
/// process is alive, an acquisition attempt removes nothing — it leaves the
/// lock path exactly as it found it and waits.
pub proof fn lemma_live_owner_preserved(s: LockView, my_pid: u32)
    requires
        s.dir_exists,
        s.pid_file matches Some(c) && c.len() > 0 && is_valid_pid_text(c),
    ensures
        step_kind(s, true) is Waited,
        step_state(s, my_pid, true) == s,
{
}

/// The empty-pidfile heuristic: a lock directory whose pid file exists but
/// is empty is never reclaimed, whatever the oracle would have answered —
/// the attempt waits and the state is untouched.
pub proof fn lemma_empty_pidfile_never_reclaimed(s: LockView, my_pid: u32, owner_alive: bool)
    requires
        s.dir_exists,
        s.pid_file matches Some(c) && c.len() == 0,
    ensures
        step_kind(s, owner_alive) is Waited,
        step_state(s, my_pid, owner_alive) == s,
{
}

/// Round trip: acquiring at a free path, releasing, and acquiring again
/// succeeds both times and leaves exactly one pid file, holding the second
/// owner's identifier — which parses back to that identifier.
pub proof fn lemma_acquire_release_round_trip(s: LockView, pid_x: u32, pid_y: u32, alive: bool)
    requires
        !s.dir_exists,
    ensures
        step_kind(s, alive) is Acquired,
        step_kind(reclaim_state(step_state(s, pid_x, alive)), alive) is Acquired,
        step_state(reclaim_state(step_state(s, pid_x, alive)), pid_y, alive) == LockView::held_by(
            pid_y,
        ),
        LockView::held_by(pid_y).pid_file == Some(pid_line(pid_y)),
        is_valid_pid_text(pid_line(pid_y)),
        pid_of_text(pid_line(pid_y)) == pid_y as nat,
{
    lemma_pid_line_round_trip(pid_y);
}

} // verus!
