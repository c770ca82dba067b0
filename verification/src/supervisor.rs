//! The idle-process supervisor: an owned-resource slot tracking the single
//! supervised helper process. A reconfiguration first takes the previous
//! handle so the caller can terminate it, and only then records the outcome of
//! the replacement spawn — the previous helper is always torn down strictly
//! before a new one runs.

use vstd::prelude::*;

verus! {

/// The supervisor's state: no live helper, or one running helper identified by
/// an opaque handle.
#[derive(Clone, Copy, Debug, PartialEq, Eq, Structural)]
pub enum SupervisorState {
    Idle,
    Running { handle: u64 },
}

/// The state after taking the previous handle, and the handle to terminate.
pub open spec fn taken(state: SupervisorState) -> (SupervisorState, Option<u64>) {
    match state {
        SupervisorState::Idle => (SupervisorState::Idle, None),
        SupervisorState::Running { handle } => (SupervisorState::Idle, Some(handle)),
    }
}

/// The state after recording a spawn attempt: running the new helper on
/// success, still idle on failure.
pub open spec fn spawn_recorded(spawned: Option<u64>) -> SupervisorState {
    match spawned {
        Some(handle) => SupervisorState::Running { handle },
        None => SupervisorState::Idle,
    }
}

/// Owns the lifecycle slot of the external idle helper.
pub struct Supervisor {
    state: SupervisorState,
}

impl View for Supervisor {
    type V = SupervisorState;

    closed spec fn view(&self) -> SupervisorState {
        self.state
    }
}

impl Supervisor {
    /// A supervisor with no live helper.
    pub fn new() -> (s: Self)
        ensures
            s@ == SupervisorState::Idle,
    {
        Supervisor { state: SupervisorState::Idle }
    }

    /// First phase of a reconfiguration, and of daemon shutdown: hand the
    /// previous helper's handle to the caller for (best-effort) termination.
    /// The supervisor is left idle, so no spawn can be recorded before the
    /// previous helper was dealt with.
    pub fn take_previous(&mut self) -> (previous: Option<u64>)
        ensures
            (final(self)@, previous) == taken(old(self)@),
    {
        let previous = match self.state {
            SupervisorState::Idle => None,
            SupervisorState::Running { handle } => Some(handle),
        };
        self.state = SupervisorState::Idle;
        previous
    }

    /// Second phase: record the outcome of the spawn attempt. A failure
    /// (`None`) leaves the supervisor idle; it is non-fatal, and the next
    /// reconfiguration gets another chance.
    pub fn record_spawn(&mut self, spawned: Option<u64>)
        requires
            old(self)@ == SupervisorState::Idle,
        ensures
            final(self)@ == spawn_recorded(spawned),
    {
        self.state = spawn_recorded_exec(spawned);
    }

    /// The handle of the running helper, if any.
    pub fn current(&self) -> (r: Option<u64>)
        ensures
            r == taken(self@).1,
    {
        match self.state {
            SupervisorState::Idle => None,
            SupervisorState::Running { handle } => Some(handle),
        }
    }
}

fn spawn_recorded_exec(spawned: Option<u64>) -> (r: SupervisorState)
    ensures
        r == spawn_recorded(spawned),
{
    match spawned {
        Some(handle) => SupervisorState::Running { handle },
        None => SupervisorState::Idle,
    }
}

/// A spawn failure is recoverable: it leaves the supervisor idle, the next
/// reconfiguration finds no stale handle to terminate, and a later successful
/// spawn runs the new helper.
pub proof fn lemma_spawn_failure_recoverable(state: SupervisorState, new_handle: u64)
    ensures
        spawn_recorded(None) == SupervisorState::Idle,
        (taken(spawn_recorded(None)).1 == None::<u64>),
        (spawn_recorded(Some(new_handle)) == SupervisorState::Running { handle: new_handle }),
{
}

} // verus!
