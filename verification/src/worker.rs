use vstd::prelude::*;
use crate::errors::CliErrors;
use crate::relay::{RelaySession, SessionModel};

verus! {

/// The state of one worker of the namespace-bound pool: fresh before its
/// entry hook ran, entered after the hook succeeded, disabled for good after
/// the hook failed.
#[derive(Clone, Copy, PartialEq, Eq, Structural, Debug)]
pub enum WorkerState {
    Fresh,
    Entered,
    Disabled,
}

/// The state a worker moves to when its namespace-entry hook reports `ok`:
/// only a successful hook on a fresh worker yields an entered worker; a
/// failed hook disables the worker for good, and a worker that is past its
/// hook never runs it again.
pub open spec fn hook_next(s: WorkerState, ok: bool) -> WorkerState {
    match s {
        WorkerState::Fresh => if ok {
            WorkerState::Entered
        } else {
            WorkerState::Disabled
        },
        _ => s,
    }
}

/// One worker of the namespace-bound pool. Every socket operation of the
/// pool is reached through `begin_session`, which demands an entered
/// worker, so no socket operation can precede a completed entry hook.
pub struct NamespaceWorker {
    pub state: WorkerState,
}

impl NamespaceWorker {
    /// A freshly spawned worker whose entry hook has not run yet.
    pub fn new() -> (w: NamespaceWorker)
        ensures
            w.state is Fresh,
    {
        NamespaceWorker { state: WorkerState::Fresh }
    }

    /// Records the outcome of this worker's one-shot namespace-entry hook.
    /// The hook runs exactly once, before the worker takes any work; on
    /// failure the worker is disabled and must never process a connection.
    pub fn on_entry_hook(&mut self, hook: &Result<(), CliErrors>)
        requires
            old(self).state is Fresh,
        ensures
            final(self).state == hook_next(old(self).state, hook is Ok),
            hook is Ok ==> final(self).state is Entered,
            hook is Err ==> final(self).state is Disabled,
    {
        match hook {
            Ok(()) => {
                self.state = WorkerState::Entered;
            }
            Err(_) => {
                self.state = WorkerState::Disabled;
            }
        }
    }

    /// Whether this worker may perform socket operations: exactly the
    /// workers whose entry hook has completed successfully.
    pub fn may_perform_io(&self) -> (r: bool)
        ensures
            r <==> self.state is Entered,
    {
        match self.state {
            WorkerState::Entered => true,
            _ => false,
        }
    }

    /// Starts a relay session for an accepted connection on this worker.
    /// This is the pool's first socket operation for the connection, and it
    /// demands a worker that has entered the namespace.
    pub fn begin_session(&self) -> (s: RelaySession)
        requires
            self.state is Entered,
        ensures
            s.model() == SessionModel::init(),
            s.model().wf(),
    {
        RelaySession::new()
    }
}

/// Namespace-entry precondition: the only step that yields an entered worker
/// from a worker that was not already entered is a successful entry hook on
/// a fresh worker; a failed hook disables the worker, and a disabled worker
/// stays disabled. Since every socket operation of the pool goes through
/// `begin_session`, which requires an entered worker, a worker whose hook
/// failed can never run a relay session.
pub proof fn lemma_entered_only_by_successful_hook(s: WorkerState, ok: bool)
    ensures
        hook_next(s, ok) is Entered <==> (s is Fresh && ok) || s is Entered,
        s is Fresh && !ok ==> hook_next(s, ok) is Disabled,
        s is Disabled ==> hook_next(s, ok) is Disabled,
{
}

} // verus!
