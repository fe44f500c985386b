use vstd::prelude::*;
use crate::errors::{CliErrors, TokioErrors};
use crate::relay::SessionModel;

verus! {

/// The state of the accept loop: listening for inbound connections, or
/// stopped for good after an accept failure. Stopped is terminal.
#[derive(Clone, Copy, PartialEq, Eq, Structural, Debug)]
pub enum ListenerState {
    Listening,
    Stopped,
}

/// What one call of accept produced: an inbound connection, or the error
/// text of a failed accept.
#[derive(Debug, PartialEq, Eq)]
pub enum AcceptOutcome {
    Accepted,
    Failed(String),
}

/// What the accept loop must do next: hand the new connection to a relay
/// session on the namespace-bound pool, or shut the listener down.
#[derive(Clone, Copy, PartialEq, Eq, Structural, Debug)]
pub enum ListenerAction {
    SpawnSession,
    Shutdown,
}

/// The state the listener moves to on an accept outcome: a success keeps it
/// listening, any accept failure stops it for good.
pub open spec fn listener_next(s: ListenerState, ev: AcceptOutcome) -> ListenerState {
    match ev {
        AcceptOutcome::Accepted => s,
        AcceptOutcome::Failed(_) => ListenerState::Stopped,
    }
}

/// Turns the outcome of the bind into the initial listener state: a bound
/// socket starts listening; a bind failure is fatal and reported as an I/O
/// error before the loop ever starts.
pub fn listener_from_bind(bind: Result<(), String>) -> (r: Result<ListenerState, CliErrors>)
    ensures
        bind is Ok ==> r == Ok::<ListenerState, CliErrors>(ListenerState::Listening),
        bind matches Err(m) ==> r == Err::<ListenerState, CliErrors>(
            CliErrors::Tokio(TokioErrors::Error(m)),
        ),
{
    match bind {
        Ok(()) => Ok(ListenerState::Listening),
        Err(m) => Err(CliErrors::Tokio(TokioErrors::Error(m))),
    }
}

/// One step of the accept loop: an accepted connection spawns a relay
/// session and keeps the listener in Listening; an accept failure stops the
/// listener. Nothing else — in particular no outcome of any relay session —
/// moves the listener.
pub fn listener_step(state: ListenerState, event: AcceptOutcome) -> (r: (
    ListenerState,
    ListenerAction,
))
    requires
        state is Listening,
    ensures
        r.0 == listener_next(state, event),
        event is Accepted ==> r.0 is Listening && r.1 is SpawnSession,
        event is Failed ==> r.0 is Stopped && r.1 is Shutdown,
{
    match event {
        AcceptOutcome::Accepted => (state, ListenerAction::SpawnSession),
        AcceptOutcome::Failed(_) => (ListenerState::Stopped, ListenerAction::Shutdown),
    }
}

/// Dial failure isolates the session: a failed dial leaves that one session
/// aborted with nothing relayed — no other session holds any of its state,
/// and the listener's next accepted connection still spawns a session; the
/// failure never reaches the accept loop.
pub proof fn lemma_dial_failure_isolated(m: SessionModel, l: ListenerState)
    requires
        m.state is Dialing,
        m.wf(),
        l is Listening,
    ensures
        SessionModel::dial_failed(m).state is Failed,
        SessionModel::dial_failed(m).client_to_target.relayed == Seq::<u8>::empty(),
        SessionModel::dial_failed(m).target_to_client.relayed == Seq::<u8>::empty(),
        SessionModel::dial_failed(m).client_to_target == m.client_to_target,
        SessionModel::dial_failed(m).target_to_client == m.target_to_client,
        listener_next(l, AcceptOutcome::Accepted) is Listening,
{
}

} // verus!
