use vstd::prelude::*;
use crate::errors::{CliErrors, UnknownErrors};

verus! {

/// Where the one-shot fetch path stands: before namespace entry, waiting
/// for the single HTTP response, or done.
#[derive(Clone, Copy, PartialEq, Eq, Structural, Debug)]
pub enum FetchState {
    Start,
    AwaitingResponse,
    Done,
}

/// What the fetch path must do next: issue its single HTTP GET, or abort
/// with the error of the failed namespace entry. There is no action that
/// opens a listening socket or spawns the relay worker pool.
#[derive(Debug, PartialEq, Eq)]
pub enum FetchStep {
    IssueGet,
    Abort(CliErrors),
}

/// The summary of the one HTTP response: its status code and its body text.
#[derive(Debug, PartialEq, Eq)]
pub struct ResponseSummary {
    pub status: u16,
    pub body: String,
}

/// The one-shot fetch path: enter the namespace on the calling thread, then
/// issue exactly one HTTP GET. `requests_issued` counts the GETs the path
/// has asked for; it never exceeds one.
pub struct FetchSession {
    pub state: FetchState,
    pub requests_issued: u8,
}

impl FetchSession {
    /// Well-formedness: the single GET is issued exactly at the transition
    /// out of Start on a successful namespace entry, so the count is zero
    /// before that point and never exceeds one.
    pub open spec fn wf(self) -> bool {
        &&& self.requests_issued <= 1
        &&& self.state is Start ==> self.requests_issued == 0
        &&& self.state is AwaitingResponse ==> self.requests_issued == 1
    }

    /// A fetch path that has not entered the namespace yet and has issued
    /// no request.
    pub fn new() -> (s: FetchSession)
        ensures
            s.state is Start,
            s.requests_issued == 0,
            s.wf(),
    {
        FetchSession { state: FetchState::Start, requests_issued: 0 }
    }

    /// Consumes the outcome of the namespace entry. A failed entry aborts
    /// the fetch with that very error and no request is ever issued; a
    /// successful entry directs the caller to issue the single GET.
    pub fn on_namespace_entry(&mut self, entry: Result<(), CliErrors>) -> (step: FetchStep)
        requires
            old(self).state is Start,
            old(self).wf(),
        ensures
            final(self).wf(),
            entry is Ok ==> step == FetchStep::IssueGet && final(self).state is AwaitingResponse
                && final(self).requests_issued == 1,
            entry matches Err(e) ==> step == FetchStep::Abort(e) && final(self).state is Done
                && final(self).requests_issued == 0,
    {
        match entry {
            Ok(()) => {
                self.state = FetchState::AwaitingResponse;
                self.requests_issued = 1;
                FetchStep::IssueGet
            }
            Err(e) => {
                self.state = FetchState::Done;
                FetchStep::Abort(e)
            }
        }
    }

    /// Consumes the outcome of the single GET: a response is handed through
    /// as the summary, a client failure is wrapped as an unknown error. No
    /// further request is issued either way.
    pub fn on_response(&mut self, response: Result<ResponseSummary, String>) -> (r: Result<
        ResponseSummary,
        CliErrors,
    >)
        requires
            old(self).state is AwaitingResponse,
            old(self).wf(),
        ensures
            final(self).state is Done,
            final(self).requests_issued == old(self).requests_issued,
            final(self).wf(),
            response matches Ok(summary) ==> r == Ok::<ResponseSummary, CliErrors>(summary),
            response matches Err(m) ==> r == Err::<ResponseSummary, CliErrors>(
                CliErrors::Unknown(UnknownErrors::Unknown(m)),
            ),
    {
        self.state = FetchState::Done;
        match response {
            Ok(summary) => Ok(summary),
            Err(m) => Err(CliErrors::Unknown(UnknownErrors::Unknown(m))),
        }
    }
}

/// Fetch isolation: a well-formed fetch path has issued at most one HTTP
/// request at every point of its life, and exactly one once it awaits or
/// has consumed the response of a successful run; its steps offer no action
/// that listens or spawns relay workers.
pub proof fn lemma_fetch_at_most_one_request(s: FetchSession)
    requires
        s.wf(),
    ensures
        s.requests_issued <= 1,
        s.state is AwaitingResponse ==> s.requests_issued == 1,
{
}

} // verus!
