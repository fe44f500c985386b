use netns_proxy::errors::{CliErrors, NamespaceErrors, TokioErrors, UnknownErrors};
use netns_proxy::fetch::{FetchSession, FetchState, FetchStep, ResponseSummary};
use netns_proxy::listener::{listener_from_bind, listener_step, AcceptOutcome, ListenerAction, ListenerState};
use netns_proxy::namespace::enter_network_namespace;
use netns_proxy::relay::{Direction, RelaySession, SessionState};
use netns_proxy::worker::{NamespaceWorker, WorkerState};

#[test]
fn error_numbers_per_variant() {
    let open = CliErrors::Namespace(NamespaceErrors::Open(String::from("no such file")));
    let join = CliErrors::Namespace(NamespaceErrors::Join(String::from("permission denied")));
    let io = CliErrors::Tokio(TokioErrors::Error(String::from("connection refused")));
    let unknown = CliErrors::Unknown(UnknownErrors::Unknown(String::from("bad url")));
    assert_eq!(open.get_error_number(), 10);
    assert_eq!(join.get_error_number(), 11);
    assert_eq!(io.get_error_number(), 20);
    assert_eq!(unknown.get_error_number(), 30);
}

#[test]
fn error_numbers_distinguish_categories() {
    let ns = CliErrors::Namespace(NamespaceErrors::Open(String::new()));
    let io = CliErrors::Tokio(TokioErrors::Error(String::new()));
    let unknown = CliErrors::Unknown(UnknownErrors::Unknown(String::new()));
    assert_ne!(ns.get_error_number() / 10, io.get_error_number() / 10);
    assert_ne!(ns.get_error_number() / 10, unknown.get_error_number() / 10);
    assert_ne!(io.get_error_number() / 10, unknown.get_error_number() / 10);
    assert_ne!(ns.get_error_number(), 0);
    assert_ne!(io.get_error_number(), 0);
    assert_ne!(unknown.get_error_number(), 0);
}

#[test]
fn error_wrappers_keep_the_message() {
    let io = CliErrors::from_io_message(String::from("broken pipe"));
    assert_eq!(io, CliErrors::Tokio(TokioErrors::Error(String::from("broken pipe"))));
    let fetch = CliErrors::from_fetch_message(String::from("dns failure"));
    assert_eq!(
        fetch,
        CliErrors::Unknown(UnknownErrors::Unknown(String::from("dns failure")))
    );
}

#[test]
fn relay_passes_chunks_through_unchanged() {
    let mut session = RelaySession::new();
    session.on_dial_success();
    let out = session.relay_chunk(Direction::ClientToTarget, b"hello world".to_vec());
    assert_eq!(out, b"hello world".to_vec());
    let back = session.relay_chunk(Direction::TargetToClient, b"HELLO".to_vec());
    assert_eq!(back, b"HELLO".to_vec());
}

#[test]
fn relay_passes_empty_chunk_through() {
    let mut session = RelaySession::new();
    session.on_dial_success();
    let out = session.relay_chunk(Direction::ClientToTarget, Vec::new());
    assert_eq!(out, Vec::<u8>::new());
}

#[test]
fn relay_completes_only_after_both_directions_drain() {
    let mut session = RelaySession::new();
    session.on_dial_success();
    assert!(!session.is_complete());
    session.on_source_closed(Direction::ClientToTarget);
    assert!(!session.is_complete());
    session.on_source_closed(Direction::TargetToClient);
    assert!(session.is_complete());
}

#[test]
fn half_closed_client_still_receives_the_response() {
    // The client stops writing but keeps reading: the target-to-client
    // direction must still deliver bytes before the session completes.
    let mut session = RelaySession::new();
    session.on_dial_success();
    let _request = session.relay_chunk(Direction::ClientToTarget, b"GET /".to_vec());
    session.on_source_closed(Direction::ClientToTarget);
    assert!(!session.is_complete());
    let response = session.relay_chunk(Direction::TargetToClient, b"200 OK".to_vec());
    assert_eq!(response, b"200 OK".to_vec());
    session.on_source_closed(Direction::TargetToClient);
    assert!(session.is_complete());
}

#[test]
fn dial_failure_aborts_the_session_locally() {
    let mut session = RelaySession::new();
    let err = session.on_dial_failure(String::from("connection refused"));
    assert_eq!(
        err,
        CliErrors::Tokio(TokioErrors::Error(String::from("connection refused")))
    );
    assert!(session.is_failed());
    assert!(!session.is_complete());
}

#[test]
fn listener_starts_from_a_successful_bind() {
    assert_eq!(listener_from_bind(Ok(())), Ok(ListenerState::Listening));
    assert_eq!(
        listener_from_bind(Err(String::from("address in use"))),
        Err(CliErrors::Tokio(TokioErrors::Error(String::from("address in use"))))
    );
}

#[test]
fn listener_keeps_accepting_and_stops_on_accept_failure() {
    let (state, action) = listener_step(ListenerState::Listening, AcceptOutcome::Accepted);
    assert_eq!(state, ListenerState::Listening);
    assert_eq!(action, ListenerAction::SpawnSession);
    let (state, action) = listener_step(state, AcceptOutcome::Failed(String::from("emfile")));
    assert_eq!(state, ListenerState::Stopped);
    assert_eq!(action, ListenerAction::Shutdown);
}

#[test]
fn forward_echo_scenario() {
    // A proxy in front of an echo server: a client connects, sends "ping",
    // reads "ping" back, closes; the proxy must still accept afterwards.
    let mut worker = NamespaceWorker::new();
    worker.on_entry_hook(&Ok(()));
    assert!(worker.may_perform_io());

    let (state, action) = listener_step(ListenerState::Listening, AcceptOutcome::Accepted);
    assert_eq!(action, ListenerAction::SpawnSession);

    let mut session = worker.begin_session();
    session.on_dial_success();
    let to_target = session.relay_chunk(Direction::ClientToTarget, b"ping".to_vec());
    assert_eq!(to_target, b"ping".to_vec());
    let to_client = session.relay_chunk(Direction::TargetToClient, b"ping".to_vec());
    assert_eq!(to_client, b"ping".to_vec());
    session.on_source_closed(Direction::ClientToTarget);
    session.on_source_closed(Direction::TargetToClient);
    assert!(session.is_complete());

    let (state, action) = listener_step(state, AcceptOutcome::Accepted);
    assert_eq!(state, ListenerState::Listening);
    assert_eq!(action, ListenerAction::SpawnSession);
}

#[test]
fn closed_port_scenario() {
    // The namespace address points at a closed port: the dial fails, the
    // inbound connection is dropped, and the listener keeps accepting.
    let mut worker = NamespaceWorker::new();
    worker.on_entry_hook(&Ok(()));
    let mut session = worker.begin_session();
    let err = session.on_dial_failure(String::from("connection refused"));
    assert_eq!(err.get_error_number(), 20);
    assert!(session.is_failed());

    let (state, action) = listener_step(ListenerState::Listening, AcceptOutcome::Accepted);
    assert_eq!(state, ListenerState::Listening);
    assert_eq!(action, ListenerAction::SpawnSession);
}

#[test]
fn concurrent_sessions_stay_independent() {
    let mut first = RelaySession::new();
    let mut second = RelaySession::new();
    first.on_dial_success();
    second.on_dial_success();
    let a = first.relay_chunk(Direction::ClientToTarget, b"aaaa".to_vec());
    let b = second.relay_chunk(Direction::ClientToTarget, b"bbbb".to_vec());
    assert_eq!(a, b"aaaa".to_vec());
    assert_eq!(b, b"bbbb".to_vec());
    first.on_source_closed(Direction::ClientToTarget);
    first.on_source_closed(Direction::TargetToClient);
    assert!(first.is_complete());
    assert!(!second.is_complete());
}

#[test]
fn worker_with_failed_hook_never_enters() {
    let mut worker = NamespaceWorker::new();
    assert_eq!(worker.state, WorkerState::Fresh);
    assert!(!worker.may_perform_io());
    let failure = CliErrors::Namespace(NamespaceErrors::Open(String::from("no such file")));
    worker.on_entry_hook(&Err(failure));
    assert_eq!(worker.state, WorkerState::Disabled);
    assert!(!worker.may_perform_io());
}

#[test]
fn worker_with_successful_hook_enters() {
    let mut worker = NamespaceWorker::new();
    worker.on_entry_hook(&Ok(()));
    assert_eq!(worker.state, WorkerState::Entered);
    assert!(worker.may_perform_io());
}

#[test]
fn fetch_aborts_without_a_request_when_entry_fails() {
    let mut fetch = FetchSession::new();
    let failure = CliErrors::Namespace(NamespaceErrors::Join(String::from("not permitted")));
    let step = fetch.on_namespace_entry(Err(failure.clone()));
    assert_eq!(step, FetchStep::Abort(failure));
    assert_eq!(fetch.state, FetchState::Done);
    assert_eq!(fetch.requests_issued, 0);
}

#[test]
fn fetch_issues_exactly_one_request() {
    let mut fetch = FetchSession::new();
    assert_eq!(fetch.requests_issued, 0);
    let step = fetch.on_namespace_entry(Ok(()));
    assert_eq!(step, FetchStep::IssueGet);
    assert_eq!(fetch.requests_issued, 1);
    let summary = ResponseSummary { status: 200, body: String::from("ok") };
    let result = fetch.on_response(Ok(summary));
    assert_eq!(result, Ok(ResponseSummary { status: 200, body: String::from("ok") }));
    assert_eq!(fetch.requests_issued, 1);
    assert_eq!(fetch.state, FetchState::Done);
}

#[test]
fn fetch_wraps_a_client_failure_as_unknown() {
    let mut fetch = FetchSession::new();
    let step = fetch.on_namespace_entry(Ok(()));
    assert_eq!(step, FetchStep::IssueGet);
    let result = fetch.on_response(Err(String::from("could not resolve host")));
    assert_eq!(
        result,
        Err(CliErrors::Unknown(UnknownErrors::Unknown(String::from(
            "could not resolve host"
        ))))
    );
    assert_eq!(fetch.requests_issued, 1);
}

#[test]
fn entering_a_missing_namespace_file_is_an_open_error() {
    let result = enter_network_namespace(String::from("/this/namespace/file/does/not/exist"));
    match result {
        Err(CliErrors::Namespace(NamespaceErrors::Open(_))) => {}
        other => panic!("expected an Open error, got {:?}", other),
    }
}
