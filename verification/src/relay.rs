use vstd::prelude::*;
use crate::errors::{CliErrors, TokioErrors};

verus! {

/// One of the two unidirectional byte streams inside a relay session.
#[derive(Clone, Copy, PartialEq, Eq, Structural, Debug)]
pub enum Direction {
    ClientToTarget,
    TargetToClient,
}

/// The direction opposite to `d`.
pub open spec fn opposite(d: Direction) -> Direction {
    match d {
        Direction::ClientToTarget => Direction::TargetToClient,
        Direction::TargetToClient => Direction::ClientToTarget,
    }
}

/// Where a relay session stands in its lifecycle: dialing the target,
/// relaying bytes, finished after both directions drained, or failed
/// because the outbound dial was refused.
#[derive(Clone, Copy, PartialEq, Eq, Structural, Debug)]
pub enum SessionState {
    Dialing,
    Relaying,
    Finished,
    Failed,
}

/// The mathematical model of one direction of a session: whether its source
/// has finished (end of stream or a copy error), and the bytes relayed so
/// far, in order.
#[verifier::ext_equal]
pub struct DirectionModel {
    pub done: bool,
    pub relayed: Seq<u8>,
}

/// The mathematical model of a whole relay session.
#[verifier::ext_equal]
pub struct SessionModel {
    pub state: SessionState,
    pub client_to_target: DirectionModel,
    pub target_to_client: DirectionModel,
}

impl SessionModel {
    /// The model of the direction `d`.
    pub open spec fn dir(self, d: Direction) -> DirectionModel {
        match d {
            Direction::ClientToTarget => self.client_to_target,
            Direction::TargetToClient => self.target_to_client,
        }
    }

    /// A session that has just been created for an accepted connection:
    /// dialing, with nothing relayed yet.
    pub open spec fn init() -> SessionModel {
        SessionModel {
            state: SessionState::Dialing,
            client_to_target: DirectionModel { done: false, relayed: Seq::empty() },
            target_to_client: DirectionModel { done: false, relayed: Seq::empty() },
        }
    }

    /// Well-formedness: before the dial has succeeded nothing has been
    /// relayed, a failed session relayed nothing (the dial is the first
    /// socket operation, so failure precedes any byte), and a finished
    /// session has drained both directions.
    pub open spec fn wf(self) -> bool {
        &&& (self.state is Dialing || self.state is Failed) ==> {
            &&& self.client_to_target.relayed == Seq::<u8>::empty()
            &&& self.target_to_client.relayed == Seq::<u8>::empty()
            &&& !self.client_to_target.done
            &&& !self.target_to_client.done
        }
        &&& self.state is Finished ==> self.client_to_target.done && self.target_to_client.done
    }

    /// The model after the outbound dial succeeded.
    pub open spec fn dial_ok(m: SessionModel) -> SessionModel {
        SessionModel { state: SessionState::Relaying, ..m }
    }

    /// The model after the outbound dial failed: the session is aborted.
    pub open spec fn dial_failed(m: SessionModel) -> SessionModel {
        SessionModel { state: SessionState::Failed, ..m }
    }

    /// The model after a chunk of bytes was relayed in direction `d`: the
    /// bytes are appended to that direction's stream and nothing else moves.
    pub open spec fn after_chunk(m: SessionModel, d: Direction, bytes: Seq<u8>) -> SessionModel {
        match d {
            Direction::ClientToTarget => SessionModel {
                client_to_target: DirectionModel {
                    done: m.client_to_target.done,
                    relayed: m.client_to_target.relayed + bytes,
                },
                ..m
            },
            Direction::TargetToClient => SessionModel {
                target_to_client: DirectionModel {
                    done: m.target_to_client.done,
                    relayed: m.target_to_client.relayed + bytes,
                },
                ..m
            },
        }
    }

    /// The model after direction `d`'s source finished: the direction is
    /// marked done, and the session is complete only if the opposite
    /// direction had already finished — the full-drain completion policy.
    pub open spec fn after_close(m: SessionModel, d: Direction) -> SessionModel {
        let next = if m.dir(opposite(d)).done {
            SessionState::Finished
        } else {
            SessionState::Relaying
        };
        match d {
            Direction::ClientToTarget => SessionModel {
                state: next,
                client_to_target: DirectionModel { done: true, ..m.client_to_target },
                ..m
            },
            Direction::TargetToClient => SessionModel {
                state: next,
                target_to_client: DirectionModel { done: true, ..m.target_to_client },
                ..m
            },
        }
    }
}

/// One relay session: the pairing of one inbound and one outbound connection
/// for the lifetime of one forwarded client connection. The session owns its
/// two streams exclusively; no state is shared across sessions.
pub struct RelaySession {
    pub state: SessionState,
    pub client_to_target_done: bool,
    pub target_to_client_done: bool,
    pub relayed_client_to_target: Ghost<Seq<u8>>,
    pub relayed_target_to_client: Ghost<Seq<u8>>,
}

impl RelaySession {
    /// The mathematical model of this session.
    pub open spec fn model(self) -> SessionModel {
        SessionModel {
            state: self.state,
            client_to_target: DirectionModel {
                done: self.client_to_target_done,
                relayed: self.relayed_client_to_target@,
            },
            target_to_client: DirectionModel {
                done: self.target_to_client_done,
                relayed: self.relayed_target_to_client@,
            },
        }
    }

    /// A fresh session for a newly accepted inbound connection; the next
    /// step is dialing the target.
    pub fn new() -> (s: RelaySession)
        ensures
            s.model() == SessionModel::init(),
            s.model().wf(),
    {
        let s = RelaySession {
            state: SessionState::Dialing,
            client_to_target_done: false,
            target_to_client_done: false,
            relayed_client_to_target: Ghost(Seq::empty()),
            relayed_target_to_client: Ghost(Seq::empty()),
        };
        proof {
            assert(s.model() =~= SessionModel::init());
        }
        s
    }

    /// Records that the outbound dial succeeded; the session starts relaying.
    pub fn on_dial_success(&mut self)
        requires
            old(self).state is Dialing,
            old(self).model().wf(),
        ensures
            final(self).model() == SessionModel::dial_ok(old(self).model()),
            final(self).model().wf(),
    {
        self.state = SessionState::Relaying;
        proof {
            assert(self.model() =~= SessionModel::dial_ok(old(self).model()));
        }
    }

    /// Records that the outbound dial failed and aborts the session: the
    /// inbound connection is dropped, nothing was or will be relayed, and
    /// the error stays local to this session.
    pub fn on_dial_failure(&mut self, message: String) -> (e: CliErrors)
        requires
            old(self).state is Dialing,
            old(self).model().wf(),
        ensures
            final(self).model() == SessionModel::dial_failed(old(self).model()),
            final(self).model().wf(),
            final(self).model().client_to_target.relayed == Seq::<u8>::empty(),
            final(self).model().target_to_client.relayed == Seq::<u8>::empty(),
            e == CliErrors::Tokio(TokioErrors::Error(message)),
    {
        self.state = SessionState::Failed;
        proof {
            assert(self.model() =~= SessionModel::dial_failed(old(self).model()));
        }
        CliErrors::Tokio(TokioErrors::Error(message))
    }

    /// Relays one chunk of bytes in direction `d`: the chunk is handed back
    /// unchanged for the caller to write to the destination, and is appended
    /// to that direction's stream; the opposite direction is untouched.
    pub fn relay_chunk(&mut self, d: Direction, chunk: Vec<u8>) -> (out: Vec<u8>)
        requires
            old(self).state is Relaying,
            !old(self).model().dir(d).done,
            old(self).model().wf(),
        ensures
            out@ == chunk@,
            final(self).model() == SessionModel::after_chunk(old(self).model(), d, chunk@),
            final(self).model().wf(),
    {
        match d {
            Direction::ClientToTarget => {
                self.relayed_client_to_target = Ghost(self.relayed_client_to_target@ + chunk@);
            }
            Direction::TargetToClient => {
                self.relayed_target_to_client = Ghost(self.relayed_target_to_client@ + chunk@);
            }
        }
        proof {
            assert(self.model() =~= SessionModel::after_chunk(old(self).model(), d, chunk@));
        }
        chunk
    }

    /// Records that direction `d`'s source finished (end of stream, or a
    /// copy error degraded to a drop). Under the full-drain policy the
    /// session is complete exactly when both directions have finished.
    pub fn on_source_closed(&mut self, d: Direction)
        requires
            old(self).state is Relaying,
            !old(self).model().dir(d).done,
            old(self).model().wf(),
        ensures
            final(self).model() == SessionModel::after_close(old(self).model(), d),
            final(self).model().wf(),
            final(self).state is Finished <==> old(self).model().dir(opposite(d)).done,
    {
        match d {
            Direction::ClientToTarget => {
                self.client_to_target_done = true;
                if self.target_to_client_done {
                    self.state = SessionState::Finished;
                }
            }
            Direction::TargetToClient => {
                self.target_to_client_done = true;
                if self.client_to_target_done {
                    self.state = SessionState::Finished;
                }
            }
        }
        proof {
            assert(self.model() =~= SessionModel::after_close(old(self).model(), d));
        }
    }

    /// Whether both directions have drained, so the session may half-close
    /// and release both connections.
    pub fn is_complete(&self) -> (r: bool)
        ensures
            r <==> self.state is Finished,
    {
        match self.state {
            SessionState::Finished => true,
            _ => false,
        }
    }

    /// Whether the session was aborted by a failed dial.
    pub fn is_failed(&self) -> (r: bool)
        ensures
            r <==> self.state is Failed,
    {
        match self.state {
            SessionState::Failed => true,
            _ => false,
        }
    }
}

/// The concatenation, in order, of a run of chunks.
pub open spec fn concat_chunks(chunks: Seq<Seq<u8>>) -> Seq<u8>
    decreases chunks.len(),
{
    if chunks.len() == 0 {
        Seq::empty()
    } else {
        concat_chunks(chunks.drop_last()) + chunks.last()
    }
}

/// The model of a session after a whole run of chunks was relayed, one after
/// the other, in direction `d`.
pub open spec fn relay_run(m: SessionModel, d: Direction, chunks: Seq<Seq<u8>>) -> SessionModel
    decreases chunks.len(),
{
    if chunks.len() == 0 {
        m
    } else {
        SessionModel::after_chunk(relay_run(m, d, chunks.drop_last()), d, chunks.last())
    }
}

/// Pass-through correctness: relaying any run of chunks in one direction
/// delivers exactly those bytes, in order, appended to that direction's
/// stream, and leaves the opposite direction completely untouched.
pub proof fn lemma_pass_through(m: SessionModel, d: Direction, chunks: Seq<Seq<u8>>)
    requires
        m.state is Relaying,
    ensures
        relay_run(m, d, chunks).dir(d).relayed == m.dir(d).relayed + concat_chunks(chunks),
        relay_run(m, d, chunks).dir(opposite(d)) == m.dir(opposite(d)),
        relay_run(m, d, chunks).dir(d).done == m.dir(d).done,
        relay_run(m, d, chunks).state is Relaying,
    decreases chunks.len(),
{
    if chunks.len() == 0 {
        assert(m.dir(d).relayed + concat_chunks(chunks) =~= m.dir(d).relayed);
    } else {
        lemma_pass_through(m, d, chunks.drop_last());
        assert(relay_run(m, d, chunks).dir(d).relayed =~= m.dir(d).relayed + concat_chunks(
            chunks,
        ));
        assert(relay_run(m, d, chunks).dir(opposite(d)) =~= m.dir(opposite(d)));
    }
}

/// Independent sessions: what each session delivers is a function of its own
/// chunks alone. Two sessions that each start with an empty stream deliver
/// exactly their own bytes — no byte of one session can appear in the other,
/// however their runs interleave.
pub proof fn lemma_sessions_independent(
    a: SessionModel,
    b: SessionModel,
    d: Direction,
    a_chunks: Seq<Seq<u8>>,
    b_chunks: Seq<Seq<u8>>,
)
    requires
        a.state is Relaying,
        b.state is Relaying,
        a.dir(d).relayed == Seq::<u8>::empty(),
        b.dir(d).relayed == Seq::<u8>::empty(),
    ensures
        relay_run(a, d, a_chunks).dir(d).relayed == concat_chunks(a_chunks),
        relay_run(b, d, b_chunks).dir(d).relayed == concat_chunks(b_chunks),
{
    lemma_pass_through(a, d, a_chunks);
    lemma_pass_through(b, d, b_chunks);
    assert(a.dir(d).relayed + concat_chunks(a_chunks) =~= concat_chunks(a_chunks));
    assert(b.dir(d).relayed + concat_chunks(b_chunks) =~= concat_chunks(b_chunks));
}

/// Half-close propagation: when one direction's source closes while the
/// opposite direction is still open, the session stays alive — it is not
/// torn down — and the opposite direction can still deliver any run of
/// bytes in full; only when both directions have finished is the session
/// complete.
pub proof fn lemma_half_close_propagation(m: SessionModel, d: Direction, chunks: Seq<Seq<u8>>)
    requires
        m.state is Relaying,
        !m.dir(opposite(d)).done,
    ensures
        SessionModel::after_close(m, d).state is Relaying,
        !(SessionModel::after_close(m, d).state is Finished),
        relay_run(SessionModel::after_close(m, d), opposite(d), chunks).dir(
            opposite(d),
        ).relayed == m.dir(opposite(d)).relayed + concat_chunks(chunks),
        SessionModel::after_close(
            SessionModel::after_close(m, d),
            opposite(d),
        ).state is Finished,
{
    let closed = SessionModel::after_close(m, d);
    lemma_pass_through(closed, opposite(d), chunks);
    assert(closed.dir(opposite(d)) =~= m.dir(opposite(d)));
}

} // verus!
