//! The responder's side of one exchange, on a connection that the transport
//! already matched to the protocol identifier: learn the peer, accept its
//! stream, read the request, answer, and wait for the peer to close before
//! counting.
//!
//! The responder accepts exactly one stream per connection; any further stream
//! the peer opens is never accepted and goes away with the connection.
use vstd::prelude::*;
use crate::error::PingError;
use crate::wire::{is_ping, ping_bytes};

verus! {

/// Where one responder exchange stands.
#[derive(Clone, Copy, Debug, PartialEq, Eq, Structural)]
pub enum ResponderState {
    /// The connection has not been looked at yet.
    Idle,
    /// Waiting for the remote peer's identity.
    Identifying,
    /// Waiting for the peer's bidirectional stream.
    AcceptingStream,
    /// Waiting for the whole request.
    Reading,
    /// Waiting for the response to be written.
    Writing,
    /// Waiting for the end of the send side to be signalled.
    Finishing,
    /// Waiting for the peer to close the connection.
    AwaitingClose,
    /// The exchange succeeded and was counted.
    Done,
    /// The exchange failed.
    Failed { error: PingError },
}

/// What the transport reported to the responder.
#[derive(Clone, Debug)]
pub enum ResponderEvent {
    /// A connection for this protocol was handed over.
    Incoming,
    Identified,
    IdentityUnavailable,
    StreamAccepted,
    StreamFailed,
    /// The receive side ended after `data`.
    Received { data: Vec<u8> },
    /// The peer sent more than a payload's length before ending the stream.
    ReadTooLong,
    ReadFailed,
    Written,
    WriteFailed,
    Finished,
    FinishFailed,
    /// The peer closed the connection.
    Closed,
}

/// What the responder asks of the transport next.
#[derive(Clone, Copy, Debug, PartialEq, Eq, Structural)]
pub enum ResponderAction {
    /// Read the remote peer's identity from the connection.
    IdentifyPeer,
    /// Accept the bidirectional stream the peer opens.
    AcceptStream,
    /// Read the receive side to its end, at most a payload's length.
    ReadRequest,
    /// Write the response payload to the send side.
    WritePong,
    /// Signal the end of the send side.
    FinishSend,
    /// Wait until the peer closes the connection.
    AwaitClose,
    /// The exchange succeeded; it has been counted.
    Complete,
    /// The exchange failed.
    Abort { error: PingError },
    /// The event does not belong to this state; nothing to do.
    Ignore,
}

/// Whether the exchange has ended, one way or the other.
pub open spec fn responder_terminal(s: ResponderState) -> bool {
    s is Done || s is Failed
}

/// One step of the responder: the next state and the action for it.
pub open spec fn responder_next(s: ResponderState, e: ResponderEvent) -> (ResponderState, ResponderAction) {
    let fail = |error: PingError| (ResponderState::Failed { error }, ResponderAction::Abort { error });
    match (s, e) {
        (ResponderState::Idle, ResponderEvent::Incoming) =>
            (ResponderState::Identifying, ResponderAction::IdentifyPeer),
        (ResponderState::Identifying, ResponderEvent::Identified) =>
            (ResponderState::AcceptingStream, ResponderAction::AcceptStream),
        (ResponderState::Identifying, ResponderEvent::IdentityUnavailable) => fail(PingError::PeerIdentity),
        (ResponderState::AcceptingStream, ResponderEvent::StreamAccepted) =>
            (ResponderState::Reading, ResponderAction::ReadRequest),
        (ResponderState::AcceptingStream, ResponderEvent::StreamFailed) => fail(PingError::Stream),
        (ResponderState::Reading, ResponderEvent::Received { data }) =>
            if data@ == ping_bytes() {
                (ResponderState::Writing, ResponderAction::WritePong)
            } else {
                fail(PingError::ProtocolViolation)
            },
        (ResponderState::Reading, ResponderEvent::ReadTooLong) => fail(PingError::ProtocolViolation),
        (ResponderState::Reading, ResponderEvent::ReadFailed) => fail(PingError::Read),
        (ResponderState::Writing, ResponderEvent::Written) =>
            (ResponderState::Finishing, ResponderAction::FinishSend),
        (ResponderState::Writing, ResponderEvent::WriteFailed) => fail(PingError::Write),
        (ResponderState::Finishing, ResponderEvent::Finished) =>
            (ResponderState::AwaitingClose, ResponderAction::AwaitClose),
        (ResponderState::Finishing, ResponderEvent::FinishFailed) => fail(PingError::Write),
        (ResponderState::AwaitingClose, ResponderEvent::Closed) =>
            (ResponderState::Done, ResponderAction::Complete),
        _ => (s, ResponderAction::Ignore),
    }
}

/// The state reached after feeding `events`, in order, from `s`.
pub open spec fn responder_after(s: ResponderState, events: Seq<ResponderEvent>) -> ResponderState
    decreases events.len(),
{
    if events.len() == 0 {
        s
    } else {
        responder_after(responder_next(s, events[0]).0, events.drop_first())
    }
}

/// How many `Complete` actions, each of which counts one received ping, the
/// responder emits while taking `events`, in order, from `s`.
pub open spec fn recv_count(s: ResponderState, events: Seq<ResponderEvent>) -> nat
    decreases events.len(),
{
    if events.len() == 0 {
        0
    } else {
        let (n, a) = responder_next(s, events[0]);
        (if a is Complete { 1nat } else { 0nat }) + recv_count(n, events.drop_first())
    }
}

/// A single step completes exactly when it enters `Done`, which only the peer's
/// close can do, and nothing leaves an ended exchange.
pub proof fn lemma_responder_step_counts(s: ResponderState, e: ResponderEvent)
    ensures
        (responder_next(s, e).1 is Complete) == (responder_next(s, e).0 is Done && !(s is Done)),
        responder_next(s, e).1 is Complete ==> s is AwaitingClose && e is Closed,
        responder_terminal(s) ==> responder_next(s, e) == (s, ResponderAction::Ignore),
{
}

/// An exchange is counted once and only once, when it succeeds: whatever the
/// events, the number of received pings counted on a fresh connection is one if
/// it ended in `Done` and zero otherwise.
pub proof fn law_recv_counted_once(events: Seq<ResponderEvent>)
    ensures
        recv_count(ResponderState::Idle, events)
            == (if responder_after(ResponderState::Idle, events) is Done { 1nat } else { 0nat }),
{
    lemma_recv_count_from(ResponderState::Idle, events);
}

proof fn lemma_recv_count_from(s: ResponderState, events: Seq<ResponderEvent>)
    ensures
        recv_count(s, events) + (if s is Done { 1nat } else { 0nat })
            == (if responder_after(s, events) is Done { 1nat } else { 0nat }),
    decreases events.len(),
{
    if events.len() > 0 {
        lemma_responder_step_counts(s, events[0]);
        lemma_recv_count_from(responder_next(s, events[0]).0, events.drop_first());
    }
}

/// An ended exchange stays as it is and counts nothing more.
pub proof fn lemma_responder_terminal_stays(s: ResponderState, events: Seq<ResponderEvent>)
    requires
        responder_terminal(s),
    ensures
        responder_after(s, events) == s,
        recv_count(s, events) == 0,
    decreases events.len(),
{
    if events.len() > 0 {
        lemma_responder_terminal_stays(s, events.drop_first());
    }
}

/// A request other than exactly `"PING"` fails the exchange with a protocol
/// violation, and no received ping is counted for it, whatever comes after.
pub proof fn law_bad_request_fails(data: Vec<u8>, rest: Seq<ResponderEvent>)
    requires
        data@ != ping_bytes(),
    ensures
        ({
            let events = seq![ResponderEvent::Received { data }] + rest;
            &&& responder_after(ResponderState::Reading, events)
                == ResponderState::Failed { error: PingError::ProtocolViolation }
            &&& recv_count(ResponderState::Reading, events) == 0
        }),
{
    let events = seq![ResponderEvent::Received { data }] + rest;
    assert(events.drop_first() =~= rest);
    lemma_responder_terminal_stays(ResponderState::Failed { error: PingError::ProtocolViolation }, rest);
}

/// The actions a responder exchange takes, in order, when all goes well.
pub open spec fn responder_script() -> Seq<ResponderAction> {
    seq![
        ResponderAction::IdentifyPeer,
        ResponderAction::AcceptStream,
        ResponderAction::ReadRequest,
        ResponderAction::WritePong,
        ResponderAction::FinishSend,
        ResponderAction::AwaitClose,
        ResponderAction::Complete,
    ]
}

/// How many actions of the script a state has taken.
pub open spec fn responder_stage(s: ResponderState) -> int {
    match s {
        ResponderState::Idle => 0,
        ResponderState::Identifying => 1,
        ResponderState::AcceptingStream => 2,
        ResponderState::Reading => 3,
        ResponderState::Writing => 4,
        ResponderState::Finishing => 5,
        ResponderState::AwaitingClose => 6,
        ResponderState::Done => 7,
        ResponderState::Failed { .. } => 0,
    }
}

/// The actions other than `Ignore` that the responder takes while taking
/// `events`, in order, from `s`.
pub open spec fn responder_actions(s: ResponderState, events: Seq<ResponderEvent>) -> Seq<ResponderAction>
    decreases events.len(),
{
    if events.len() == 0 {
        seq![]
    } else {
        let (n, a) = responder_next(s, events[0]);
        let rest = responder_actions(n, events.drop_first());
        if a is Ignore {
            rest
        } else {
            seq![a] + rest
        }
    }
}

proof fn lemma_responder_step_order(s: ResponderState, e: ResponderEvent)
    requires
        !(s is Failed),
    ensures
        ({
            let (n, a) = responder_next(s, e);
            &&& a is Ignore ==> n == s
            &&& !(a is Ignore) && !(n is Failed) ==> responder_stage(n) == responder_stage(s) + 1
                && 0 <= responder_stage(s) < 7 && a == responder_script()[responder_stage(s)]
        }),
{
}

proof fn lemma_responder_order_from(s: ResponderState, events: Seq<ResponderEvent>)
    requires
        !(s is Failed),
        responder_after(s, events) is Done,
    ensures
        responder_actions(s, events) == responder_script().subrange(responder_stage(s), 7),
    decreases events.len(),
{
    if events.len() == 0 {
        assert(responder_script().subrange(7, 7) =~= Seq::<ResponderAction>::empty());
    } else {
        let (n, a) = responder_next(s, events[0]);
        let rest = events.drop_first();
        lemma_responder_step_order(s, events[0]);
        if n is Failed {
            lemma_responder_terminal_stays(n, rest);
        } else {
            lemma_responder_order_from(n, rest);
            if !(a is Ignore) {
                let k = responder_stage(s);
                assert(seq![a] + responder_script().subrange(k + 1, 7)
                    =~= responder_script().subrange(k, 7));
            }
        }
    }
}

/// The order of a successful exchange is fixed: the responder learns the peer,
/// accepts its stream, reads the request, writes the response, ends its send
/// side, waits for the peer's close, and only then counts, whatever events
/// it ignored in between.
pub proof fn law_responder_order(events: Seq<ResponderEvent>)
    requires
        responder_after(ResponderState::Idle, events) is Done,
    ensures
        responder_actions(ResponderState::Idle, events) == responder_script(),
{
    lemma_responder_order_from(ResponderState::Idle, events);
    assert(responder_script().subrange(0, 7) =~= responder_script());
}

impl ResponderState {
    /// The state of a connection that has just been handed over.
    pub fn new() -> (r: ResponderState)
        ensures
            r == ResponderState::Idle,
    {
        ResponderState::Idle
    }

    /// Takes one event: returns the next state and the action to perform.
    pub fn step(self, e: &ResponderEvent) -> (r: (ResponderState, ResponderAction))
        ensures
            r == responder_next(self, *e),
    {
        match (self, e) {
            (ResponderState::Idle, ResponderEvent::Incoming) =>
                (ResponderState::Identifying, ResponderAction::IdentifyPeer),
            (ResponderState::Identifying, ResponderEvent::Identified) =>
                (ResponderState::AcceptingStream, ResponderAction::AcceptStream),
            (ResponderState::Identifying, ResponderEvent::IdentityUnavailable) =>
                fail(PingError::PeerIdentity),
            (ResponderState::AcceptingStream, ResponderEvent::StreamAccepted) =>
                (ResponderState::Reading, ResponderAction::ReadRequest),
            (ResponderState::AcceptingStream, ResponderEvent::StreamFailed) =>
                fail(PingError::Stream),
            (ResponderState::Reading, ResponderEvent::Received { data }) =>
                if is_ping(data.as_slice()) {
                    (ResponderState::Writing, ResponderAction::WritePong)
                } else {
                    fail(PingError::ProtocolViolation)
                },
            (ResponderState::Reading, ResponderEvent::ReadTooLong) =>
                fail(PingError::ProtocolViolation),
            (ResponderState::Reading, ResponderEvent::ReadFailed) => fail(PingError::Read),
            (ResponderState::Writing, ResponderEvent::Written) =>
                (ResponderState::Finishing, ResponderAction::FinishSend),
            (ResponderState::Writing, ResponderEvent::WriteFailed) => fail(PingError::Write),
            (ResponderState::Finishing, ResponderEvent::Finished) =>
                (ResponderState::AwaitingClose, ResponderAction::AwaitClose),
            (ResponderState::Finishing, ResponderEvent::FinishFailed) => fail(PingError::Write),
            (ResponderState::AwaitingClose, ResponderEvent::Closed) =>
                (ResponderState::Done, ResponderAction::Complete),
            _ => (self, ResponderAction::Ignore),
        }
    }
}

fn fail(error: PingError) -> (r: (ResponderState, ResponderAction))
    ensures
        r == (ResponderState::Failed { error }, ResponderAction::Abort { error }),
{
    (ResponderState::Failed { error }, ResponderAction::Abort { error })
}

} // verus!
