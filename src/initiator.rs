//! The initiator's side of one exchange: connect, open a stream, send the
//! request, read the response, close, drain, and count.
use vstd::prelude::*;
use crate::error::PingError;
use crate::wire::{is_pong, pong_bytes};

verus! {

/// Nanoseconds in a millisecond.
pub const NANOS_PER_MILLI: u64 = 1_000_000;

/// Whole milliseconds from `start_ns` to `now_ns`, rounded down; zero if the
/// clock reads earlier than the start.
pub open spec fn elapsed_ms(start_ns: u64, now_ns: u64) -> u64 {
    if now_ns >= start_ns {
        ((now_ns - start_ns) / (NANOS_PER_MILLI as int)) as u64
    } else {
        0
    }
}

fn elapsed_millis(start_ns: u64, now_ns: u64) -> (r: u64)
    ensures
        r == elapsed_ms(start_ns, now_ns),
{
    if now_ns >= start_ns {
        (now_ns - start_ns) / NANOS_PER_MILLI
    } else {
        0
    }
}

/// Where one initiator exchange stands. Times are read from a monotonic clock,
/// in nanoseconds.
#[derive(Clone, Copy, Debug, PartialEq, Eq, Structural)]
pub enum InitiatorState {
    /// Nothing has happened yet.
    Idle,
    /// Waiting for the connection to the target.
    Connecting { start_ns: u64 },
    /// Waiting for a bidirectional stream on the connection.
    OpeningStream { start_ns: u64 },
    /// Waiting for the request to be written.
    Writing { start_ns: u64 },
    /// Waiting for the end of the send side to be signalled.
    Finishing { start_ns: u64 },
    /// Waiting for the whole response.
    Reading { start_ns: u64 },
    /// The response arrived; the connection is to be closed.
    Closing { rtt_ms: u64 },
    /// The close is queued; the endpoint is to be drained.
    Draining { rtt_ms: u64 },
    /// The exchange succeeded and was counted.
    Done { rtt_ms: u64 },
    /// The exchange failed.
    Failed { error: PingError },
}

/// What the transport reported to the initiator.
#[derive(Clone, Debug)]
pub enum InitiatorEvent {
    /// The exchange starts; the clock reads `now_ns`.
    Begin { now_ns: u64 },
    Connected,
    ConnectFailed,
    StreamOpened,
    StreamFailed,
    Written,
    WriteFailed,
    Finished,
    FinishFailed,
    /// The receive side ended after `data`; the clock reads `now_ns`.
    Received { data: Vec<u8>, now_ns: u64 },
    /// The peer sent more than a payload's length before ending the stream.
    ReadTooLong,
    ReadFailed,
    /// The close of the connection is queued.
    CloseQueued,
    /// The endpoint sent out everything it had queued.
    Drained,
}

/// What the initiator asks of the transport next.
#[derive(Clone, Copy, Debug, PartialEq, Eq, Structural)]
pub enum InitiatorAction {
    /// Connect to the target, presenting the protocol identifier.
    Connect,
    /// Open a bidirectional stream on the connection.
    OpenStream,
    /// Write the request payload to the send side.
    WritePing,
    /// Signal the end of the send side.
    FinishSend,
    /// Read the receive side to its end, at most a payload's length.
    ReadResponse,
    /// Close the connection with the close code and reason.
    CloseConnection,
    /// Wait until the endpoint has sent out its queued messages.
    DrainEndpoint,
    /// The exchange succeeded after `rtt_ms`; it has been counted.
    Complete { rtt_ms: u64 },
    /// The exchange failed.
    Abort { error: PingError },
    /// The event does not belong to this state; nothing to do.
    Ignore,
}

/// Whether the exchange has ended, one way or the other.
pub open spec fn initiator_terminal(s: InitiatorState) -> bool {
    s is Done || s is Failed
}

/// One step of the initiator: the next state and the action for it.
pub open spec fn initiator_next(s: InitiatorState, e: InitiatorEvent) -> (InitiatorState, InitiatorAction) {
    let fail = |error: PingError| (InitiatorState::Failed { error }, InitiatorAction::Abort { error });
    match (s, e) {
        (InitiatorState::Idle, InitiatorEvent::Begin { now_ns }) =>
            (InitiatorState::Connecting { start_ns: now_ns }, InitiatorAction::Connect),
        (InitiatorState::Connecting { start_ns }, InitiatorEvent::Connected) =>
            (InitiatorState::OpeningStream { start_ns }, InitiatorAction::OpenStream),
        (InitiatorState::Connecting { .. }, InitiatorEvent::ConnectFailed) => fail(PingError::Connection),
        (InitiatorState::OpeningStream { start_ns }, InitiatorEvent::StreamOpened) =>
            (InitiatorState::Writing { start_ns }, InitiatorAction::WritePing),
        (InitiatorState::OpeningStream { .. }, InitiatorEvent::StreamFailed) => fail(PingError::Stream),
        (InitiatorState::Writing { start_ns }, InitiatorEvent::Written) =>
            (InitiatorState::Finishing { start_ns }, InitiatorAction::FinishSend),
        (InitiatorState::Writing { .. }, InitiatorEvent::WriteFailed) => fail(PingError::Write),
        (InitiatorState::Finishing { start_ns }, InitiatorEvent::Finished) =>
            (InitiatorState::Reading { start_ns }, InitiatorAction::ReadResponse),
        (InitiatorState::Finishing { .. }, InitiatorEvent::FinishFailed) => fail(PingError::Write),
        (InitiatorState::Reading { start_ns }, InitiatorEvent::Received { data, now_ns }) =>
            if data@ == pong_bytes() {
                (
                    InitiatorState::Closing { rtt_ms: elapsed_ms(start_ns, now_ns) },
                    InitiatorAction::CloseConnection,
                )
            } else {
                fail(PingError::ProtocolViolation)
            },
        (InitiatorState::Reading { .. }, InitiatorEvent::ReadTooLong) => fail(PingError::ProtocolViolation),
        (InitiatorState::Reading { .. }, InitiatorEvent::ReadFailed) => fail(PingError::Read),
        (InitiatorState::Closing { rtt_ms }, InitiatorEvent::CloseQueued) =>
            (InitiatorState::Draining { rtt_ms }, InitiatorAction::DrainEndpoint),
        (InitiatorState::Draining { rtt_ms }, InitiatorEvent::Drained) =>
            (InitiatorState::Done { rtt_ms }, InitiatorAction::Complete { rtt_ms }),
        _ => (s, InitiatorAction::Ignore),
    }
}

/// The state reached after feeding `events`, in order, from `s`.
pub open spec fn initiator_after(s: InitiatorState, events: Seq<InitiatorEvent>) -> InitiatorState
    decreases events.len(),
{
    if events.len() == 0 {
        s
    } else {
        initiator_after(initiator_next(s, events[0]).0, events.drop_first())
    }
}

/// How many `Complete` actions, each of which counts one sent ping, the
/// initiator emits while taking `events`, in order, from `s`.
pub open spec fn sent_count(s: InitiatorState, events: Seq<InitiatorEvent>) -> nat
    decreases events.len(),
{
    if events.len() == 0 {
        0
    } else {
        let (n, a) = initiator_next(s, events[0]);
        (if a is Complete { 1nat } else { 0nat }) + sent_count(n, events.drop_first())
    }
}

/// A single step completes exactly when it enters `Done`, and nothing leaves an
/// ended exchange.
pub proof fn lemma_initiator_step_counts(s: InitiatorState, e: InitiatorEvent)
    ensures
        (initiator_next(s, e).1 is Complete) == (initiator_next(s, e).0 is Done && !(s is Done)),
        initiator_terminal(s) ==> initiator_next(s, e) == (s, InitiatorAction::Ignore),
{
}

/// An exchange is counted once and only once, when it succeeds: whatever the
/// events, the number of sent pings counted from a fresh exchange is one if it
/// ended in `Done` and zero otherwise.
pub proof fn law_sent_counted_once(events: Seq<InitiatorEvent>)
    ensures
        sent_count(InitiatorState::Idle, events)
            == (if initiator_after(InitiatorState::Idle, events) is Done { 1nat } else { 0nat }),
{
    lemma_sent_count_from(InitiatorState::Idle, events);
}

proof fn lemma_sent_count_from(s: InitiatorState, events: Seq<InitiatorEvent>)
    ensures
        sent_count(s, events) + (if s is Done { 1nat } else { 0nat })
            == (if initiator_after(s, events) is Done { 1nat } else { 0nat }),
    decreases events.len(),
{
    if events.len() > 0 {
        lemma_initiator_step_counts(s, events[0]);
        lemma_sent_count_from(initiator_next(s, events[0]).0, events.drop_first());
    }
}

/// An ended exchange stays as it is and counts nothing more.
pub proof fn lemma_initiator_terminal_stays(s: InitiatorState, events: Seq<InitiatorEvent>)
    requires
        initiator_terminal(s),
    ensures
        initiator_after(s, events) == s,
        sent_count(s, events) == 0,
    decreases events.len(),
{
    if events.len() > 0 {
        lemma_initiator_terminal_stays(s, events.drop_first());
    }
}

/// A response other than exactly `"PONG"` fails the exchange with a protocol
/// violation, and no sent ping is counted for it, whatever comes after.
pub proof fn law_bad_response_fails(
    start_ns: u64,
    data: Vec<u8>,
    now_ns: u64,
    rest: Seq<InitiatorEvent>,
)
    requires
        data@ != pong_bytes(),
    ensures
        ({
            let events = seq![InitiatorEvent::Received { data, now_ns }] + rest;
            &&& initiator_after(InitiatorState::Reading { start_ns }, events)
                == InitiatorState::Failed { error: PingError::ProtocolViolation }
            &&& sent_count(InitiatorState::Reading { start_ns }, events) == 0
        }),
{
    let events = seq![InitiatorEvent::Received { data, now_ns }] + rest;
    let failed = InitiatorState::Failed { error: PingError::ProtocolViolation };
    assert(events.drop_first() =~= rest);
    lemma_initiator_terminal_stays(failed, rest);
}

/// The round trip reported for a good response is the time from the start of
/// the exchange to its arrival, in whole milliseconds rounded down; it is never
/// less than a delay that passed in between, and a later arrival never reports
/// less.
pub proof fn law_round_trip_reflects_elapsed(
    start_ns: u64,
    data: Vec<u8>,
    now_ns: u64,
    later_ns: u64,
    delay_ms: u64,
)
    requires
        data@ == pong_bytes(),
        now_ns <= later_ns,
    ensures
        initiator_next(InitiatorState::Reading { start_ns }, InitiatorEvent::Received { data, now_ns })
            == (InitiatorState::Closing { rtt_ms: elapsed_ms(start_ns, now_ns) },
            InitiatorAction::CloseConnection),
        start_ns <= now_ns ==> elapsed_ms(start_ns, now_ns) * NANOS_PER_MILLI <= now_ns - start_ns,
        start_ns + delay_ms * NANOS_PER_MILLI <= now_ns ==> elapsed_ms(start_ns, now_ns) >= delay_ms,
        elapsed_ms(start_ns, now_ns) <= elapsed_ms(start_ns, later_ns),
{
    if start_ns <= now_ns {
        let d = (now_ns - start_ns) as int;
        let d2 = (later_ns - start_ns) as int;
        let m = NANOS_PER_MILLI as int;
        assert((d / m) * m <= d) by (nonlinear_arith)
            requires m > 0, d >= 0;
        assert(d / m <= d2 / m) by (nonlinear_arith)
            requires m > 0, 0 <= d <= d2;
        if start_ns + delay_ms * NANOS_PER_MILLI <= now_ns {
            let k = delay_ms as int;
            assert(k * m <= d);
            assert(d / m >= k) by (nonlinear_arith)
                requires m > 0, k * m <= d, k >= 0;
        }
    }
}

/// The actions an initiator exchange takes, in order, when all goes well and
/// the round trip is `rtt_ms`.
pub open spec fn initiator_script(rtt_ms: u64) -> Seq<InitiatorAction> {
    seq![
        InitiatorAction::Connect,
        InitiatorAction::OpenStream,
        InitiatorAction::WritePing,
        InitiatorAction::FinishSend,
        InitiatorAction::ReadResponse,
        InitiatorAction::CloseConnection,
        InitiatorAction::DrainEndpoint,
        InitiatorAction::Complete { rtt_ms },
    ]
}

/// How many actions of the script a state has taken.
pub open spec fn initiator_stage(s: InitiatorState) -> int {
    match s {
        InitiatorState::Idle => 0,
        InitiatorState::Connecting { .. } => 1,
        InitiatorState::OpeningStream { .. } => 2,
        InitiatorState::Writing { .. } => 3,
        InitiatorState::Finishing { .. } => 4,
        InitiatorState::Reading { .. } => 5,
        InitiatorState::Closing { .. } => 6,
        InitiatorState::Draining { .. } => 7,
        InitiatorState::Done { .. } => 8,
        InitiatorState::Failed { .. } => 0,
    }
}

/// The round trip a state carries, once the response is in.
pub open spec fn carried_rtt(s: InitiatorState) -> u64 {
    match s {
        InitiatorState::Closing { rtt_ms } => rtt_ms,
        InitiatorState::Draining { rtt_ms } => rtt_ms,
        InitiatorState::Done { rtt_ms } => rtt_ms,
        _ => 0,
    }
}

/// The actions other than `Ignore` that the initiator takes while taking
/// `events`, in order, from `s`.
pub open spec fn initiator_actions(s: InitiatorState, events: Seq<InitiatorEvent>) -> Seq<InitiatorAction>
    decreases events.len(),
{
    if events.len() == 0 {
        seq![]
    } else {
        let (n, a) = initiator_next(s, events[0]);
        let rest = initiator_actions(n, events.drop_first());
        if a is Ignore {
            rest
        } else {
            seq![a] + rest
        }
    }
}

proof fn lemma_initiator_step_order(s: InitiatorState, e: InitiatorEvent)
    requires
        !(s is Failed),
    ensures
        ({
            let (n, a) = initiator_next(s, e);
            &&& a is Ignore ==> n == s
            &&& !(a is Ignore) && !(n is Failed) ==> initiator_stage(n) == initiator_stage(s) + 1
                && 0 <= initiator_stage(s) < 8
                && a == initiator_script(carried_rtt(n))[initiator_stage(s)]
                && (initiator_stage(s) >= 6 ==> carried_rtt(n) == carried_rtt(s))
        }),
{
}

proof fn lemma_initiator_order_from(s: InitiatorState, events: Seq<InitiatorEvent>)
    requires
        !(s is Failed),
        initiator_after(s, events) is Done,
    ensures
        ({
            let rtt_ms = carried_rtt(initiator_after(s, events));
            &&& initiator_actions(s, events) == initiator_script(rtt_ms).subrange(initiator_stage(s), 8)
            &&& initiator_stage(s) >= 6 ==> carried_rtt(s) == rtt_ms
        }),
    decreases events.len(),
{
    if events.len() == 0 {
        assert(initiator_script(carried_rtt(s)).subrange(8, 8) =~= Seq::<InitiatorAction>::empty());
    } else {
        let (n, a) = initiator_next(s, events[0]);
        let rest = events.drop_first();
        lemma_initiator_step_order(s, events[0]);
        if n is Failed {
            lemma_initiator_terminal_stays(n, rest);
        } else {
            lemma_initiator_order_from(n, rest);
            if !(a is Ignore) {
                let k = initiator_stage(s);
                let script = initiator_script(carried_rtt(initiator_after(s, events)));
                assert(initiator_script(carried_rtt(n))[k] == script[k]);
                assert(seq![a] + script.subrange(k + 1, 8) =~= script.subrange(k, 8));
            }
        }
    }
}

/// The order of a successful exchange is fixed: the initiator connects, opens
/// a stream, writes the request, ends its send side, reads the response,
/// closes the connection, drains the endpoint, and only then counts and reports
/// the round trip it ended with, whatever events it ignored in between.
pub proof fn law_initiator_order(events: Seq<InitiatorEvent>)
    requires
        initiator_after(InitiatorState::Idle, events) is Done,
    ensures
        initiator_actions(InitiatorState::Idle, events)
            == initiator_script(carried_rtt(initiator_after(InitiatorState::Idle, events))),
{
    lemma_initiator_order_from(InitiatorState::Idle, events);
    let script = initiator_script(carried_rtt(initiator_after(InitiatorState::Idle, events)));
    assert(script.subrange(0, 8) =~= script);
}

impl InitiatorState {
    /// The state before the exchange starts.
    pub fn new() -> (r: InitiatorState)
        ensures
            r == InitiatorState::Idle,
    {
        InitiatorState::Idle
    }

    /// Takes one event: returns the next state and the action to perform.
    pub fn step(self, e: &InitiatorEvent) -> (r: (InitiatorState, InitiatorAction))
        ensures
            r == initiator_next(self, *e),
    {
        match (self, e) {
            (InitiatorState::Idle, InitiatorEvent::Begin { now_ns }) =>
                (InitiatorState::Connecting { start_ns: *now_ns }, InitiatorAction::Connect),
            (InitiatorState::Connecting { start_ns }, InitiatorEvent::Connected) =>
                (InitiatorState::OpeningStream { start_ns }, InitiatorAction::OpenStream),
            (InitiatorState::Connecting { .. }, InitiatorEvent::ConnectFailed) =>
                fail(PingError::Connection),
            (InitiatorState::OpeningStream { start_ns }, InitiatorEvent::StreamOpened) =>
                (InitiatorState::Writing { start_ns }, InitiatorAction::WritePing),
            (InitiatorState::OpeningStream { .. }, InitiatorEvent::StreamFailed) =>
                fail(PingError::Stream),
            (InitiatorState::Writing { start_ns }, InitiatorEvent::Written) =>
                (InitiatorState::Finishing { start_ns }, InitiatorAction::FinishSend),
            (InitiatorState::Writing { .. }, InitiatorEvent::WriteFailed) => fail(PingError::Write),
            (InitiatorState::Finishing { start_ns }, InitiatorEvent::Finished) =>
                (InitiatorState::Reading { start_ns }, InitiatorAction::ReadResponse),
            (InitiatorState::Finishing { .. }, InitiatorEvent::FinishFailed) =>
                fail(PingError::Write),
            (InitiatorState::Reading { start_ns }, InitiatorEvent::Received { data, now_ns }) =>
                if is_pong(data.as_slice()) {
                    (
                        InitiatorState::Closing { rtt_ms: elapsed_millis(start_ns, *now_ns) },
                        InitiatorAction::CloseConnection,
                    )
                } else {
                    fail(PingError::ProtocolViolation)
                },
            (InitiatorState::Reading { .. }, InitiatorEvent::ReadTooLong) =>
                fail(PingError::ProtocolViolation),
            (InitiatorState::Reading { .. }, InitiatorEvent::ReadFailed) => fail(PingError::Read),
            (InitiatorState::Closing { rtt_ms }, InitiatorEvent::CloseQueued) =>
                (InitiatorState::Draining { rtt_ms }, InitiatorAction::DrainEndpoint),
            (InitiatorState::Draining { rtt_ms }, InitiatorEvent::Drained) =>
                (InitiatorState::Done { rtt_ms }, InitiatorAction::Complete { rtt_ms }),
            _ => (self, InitiatorAction::Ignore),
        }
    }
}

fn fail(error: PingError) -> (r: (InitiatorState, InitiatorAction))
    ensures
        r == (InitiatorState::Failed { error }, InitiatorAction::Abort { error }),
{
    (InitiatorState::Failed { error }, InitiatorAction::Abort { error })
}

} // verus!
