use iroh_ping::initiator::{InitiatorAction, InitiatorEvent, InitiatorState};
use iroh_ping::responder::{ResponderAction, ResponderEvent, ResponderState};
use iroh_ping::wire::{close_reason, is_ping, is_pong, ping_payload, pong_payload, CLOSE_CODE};
use iroh_ping::{Ping, PingError, ALPN};

const MS: u64 = 1_000_000;

fn sent(p: &Ping) -> u64 {
    p.metrics().pings_sent.get()
}

fn recv(p: &Ping) -> u64 {
    p.metrics().pings_recv.get()
}

/// Runs one initiator exchange in which every transport call succeeds, the
/// response is `response`, the clock reads `start_ns` at the start and
/// `read_ns` when the response is in. Returns the actions taken.
fn run_initiator(p: &Ping, start_ns: u64, response: &[u8], read_ns: u64) -> (InitiatorState, Vec<InitiatorAction>) {
    let mut s = InitiatorState::new();
    let mut actions = Vec::new();
    let events = vec![
        InitiatorEvent::Begin { now_ns: start_ns },
        InitiatorEvent::Connected,
        InitiatorEvent::StreamOpened,
        InitiatorEvent::Written,
        InitiatorEvent::Finished,
        InitiatorEvent::Received { data: response.to_vec(), now_ns: read_ns },
        InitiatorEvent::CloseQueued,
        InitiatorEvent::Drained,
    ];
    for e in events.iter() {
        let a = p.ping_step(&mut s, e);
        actions.push(a);
        if matches!(a, InitiatorAction::Abort { .. }) {
            break;
        }
    }
    (s, actions)
}

fn run_responder(p: &Ping, request: &[u8]) -> (ResponderState, Vec<ResponderAction>) {
    let mut s = ResponderState::new();
    let mut actions = Vec::new();
    let events = vec![
        ResponderEvent::Incoming,
        ResponderEvent::Identified,
        ResponderEvent::StreamAccepted,
        ResponderEvent::Received { data: request.to_vec() },
        ResponderEvent::Written,
        ResponderEvent::Finished,
        ResponderEvent::Closed,
    ];
    for e in events.iter() {
        let a = p.accept_step(&mut s, e);
        actions.push(a);
        if matches!(a, ResponderAction::Abort { .. }) {
            break;
        }
    }
    (s, actions)
}

#[test]
fn wire_constants() {
    assert_eq!(ALPN.as_bytes(), b"iroh/ping/0");
    assert_eq!(ping_payload(), b"PING".to_vec());
    assert_eq!(pong_payload(), b"PONG".to_vec());
    assert_eq!(close_reason(), b"bye!".to_vec());
    assert_eq!(CLOSE_CODE, 0);
}

#[test]
fn payload_checks() {
    assert!(is_ping(b"PING"));
    assert!(!is_ping(b"PONG"));
    assert!(!is_ping(b"PIN"));
    assert!(!is_ping(b"PINGG"));
    assert!(!is_ping(b""));
    assert!(!is_ping(b"ping"));
    assert!(is_pong(b"PONG"));
    assert!(!is_pong(b"PING"));
    assert!(!is_pong(b"PONGPONG"));
    assert!(!is_pong(b""));
}

#[test]
fn fresh_instance_counts_nothing() {
    let p = Ping::new();
    assert_eq!(sent(&p), 0);
    assert_eq!(recv(&p), 0);
    let d = Ping::default();
    assert_eq!(sent(&d), 0);
    assert_eq!(recv(&d), 0);
}

#[test]
fn initiator_success_sequence() {
    let p = Ping::new();
    let (s, actions) = run_initiator(&p, 5 * MS, b"PONG", 47 * MS + 999_999);
    assert_eq!(
        actions,
        vec![
            InitiatorAction::Connect,
            InitiatorAction::OpenStream,
            InitiatorAction::WritePing,
            InitiatorAction::FinishSend,
            InitiatorAction::ReadResponse,
            InitiatorAction::CloseConnection,
            InitiatorAction::DrainEndpoint,
            InitiatorAction::Complete { rtt_ms: 42 },
        ]
    );
    assert_eq!(s, InitiatorState::Done { rtt_ms: 42 });
    assert_eq!(sent(&p), 1);
    assert_eq!(recv(&p), 0);
}

#[test]
fn initiator_counts_after_drain_only() {
    let p = Ping::new();
    let mut s = InitiatorState::Reading { start_ns: 0 };
    let a = p.ping_step(&mut s, &InitiatorEvent::Received { data: b"PONG".to_vec(), now_ns: 3 * MS });
    assert_eq!(a, InitiatorAction::CloseConnection);
    assert_eq!(s, InitiatorState::Closing { rtt_ms: 3 });
    assert_eq!(sent(&p), 0);
    assert_eq!(p.ping_step(&mut s, &InitiatorEvent::CloseQueued), InitiatorAction::DrainEndpoint);
    assert_eq!(sent(&p), 0);
    assert_eq!(p.ping_step(&mut s, &InitiatorEvent::Drained), InitiatorAction::Complete { rtt_ms: 3 });
    assert_eq!(sent(&p), 1);
}

#[test]
fn bad_response_is_protocol_violation() {
    for bad in [&b"PING"[..], b"PON", b"", b"pong", b"XXXX"] {
        let p = Ping::new();
        let (s, actions) = run_initiator(&p, 0, bad, MS);
        assert_eq!(s, InitiatorState::Failed { error: PingError::ProtocolViolation });
        assert_eq!(
            actions.last(),
            Some(&InitiatorAction::Abort { error: PingError::ProtocolViolation })
        );
        assert_eq!(sent(&p), 0);
    }
}

#[test]
fn too_long_response_is_protocol_violation() {
    let p = Ping::new();
    let mut s = InitiatorState::Reading { start_ns: 0 };
    let a = p.ping_step(&mut s, &InitiatorEvent::ReadTooLong);
    assert_eq!(a, InitiatorAction::Abort { error: PingError::ProtocolViolation });
    assert_eq!(sent(&p), 0);
}

#[test]
fn initiator_error_kinds() {
    let cases = vec![
        (InitiatorState::Connecting { start_ns: 0 }, InitiatorEvent::ConnectFailed, PingError::Connection),
        (InitiatorState::OpeningStream { start_ns: 0 }, InitiatorEvent::StreamFailed, PingError::Stream),
        (InitiatorState::Writing { start_ns: 0 }, InitiatorEvent::WriteFailed, PingError::Write),
        (InitiatorState::Finishing { start_ns: 0 }, InitiatorEvent::FinishFailed, PingError::Write),
        (InitiatorState::Reading { start_ns: 0 }, InitiatorEvent::ReadFailed, PingError::Read),
    ];
    for (start, event, error) in cases {
        let p = Ping::new();
        let mut s = start;
        assert_eq!(p.ping_step(&mut s, &event), InitiatorAction::Abort { error });
        assert_eq!(s, InitiatorState::Failed { error });
        // An ended exchange ignores whatever comes next.
        assert_eq!(p.ping_step(&mut s, &InitiatorEvent::Drained), InitiatorAction::Ignore);
        assert_eq!(s, InitiatorState::Failed { error });
        assert_eq!(sent(&p), 0);
    }
}

#[test]
fn initiator_ignores_out_of_order_events() {
    let p = Ping::new();
    let mut s = InitiatorState::new();
    assert_eq!(p.ping_step(&mut s, &InitiatorEvent::Drained), InitiatorAction::Ignore);
    assert_eq!(s, InitiatorState::Idle);
    let mut s = InitiatorState::Connecting { start_ns: 7 };
    assert_eq!(p.ping_step(&mut s, &InitiatorEvent::Written), InitiatorAction::Ignore);
    assert_eq!(s, InitiatorState::Connecting { start_ns: 7 });
    let mut s = InitiatorState::Done { rtt_ms: 4 };
    assert_eq!(p.ping_step(&mut s, &InitiatorEvent::Drained), InitiatorAction::Ignore);
    assert_eq!(s, InitiatorState::Done { rtt_ms: 4 });
    assert_eq!(sent(&p), 0);
}

#[test]
fn partition_during_read_fails_uncounted() {
    let p = Ping::new();
    let mut s = InitiatorState::new();
    for e in [
        InitiatorEvent::Begin { now_ns: 0 },
        InitiatorEvent::Connected,
        InitiatorEvent::StreamOpened,
        InitiatorEvent::Written,
        InitiatorEvent::Finished,
    ] {
        p.ping_step(&mut s, &e);
    }
    assert_eq!(p.ping_step(&mut s, &InitiatorEvent::ReadFailed), InitiatorAction::Abort { error: PingError::Read });
    assert_eq!(sent(&p), 0);
}

#[test]
fn round_trip_tracks_delay() {
    let p = Ping::new();
    let mut previous = 0;
    for delay_ms in [0u64, 1, 10, 250, 1000] {
        let (s, _) = run_initiator(&p, 1_000 * MS, b"PONG", 1_000 * MS + delay_ms * MS + 500);
        let rtt = match s {
            InitiatorState::Done { rtt_ms } => rtt_ms,
            other => panic!("unexpected state {:?}", other),
        };
        assert_eq!(rtt, delay_ms);
        assert!(rtt >= previous);
        previous = rtt;
    }
    assert_eq!(sent(&p), 5);
}

#[test]
fn round_trip_rounds_down() {
    let p = Ping::new();
    let (s, _) = run_initiator(&p, 0, b"PONG", MS - 1);
    assert_eq!(s, InitiatorState::Done { rtt_ms: 0 });
    let (s, _) = run_initiator(&p, 100, b"PONG", 2 * MS + 100);
    assert_eq!(s, InitiatorState::Done { rtt_ms: 2 });
    // A clock that reads earlier than the start reports no time.
    let (s, _) = run_initiator(&p, 5 * MS, b"PONG", MS);
    assert_eq!(s, InitiatorState::Done { rtt_ms: 0 });
}

#[test]
fn responder_success_sequence() {
    let p = Ping::new();
    let (s, actions) = run_responder(&p, b"PING");
    assert_eq!(
        actions,
        vec![
            ResponderAction::IdentifyPeer,
            ResponderAction::AcceptStream,
            ResponderAction::ReadRequest,
            ResponderAction::WritePong,
            ResponderAction::FinishSend,
            ResponderAction::AwaitClose,
            ResponderAction::Complete,
        ]
    );
    assert_eq!(s, ResponderState::Done);
    assert_eq!(recv(&p), 1);
    assert_eq!(sent(&p), 0);
}

#[test]
fn responder_counts_only_after_close() {
    let p = Ping::new();
    let mut s = ResponderState::Reading;
    assert_eq!(p.accept_step(&mut s, &ResponderEvent::Received { data: b"PING".to_vec() }), ResponderAction::WritePong);
    assert_eq!(p.accept_step(&mut s, &ResponderEvent::Written), ResponderAction::FinishSend);
    assert_eq!(p.accept_step(&mut s, &ResponderEvent::Finished), ResponderAction::AwaitClose);
    assert_eq!(recv(&p), 0);
    assert_eq!(p.accept_step(&mut s, &ResponderEvent::Closed), ResponderAction::Complete);
    assert_eq!(recv(&p), 1);
    assert_eq!(p.accept_step(&mut s, &ResponderEvent::Closed), ResponderAction::Ignore);
    assert_eq!(recv(&p), 1);
}

#[test]
fn bad_request_is_protocol_violation() {
    for bad in [&b"PONG"[..], b"PIN", b"", b"ping", b"PINGPING"] {
        let p = Ping::new();
        let (s, actions) = run_responder(&p, bad);
        assert_eq!(s, ResponderState::Failed { error: PingError::ProtocolViolation });
        assert_eq!(
            actions.last(),
            Some(&ResponderAction::Abort { error: PingError::ProtocolViolation })
        );
        assert_eq!(recv(&p), 0);
    }
}

#[test]
fn responder_error_kinds() {
    let cases = vec![
        (ResponderState::Identifying, ResponderEvent::IdentityUnavailable, PingError::PeerIdentity),
        (ResponderState::AcceptingStream, ResponderEvent::StreamFailed, PingError::Stream),
        (ResponderState::Reading, ResponderEvent::ReadFailed, PingError::Read),
        (ResponderState::Reading, ResponderEvent::ReadTooLong, PingError::ProtocolViolation),
        (ResponderState::Writing, ResponderEvent::WriteFailed, PingError::Write),
        (ResponderState::Finishing, ResponderEvent::FinishFailed, PingError::Write),
    ];
    for (start, event, error) in cases {
        let p = Ping::new();
        let mut s = start;
        assert_eq!(p.accept_step(&mut s, &event), ResponderAction::Abort { error });
        assert_eq!(s, ResponderState::Failed { error });
        assert_eq!(p.accept_step(&mut s, &ResponderEvent::Closed), ResponderAction::Ignore);
        assert_eq!(recv(&p), 0);
    }
}

#[test]
fn live_exchange_with_ten_ms_delay() {
    let p = Ping::new();
    let server = Ping::new();
    let mut client = InitiatorState::new();
    let mut handler = ResponderState::new();
    let t0 = 123 * MS;
    assert_eq!(p.ping_step(&mut client, &InitiatorEvent::Begin { now_ns: t0 }), InitiatorAction::Connect);
    p.ping_step(&mut client, &InitiatorEvent::Connected);
    server.accept_step(&mut handler, &ResponderEvent::Incoming);
    server.accept_step(&mut handler, &ResponderEvent::Identified);
    p.ping_step(&mut client, &InitiatorEvent::StreamOpened);
    server.accept_step(&mut handler, &ResponderEvent::StreamAccepted);
    p.ping_step(&mut client, &InitiatorEvent::Written);
    p.ping_step(&mut client, &InitiatorEvent::Finished);
    server.accept_step(&mut handler, &ResponderEvent::Received { data: ping_payload() });
    server.accept_step(&mut handler, &ResponderEvent::Written);
    assert_eq!(server.accept_step(&mut handler, &ResponderEvent::Finished), ResponderAction::AwaitClose);
    let read_at = t0 + 10 * MS + 37_000;
    p.ping_step(&mut client, &InitiatorEvent::Received { data: pong_payload(), now_ns: read_at });
    p.ping_step(&mut client, &InitiatorEvent::CloseQueued);
    assert_eq!(server.accept_step(&mut handler, &ResponderEvent::Closed), ResponderAction::Complete);
    let done = p.ping_step(&mut client, &InitiatorEvent::Drained);
    match done {
        InitiatorAction::Complete { rtt_ms } => assert!(rtt_ms >= 10),
        other => panic!("unexpected action {:?}", other),
    }
    assert_eq!(sent(&p), 1);
    assert_eq!(recv(&server), 1);
}

#[test]
fn many_interleaved_connections_count_exactly() {
    let server = Ping::new();
    let handle = server.clone();
    let mut sessions: Vec<ResponderState> = (0..50).map(|_| ResponderState::new()).collect();
    let events = vec![
        ResponderEvent::Incoming,
        ResponderEvent::Identified,
        ResponderEvent::StreamAccepted,
        ResponderEvent::Received { data: b"PING".to_vec() },
        ResponderEvent::Written,
        ResponderEvent::Finished,
        ResponderEvent::Closed,
    ];
    for e in events.iter() {
        for (i, s) in sessions.iter_mut().enumerate() {
            let via = if i % 2 == 0 { &server } else { &handle };
            via.accept_step(s, e);
        }
    }
    assert!(sessions.iter().all(|s| *s == ResponderState::Done));
    assert_eq!(recv(&server), 50);
    assert_eq!(recv(&handle), 50);
    assert_eq!(sent(&server), 0);
}

#[test]
fn stray_events_leave_the_order_unchanged() {
    let p = Ping::new();
    let mut s = InitiatorState::new();
    let events = vec![
        InitiatorEvent::Drained,
        InitiatorEvent::Begin { now_ns: 0 },
        InitiatorEvent::Begin { now_ns: 99 * MS },
        InitiatorEvent::Connected,
        InitiatorEvent::Received { data: b"PONG".to_vec(), now_ns: MS },
        InitiatorEvent::StreamOpened,
        InitiatorEvent::Written,
        InitiatorEvent::CloseQueued,
        InitiatorEvent::Finished,
        InitiatorEvent::Received { data: b"PONG".to_vec(), now_ns: 6 * MS },
        InitiatorEvent::Connected,
        InitiatorEvent::CloseQueued,
        InitiatorEvent::Drained,
        InitiatorEvent::Drained,
    ];
    let taken: Vec<InitiatorAction> = events
        .iter()
        .map(|e| p.ping_step(&mut s, e))
        .filter(|a| *a != InitiatorAction::Ignore)
        .collect();
    assert_eq!(
        taken,
        vec![
            InitiatorAction::Connect,
            InitiatorAction::OpenStream,
            InitiatorAction::WritePing,
            InitiatorAction::FinishSend,
            InitiatorAction::ReadResponse,
            InitiatorAction::CloseConnection,
            InitiatorAction::DrainEndpoint,
            InitiatorAction::Complete { rtt_ms: 6 },
        ]
    );
    assert_eq!(sent(&p), 1);
}
