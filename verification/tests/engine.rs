use netonet::accounting::ForwardAccounting;
use netonet::config::{header_for_mapping, Iomap};
use netonet::errors::TunnelError;
use netonet::header::{decode_header, encode_header, Ipv4, Target};
use netonet::relay::{run_relay, RelayState};
use netonet::session::{client_step, server_step, SessionAction, SessionEvent, SessionState};

fn target(a: u8, b: u8, c: u8, d: u8, port: u16) -> Target {
    Target { addr: Ipv4 { a, b, c, d }, port }
}

#[test]
fn server_session_happy_path() {
    let t = target(10, 0, 0, 1, 80);
    let s = SessionState::AwaitingHeader;
    let (s, act) = server_step(&s, &SessionEvent::HeaderBytes(encode_header(&t)));
    assert_eq!(s, SessionState::Dialing(t));
    assert_eq!(act, SessionAction::Dial);
    let (s, act) = server_step(&s, &SessionEvent::DialSucceeded);
    assert_eq!(s, SessionState::Relaying(t));
    assert_eq!(act, SessionAction::StartRelay);
    let (s, act) = server_step(&s, &SessionEvent::RelayCompleted);
    assert_eq!(s, SessionState::Closed);
    assert_eq!(act, SessionAction::Teardown);
}

#[test]
fn short_header_aborts_and_dials_nothing() {
    let s = SessionState::AwaitingHeader;
    let (s, act) = server_step(&s, &SessionEvent::HeaderBytes(vec![10, 0, 0, 1, 0]));
    assert_eq!(s, SessionState::Failed(TunnelError::HeaderDecodeFailure));
    assert_eq!(act, SessionAction::Abort);
}

#[test]
fn dial_failure_aborts_uncounted() {
    let t = target(10, 0, 0, 2, 9999);
    let s = SessionState::Dialing(t);
    let (s, act) = server_step(&s, &SessionEvent::DialFailed);
    assert_eq!(s, SessionState::Failed(TunnelError::DialFailure));
    assert_eq!(act, SessionAction::Abort);
}

#[test]
fn relay_io_error_tears_down() {
    let t = target(10, 0, 0, 1, 80);
    let (s, act) = server_step(&SessionState::Relaying(t), &SessionEvent::RelayIoError);
    assert_eq!(s, SessionState::Failed(TunnelError::RelayIoFailure));
    assert_eq!(act, SessionAction::Teardown);
}

#[test]
fn client_session_happy_path() {
    let t = target(192, 168, 0, 9, 5432);
    let s = SessionState::OpeningStream(t);
    let (s, act) = client_step(&s, &SessionEvent::StreamOpened);
    assert_eq!(s, SessionState::SendingHeader(t));
    assert_eq!(act, SessionAction::WriteHeader);
    let (s, act) = client_step(&s, &SessionEvent::HeaderWritten);
    assert_eq!(s, SessionState::Relaying(t));
    assert_eq!(act, SessionAction::StartRelay);
    let (s, act) = client_step(&s, &SessionEvent::RelayCompleted);
    assert_eq!(s, SessionState::Closed);
    assert_eq!(act, SessionAction::Teardown);
}

#[test]
fn client_stream_open_failure_aborts() {
    let t = target(192, 168, 0, 9, 5432);
    let (s, act) = client_step(&SessionState::OpeningStream(t), &SessionEvent::StreamOpenFailed);
    assert_eq!(s, SessionState::Failed(TunnelError::StreamOpenFailure));
    assert_eq!(act, SessionAction::Abort);
}

#[test]
fn client_header_write_failure_aborts_uncounted() {
    let t = target(192, 168, 0, 9, 5432);
    let mut acct = ForwardAccounting::new();
    acct.open_session(SessionState::SendingHeader(t));
    let act = acct.step_client(0, &SessionEvent::HeaderWriteFailed);
    assert_eq!(act, SessionAction::Abort);
    assert_eq!(acct.session_state(0), SessionState::Failed(TunnelError::RelayIoFailure));
    assert_eq!(acct.active_count(), 0);
}

#[test]
fn mismatched_event_is_ignored() {
    let t = target(10, 0, 0, 1, 80);
    let (s, act) = server_step(&SessionState::Closed, &SessionEvent::DialSucceeded);
    assert_eq!(s, SessionState::Closed);
    assert_eq!(act, SessionAction::Ignore);
    let (s, act) = client_step(&SessionState::Relaying(t), &SessionEvent::StreamOpened);
    assert_eq!(s, SessionState::Relaying(t));
    assert_eq!(act, SessionAction::Ignore);
}

#[test]
fn accounting_tracks_relaying_sessions() {
    let t1 = target(10, 0, 0, 1, 80);
    let t2 = target(10, 0, 0, 2, 9999);
    let mut acct = ForwardAccounting::new();
    assert_eq!(acct.active_count(), 0);

    acct.open_session(SessionState::AwaitingHeader);
    acct.open_session(SessionState::AwaitingHeader);
    assert_eq!(acct.active_count(), 0);

    acct.step_server(0, &SessionEvent::HeaderBytes(encode_header(&t1)));
    acct.step_server(1, &SessionEvent::HeaderBytes(encode_header(&t2)));
    assert_eq!(acct.active_count(), 0);

    acct.step_server(0, &SessionEvent::DialSucceeded);
    assert_eq!(acct.active_count(), 1);
    acct.step_server(1, &SessionEvent::DialSucceeded);
    assert_eq!(acct.active_count(), 2);

    acct.step_server(1, &SessionEvent::RelayIoError);
    assert_eq!(acct.active_count(), 1);
    acct.step_server(0, &SessionEvent::RelayCompleted);
    assert_eq!(acct.active_count(), 0);

    assert_eq!(acct.session_state(0), SessionState::Closed);
    assert_eq!(acct.session_state(1), SessionState::Failed(TunnelError::RelayIoFailure));
}

#[test]
fn dial_failure_isolated_from_sibling_relay() {
    // Two forwarded connections on the same session: the second's
    // destination refuses connections; the first still relays to
    // completion, untouched.
    let t1 = target(10, 0, 0, 1, 80);
    let t2 = target(10, 0, 0, 2, 9999);
    let mut acct = ForwardAccounting::new();
    acct.open_session(SessionState::AwaitingHeader);
    acct.open_session(SessionState::AwaitingHeader);

    acct.step_server(0, &SessionEvent::HeaderBytes(encode_header(&t1)));
    acct.step_server(0, &SessionEvent::DialSucceeded);
    assert_eq!(acct.session_state(0), SessionState::Relaying(t1));
    assert_eq!(acct.active_count(), 1);

    acct.step_server(1, &SessionEvent::HeaderBytes(encode_header(&t2)));
    let act = acct.step_server(1, &SessionEvent::DialFailed);
    assert_eq!(act, SessionAction::Abort);
    assert_eq!(acct.session_state(1), SessionState::Failed(TunnelError::DialFailure));

    // The sibling is unaffected: still relaying, still counted.
    assert_eq!(acct.session_state(0), SessionState::Relaying(t1));
    assert_eq!(acct.active_count(), 1);

    acct.step_server(0, &SessionEvent::RelayCompleted);
    assert_eq!(acct.session_state(0), SessionState::Closed);
    assert_eq!(acct.active_count(), 0);
}

#[test]
fn relay_delivers_both_directions_in_full() {
    let sent = vec![vec![1u8, 2, 3], vec![], vec![4u8, 5]];
    let echoed = vec![vec![1u8, 2], vec![3u8, 4, 5]];
    let relay = run_relay(&sent, &echoed);
    assert_eq!(relay.a_to_b.delivered, vec![1, 2, 3, 4, 5]);
    assert_eq!(relay.b_to_a.delivered, vec![1, 2, 3, 4, 5]);
    assert!(relay.a_to_b.closed && relay.b_to_a.closed);
}

#[test]
fn relay_with_one_silent_side() {
    // A source that sends nothing never truncates the opposite direction.
    let silent: Vec<Vec<u8>> = Vec::new();
    let busy = vec![vec![9u8; 1000], vec![8u8; 1000]];
    let relay = run_relay(&silent, &busy);
    assert!(relay.a_to_b.delivered.is_empty());
    assert_eq!(relay.b_to_a.delivered.len(), 2000);
}

#[test]
fn half_close_still_drains_other_direction() {
    let mut relay = RelayState::new();
    relay.deliver_a_to_b(&vec![1, 2, 3]);
    // The local leg finishes sending and closes its write side...
    relay.close_a_to_b();
    assert!(!relay.is_complete());
    // ...but the remote leg keeps sending, and its bytes still arrive.
    relay.deliver_b_to_a(&vec![7, 8]);
    relay.deliver_b_to_a(&vec![9]);
    assert_eq!(relay.b_to_a.delivered, vec![7, 8, 9]);
    assert!(!relay.is_complete());
    relay.close_b_to_a();
    assert!(relay.is_complete());
    assert_eq!(relay.a_to_b.delivered, vec![1, 2, 3]);
}

#[test]
fn concurrent_mappings_route_to_own_destinations() {
    let m1 = Iomap { inner: 1080, outer: target(10, 0, 0, 1, 80) };
    let m2 = Iomap { inner: 1443, outer: target(10, 0, 0, 2, 9999) };
    let h1 = header_for_mapping(&m1);
    let h2 = header_for_mapping(&m2);
    assert_ne!(h1, h2);
    assert_eq!(decode_header(&h1), Ok(m1.outer));
    assert_eq!(decode_header(&h2), Ok(m2.outer));
    // Interleaved use of both mappings never crosses destinations.
    for _ in 0..100 {
        assert_eq!(decode_header(&header_for_mapping(&m1)), Ok(m1.outer));
        assert_eq!(decode_header(&header_for_mapping(&m2)), Ok(m2.outer));
    }
}
