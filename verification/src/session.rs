//! The per-connection session lifecycle.
//!
//! One forwarded connection is one session: on the client it runs
//! open stream, send header, relay; on the server it runs read header,
//! dial, relay. The step functions here turn a state and an observed
//! event into the next state and the action the surrounding task must
//! perform. All transport work happens outside; these functions are the
//! decisions, and every failure they produce is local to one session.

use vstd::prelude::*;

use crate::errors::TunnelError;
use crate::header::{spec_decode, Target, HEADER_LEN};

verus! {

/// Where one forwarded connection stands in its lifecycle.
#[derive(Clone, Copy, Debug, PartialEq, Eq, Structural)]
pub enum SessionState {
    /// Client: a local TCP connection was accepted on a mapping whose
    /// outer destination is the target; a multiplexed stream to the
    /// server is being opened.
    OpeningStream(Target),
    /// Client: the stream is open; the six-byte header for the target
    /// is being written.
    SendingHeader(Target),
    /// Server: a multiplexed stream was accepted; the six header bytes
    /// are being read.
    AwaitingHeader,
    /// Server: the header named the target; a TCP connection to it is
    /// being dialed.
    Dialing(Target),
    /// Both legs are up and bytes are being copied in both directions.
    /// Only sessions in this state are counted as active forwards.
    Relaying(Target),
    /// Both directions reached end of stream and both legs were released.
    Closed,
    /// The session was abandoned; the error says at which step.
    Failed(TunnelError),
}

/// What the session's event told the state machine.
pub enum SessionEvent {
    /// Client: the multiplexed stream to the server is open.
    StreamOpened,
    /// Client: the stream could not be opened.
    StreamOpenFailed,
    /// Client: the six header bytes were written.
    HeaderWritten,
    /// Client: writing the header failed.
    HeaderWriteFailed,
    /// Server: the bytes that arrived before end of stream or error
    /// while reading the header; fewer than six mean a short read.
    HeaderBytes(Vec<u8>),
    /// Server: the TCP connection to the target is up.
    DialSucceeded,
    /// Server: the target refused or could not be reached.
    DialFailed,
    /// Both relay directions completed cleanly.
    RelayCompleted,
    /// A read or write failed in one relay direction.
    RelayIoError,
}

/// What the task owning the session must do next.
#[derive(Clone, Copy, Debug, PartialEq, Eq, Structural)]
pub enum SessionAction {
    /// Write the six-byte encoded header of the state's target onto the
    /// multiplexed stream.
    WriteHeader,
    /// Dial a TCP connection to the state's target.
    Dial,
    /// Increment the active-forward count and start the bidirectional
    /// copy between the two legs.
    StartRelay,
    /// Decrement the active-forward count and release both legs.
    Teardown,
    /// Release whatever is held, with no accounting change: the session
    /// never entered the relaying state.
    Abort,
    /// The event does not apply to the state; do nothing.
    Ignore,
}

/// True of a session that is past header exchange and before teardown;
/// exactly these sessions are counted as active forwards.
pub open spec fn is_relaying(s: SessionState) -> bool {
    s matches SessionState::Relaying(_)
}

/// True of a session that has ended, cleanly or not.
pub open spec fn is_terminal(s: SessionState) -> bool {
    s == SessionState::Closed || s matches SessionState::Failed(_)
}

/// The client-side transition relation: open stream, send header, relay.
pub open spec fn spec_client_step(s: SessionState, e: SessionEvent) -> (SessionState,
    SessionAction) {
    match (s, e) {
        (SessionState::OpeningStream(t), SessionEvent::StreamOpened) => (
            SessionState::SendingHeader(t),
            SessionAction::WriteHeader,
        ),
        (SessionState::OpeningStream(_), SessionEvent::StreamOpenFailed) => (
            SessionState::Failed(TunnelError::StreamOpenFailure),
            SessionAction::Abort,
        ),
        (SessionState::SendingHeader(t), SessionEvent::HeaderWritten) => (
            SessionState::Relaying(t),
            SessionAction::StartRelay,
        ),
        (SessionState::SendingHeader(_), SessionEvent::HeaderWriteFailed) => (
            SessionState::Failed(TunnelError::RelayIoFailure),
            SessionAction::Abort,
        ),
        (SessionState::Relaying(_), SessionEvent::RelayCompleted) => (
            SessionState::Closed,
            SessionAction::Teardown,
        ),
        (SessionState::Relaying(_), SessionEvent::RelayIoError) => (
            SessionState::Failed(TunnelError::RelayIoFailure),
            SessionAction::Teardown,
        ),
        _ => (s, SessionAction::Ignore),
    }
}

/// The server-side transition relation: read header, dial, relay.
pub open spec fn spec_server_step(s: SessionState, e: SessionEvent) -> (SessionState,
    SessionAction) {
    match (s, e) {
        (SessionState::AwaitingHeader, SessionEvent::HeaderBytes(b)) => if b@.len()
            >= HEADER_LEN {
            (SessionState::Dialing(spec_decode(b@)), SessionAction::Dial)
        } else {
            (SessionState::Failed(TunnelError::HeaderDecodeFailure), SessionAction::Abort)
        },
        (SessionState::Dialing(t), SessionEvent::DialSucceeded) => (
            SessionState::Relaying(t),
            SessionAction::StartRelay,
        ),
        (SessionState::Dialing(_), SessionEvent::DialFailed) => (
            SessionState::Failed(TunnelError::DialFailure),
            SessionAction::Abort,
        ),
        (SessionState::Relaying(_), SessionEvent::RelayCompleted) => (
            SessionState::Closed,
            SessionAction::Teardown,
        ),
        (SessionState::Relaying(_), SessionEvent::RelayIoError) => (
            SessionState::Failed(TunnelError::RelayIoFailure),
            SessionAction::Teardown,
        ),
        _ => (s, SessionAction::Ignore),
    }
}

/// Step one client-side session: the next state and the action to take.
pub fn client_step(s: &SessionState, e: &SessionEvent) -> (r: (SessionState, SessionAction))
    ensures
        r == spec_client_step(*s, *e),
{
    match (s, e) {
        (SessionState::OpeningStream(t), SessionEvent::StreamOpened) => (
            SessionState::SendingHeader(*t),
            SessionAction::WriteHeader,
        ),
        (SessionState::OpeningStream(_), SessionEvent::StreamOpenFailed) => (
            SessionState::Failed(TunnelError::StreamOpenFailure),
            SessionAction::Abort,
        ),
        (SessionState::SendingHeader(t), SessionEvent::HeaderWritten) => (
            SessionState::Relaying(*t),
            SessionAction::StartRelay,
        ),
        (SessionState::SendingHeader(_), SessionEvent::HeaderWriteFailed) => (
            SessionState::Failed(TunnelError::RelayIoFailure),
            SessionAction::Abort,
        ),
        (SessionState::Relaying(_), SessionEvent::RelayCompleted) => (
            SessionState::Closed,
            SessionAction::Teardown,
        ),
        (SessionState::Relaying(_), SessionEvent::RelayIoError) => (
            SessionState::Failed(TunnelError::RelayIoFailure),
            SessionAction::Teardown,
        ),
        _ => (*s, SessionAction::Ignore),
    }
}

/// Step one server-side session: the next state and the action to take.
pub fn server_step(s: &SessionState, e: &SessionEvent) -> (r: (SessionState, SessionAction))
    ensures
        r == spec_server_step(*s, *e),
{
    match (s, e) {
        (SessionState::AwaitingHeader, SessionEvent::HeaderBytes(b)) => {
            match crate::header::decode_header(b) {
                Ok(t) => (SessionState::Dialing(t), SessionAction::Dial),
                Err(_) => (
                    SessionState::Failed(TunnelError::HeaderDecodeFailure),
                    SessionAction::Abort,
                ),
            }
        },
        (SessionState::Dialing(t), SessionEvent::DialSucceeded) => (
            SessionState::Relaying(*t),
            SessionAction::StartRelay,
        ),
        (SessionState::Dialing(_), SessionEvent::DialFailed) => (
            SessionState::Failed(TunnelError::DialFailure),
            SessionAction::Abort,
        ),
        (SessionState::Relaying(_), SessionEvent::RelayCompleted) => (
            SessionState::Closed,
            SessionAction::Teardown,
        ),
        (SessionState::Relaying(_), SessionEvent::RelayIoError) => (
            SessionState::Failed(TunnelError::RelayIoFailure),
            SessionAction::Teardown,
        ),
        _ => (*s, SessionAction::Ignore),
    }
}

/// A session starts relaying exactly when the step orders `StartRelay`,
/// and stops exactly when the step orders `Teardown`: the accounting
/// bracket and the relaying state never drift apart.
pub proof fn lemma_client_step_accounting(s: SessionState, e: SessionEvent)
    ensures
        (spec_client_step(s, e).1 == SessionAction::StartRelay) <==> (!is_relaying(s)
            && is_relaying(spec_client_step(s, e).0)),
        (spec_client_step(s, e).1 == SessionAction::Teardown) <==> (is_relaying(s)
            && !is_relaying(spec_client_step(s, e).0)),
{
}

/// The server-side counterpart of the accounting bracket law.
pub proof fn lemma_server_step_accounting(s: SessionState, e: SessionEvent)
    ensures
        (spec_server_step(s, e).1 == SessionAction::StartRelay) <==> (!is_relaying(s)
            && is_relaying(spec_server_step(s, e).0)),
        (spec_server_step(s, e).1 == SessionAction::Teardown) <==> (is_relaying(s)
            && !is_relaying(spec_server_step(s, e).0)),
{
}

/// A short header read fails the session before any dial: from
/// `AwaitingHeader`, fewer than six bytes lead straight to
/// `HeaderDecodeFailure` with an uncounted abort, never to `Dialing`.
pub proof fn lemma_short_header_never_dials(b: Vec<u8>)
    requires
        b@.len() < HEADER_LEN,
    ensures
        spec_server_step(SessionState::AwaitingHeader, SessionEvent::HeaderBytes(b)) == (
            SessionState::Failed(TunnelError::HeaderDecodeFailure),
            SessionAction::Abort,
        ),
{
}

} // verus!
