//! Error taxonomy of the tunneling engine.
//!
//! Every error is local to a single forwarded connection, a single
//! mapping's listener or a single multiplexed session; none of them is
//! ever fatal to the process as a whole.

use vstd::prelude::*;

verus! {

/// The failures a listener, session or relay task can run into.
#[derive(Clone, Copy, Debug, PartialEq, Eq, Structural)]
pub enum TunnelError {
    /// A local TCP listener could not bind its configured inner port;
    /// fatal only to that mapping's listener.
    BindFailure,
    /// The transport handshake to the peer failed; only this attempt
    /// is abandoned.
    SessionEstablishFailure,
    /// Opening a new multiplexed stream failed; only this forwarded
    /// connection is abandoned.
    StreamOpenFailure,
    /// Accepting a multiplexed stream failed; only the owning session's
    /// accept loop ends, streams already relaying keep running.
    StreamAcceptFailure,
    /// Fewer than six header bytes arrived before end of stream or an
    /// error; the stream is abandoned and no destination is ever dialed.
    HeaderDecodeFailure,
    /// The decoded destination could not be reached; the stream is
    /// abandoned with no accounting change.
    DialFailure,
    /// A read or write failed while relaying; both legs of that session
    /// are torn down.
    RelayIoFailure,
}

} // verus!
