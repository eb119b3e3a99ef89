//! The per-connection session state machine. A session owns one client
//! connection end-to-end; the driver performs each returned action (send,
//! dial, close) and hands the next event back in. A failure at any stage goes
//! straight to `Failed` and ends the session permanently — no retries, and
//! nothing a session does reaches any other session.

use vstd::prelude::*;
use crate::error::SocksError;
use crate::handshake::ProxyRequest;
use crate::handshake::SOCKS_VERSION;
use crate::handshake::METHOD_NO_AUTH;
use crate::handshake::METHOD_NO_ACCEPTABLE;
use crate::handshake::ATYP_IPV4;
use crate::handshake::negotiate_spec;
use crate::handshake::negotiate_methods;
use crate::handshake::connect_err;
use crate::handshake::connect_ok;
use crate::handshake::authority_chars;
use crate::handshake::authority;
use crate::handshake::parse_connect_request;

verus! {

/// Where a session stands. It starts in `Accepted`, walks the stages in
/// order, and ends in `Closed` on success or `Failed` on any stage's error.
#[derive(Debug)]
pub enum SessionState {
    /// The client connection is accepted; the method-negotiation message is
    /// awaited (the negotiation itself is decided in one step when it arrives).
    Accepted,
    /// Negotiation succeeded; the connect request is awaited.
    AwaitingRequest,
    /// The request decoded to this destination; the outbound dial is under way.
    Dialing(ProxyRequest),
    /// Both connections stand; bytes are relayed in both directions.
    Relaying,
    /// The relay finished cleanly; the session is over.
    Closed,
    /// Some stage failed with this kind; the session is over.
    Failed(SocksError),
}

/// What the driver observed and hands to the machine.
#[derive(Debug)]
pub enum SessionEvent {
    /// The method-negotiation message arrived with these bytes.
    MethodRequest(Vec<u8>),
    /// The connect request arrived with these bytes.
    ConnectRequest(Vec<u8>),
    /// The outbound dial succeeded.
    DialSucceeded,
    /// The outbound dial failed.
    DialFailed,
    /// Both relay directions completed without error.
    RelayFinished,
    /// A relay direction hit an I/O error.
    RelayFailed,
}

/// What the driver must do next. After an action whose new state is `Closed`
/// or `Failed`, the client connection is closed and the session is gone.
#[derive(Debug)]
pub enum SessionAction {
    /// Send exactly these bytes to the client.
    SendClient(Vec<u8>),
    /// Open an outbound TCP connection to this `host:port` authority.
    Dial(String),
    /// Nothing to send: proceed (or, in a terminal state, just close).
    Close,
}

/// Which event each state can see: stages run strictly in order, so the
/// driver only ever hands a state the event of its own stage.
pub open spec fn expects(s: SessionState, e: SessionEvent) -> bool {
    match s {
        SessionState::Accepted => e matches SessionEvent::MethodRequest(_),
        SessionState::AwaitingRequest => e matches SessionEvent::ConnectRequest(_),
        SessionState::Dialing(_) => e matches SessionEvent::DialSucceeded
            || e matches SessionEvent::DialFailed,
        SessionState::Relaying => e matches SessionEvent::RelayFinished
            || e matches SessionEvent::RelayFailed,
        SessionState::Closed => false,
        SessionState::Failed(_) => false,
    }
}

/// The method reply for a served client.
pub open spec fn method_reply_ok() -> Seq<u8> {
    seq![SOCKS_VERSION, METHOD_NO_AUTH]
}

/// The method reply when no offered method is acceptable.
pub open spec fn method_reply_fail() -> Seq<u8> {
    seq![SOCKS_VERSION, METHOD_NO_ACCEPTABLE]
}

/// The fixed success reply to a connect request: status success, address-type
/// IPv4, zero-filled bound address and port.
pub open spec fn connect_reply_ok() -> Seq<u8> {
    seq![SOCKS_VERSION, 0x00u8, 0x00u8, ATYP_IPV4, 0x00u8, 0x00u8, 0x00u8, 0x00u8, 0x00u8, 0x00u8]
}

/// Advances a session by one event and says what to do, exactly:
///
/// - A method request that offers "no auth" gets the reply `[0x05, 0x00]` and
///   the session goes on to await the connect request; one that omits it gets
///   `[0x05, 0xFF]` and the session fails with `NoAcceptableAuth`; a malformed
///   or wrong-version message fails with nothing sent.
/// - A connect request that decodes moves to `Dialing` and asks the driver to
///   dial its rendered `host:port` authority; one that does not fails with the
///   decode's error and nothing sent — in particular, an IPv6 request fails
///   with `Ipv6NotSupported` and no reply bytes.
/// - A successful dial sends the fixed success reply and starts the relay; a
///   failed dial fails with `TargetDialFailed` and no reply bytes.
/// - The relay's completion closes the session; a relay error fails it.
pub fn step(s: SessionState, e: SessionEvent) -> (r: (SessionState, SessionAction))
    requires
        expects(s, e),
    ensures
        match e {
            SessionEvent::MethodRequest(b) => match negotiate_spec(b@) {
                Ok(()) => r.0 == SessionState::AwaitingRequest
                    && (r.1 matches SessionAction::SendClient(v) && v@ == method_reply_ok()),
                Err(SocksError::NoAcceptableAuth) => r.0 == SessionState::Failed(
                    SocksError::NoAcceptableAuth,
                ) && (r.1 matches SessionAction::SendClient(v) && v@ == method_reply_fail()),
                Err(k) => r.0 == SessionState::Failed(k) && r.1 == SessionAction::Close,
            },
            SessionEvent::ConnectRequest(b) => match connect_err(b@) {
                None => r.0 matches SessionState::Dialing(req) && connect_ok(b@, req) && (
                r.1 matches SessionAction::Dial(a) && a@ == authority_chars(req)),
                Some(k) => r.0 == SessionState::Failed(k) && r.1 == SessionAction::Close,
            },
            SessionEvent::DialSucceeded => r.0 == SessionState::Relaying && (
            r.1 matches SessionAction::SendClient(v) && v@ == connect_reply_ok()),
            SessionEvent::DialFailed => r.0 == SessionState::Failed(SocksError::TargetDialFailed)
                && r.1 == SessionAction::Close,
            SessionEvent::RelayFinished => r.0 == SessionState::Closed && r.1
                == SessionAction::Close,
            SessionEvent::RelayFailed => r.0 == SessionState::Failed(SocksError::RelayIoError)
                && r.1 == SessionAction::Close,
        },
{
    match e {
        SessionEvent::MethodRequest(b) => match negotiate_methods(&b) {
            Ok(()) => (
                SessionState::AwaitingRequest,
                SessionAction::SendClient(vec![SOCKS_VERSION, METHOD_NO_AUTH]),
            ),
            Err(k) => match k {
                SocksError::NoAcceptableAuth => (
                    SessionState::Failed(k),
                    SessionAction::SendClient(vec![SOCKS_VERSION, METHOD_NO_ACCEPTABLE]),
                ),
                _ => (SessionState::Failed(k), SessionAction::Close),
            },
        },
        SessionEvent::ConnectRequest(b) => match parse_connect_request(&b) {
            Ok(req) => {
                let auth = authority(&req);
                (SessionState::Dialing(req), SessionAction::Dial(auth))
            },
            Err(k) => (SessionState::Failed(k), SessionAction::Close),
        },
        SessionEvent::DialSucceeded => (
            SessionState::Relaying,
            SessionAction::SendClient(
                vec![SOCKS_VERSION, 0x00, 0x00, ATYP_IPV4, 0x00, 0x00, 0x00, 0x00, 0x00, 0x00],
            ),
        ),
        SessionEvent::DialFailed => (
            SessionState::Failed(SocksError::TargetDialFailed),
            SessionAction::Close,
        ),
        SessionEvent::RelayFinished => (SessionState::Closed, SessionAction::Close),
        SessionEvent::RelayFailed => (
            SessionState::Failed(SocksError::RelayIoError),
            SessionAction::Close,
        ),
    }
}

} // verus!
