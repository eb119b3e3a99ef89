//! The error taxonomy of a SOCKS5 session. Every failure a session can hit is
//! one of these kinds; a kind never crosses into another session or into the
//! accept loop.

use vstd::prelude::*;

verus! {

/// What went wrong in one session. Each stage of the protocol can fail with
/// exactly the kinds below, and a failure ends the session permanently.
#[derive(Clone, Copy, Debug, PartialEq, Eq, Structural)]
pub enum SocksError {
    /// The first byte of a client message was not the SOCKS version marker.
    UnsupportedVersion,
    /// The client offered no authentication method the server accepts.
    NoAcceptableAuth,
    /// The connect request's version, command or reserved byte was wrong.
    UnsupportedRequest,
    /// The address-type tag was none of the defined ones.
    UnsupportedAddressType,
    /// The address-type tag named IPv6, which this server does not dial.
    Ipv6NotSupported,
    /// A message was shorter than its own length fields require.
    MalformedMessage,
    /// The outbound connection to the requested destination failed.
    TargetDialFailed,
    /// Either direction of the relay hit an I/O error.
    RelayIoError,
}

impl SocksError {
    /// A human-readable description of the kind, for the log sink.
    pub fn describe(&self) -> (r: &'static str)
        ensures
            *self == SocksError::UnsupportedVersion ==> r@ == "Unsupported SOCKS version"@,
            *self == SocksError::NoAcceptableAuth ==> r@ == "No acceptable authentication methods"@,
            *self == SocksError::UnsupportedRequest ==> r@ == "Unsupported SOCKS request"@,
            *self == SocksError::UnsupportedAddressType ==> r@ == "Unsupported address type"@,
            *self == SocksError::Ipv6NotSupported ==> r@ == "IPv6 not supported"@,
            *self == SocksError::MalformedMessage ==> r@ == "Malformed message"@,
            *self == SocksError::TargetDialFailed ==> r@ == "Target dial failed"@,
            *self == SocksError::RelayIoError ==> r@ == "Relay I/O error"@,
    {
        match self {
            SocksError::UnsupportedVersion => "Unsupported SOCKS version",
            SocksError::NoAcceptableAuth => "No acceptable authentication methods",
            SocksError::UnsupportedRequest => "Unsupported SOCKS request",
            SocksError::UnsupportedAddressType => "Unsupported address type",
            SocksError::Ipv6NotSupported => "IPv6 not supported",
            SocksError::MalformedMessage => "Malformed message",
            SocksError::TargetDialFailed => "Target dial failed",
            SocksError::RelayIoError => "Relay I/O error",
        }
    }
}

} // verus!
