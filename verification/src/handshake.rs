//! The SOCKS5 handshake: decoding the method-negotiation message and the
//! connect request, and rendering the destination as a `host:port` authority.
//!
//! Every length field is checked against the bytes actually present before any
//! slice is taken; a short message is a `MalformedMessage` error, never a
//! panic.

use vstd::prelude::*;
use crate::decimal::dec_rep;
use crate::decimal::u8_dec;
use crate::decimal::u16_dec;
use crate::error::SocksError;

verus! {

/// The SOCKS protocol version marker, the first byte of every message.
pub const SOCKS_VERSION: u8 = 0x05;

/// The "no authentication required" method identifier, the only one served.
pub const METHOD_NO_AUTH: u8 = 0x00;

/// The method identifier meaning "no acceptable methods".
pub const METHOD_NO_ACCEPTABLE: u8 = 0xFF;

/// The CONNECT command, the only one served.
pub const CMD_CONNECT: u8 = 0x01;

/// Address-type tag: IPv4, four address bytes follow.
pub const ATYP_IPV4: u8 = 0x01;

/// Address-type tag: domain name, a length byte and that many name bytes follow.
pub const ATYP_DOMAIN: u8 = 0x03;

/// Address-type tag: IPv6; parsed but always rejected.
pub const ATYP_IPV6: u8 = 0x04;

/// Whether the method-negotiation message offers the "no authentication"
/// method among its `b[1]` method bytes.
pub open spec fn offers_no_auth(b: Seq<u8>) -> bool {
    exists|i: int| 2 <= i < 2 + b[1] && b[i] == METHOD_NO_AUTH
}

/// The outcome of method negotiation on the message bytes `b`, exactly:
/// too short for its own counts is malformed, a wrong version byte is
/// rejected, and otherwise the client is served iff it offers "no auth".
pub open spec fn negotiate_spec(b: Seq<u8>) -> Result<(), SocksError> {
    if b.len() < 2 {
        Err(SocksError::MalformedMessage)
    } else if b[0] != SOCKS_VERSION {
        Err(SocksError::UnsupportedVersion)
    } else if b.len() < 2 + b[1] {
        Err(SocksError::MalformedMessage)
    } else if offers_no_auth(b) {
        Ok(())
    } else {
        Err(SocksError::NoAcceptableAuth)
    }
}

/// Decides method negotiation on one message: `Ok` exactly when the message is
/// well-formed, carries the right version, and offers the "no authentication"
/// method; otherwise the error that names what failed.
pub fn negotiate_methods(buf: &Vec<u8>) -> (r: Result<(), SocksError>)
    ensures
        r == negotiate_spec(buf@),
{
    if buf.len() < 2 {
        return Err(SocksError::MalformedMessage);
    }
    if buf[0] != SOCKS_VERSION {
        return Err(SocksError::UnsupportedVersion);
    }
    let nmethods = buf[1] as usize;
    if buf.len() < 2 + nmethods {
        return Err(SocksError::MalformedMessage);
    }
    let mut i: usize = 2;
    while i < 2 + nmethods
        invariant
            2 <= i <= 2 + nmethods,
            buf@.len() >= 2,
            buf@[0] == SOCKS_VERSION,
            nmethods == buf@[1],
            buf@.len() >= 2 + nmethods,
            forall|j: int| 2 <= j < i ==> buf@[j] != METHOD_NO_AUTH,
        decreases 2 + nmethods - i,
    {
        if buf[i] == METHOD_NO_AUTH {
            proof {
                assert(2 <= i < 2 + buf@[1] && buf@[i as int] == METHOD_NO_AUTH);
            }
            return Ok(());
        }
        i += 1;
    }
    Err(SocksError::NoAcceptableAuth)
}

/// The destination of a connect request: an IPv4 address by its four octets,
/// or a domain name as decoded text.
#[derive(Debug, PartialEq, Eq)]
pub enum DestAddr {
    V4(u8, u8, u8, u8),
    Domain(String),
}

/// A decoded connect request: the destination and the port.
#[derive(Debug, PartialEq, Eq)]
pub struct ProxyRequest {
    pub addr: DestAddr,
    pub port: u16,
}

/// Whether every byte is plain ASCII.
pub open spec fn all_ascii(b: Seq<u8>) -> bool {
    forall|i: int| 0 <= i < b.len() ==> b[i] < 128
}

/// The characters of an ASCII byte sequence, one per byte.
pub open spec fn ascii_chars(b: Seq<u8>) -> Seq<char> {
    b.map_values(|x: u8| x as char)
}

/// The text that lossy UTF-8 decoding makes of a byte sequence. The decoding
/// itself is done by the standard library; this names its result, which is a
/// function of the bytes alone.
pub uninterp spec fn lossy_utf8(b: Seq<u8>) -> Seq<char>;

/// Relies on `String::from_utf8_lossy`: valid UTF-8 sequences are kept and
/// invalid ones are replaced with U+FFFD, so ASCII bytes come through as the
/// same characters; the result depends on the bytes alone.
#[verifier::external_body]
fn utf8_lossy(b: &Vec<u8>) -> (r: String)
    ensures
        r@ == lossy_utf8(b@),
        all_ascii(b@) ==> r@ == ascii_chars(b@),
{
    String::from_utf8_lossy(b).into_owned()
}

/// The error a connect request fails with, or `None` if it decodes, exactly:
/// the fixed header and every length field are checked in the order the bytes
/// stand, and the address-type tag picks the form of the address.
pub open spec fn connect_err(b: Seq<u8>) -> Option<SocksError> {
    if b.len() < 4 {
        Some(SocksError::MalformedMessage)
    } else if b[0] != SOCKS_VERSION || b[1] != CMD_CONNECT || b[2] != 0x00u8 {
        Some(SocksError::UnsupportedRequest)
    } else if b[3] == ATYP_IPV4 {
        if b.len() < 10 {
            Some(SocksError::MalformedMessage)
        } else {
            None
        }
    } else if b[3] == ATYP_DOMAIN {
        if b.len() < 5 || b.len() < 7 + b[4] {
            Some(SocksError::MalformedMessage)
        } else {
            None
        }
    } else if b[3] == ATYP_IPV6 {
        Some(SocksError::Ipv6NotSupported)
    } else {
        Some(SocksError::UnsupportedAddressType)
    }
}

/// The port of a request: its final two bytes, big-endian.
pub open spec fn port_of(b: Seq<u8>) -> int {
    256 * b[b.len() - 2] + b[b.len() - 1]
}

/// What a successfully decoded request holds, given the message bytes `b`:
/// the port from the final two bytes, and the address as the tag dictates —
/// the four octets for IPv4, or the lossily decoded name for a domain.
pub open spec fn connect_ok(b: Seq<u8>, r: ProxyRequest) -> bool {
    &&& r.port as int == port_of(b)
    &&& if b[3] == ATYP_IPV4 {
        r.addr == DestAddr::V4(b[4], b[5], b[6], b[7])
    } else {
        &&& r.addr matches DestAddr::Domain(h)
        &&& h@ == lossy_utf8(b.subrange(5, 5 + b[4]))
        &&& all_ascii(b.subrange(5, 5 + b[4])) ==> h@ == ascii_chars(b.subrange(5, 5 + b[4]))
    }
}

/// Decodes a connect request: `Ok` with the destination and port exactly when
/// `connect_err` finds nothing wrong, else that error. The port is taken from
/// the final two bytes of the message, and a domain name's bytes are decoded
/// lossily rather than rejected on invalid UTF-8.
pub fn parse_connect_request(buf: &Vec<u8>) -> (r: Result<ProxyRequest, SocksError>)
    ensures
        match connect_err(buf@) {
            Some(e) => r == Err::<ProxyRequest, SocksError>(e),
            None => r matches Ok(req) && connect_ok(buf@, req),
        },
{
    let n = buf.len();
    if n < 4 {
        return Err(SocksError::MalformedMessage);
    }
    if buf[0] != SOCKS_VERSION || buf[1] != CMD_CONNECT || buf[2] != 0x00 {
        return Err(SocksError::UnsupportedRequest);
    }
    let atyp = buf[3];
    let addr: DestAddr;
    if atyp == ATYP_IPV4 {
        if n < 10 {
            return Err(SocksError::MalformedMessage);
        }
        addr = DestAddr::V4(buf[4], buf[5], buf[6], buf[7]);
    } else if atyp == ATYP_DOMAIN {
        if n < 5 {
            return Err(SocksError::MalformedMessage);
        }
        let name_len = buf[4] as usize;
        if n < 7 + name_len {
            return Err(SocksError::MalformedMessage);
        }
        let mut name: Vec<u8> = Vec::new();
        let mut i: usize = 0;
        while i < name_len
            invariant
                i <= name_len,
                name_len == buf@[4],
                buf@.len() >= 7 + name_len,
                name@ =~= buf@.subrange(5, 5 + i as int),
            decreases name_len - i,
    {
            name.push(buf[5 + i]);
            i += 1;
        }
        let host = utf8_lossy(&name);
        addr = DestAddr::Domain(host);
    } else if atyp == ATYP_IPV6 {
        return Err(SocksError::Ipv6NotSupported);
    } else {
        return Err(SocksError::UnsupportedAddressType);
    }
    let port = be16(buf[n - 2], buf[n - 1]);
    Ok(ProxyRequest { addr, port })
}

/// Reads a big-endian 16-bit integer from two bytes.
pub fn be16(hi: u8, lo: u8) -> (r: u16)
    ensures
        r as int == 256 * hi + lo,
{
    (hi as u16) * 256 + (lo as u16)
}

/// The text of a destination: dotted decimal for IPv4, the name for a domain.
pub open spec fn host_chars(a: DestAddr) -> Seq<char> {
    match a {
        DestAddr::V4(x0, x1, x2, x3) => dec_rep(x0 as int) + seq!['.'] + dec_rep(x1 as int)
            + seq!['.'] + dec_rep(x2 as int) + seq!['.'] + dec_rep(x3 as int),
        DestAddr::Domain(h) => h@,
    }
}

/// The `host:port` authority a destination is dialed and logged as.
pub open spec fn authority_chars(r: ProxyRequest) -> Seq<char> {
    host_chars(r.addr) + seq![':'] + dec_rep(r.port as int)
}

/// Renders the destination's host text.
pub fn host_string(addr: &DestAddr) -> (r: String)
    ensures
        r@ == host_chars(*addr),
{
    proof {
        reveal_strlit(".");
    }
    match addr {
        DestAddr::V4(x0, x1, x2, x3) => {
            let mut s = u8_dec(*x0);
            s.append(".");
            s.append(u8_dec(*x1).as_str());
            s.append(".");
            s.append(u8_dec(*x2).as_str());
            s.append(".");
            s.append(u8_dec(*x3).as_str());
            s
        },
        DestAddr::Domain(h) => h.clone(),
    }
}

/// Renders the `host:port` authority of a request.
pub fn authority(r: &ProxyRequest) -> (s: String)
    ensures
        s@ == authority_chars(*r),
{
    proof {
        reveal_strlit(":");
    }
    let mut s = host_string(&r.addr);
    s.append(":");
    s.append(u16_dec(r.port).as_str());
    s
}

} // verus!
