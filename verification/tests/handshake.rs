use simple_proxy::decimal::{u16_dec, u8_dec};
use simple_proxy::error::SocksError;
use simple_proxy::handshake::{
    authority, be16, host_string, negotiate_methods, parse_connect_request, DestAddr,
};

#[test]
fn negotiate_accepts_no_auth() {
    let buf = vec![0x05, 0x01, 0x00];
    assert_eq!(negotiate_methods(&buf), Ok(()));
}

#[test]
fn negotiate_accepts_no_auth_among_several() {
    let buf = vec![0x05, 0x03, 0x02, 0x00, 0x01];
    assert_eq!(negotiate_methods(&buf), Ok(()));
}

#[test]
fn negotiate_rejects_without_no_auth() {
    let buf = vec![0x05, 0x02, 0x01, 0x02];
    assert_eq!(negotiate_methods(&buf), Err(SocksError::NoAcceptableAuth));
}

#[test]
fn negotiate_rejects_no_methods_at_all() {
    let buf = vec![0x05, 0x00];
    assert_eq!(negotiate_methods(&buf), Err(SocksError::NoAcceptableAuth));
}

#[test]
fn negotiate_rejects_wrong_version() {
    let buf = vec![0x04, 0x01, 0x00];
    assert_eq!(negotiate_methods(&buf), Err(SocksError::UnsupportedVersion));
}

#[test]
fn negotiate_rejects_empty_message() {
    let buf = vec![];
    assert_eq!(negotiate_methods(&buf), Err(SocksError::MalformedMessage));
}

#[test]
fn negotiate_rejects_one_byte_message() {
    let buf = vec![0x05];
    assert_eq!(negotiate_methods(&buf), Err(SocksError::MalformedMessage));
}

#[test]
fn negotiate_rejects_short_method_list() {
    // nmethods says three, only two bytes follow
    let buf = vec![0x05, 0x03, 0x00, 0x01];
    assert_eq!(negotiate_methods(&buf), Err(SocksError::MalformedMessage));
}

#[test]
fn connect_ipv4_decodes_dotted_decimal() {
    let buf = vec![0x05, 0x01, 0x00, 0x01, 93, 184, 216, 34, 0, 80];
    let req = parse_connect_request(&buf).unwrap();
    assert_eq!(req.port, 80);
    assert!(matches!(req.addr, DestAddr::V4(93, 184, 216, 34)));
    assert_eq!(authority(&req), "93.184.216.34:80");
}

#[test]
fn connect_domain_decodes_name_and_port() {
    let mut buf = vec![0x05, 0x01, 0x00, 0x03, 11];
    buf.extend_from_slice(b"example.com");
    buf.extend_from_slice(&[1, 187]);
    let req = parse_connect_request(&buf).unwrap();
    assert_eq!(req.port, 443);
    match &req.addr {
        DestAddr::Domain(h) => assert_eq!(h, "example.com"),
        _ => panic!("expected a domain destination"),
    }
    assert_eq!(authority(&req), "example.com:443");
}

#[test]
fn connect_domain_invalid_utf8_is_substituted() {
    // 0xFF is never valid UTF-8: the name is decoded lossily, not rejected
    let buf = vec![0x05, 0x01, 0x00, 0x03, 2, 0xFF, b'a', 0, 80];
    let req = parse_connect_request(&buf).unwrap();
    match &req.addr {
        DestAddr::Domain(h) => assert_eq!(h, "\u{FFFD}a"),
        _ => panic!("expected a domain destination"),
    }
}

#[test]
fn connect_ipv6_is_rejected() {
    let buf = vec![
        0x05, 0x01, 0x00, 0x04, 0, 0, 0, 0, 0, 0, 0, 0, 0, 0, 0, 0, 0, 1, 0, 80,
    ];
    assert_eq!(parse_connect_request(&buf), Err(SocksError::Ipv6NotSupported));
}

#[test]
fn connect_unknown_atyp_is_rejected() {
    let buf = vec![0x05, 0x01, 0x00, 0x02, 0, 80];
    assert_eq!(
        parse_connect_request(&buf),
        Err(SocksError::UnsupportedAddressType)
    );
}

#[test]
fn connect_wrong_version_is_rejected() {
    let buf = vec![0x04, 0x01, 0x00, 0x01, 1, 2, 3, 4, 0, 80];
    assert_eq!(parse_connect_request(&buf), Err(SocksError::UnsupportedRequest));
}

#[test]
fn connect_wrong_command_is_rejected() {
    // BIND is not supported
    let buf = vec![0x05, 0x02, 0x00, 0x01, 1, 2, 3, 4, 0, 80];
    assert_eq!(parse_connect_request(&buf), Err(SocksError::UnsupportedRequest));
}

#[test]
fn connect_nonzero_reserved_is_rejected() {
    let buf = vec![0x05, 0x01, 0x01, 0x01, 1, 2, 3, 4, 0, 80];
    assert_eq!(parse_connect_request(&buf), Err(SocksError::UnsupportedRequest));
}

#[test]
fn connect_short_message_is_malformed() {
    let buf = vec![0x05, 0x01, 0x00];
    assert_eq!(parse_connect_request(&buf), Err(SocksError::MalformedMessage));
}

#[test]
fn connect_short_ipv4_is_malformed() {
    let buf = vec![0x05, 0x01, 0x00, 0x01, 1, 2, 3];
    assert_eq!(parse_connect_request(&buf), Err(SocksError::MalformedMessage));
}

#[test]
fn connect_domain_length_beyond_buffer_is_malformed() {
    // length byte claims 200 name bytes; far fewer follow
    let buf = vec![0x05, 0x01, 0x00, 0x03, 200, b'a', b'b', 0, 80];
    assert_eq!(parse_connect_request(&buf), Err(SocksError::MalformedMessage));
}

#[test]
fn be16_reads_big_endian() {
    assert_eq!(be16(0, 80), 80);
    assert_eq!(be16(1, 187), 443);
    assert_eq!(be16(255, 255), 65535);
    assert_eq!(be16(0, 0), 0);
}

#[test]
fn decimal_rendering_exact() {
    assert_eq!(u16_dec(0), "0");
    assert_eq!(u16_dec(7), "7");
    assert_eq!(u16_dec(80), "80");
    assert_eq!(u16_dec(443), "443");
    assert_eq!(u16_dec(65535), "65535");
    assert_eq!(u8_dec(0), "0");
    assert_eq!(u8_dec(10), "10");
    assert_eq!(u8_dec(255), "255");
}

#[test]
fn host_string_forms() {
    assert_eq!(host_string(&DestAddr::V4(0, 0, 0, 0)), "0.0.0.0");
    assert_eq!(host_string(&DestAddr::V4(127, 0, 0, 1)), "127.0.0.1");
    assert_eq!(
        host_string(&DestAddr::Domain(String::from("example.com"))),
        "example.com"
    );
}
