use shoes::client::ClientConnectMsg;
use shoes::handshake::addr_type::AddrType;
use shoes::handshake::cmd::SocksCmd;
use shoes::handshake::error::HandshakeError;
use shoes::handshake::method::SocksMethod;
use shoes::handshake::reply::SocksReply;
use shoes::handshake::reply_field::ReplyField;
use shoes::handshake::version::SocksVersion;
use shoes::handshake::{Ipv4, SocksHandshake, WithIpv4Addr, WithPort};

fn request_to(a: u8, b: u8, c: u8, d: u8, port: u16) -> SocksHandshake {
    SocksHandshake {
        version: SocksVersion::V5,
        cmd: SocksCmd::Connect,
        addr: Ipv4::new(a, b, c, d),
        port,
        atyp: AddrType::Ipv4,
    }
}

#[test]
fn reply_field_round_trip_all_codes() {
    let all = [
        ReplyField::Succeeded,
        ReplyField::SocksServerFailure,
        ReplyField::ConnectionNotAllowed,
        ReplyField::NetworkUnreachable,
        ReplyField::HostUnreachable,
        ReplyField::ConnectionRefused,
        ReplyField::TtlExpired,
        ReplyField::CommandNotSupported,
        ReplyField::AddrTypeNotSupported,
    ];
    for (i, f) in all.iter().enumerate() {
        let b: u8 = (*f).into();
        assert_eq!(b as usize, i);
        assert_eq!(ReplyField::try_from(b).unwrap(), *f);
    }
}

#[test]
fn reply_field_rejects_nine_and_above() {
    for b in 9..=255u8 {
        assert_eq!(ReplyField::try_from(b), Err(HandshakeError::UnsupportedRepType));
    }
}

#[test]
fn enums_round_trip_and_reject() {
    assert_eq!(u8::from(SocksVersion::V5), 5);
    assert_eq!(SocksVersion::try_from(5u8).unwrap(), SocksVersion::V5);
    assert_eq!(SocksVersion::try_from(4u8), Err(HandshakeError::UnsupportedVersion));
    assert_eq!(u8::from(SocksCmd::Connect), 1);
    assert_eq!(SocksCmd::try_from(1u8).unwrap(), SocksCmd::Connect);
    assert_eq!(SocksCmd::try_from(2u8), Err(HandshakeError::UnsupportedCommand));
    assert_eq!(u8::from(AddrType::Ipv4), 1);
    assert_eq!(AddrType::try_from(1u8).unwrap(), AddrType::Ipv4);
    assert_eq!(AddrType::try_from(3u8), Err(HandshakeError::UnsupportedAddrType));
    assert_eq!(u8::from(SocksMethod::NoAuth), 0x00);
    assert_eq!(u8::from(SocksMethod::NoAcceptableMethod), 0xFF);
    assert_eq!(SocksMethod::from(0x00u8), SocksMethod::NoAuth);
    assert_eq!(SocksMethod::from(0x02u8), SocksMethod::NoAcceptableMethod);
    assert_eq!(SocksMethod::from(0xFFu8), SocksMethod::NoAcceptableMethod);
}

#[test]
fn request_encodes_to_ten_bytes() {
    let h = request_to(127, 0, 0, 1, 6666);
    assert_eq!(h.to_request(), vec![0x05, 0x01, 0x00, 0x01, 127, 0, 0, 1, 0x1A, 0x0A]);
    assert_eq!(h.addr_to_bytes(), vec![127, 0, 0, 1]);
    assert_eq!(h.port_to_bytes(), vec![0x1A, 0x0A]);
    assert_eq!(h.port(), 6666);
    assert_eq!(h.addr(), Ipv4::new(127, 0, 0, 1));
}

#[test]
fn request_address_text() {
    assert_eq!(request_to(127, 0, 0, 1, 6666).to_addr(), "127.0.0.1:6666");
    assert_eq!(request_to(0, 0, 0, 0, 0).to_addr(), "0.0.0.0:0");
    assert_eq!(request_to(255, 255, 255, 255, 65535).to_addr(), "255.255.255.255:65535");
    assert_eq!(request_to(10, 20, 9, 100, 80).to_addr(), "10.20.9.100:80");
}

#[test]
fn reply_encodes_and_parses_back() {
    let r = SocksReply::new(SocksVersion::V5, ReplyField::ConnectionRefused, AddrType::Ipv4, Ipv4::new(127, 0, 0, 1), 6666);
    let bytes = r.to_reply();
    assert_eq!(bytes, vec![0x05, 0x05, 0x00, 0x01, 127, 0, 0, 1, 0x1A, 0x0A]);
    assert_eq!(SocksReply::parse(&bytes).unwrap(), r);
    assert_eq!(r.port(), 6666);
    assert_eq!(r.addr(), Ipv4::new(127, 0, 0, 1));
}

#[test]
fn reply_parse_errors() {
    assert_eq!(SocksReply::parse(&[]), Err(HandshakeError::Incomplete));
    assert_eq!(SocksReply::parse(&[4]), Err(HandshakeError::UnsupportedVersion));
    assert_eq!(SocksReply::parse(&[5]), Err(HandshakeError::Incomplete));
    assert_eq!(SocksReply::parse(&[5, 9]), Err(HandshakeError::UnsupportedRepType));
    assert_eq!(SocksReply::parse(&[5, 0, 0]), Err(HandshakeError::Incomplete));
    assert_eq!(SocksReply::parse(&[5, 0, 0, 3]), Err(HandshakeError::UnsupportedAddrType));
    assert_eq!(SocksReply::parse(&[5, 0, 0, 1, 127, 0, 0, 1, 0x1A]), Err(HandshakeError::Incomplete));
}

#[test]
fn client_greeting_bytes() {
    let msg = ClientConnectMsg::new(SocksVersion::V5, 1, vec![SocksMethod::NoAuth]);
    assert_eq!(msg.to_request(), vec![0x05, 0x01, 0x00]);
    let msg = ClientConnectMsg::new(SocksVersion::V5, 2, vec![SocksMethod::NoAcceptableMethod, SocksMethod::NoAuth]);
    assert_eq!(msg.to_request(), vec![0x05, 0x02, 0xFF, 0x00]);
    let msg = ClientConnectMsg::new(SocksVersion::V5, 0, vec![]);
    assert_eq!(msg.to_request(), vec![0x05, 0x00]);
}

#[test]
fn error_messages() {
    assert_eq!(HandshakeError::UnsupportedVersion.message(), "unsupported SOCKS version");
    assert_eq!(HandshakeError::Incomplete.message(), "incomplete input");
    assert_eq!(HandshakeError::UnsupportedRepType.message(), "unsupported rep");
}
