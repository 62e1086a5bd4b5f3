use shoes::handshake::addr_type::AddrType;
use shoes::handshake::cmd::SocksCmd;
use shoes::handshake::error::HandshakeError;
use shoes::handshake::method::SocksMethod;
use shoes::handshake::version::SocksVersion;
use shoes::handshake::{HandshakeState, HandshakeStateBuilder, Ipv4, SocksHandshake};

const REQUEST: [u8; 10] = [0x05, 0x01, 0x00, 0x01, 127, 0, 0, 1, 0x1A, 0x0A];

fn negotiated() -> HandshakeStateBuilder {
    let mut b = HandshakeStateBuilder::new();
    assert_eq!(b.advance(&[5, 1, 0]).unwrap(), vec![5, 0]);
    b
}

#[test]
fn greeting_with_no_auth_is_answered() {
    let b = negotiated();
    match b.state() {
        HandshakeState::Wait(v, ms) => {
            assert_eq!(v, SocksVersion::V5);
            assert_eq!(ms, vec![SocksMethod::NoAuth]);
        }
        other => panic!("unexpected state {:?}", other),
    }
}

#[test]
fn no_auth_selected_in_any_position() {
    for greeting in [vec![5, 3, 0, 1, 2], vec![5, 3, 1, 0, 2], vec![5, 3, 1, 2, 0]] {
        let mut b = HandshakeStateBuilder::new();
        assert_eq!(b.advance(&greeting).unwrap(), vec![5, 0x00]);
    }
}

#[test]
fn no_acceptable_method_without_no_auth() {
    let mut b = HandshakeStateBuilder::new();
    assert_eq!(b.advance(&[5, 2, 1, 2]).unwrap(), vec![5, 0xFF]);
    let mut b = HandshakeStateBuilder::new();
    assert_eq!(b.advance(&[5, 0]).unwrap(), vec![5, 0xFF]);
}

#[test]
fn short_greetings_are_incomplete() {
    for chunk in [vec![], vec![5], vec![5, 2, 0]] {
        let mut b = HandshakeStateBuilder::new();
        assert_eq!(b.advance(&chunk), Err(HandshakeError::Incomplete));
        assert!(matches!(b.state(), HandshakeState::Init));
    }
}

#[test]
fn greeting_with_wrong_version_is_refused() {
    let mut b = HandshakeStateBuilder::new();
    assert_eq!(b.advance(&[4, 1, 0]), Err(HandshakeError::UnsupportedVersion));
}

#[test]
fn request_completes_the_handshake() {
    let mut b = negotiated();
    let (reply, n) = b.advance_prefix(&REQUEST).unwrap();
    assert!(reply.is_empty());
    assert_eq!(n, 10);
    match b.state() {
        HandshakeState::Finished(h) => assert_eq!(
            h,
            SocksHandshake {
                version: SocksVersion::V5,
                cmd: SocksCmd::Connect,
                addr: Ipv4::new(127, 0, 0, 1),
                port: 6666,
                atyp: AddrType::Ipv4,
            }
        ),
        other => panic!("unexpected state {:?}", other),
    }
}

#[test]
fn request_errors_in_field_order() {
    let cases: [(Vec<u8>, HandshakeError); 7] = [
        (vec![], HandshakeError::Incomplete),
        (vec![4, 1, 0, 1], HandshakeError::UnsupportedVersion),
        (vec![5], HandshakeError::Incomplete),
        (vec![5, 2, 0, 1], HandshakeError::UnsupportedCommand),
        (vec![5, 1, 0], HandshakeError::Incomplete),
        (vec![5, 1, 0, 3, 1, 2, 3, 4, 0, 80], HandshakeError::UnsupportedAddrType),
        (vec![5, 1, 0, 1, 127, 0, 0, 1, 0x1A], HandshakeError::Incomplete),
    ];
    for (chunk, err) in cases {
        let mut b = negotiated();
        assert_eq!(b.advance(&chunk), Err(err));
        assert!(matches!(b.state(), HandshakeState::Wait(_, _)));
    }
}

#[test]
fn finished_state_absorbs_input() {
    let mut b = negotiated();
    assert!(b.advance(&REQUEST).unwrap().is_empty());
    assert!(b.advance(&[1, 2, 3]).unwrap().is_empty());
    assert!(b.advance(&[]).unwrap().is_empty());
    assert!(b.advance(&REQUEST).unwrap().is_empty());
    assert!(matches!(b.state(), HandshakeState::Finished(_)));
}
