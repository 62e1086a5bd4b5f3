use shoes::handshake::error::HandshakeError;
use shoes::handshake::reply_field::ReplyField;
use shoes::handshake::{Ipv4, SocksHandshake};
use shoes::server::{dial_reply_code, ConnHandler, ConnState, DialOutcome, Next};

const REQUEST: [u8; 10] = [0x05, 0x01, 0x00, 0x01, 127, 0, 0, 1, 0x1A, 0x0A];

fn target_of(next: Next) -> SocksHandshake {
    match next {
        Next::Dial(h) => h,
        other => panic!("expected a dial, got {:?}", other),
    }
}

fn dialing() -> ConnHandler {
    let mut c = ConnHandler::new();
    let step = c.on_client_bytes(&[0x05, 0x01, 0x00]);
    assert_eq!(step.send, vec![0x05, 0x00]);
    let step = c.on_client_bytes(&REQUEST);
    assert!(step.send.is_empty());
    let h = target_of(step.next);
    assert_eq!(h.addr, Ipv4::new(127, 0, 0, 1));
    assert_eq!(h.port, 6666);
    c
}

#[test]
fn method_negotiation_reply() {
    let mut c = ConnHandler::new();
    let step = c.on_client_bytes(&[0x05, 0x01, 0x00]);
    assert_eq!(step.send, vec![0x05, 0x00]);
    assert_eq!(step.next, Next::ReadMore);
    assert_eq!(c.conn_state(), ConnState::Handshake);
}

#[test]
fn connect_to_listening_target() {
    let mut c = dialing();
    let step = c.on_dial(DialOutcome::Connected);
    assert_eq!(step.send, vec![0x05, 0x00, 0x00, 0x01, 127, 0, 0, 1, 0x1A, 0x0A]);
    assert_eq!(step.next, Next::Relay);
    assert!(step.forward.is_empty());
    assert_eq!(c.conn_state(), ConnState::ConnEstablished);
}

#[test]
fn connect_refused_by_target() {
    let mut c = dialing();
    let step = c.on_dial(DialOutcome::Refused);
    assert_eq!(step.send, vec![0x05, 0x05, 0x00, 0x01, 127, 0, 0, 1, 0x1A, 0x0A]);
    assert_eq!(step.next, Next::Close(None));
    assert_eq!(c.conn_state(), ConnState::Closed);
}

#[test]
fn connect_fails_otherwise() {
    let mut c = dialing();
    let step = c.on_dial(DialOutcome::Failed);
    assert_eq!(step.send, vec![0x05, 0x01, 0x00, 0x01, 127, 0, 0, 1, 0x1A, 0x0A]);
    assert_eq!(step.next, Next::Close(None));
}

#[test]
fn dial_outcomes_map_to_reply_codes() {
    assert_eq!(dial_reply_code(DialOutcome::Connected), ReplyField::Succeeded);
    assert_eq!(dial_reply_code(DialOutcome::Refused), ReplyField::ConnectionRefused);
    assert_eq!(dial_reply_code(DialOutcome::Failed), ReplyField::SocksServerFailure);
}

#[test]
fn malformed_version_closes_without_reply() {
    let mut c = ConnHandler::new();
    let step = c.on_client_bytes(&[0x04, 0x01, 0x00]);
    assert!(step.send.is_empty());
    assert_eq!(step.next, Next::Close(Some(HandshakeError::UnsupportedVersion)));
    assert_eq!(c.conn_state(), ConnState::Closed);
}

#[test]
fn no_acceptable_method_closes_after_reply() {
    let mut c = ConnHandler::new();
    let step = c.on_client_bytes(&[0x05, 0x01, 0x02]);
    assert_eq!(step.send, vec![0x05, 0xFF]);
    assert_eq!(step.next, Next::Close(Some(HandshakeError::UnsupportedMethod)));
}

#[test]
fn empty_read_closes_cleanly() {
    let mut c = ConnHandler::new();
    let step = c.on_client_bytes(&[]);
    assert!(step.send.is_empty());
    assert_eq!(step.next, Next::Close(None));
}

#[test]
fn byte_by_byte_matches_one_chunk() {
    let mut message = vec![0x05, 0x02, 0x01, 0x00];
    message.extend_from_slice(&REQUEST);

    let mut whole = ConnHandler::new();
    let step = whole.on_client_bytes(&message);
    assert_eq!(step.send, vec![0x05, 0x00]);
    let expected = target_of(step.next);

    let mut split = ConnHandler::new();
    let mut sent = vec![];
    let mut last = Next::ReadMore;
    for (i, b) in message.iter().enumerate() {
        let step = split.on_client_bytes(&[*b]);
        sent.extend_from_slice(&step.send);
        last = step.next;
        if i + 1 < message.len() {
            assert_eq!(last, Next::ReadMore);
        }
    }
    assert_eq!(sent, vec![0x05, 0x00]);
    assert_eq!(target_of(last), expected);
}

#[test]
fn uneven_chunks_match_one_chunk() {
    let chunks: [&[u8]; 3] = [&[0x05], &[0x01, 0x00, 0x05, 0x01], &[0x00, 0x01, 127, 0, 0, 1, 0x1A, 0x0A]];
    let mut c = ConnHandler::new();
    let s1 = c.on_client_bytes(chunks[0]);
    assert!(s1.send.is_empty());
    assert_eq!(s1.next, Next::ReadMore);
    let s2 = c.on_client_bytes(chunks[1]);
    assert_eq!(s2.send, vec![0x05, 0x00]);
    assert_eq!(s2.next, Next::ReadMore);
    let s3 = c.on_client_bytes(chunks[2]);
    assert!(s3.send.is_empty());
    assert_eq!(target_of(s3.next).port, 6666);
}

#[test]
fn bytes_sent_ahead_reach_the_target() {
    let mut c = ConnHandler::new();
    let mut message = vec![0x05, 0x01, 0x00];
    message.extend_from_slice(&REQUEST);
    message.extend_from_slice(b"hello");
    let step = c.on_client_bytes(&message);
    assert_eq!(step.send, vec![0x05, 0x00]);
    target_of(step.next);
    let step = c.on_dial(DialOutcome::Connected);
    assert_eq!(step.forward, b"hello".to_vec());
    assert_eq!(step.next, Next::Relay);
}
