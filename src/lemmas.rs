use vstd::prelude::*;

use crate::handshake::addr_type::AddrType;
use crate::handshake::cmd::SocksCmd;
use crate::handshake::error::HandshakeError;
use crate::handshake::method::SocksMethod;
use crate::handshake::reply_field::{lemma_reply_byte_onto, ReplyField};
use crate::handshake::version::SocksVersion;
use crate::handshake::{methods_of, port_of, spec_parse_request, spec_step, SocksHandshake, StateView};
use crate::server::{spec_on_client_bytes, spec_on_dial, ConnState, ConnView, DialOutcome, Next};

verus! {

/// Encoding a reply code and decoding the byte gives the code back; every
/// byte from 9 up is refused.
pub proof fn lemma_reply_field_round_trip(f: ReplyField, b: u8)
    ensures
        ReplyField::spec_parse(f.spec_byte()) == Ok::<ReplyField, HandshakeError>(f),
        b >= 9 ==> ReplyField::spec_parse(b) == Err::<ReplyField, HandshakeError>(HandshakeError::UnsupportedRepType),
{
    lemma_reply_byte_onto(f.spec_byte());
    let g = choose|g: ReplyField| g.spec_byte() == f.spec_byte();
    assert(g == f);
}

/// Encoding then decoding gives back the method, the command, the address
/// type and the version; any other byte is refused with the matching error
/// (a method byte other than "no authentication" reads as unacceptable).
pub proof fn lemma_codec_round_trip(m: SocksMethod, c: SocksCmd, a: AddrType, v: SocksVersion, b: u8)
    ensures
        SocksMethod::spec_from_byte(m.spec_byte()) == m,
        SocksCmd::spec_parse(c.spec_byte()) == Ok::<SocksCmd, HandshakeError>(c),
        AddrType::spec_parse(a.spec_byte()) == Ok::<AddrType, HandshakeError>(a),
        SocksVersion::spec_parse(v.spec_byte()) == Ok::<SocksVersion, HandshakeError>(v),
        b != 1 ==> SocksCmd::spec_parse(b) == Err::<SocksCmd, HandshakeError>(HandshakeError::UnsupportedCommand),
        b != 1 ==> AddrType::spec_parse(b) == Err::<AddrType, HandshakeError>(HandshakeError::UnsupportedAddrType),
        b != 5 ==> SocksVersion::spec_parse(b) == Err::<SocksVersion, HandshakeError>(HandshakeError::UnsupportedVersion),
        b != 0 ==> SocksMethod::spec_from_byte(b) == SocksMethod::NoAcceptableMethod,
{
}

/// The greeting `[5, n, methods..]`.
pub open spec fn greeting(ms: Seq<u8>) -> Seq<u8> {
    seq![5u8, ms.len() as u8] + ms
}

/// The server selects "no authentication" exactly when the client offers it,
/// wherever it stands in the list; otherwise (an empty list too) it answers
/// that no method is acceptable.
pub proof fn lemma_method_selection(ms: Seq<u8>)
    requires
        ms.len() <= 255,
    ensures
        spec_step(StateView::Init, greeting(ms)) == Ok::<(StateView, Seq<u8>, nat), HandshakeError>(
            (
                StateView::Wait(SocksVersion::V5, methods_of(ms)),
                seq![5u8, if ms.contains(0u8) { 0x00u8 } else { 0xFFu8 }],
                2 + ms.len(),
            ),
        ),
{
    let b = greeting(ms);
    assert(b.subrange(2, 2 + b[1]) =~= ms);
    if ms.contains(0u8) {
        let i = choose|i: int| 0 <= i < ms.len() && ms[i] == 0u8;
        assert(methods_of(ms)[i] == SocksMethod::NoAuth);
        assert(methods_of(ms).contains(SocksMethod::NoAuth));
    } else {
        assert forall|i: int| 0 <= i < methods_of(ms).len() implies methods_of(ms)[i] != SocksMethod::NoAuth by {
            assert(ms[i] != 0u8);
        }
        assert(!methods_of(ms).contains(SocksMethod::NoAuth));
    }
}

/// Once the request is parsed, every further chunk, empty or not, leaves the
/// state as it is, sends nothing and is not an error.
pub proof fn lemma_finished_absorbs(h: SocksHandshake, chunk: Seq<u8>)
    ensures
        spec_step(StateView::Finished(h), chunk) == Ok::<(StateView, Seq<u8>, nat), HandshakeError>(
            (StateView::Finished(h), Seq::empty(), 0),
        ),
{
}

/// A refused dial is answered with "connection refused", any other failed
/// dial with "general server failure", and both close the connection; a dial
/// that succeeds is answered with "succeeded" and starts the relay.
pub proof fn lemma_dial_failure_mapping(c: ConnView, h: SocksHandshake)
    requires
        c.conn == ConnState::Dialing(h),
    ensures
        spec_on_dial(c, DialOutcome::Refused).1.send[1] == ReplyField::ConnectionRefused.spec_byte(),
        spec_on_dial(c, DialOutcome::Refused).1.next == Next::Close(None),
        spec_on_dial(c, DialOutcome::Failed).1.send[1] == ReplyField::SocksServerFailure.spec_byte(),
        spec_on_dial(c, DialOutcome::Failed).1.next == Next::Close(None),
        spec_on_dial(c, DialOutcome::Connected).1.send[1] == ReplyField::Succeeded.spec_byte(),
        spec_on_dial(c, DialOutcome::Connected).1.next == Next::Relay,
        spec_on_dial(c, DialOutcome::Connected).0.conn == ConnState::ConnEstablished,
{
}

/// The bytes of a list of chunks, in order.
pub open spec fn concat_chunks(chunks: Seq<Seq<u8>>) -> Seq<u8>
    decreases chunks.len(),
{
    if chunks.len() == 0 {
        Seq::empty()
    } else {
        chunks[0] + concat_chunks(chunks.drop_first())
    }
}

/// Feeds chunks to a connection one by one, as long as it is handshaking;
/// gives the connection at the end and all the bytes it sent.
pub open spec fn feed_all(c: ConnView, chunks: Seq<Seq<u8>>) -> (ConnView, Seq<u8>)
    decreases chunks.len(),
{
    if chunks.len() == 0 {
        (c, Seq::empty())
    } else {
        let (c1, st) = spec_on_client_bytes(c, chunks[0]);
        if c1.conn == ConnState::Handshake {
            let (c2, sent) = feed_all(c1, chunks.drop_first());
            (c2, st.send + sent)
        } else {
            (c1, st.send)
        }
    }
}

/// A fresh connection.
pub open spec fn fresh_conn() -> ConnView {
    ConnView { hs: StateView::Init, pending: Seq::empty(), conn: ConnState::Handshake }
}

/// The greeting and then the request, as a client sends them.
pub open spec fn handshake_message(ms: Seq<u8>, h: SocksHandshake) -> Seq<u8> {
    greeting(ms) + h.spec_request()
}

/// Where a connection stands once the first `k` bytes of the message are in.
spec fn canon(ms: Seq<u8>, h: SocksHandshake, k: int) -> ConnView {
    let g = greeting(ms);
    let m = handshake_message(ms, h);
    if k < g.len() {
        ConnView { hs: StateView::Init, pending: m.subrange(0, k), conn: ConnState::Handshake }
    } else if k < m.len() {
        ConnView {
            hs: StateView::Wait(SocksVersion::V5, methods_of(ms)),
            pending: m.subrange(g.len() as int, k),
            conn: ConnState::Handshake,
        }
    } else {
        ConnView { hs: StateView::Finished(h), pending: Seq::empty(), conn: ConnState::Dialing(h) }
    }
}

/// What has been sent once the first `k` bytes are in.
spec fn canon_sent(ms: Seq<u8>, k: int) -> Seq<u8> {
    if k < greeting(ms).len() {
        Seq::empty()
    } else {
        seq![5u8, 0u8]
    }
}

proof fn lemma_port_round_trip(p: u16)
    ensures
        port_of(((p / 256) as u8), ((p % 256) as u8)) == p,
{
}

/// The request parses to itself, and any strict prefix of it is incomplete.
proof fn lemma_request_prefix(h: SocksHandshake, j: int)
    requires
        0 <= j <= 10,
    ensures
        j < 10 ==> spec_parse_request(SocksVersion::V5, h.spec_request().subrange(0, j))
            == Err::<SocksHandshake, HandshakeError>(HandshakeError::Incomplete),
        j == 10 ==> spec_parse_request(SocksVersion::V5, h.spec_request().subrange(0, j))
            == Ok::<SocksHandshake, HandshakeError>(h),
{
    let q = h.spec_request().subrange(0, j);
    if j == 10 {
        lemma_port_round_trip(h.port);
        let r = spec_parse_request(SocksVersion::V5, q)->Ok_0;
        assert(r.addr == h.addr);
        assert(r.port == h.port);
        assert(r == h);
    }
}

/// One chunk of the message, from the state of its first `k` bytes, leads to
/// the state of the first `k + |chunk|`, and sends what lies between.
proof fn lemma_one_chunk(ms: Seq<u8>, h: SocksHandshake, k: int, k2: int)
    requires
        ms.len() <= 255,
        ms.contains(0u8),
        0 <= k < k2 <= handshake_message(ms, h).len(),
    ensures
        spec_on_client_bytes(canon(ms, h, k), handshake_message(ms, h).subrange(k, k2)).0 == canon(ms, h, k2),
        canon_sent(ms, k) + spec_on_client_bytes(canon(ms, h, k), handshake_message(ms, h).subrange(k, k2)).1.send
            == canon_sent(ms, k2),
{
    let g = greeting(ms);
    let q = h.spec_request();
    let m = handshake_message(ms, h);
    let gl = g.len() as int;
    let c = canon(ms, h, k);
    let chunk = m.subrange(k, k2);
    lemma_method_selection(ms);
    assert(ms.contains(0u8));
    if k < gl {
        let b = c.pending + chunk;
        assert(b =~= m.subrange(0, k2));
        if k2 < gl {
            assert(b[0] == 5u8);
            assert(b.len() >= 2 ==> b[1] == ms.len() as u8);
            assert(spec_step(StateView::Init, b) == Err::<(StateView, Seq<u8>, nat), HandshakeError>(HandshakeError::Incomplete));
            assert(canon_sent(ms, k) + Seq::<u8>::empty() =~= canon_sent(ms, k2));
        } else {
            assert(b.subrange(0, gl) =~= g);
            assert(b.subrange(2, 2 + b[1]) =~= ms);
            assert(spec_step(StateView::Init, b) == spec_step(StateView::Init, g));
            let rest = b.subrange(gl, b.len() as int);
            assert(rest =~= q.subrange(0, k2 - gl));
            lemma_request_prefix(h, k2 - gl);
            if k2 < m.len() {
                assert(canon(ms, h, k2).pending =~= rest);
            } else {
                assert(rest.subrange(10, rest.len() as int) =~= Seq::<u8>::empty());
            }
            assert(canon_sent(ms, k) + seq![5u8, 0u8] + Seq::<u8>::empty() =~= canon_sent(ms, k2));
            assert(canon_sent(ms, k) + seq![5u8, 0u8] =~= canon_sent(ms, k2));
        }
    } else {
        let b = c.pending + chunk;
        assert(b =~= q.subrange(0, k2 - gl));
        lemma_request_prefix(h, k2 - gl);
        if k2 < m.len() {
            assert(canon(ms, h, k2).pending =~= b);
        } else {
            assert(b.subrange(10, b.len() as int) =~= Seq::<u8>::empty());
        }
        assert(canon_sent(ms, k) + Seq::<u8>::empty() =~= canon_sent(ms, k2));
    }
}

proof fn lemma_feed_from(ms: Seq<u8>, h: SocksHandshake, k: int, chunks: Seq<Seq<u8>>)
    requires
        ms.len() <= 255,
        ms.contains(0u8),
        0 <= k < handshake_message(ms, h).len(),
        forall|i: int| 0 <= i < chunks.len() ==> (#[trigger] chunks[i]).len() > 0,
        concat_chunks(chunks) == handshake_message(ms, h).subrange(k, handshake_message(ms, h).len() as int),
    ensures
        canon_sent(ms, k) + feed_all(canon(ms, h, k), chunks).1 == seq![5u8, 0u8],
        feed_all(canon(ms, h, k), chunks).0 == canon(ms, h, handshake_message(ms, h).len() as int),
    decreases chunks.len(),
{
    let m = handshake_message(ms, h);
    if chunks.len() == 0 {
        assert(concat_chunks(chunks).len() == 0);
        assert(false);
    } else {
        let c0 = chunks[0];
        let k2 = k + c0.len();
        assert(c0.len() > 0);
        assert(concat_chunks(chunks) == c0 + concat_chunks(chunks.drop_first()));
        assert(k2 <= m.len()) by {
            assert((c0 + concat_chunks(chunks.drop_first())).len() == m.len() - k);
        }
        assert(c0 =~= m.subrange(k, k2)) by {
            assert forall|i: int| 0 <= i < c0.len() implies c0[i] == m.subrange(k, k2)[i] by {
                assert((c0 + concat_chunks(chunks.drop_first()))[i] == c0[i]);
            }
        }
        lemma_one_chunk(ms, h, k, k2);
        if k2 < m.len() {
            let rest = chunks.drop_first();
            assert(concat_chunks(rest) =~= m.subrange(k2, m.len() as int)) by {
                assert forall|i: int| 0 <= i < concat_chunks(rest).len() implies concat_chunks(rest)[i] == m.subrange(k2, m.len() as int)[i] by {
                    assert((c0 + concat_chunks(rest))[c0.len() + i] == concat_chunks(rest)[i]);
                }
            }
            lemma_feed_from(ms, h, k2, rest);
            let st = spec_on_client_bytes(canon(ms, h, k), c0).1;
            let tail = feed_all(canon(ms, h, k2), rest).1;
            assert(canon_sent(ms, k) + (st.send + tail) =~= (canon_sent(ms, k) + st.send) + tail);
        }
    }
}

/// A well-formed greeting that offers "no authentication", followed by a
/// CONNECT request, leads to the same parsed request, the same bytes sent
/// back and the same dial, whether it arrives as one chunk or split into any
/// number of non-empty chunks.
pub proof fn lemma_incremental_parsing(ms: Seq<u8>, h: SocksHandshake, chunks: Seq<Seq<u8>>)
    requires
        ms.len() <= 255,
        ms.contains(0u8),
        forall|i: int| 0 <= i < chunks.len() ==> (#[trigger] chunks[i]).len() > 0,
        concat_chunks(chunks) == handshake_message(ms, h),
    ensures
        feed_all(fresh_conn(), chunks) == feed_all(fresh_conn(), seq![handshake_message(ms, h)]),
        feed_all(fresh_conn(), chunks) == (
            ConnView { hs: StateView::Finished(h), pending: Seq::empty(), conn: ConnState::Dialing(h) },
            seq![5u8, 0u8],
        ),
{
    let m = handshake_message(ms, h);
    assert(canon(ms, h, 0) == fresh_conn()) by {
        assert(m.subrange(0, 0) =~= Seq::<u8>::empty());
    }
    assert(m.subrange(0, m.len() as int) =~= m);
    lemma_feed_from(ms, h, 0, chunks);
    assert(canon_sent(ms, 0) + feed_all(fresh_conn(), chunks).1 =~= feed_all(fresh_conn(), chunks).1);
    let one = seq![m];
    assert(concat_chunks(one) =~= m) by {
        assert(one.drop_first().len() == 0);
        assert(concat_chunks(one.drop_first()) == Seq::<u8>::empty());
        assert(concat_chunks(one) == one[0] + concat_chunks(one.drop_first()));
    }
    lemma_feed_from(ms, h, 0, one);
    assert(canon_sent(ms, 0) + feed_all(fresh_conn(), one).1 =~= feed_all(fresh_conn(), one).1);
}

} // verus!
