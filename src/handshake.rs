pub mod addr_type;
pub mod cmd;
pub mod error;
pub mod method;
pub mod reply;
pub mod reply_field;
pub mod version;

use vstd::prelude::*;

use crate::decimal::{decimal, push_decimal};
use crate::handshake::addr_type::AddrType;
use crate::handshake::cmd::SocksCmd;
use crate::handshake::error::HandshakeError;
use crate::handshake::method::SocksMethod;
use crate::handshake::version::SocksVersion;

verus! {

/// An IPv4 address, as its four octets in network order.
#[derive(Clone, Copy, PartialEq, Eq, Structural, Debug)]
pub struct Ipv4 {
    pub a: u8,
    pub b: u8,
    pub c: u8,
    pub d: u8,
}

impl Ipv4 {
    pub fn new(a: u8, b: u8, c: u8, d: u8) -> (r: Ipv4)
        ensures
            r == (Ipv4 { a, b, c, d }),
    {
        Ipv4 { a, b, c, d }
    }

    /// The four octets, in network order.
    pub open spec fn octets(self) -> Seq<u8> {
        seq![self.a, self.b, self.c, self.d]
    }

    /// The dotted-quad text of the address.
    pub open spec fn spec_text(self) -> Seq<char> {
        decimal(self.a as nat) + seq!['.'] + decimal(self.b as nat) + seq!['.'] + decimal(self.c as nat)
            + seq!['.'] + decimal(self.d as nat)
    }
}

/// The high byte of a port in network order.
pub open spec fn port_hi(port: u16) -> u8 {
    (port / 256) as u8
}

/// The low byte of a port in network order.
pub open spec fn port_lo(port: u16) -> u8 {
    (port % 256) as u8
}

/// The port that two bytes in network order encode.
pub open spec fn port_of(hi: u8, lo: u8) -> u16 {
    (hi as nat * 256 + lo as nat) as u16
}

/// A message that carries an IPv4 address.
pub trait WithIpv4Addr {
    spec fn spec_addr(&self) -> Ipv4;

    fn addr(&self) -> (r: Ipv4)
        ensures
            r == self.spec_addr(),
    ;

    /// The four octets of the address, in network order.
    fn addr_to_bytes(&self) -> (r: Vec<u8>)
        ensures
            r@ == self.spec_addr().octets(),
    {
        let a = self.addr();
        let r = vec![a.a, a.b, a.c, a.d];
        assert(r@ =~= a.octets());
        r
    }
}

/// A message that carries a port.
pub trait WithPort {
    spec fn spec_port(&self) -> u16;

    fn port(&self) -> (r: u16)
        ensures
            r == self.spec_port(),
    ;

    /// The two bytes of the port, in network order.
    fn port_to_bytes(&self) -> (r: Vec<u8>)
        ensures
            r@ == seq![port_hi(self.spec_port()), port_lo(self.spec_port())],
    {
        let p = self.port();
        let hi = (p / 256) as u8;
        let lo = (p % 256) as u8;
        vec![hi, lo]
    }
}

/// A parsed CONNECT request.
#[derive(Clone, Copy, PartialEq, Eq, Structural, Debug)]
pub struct SocksHandshake {
    pub version: SocksVersion,
    pub cmd: SocksCmd,
    pub addr: Ipv4,
    pub port: u16,
    pub atyp: AddrType,
}

/// The ten bytes of a request or reply: version, a code, the reserved zero,
/// the address type, four address octets and the port in network order.
pub open spec fn frame_bytes(version: u8, code: u8, atyp: u8, addr: Ipv4, port: u16) -> Seq<u8> {
    seq![version, code, 0u8, atyp, addr.a, addr.b, addr.c, addr.d,
        port_hi(port), port_lo(port)]
}

/// Builds the ten-byte frame shared by requests and replies.
pub fn frame(version: u8, code: u8, atyp: u8, addr_bytes: Vec<u8>, port_bytes: Vec<u8>) -> (r: Vec<u8>)
    requires
        addr_bytes@.len() == 4,
        port_bytes@.len() == 2,
    ensures
        r@ == seq![version, code, 0u8, atyp] + addr_bytes@ + port_bytes@,
{
    let ghost addr_seq = addr_bytes@;
    let ghost port_seq = port_bytes@;
    let mut addr_bytes = addr_bytes;
    let mut port_bytes = port_bytes;
    let mut r: Vec<u8> = Vec::new();
    r.push(version);
    r.push(code);
    r.push(0);
    r.push(atyp);
    r.append(&mut addr_bytes);
    r.append(&mut port_bytes);
    assert(r@ =~= seq![version, code, 0u8, atyp] + addr_seq + port_seq) by {
        assert(seq![version, code, 0u8, atyp] =~= seq![].push(version).push(code).push(0u8).push(atyp));
    }
    r
}

impl SocksHandshake {
    /// The text `"{address}:{port}"` that names the target of the request.
    pub open spec fn spec_addr_text(self) -> Seq<char> {
        self.addr.spec_text() + seq![':'] + decimal(self.port as nat)
    }

    /// The request as the ten bytes a client sends.
    pub open spec fn spec_request(self) -> Seq<u8> {
        frame_bytes(self.version.spec_byte(), self.cmd.spec_byte(), self.atyp.spec_byte(), self.addr, self.port)
    }

    pub fn to_addr(&self) -> (r: String)
        ensures
            r@ == self.spec_addr_text(),
    {
        let mut s = String::new();
        push_decimal(&mut s, self.addr.a as u16);
        s.append(".");
        push_decimal(&mut s, self.addr.b as u16);
        s.append(".");
        push_decimal(&mut s, self.addr.c as u16);
        s.append(".");
        push_decimal(&mut s, self.addr.d as u16);
        s.append(":");
        push_decimal(&mut s, self.port);
        proof {
            reveal_strlit(".");
            reveal_strlit(":");
            assert(s@ =~= self.spec_addr_text());
        }
        s
    }

    pub fn to_request(&self) -> (r: Vec<u8>)
        ensures
            r@ == self.spec_request(),
    {
        let r = frame(self.version.into(), self.cmd.into(), self.atyp.into(), self.addr_to_bytes(), self.port_to_bytes());
        assert(r@ =~= self.spec_request());
        r
    }
}

impl WithIpv4Addr for SocksHandshake {
    open spec fn spec_addr(&self) -> Ipv4 {
        self.addr
    }

    fn addr(&self) -> (r: Ipv4) {
        self.addr
    }
}

impl WithPort for SocksHandshake {
    open spec fn spec_port(&self) -> u16 {
        self.port
    }

    fn port(&self) -> (r: u16) {
        self.port
    }
}

/// Where a handshake stands.
#[derive(Clone, Debug)]
pub enum HandshakeState {
    /// Nothing read yet.
    Init,
    /// Methods negotiated and answered; the CONNECT request is awaited.
    Wait(SocksVersion, Vec<SocksMethod>),
    /// The CONNECT request is parsed; nothing more is read.
    Finished(SocksHandshake),
}

/// The mathematical value of a [`HandshakeState`].
pub enum StateView {
    Init,
    Wait(SocksVersion, Seq<SocksMethod>),
    Finished(SocksHandshake),
}

impl View for HandshakeState {
    type V = StateView;

    open spec fn view(&self) -> StateView {
        match self {
            HandshakeState::Init => StateView::Init,
            HandshakeState::Wait(v, ms) => StateView::Wait(*v, ms@),
            HandshakeState::Finished(h) => StateView::Finished(*h),
        }
    }
}

/// The method the server selects: "no authentication" where the client offers
/// it, else none.
pub open spec fn spec_select_method(methods: Seq<SocksMethod>) -> SocksMethod {
    if methods.contains(SocksMethod::NoAuth) {
        SocksMethod::NoAuth
    } else {
        SocksMethod::NoAcceptableMethod
    }
}

/// The methods that the bytes of a greeting offer.
pub open spec fn methods_of(b: Seq<u8>) -> Seq<SocksMethod> {
    b.map_values(|x: u8| SocksMethod::spec_from_byte(x))
}

/// Reads `[version, n, method_1 .. method_n]`.
pub open spec fn spec_parse_greeting(b: Seq<u8>) -> Result<(SocksVersion, Seq<SocksMethod>), HandshakeError> {
    if b.len() < 1 {
        Err(HandshakeError::Incomplete)
    } else if SocksVersion::spec_parse(b[0]) is Err {
        Err(HandshakeError::UnsupportedVersion)
    } else if b.len() < 2 || b.len() < 2 + b[1] {
        Err(HandshakeError::Incomplete)
    } else {
        Ok((SocksVersion::spec_parse(b[0])->Ok_0, methods_of(b.subrange(2, 2 + b[1]))))
    }
}

/// Reads a CONNECT request field by field, left to right: the first field
/// that is missing or invalid decides the error. The reserved byte is skipped.
pub open spec fn spec_parse_request(expected: SocksVersion, b: Seq<u8>) -> Result<SocksHandshake, HandshakeError> {
    if b.len() < 1 {
        Err(HandshakeError::Incomplete)
    } else if SocksVersion::spec_parse(b[0]) is Err || SocksVersion::spec_parse(b[0])->Ok_0 != expected {
        Err(HandshakeError::UnsupportedVersion)
    } else if b.len() < 2 {
        Err(HandshakeError::Incomplete)
    } else if SocksCmd::spec_parse(b[1]) is Err {
        Err(HandshakeError::UnsupportedCommand)
    } else if b.len() < 4 {
        Err(HandshakeError::Incomplete)
    } else if AddrType::spec_parse(b[3]) is Err {
        Err(HandshakeError::UnsupportedAddrType)
    } else if b.len() < 10 {
        Err(HandshakeError::Incomplete)
    } else {
        Ok(
            SocksHandshake {
                version: expected,
                cmd: SocksCmd::spec_parse(b[1])->Ok_0,
                addr: Ipv4 { a: b[4], b: b[5], c: b[6], d: b[7] },
                port: port_of(b[8], b[9]),
                atyp: AddrType::spec_parse(b[3])->Ok_0,
            },
        )
    }
}

/// One step of the handshake on a chunk that starts a message: the next
/// state, the bytes to send back, and how many bytes of the chunk the
/// message took.
pub open spec fn spec_step(s: StateView, b: Seq<u8>) -> Result<(StateView, Seq<u8>, nat), HandshakeError> {
    match s {
        StateView::Init => match spec_parse_greeting(b) {
            Ok((v, ms)) => Ok(
                (
                    StateView::Wait(v, ms),
                    seq![v.spec_byte(), spec_select_method(ms).spec_byte()],
                    2 + ms.len(),
                ),
            ),
            Err(e) => Err(e),
        },
        StateView::Wait(v, _) => match spec_parse_request(v, b) {
            Ok(h) => Ok((StateView::Finished(h), Seq::empty(), 10)),
            Err(e) => Err(e),
        },
        StateView::Finished(h) => Ok((StateView::Finished(h), Seq::empty(), 0)),
    }
}

/// Drives a handshake, one chunk at a time.
#[derive(Clone)]
pub struct HandshakeStateBuilder {
    state: HandshakeState,
}

fn copy_methods(ms: &Vec<SocksMethod>) -> (r: Vec<SocksMethod>)
    ensures
        r@ == ms@,
{
    let mut r: Vec<SocksMethod> = Vec::new();
    let mut i: usize = 0;
    while i < ms.len()
        invariant
            i <= ms@.len(),
            r@ == ms@.subrange(0, i as int),
        decreases ms@.len() - i,
    {
        r.push(ms[i]);
        i += 1;
        assert(r@ =~= ms@.subrange(0, i as int));
    }
    assert(r@ =~= ms@);
    r
}

impl HandshakeStateBuilder {
    pub closed spec fn spec_state(&self) -> StateView {
        self.state@
    }

    pub fn new() -> (r: Self)
        ensures
            r.spec_state() == StateView::Init,
    {
        HandshakeStateBuilder { state: HandshakeState::Init }
    }

    pub fn state(&self) -> (r: HandshakeState)
        ensures
            r@ == self.spec_state(),
    {
        match &self.state {
            HandshakeState::Init => HandshakeState::Init,
            HandshakeState::Wait(v, ms) => HandshakeState::Wait(*v, copy_methods(ms)),
            HandshakeState::Finished(h) => HandshakeState::Finished(*h),
        }
    }

    /// Feeds one chunk, which must hold a whole message from its first byte.
    /// Returns the bytes to send back to the client.
    pub fn advance(&mut self, buf: &[u8]) -> (r: Result<Vec<u8>, HandshakeError>)
        ensures
            match spec_step(old(self).spec_state(), buf@) {
                Ok((s, reply, _)) => r is Ok && r->Ok_0@ == reply && final(self).spec_state() == s,
                Err(e) => r == Err::<Vec<u8>, HandshakeError>(e) && final(self).spec_state() == old(self).spec_state(),
            },
    {
        match self.advance_prefix(buf) {
            Ok((reply, _)) => Ok(reply),
            Err(e) => Err(e),
        }
    }

    /// As [`advance`](Self::advance), and also returns how many bytes of
    /// `buf` the message took, so that a caller can keep the rest.
    pub fn advance_prefix(&mut self, buf: &[u8]) -> (r: Result<(Vec<u8>, usize), HandshakeError>)
        ensures
            match spec_step(old(self).spec_state(), buf@) {
                Ok((s, reply, n)) => r is Ok && r->Ok_0.0@ == reply && r->Ok_0.1 == n
                    && final(self).spec_state() == s,
                Err(e) => r == Err::<(Vec<u8>, usize), HandshakeError>(e)
                    && final(self).spec_state() == old(self).spec_state(),
            },
    {
        match self.state {
            HandshakeState::Init => self.advance_from_init(buf),
            HandshakeState::Wait(current_version, _) => self.advance_from_wait(buf, current_version),
            HandshakeState::Finished(_) => Ok((Vec::new(), 0)),
        }
    }

    fn advance_from_wait(&mut self, buf: &[u8], current_version: SocksVersion) -> (r: Result<(Vec<u8>, usize), HandshakeError>)
        requires
            old(self).spec_state() matches StateView::Wait(v, _) && v == current_version,
        ensures
            match spec_step(old(self).spec_state(), buf@) {
                Ok((s, reply, n)) => r is Ok && r->Ok_0.0@ == reply && r->Ok_0.1 == n
                    && final(self).spec_state() == s,
                Err(e) => r == Err::<(Vec<u8>, usize), HandshakeError>(e)
                    && final(self).spec_state() == old(self).spec_state(),
            },
    {
        if buf.len() < 1 {
            return Err(HandshakeError::Incomplete);
        }
        let version = SocksVersion::try_from(buf[0])?;
        if current_version != version {
            return Err(HandshakeError::UnsupportedVersion);
        }
        if buf.len() < 2 {
            return Err(HandshakeError::Incomplete);
        }
        let cmd = SocksCmd::try_from(buf[1])?;
        if buf.len() < 4 {
            return Err(HandshakeError::Incomplete);
        }
        let atyp = AddrType::try_from(buf[3])?;
        if buf.len() < 10 {
            return Err(HandshakeError::Incomplete);
        }
        let addr = Ipv4::new(buf[4], buf[5], buf[6], buf[7]);
        let port = (buf[8] as u16) * 256 + buf[9] as u16;
        self.state = HandshakeState::Finished(SocksHandshake { version, cmd, addr, port, atyp });
        Ok((Vec::new(), 10))
    }

    fn advance_from_init(&mut self, buf: &[u8]) -> (r: Result<(Vec<u8>, usize), HandshakeError>)
        requires
            old(self).spec_state() == StateView::Init,
        ensures
            match spec_step(old(self).spec_state(), buf@) {
                Ok((s, reply, n)) => r is Ok && r->Ok_0.0@ == reply && r->Ok_0.1 == n
                    && final(self).spec_state() == s,
                Err(e) => r == Err::<(Vec<u8>, usize), HandshakeError>(e)
                    && final(self).spec_state() == old(self).spec_state(),
            },
    {
        if buf.len() < 1 {
            return Err(HandshakeError::Incomplete);
        }
        let version = SocksVersion::try_from(buf[0])?;
        if buf.len() < 2 {
            return Err(HandshakeError::Incomplete);
        }
        let n_methods = buf[1] as usize;
        if buf.len() < 2 + n_methods {
            return Err(HandshakeError::Incomplete);
        }
        let mut methods: Vec<SocksMethod> = Vec::new();
        let mut i: usize = 0;
        while i < n_methods
            invariant
                n_methods == buf@[1],
                2 + n_methods <= buf@.len(),
                i <= n_methods,
                methods@ == methods_of(buf@.subrange(2, 2 + i)),
            decreases n_methods - i,
        {
            methods.push(SocksMethod::from(buf[2 + i]));
            i += 1;
            assert(methods@ =~= methods_of(buf@.subrange(2, 2 + i)));
        }
        let selected = self.select_method(&methods);
        let reply = vec![version.into(), selected.into()];
        self.state = HandshakeState::Wait(version, methods);
        Ok((reply, 2 + n_methods))
    }

    pub(crate) fn select_method(&self, methods: &Vec<SocksMethod>) -> (r: SocksMethod)
        ensures
            r == spec_select_method(methods@),
    {
        let mut i: usize = 0;
        while i < methods.len()
            invariant
                i <= methods@.len(),
                forall|j: int| 0 <= j < i ==> methods@[j] != SocksMethod::NoAuth,
            decreases methods@.len() - i,
        {
            if methods[i] == SocksMethod::NoAuth {
                assert(methods@[i as int] == SocksMethod::NoAuth);
                return SocksMethod::NoAuth;
            }
            i += 1;
        }
        SocksMethod::NoAcceptableMethod
    }
}

} // verus!
