use vstd::prelude::*;

use crate::handshake::addr_type::AddrType;
use crate::handshake::error::HandshakeError;
use crate::handshake::reply_field::ReplyField;
use crate::handshake::version::SocksVersion;
use crate::handshake::{frame, frame_bytes, port_of, Ipv4, WithIpv4Addr, WithPort};

verus! {

/// The server's answer to a CONNECT request.
#[derive(Clone, Copy, PartialEq, Eq, Structural, Debug)]
pub struct SocksReply {
    pub version: SocksVersion,
    pub rep: ReplyField,
    pub atyp: AddrType,
    pub bnd_addr: Ipv4,
    pub bnd_port: u16,
}

/// What a client reads from the bytes of a reply: fields left to right, the
/// first one that is missing or invalid deciding the error.
pub open spec fn spec_parse_reply(b: Seq<u8>) -> Result<SocksReply, HandshakeError> {
    if b.len() < 1 {
        Err(HandshakeError::Incomplete)
    } else if SocksVersion::spec_parse(b[0]) is Err {
        Err(HandshakeError::UnsupportedVersion)
    } else if b.len() < 2 {
        Err(HandshakeError::Incomplete)
    } else if ReplyField::spec_parse(b[1]) is Err {
        Err(HandshakeError::UnsupportedRepType)
    } else if b.len() < 4 {
        Err(HandshakeError::Incomplete)
    } else if AddrType::spec_parse(b[3]) is Err {
        Err(HandshakeError::UnsupportedAddrType)
    } else if b.len() < 10 {
        Err(HandshakeError::Incomplete)
    } else {
        Ok(
            SocksReply {
                version: SocksVersion::spec_parse(b[0])->Ok_0,
                rep: ReplyField::spec_parse(b[1])->Ok_0,
                atyp: AddrType::spec_parse(b[3])->Ok_0,
                bnd_addr: Ipv4 { a: b[4], b: b[5], c: b[6], d: b[7] },
                bnd_port: port_of(b[8], b[9]),
            },
        )
    }
}

impl SocksReply {
    /// The reply as the ten bytes a server sends.
    pub open spec fn spec_reply(self) -> Seq<u8> {
        frame_bytes(self.version.spec_byte(), self.rep.spec_byte(), self.atyp.spec_byte(), self.bnd_addr, self.bnd_port)
    }

    pub fn new(version: SocksVersion, rep: ReplyField, atyp: AddrType, addr: Ipv4, port: u16) -> (r: Self)
        ensures
            r == (SocksReply { version, rep, atyp, bnd_addr: addr, bnd_port: port }),
    {
        SocksReply { version, rep, atyp, bnd_addr: addr, bnd_port: port }
    }

    pub fn to_reply(&self) -> (r: Vec<u8>)
        ensures
            r@ == self.spec_reply(),
    {
        let r = frame(self.version.into(), self.rep.into(), self.atyp.into(), self.addr_to_bytes(), self.port_to_bytes());
        assert(r@ =~= self.spec_reply());
        r
    }

    pub fn parse(buf: &[u8]) -> (r: Result<Self, HandshakeError>)
        ensures
            r == spec_parse_reply(buf@),
    {
        if buf.len() < 1 {
            return Err(HandshakeError::Incomplete);
        }
        let version = SocksVersion::try_from(buf[0])?;
        if buf.len() < 2 {
            return Err(HandshakeError::Incomplete);
        }
        let rep = ReplyField::try_from(buf[1])?;
        if buf.len() < 4 {
            return Err(HandshakeError::Incomplete);
        }
        let atyp = AddrType::try_from(buf[3])?;
        if buf.len() < 10 {
            return Err(HandshakeError::Incomplete);
        }
        let addr = Ipv4::new(buf[4], buf[5], buf[6], buf[7]);
        let port = (buf[8] as u16) * 256 + buf[9] as u16;
        Ok(SocksReply::new(version, rep, atyp, addr, port))
    }
}

impl WithIpv4Addr for SocksReply {
    open spec fn spec_addr(&self) -> Ipv4 {
        self.bnd_addr
    }

    fn addr(&self) -> (r: Ipv4) {
        self.bnd_addr
    }
}

impl WithPort for SocksReply {
    open spec fn spec_port(&self) -> u16 {
        self.bnd_port
    }

    fn port(&self) -> (r: u16) {
        self.bnd_port
    }
}

} // verus!
