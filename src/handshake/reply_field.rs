use vstd::prelude::*;

use crate::handshake::error::HandshakeError;

verus! {

/// The status a server reports in its reply to a CONNECT request.
#[derive(Clone, Copy, PartialEq, Eq, Structural, Debug)]
pub enum ReplyField {
    Succeeded,
    SocksServerFailure,
    ConnectionNotAllowed,
    NetworkUnreachable,
    HostUnreachable,
    ConnectionRefused,
    TtlExpired,
    CommandNotSupported,
    AddrTypeNotSupported,
}

impl ReplyField {
    /// The wire byte of a reply code: its position in the list, from 0.
    pub open spec fn spec_byte(self) -> u8 {
        match self {
            ReplyField::Succeeded => 0,
            ReplyField::SocksServerFailure => 1,
            ReplyField::ConnectionNotAllowed => 2,
            ReplyField::NetworkUnreachable => 3,
            ReplyField::HostUnreachable => 4,
            ReplyField::ConnectionRefused => 5,
            ReplyField::TtlExpired => 6,
            ReplyField::CommandNotSupported => 7,
            ReplyField::AddrTypeNotSupported => 8,
        }
    }

    /// The reply code a wire byte names: the one whose byte it is, or an
    /// error for a byte of 9 or more.
    pub open spec fn spec_parse(b: u8) -> Result<ReplyField, HandshakeError> {
        if b < 9 {
            Ok(choose|f: ReplyField| f.spec_byte() == b)
        } else {
            Err(HandshakeError::UnsupportedRepType)
        }
    }
}

/// Each byte below 9 is the wire byte of exactly one reply code.
pub proof fn lemma_reply_byte_onto(b: u8)
    requires
        b < 9,
    ensures
        exists|f: ReplyField| f.spec_byte() == b,
{
    if b == 0 {
        assert(ReplyField::Succeeded.spec_byte() == b);
    } else if b == 1 {
        assert(ReplyField::SocksServerFailure.spec_byte() == b);
    } else if b == 2 {
        assert(ReplyField::ConnectionNotAllowed.spec_byte() == b);
    } else if b == 3 {
        assert(ReplyField::NetworkUnreachable.spec_byte() == b);
    } else if b == 4 {
        assert(ReplyField::HostUnreachable.spec_byte() == b);
    } else if b == 5 {
        assert(ReplyField::ConnectionRefused.spec_byte() == b);
    } else if b == 6 {
        assert(ReplyField::TtlExpired.spec_byte() == b);
    } else if b == 7 {
        assert(ReplyField::CommandNotSupported.spec_byte() == b);
    } else {
        assert(ReplyField::AddrTypeNotSupported.spec_byte() == b);
    }
}

impl TryFrom<u8> for ReplyField {
    type Error = HandshakeError;

    fn try_from(value: u8) -> (r: Result<Self, Self::Error>)
        ensures
            r == ReplyField::spec_parse(value),
            r is Ok ==> r->Ok_0.spec_byte() == value,
    {
        let r = match value {
            0 => Ok(ReplyField::Succeeded),
            1 => Ok(ReplyField::SocksServerFailure),
            2 => Ok(ReplyField::ConnectionNotAllowed),
            3 => Ok(ReplyField::NetworkUnreachable),
            4 => Ok(ReplyField::HostUnreachable),
            5 => Ok(ReplyField::ConnectionRefused),
            6 => Ok(ReplyField::TtlExpired),
            7 => Ok(ReplyField::CommandNotSupported),
            8 => Ok(ReplyField::AddrTypeNotSupported),
            _ => Err(HandshakeError::UnsupportedRepType),
        };
        proof {
            if value < 9 {
                lemma_reply_byte_onto(value);
                let f = choose|f: ReplyField| f.spec_byte() == value;
                assert(f == r->Ok_0);
            }
        }
        r
    }
}

impl vstd::std_specs::convert::TryFromSpecImpl<u8> for ReplyField {
    open spec fn obeys_try_from_spec() -> bool {
        true
    }

    open spec fn try_from_spec(v: u8) -> Result<Self, Self::Error> {
        ReplyField::spec_parse(v)
    }
}

impl From<ReplyField> for u8 {
    fn from(val: ReplyField) -> (r: u8)
        ensures
            r == val.spec_byte(),
    {
        match val {
            ReplyField::Succeeded => 0,
            ReplyField::SocksServerFailure => 1,
            ReplyField::ConnectionNotAllowed => 2,
            ReplyField::NetworkUnreachable => 3,
            ReplyField::HostUnreachable => 4,
            ReplyField::ConnectionRefused => 5,
            ReplyField::TtlExpired => 6,
            ReplyField::CommandNotSupported => 7,
            ReplyField::AddrTypeNotSupported => 8,
        }
    }
}

impl vstd::std_specs::convert::FromSpecImpl<ReplyField> for u8 {
    open spec fn obeys_from_spec() -> bool {
        true
    }

    open spec fn from_spec(v: ReplyField) -> u8 {
        v.spec_byte()
    }
}

} // verus!
