use vstd::prelude::*;

use crate::handshake::error::HandshakeError;

verus! {

/// The address type of a request; only one is supported.
#[derive(Clone, Copy, PartialEq, Eq, Structural, Debug)]
pub enum AddrType {
    Ipv4,
}

impl AddrType {
    /// The wire byte of the address type.
    pub open spec fn spec_byte(self) -> u8 {
        match self {
            AddrType::Ipv4 => 1,
        }
    }

    /// The address type a wire byte names, if any.
    pub open spec fn spec_parse(b: u8) -> Result<AddrType, HandshakeError> {
        if b == 1 {
            Ok(AddrType::Ipv4)
        } else {
            Err(HandshakeError::UnsupportedAddrType)
        }
    }
}

impl TryFrom<u8> for AddrType {
    type Error = HandshakeError;

    fn try_from(value: u8) -> (r: Result<Self, Self::Error>)
        ensures
            r == AddrType::spec_parse(value),
    {
        match value {
            1 => Ok(AddrType::Ipv4),
            _ => Err(HandshakeError::UnsupportedAddrType),
        }
    }
}

impl vstd::std_specs::convert::TryFromSpecImpl<u8> for AddrType {
    open spec fn obeys_try_from_spec() -> bool {
        true
    }

    open spec fn try_from_spec(v: u8) -> Result<Self, Self::Error> {
        AddrType::spec_parse(v)
    }
}

impl From<AddrType> for u8 {
    fn from(atyp: AddrType) -> (r: u8)
        ensures
            r == atyp.spec_byte(),
    {
        match atyp {
            AddrType::Ipv4 => 1,
        }
    }
}

impl vstd::std_specs::convert::FromSpecImpl<AddrType> for u8 {
    open spec fn obeys_from_spec() -> bool {
        true
    }

    open spec fn from_spec(v: AddrType) -> u8 {
        v.spec_byte()
    }
}

} // verus!
