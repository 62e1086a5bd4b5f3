use vstd::prelude::*;

use crate::handshake::error::HandshakeError;

verus! {

/// The SOCKS protocol version; only version 5 is spoken.
#[derive(Clone, Copy, PartialEq, Eq, Structural, Debug)]
pub enum SocksVersion {
    V5,
}

impl SocksVersion {
    /// The wire byte of a version.
    pub open spec fn spec_byte(self) -> u8 {
        match self {
            SocksVersion::V5 => 5,
        }
    }

    /// The version a wire byte names, if any.
    pub open spec fn spec_parse(b: u8) -> Result<SocksVersion, HandshakeError> {
        if b == 5 {
            Ok(SocksVersion::V5)
        } else {
            Err(HandshakeError::UnsupportedVersion)
        }
    }
}

impl TryFrom<u8> for SocksVersion {
    type Error = HandshakeError;

    fn try_from(value: u8) -> (r: Result<Self, Self::Error>)
        ensures
            r == SocksVersion::spec_parse(value),
    {
        match value {
            5 => Ok(SocksVersion::V5),
            _ => Err(HandshakeError::UnsupportedVersion),
        }
    }
}

impl vstd::std_specs::convert::TryFromSpecImpl<u8> for SocksVersion {
    open spec fn obeys_try_from_spec() -> bool {
        true
    }

    open spec fn try_from_spec(v: u8) -> Result<Self, Self::Error> {
        SocksVersion::spec_parse(v)
    }
}

impl From<SocksVersion> for u8 {
    fn from(ver: SocksVersion) -> (r: u8)
        ensures
            r == ver.spec_byte(),
    {
        match ver {
            SocksVersion::V5 => 5,
        }
    }
}

impl vstd::std_specs::convert::FromSpecImpl<SocksVersion> for u8 {
    open spec fn obeys_from_spec() -> bool {
        true
    }

    open spec fn from_spec(v: SocksVersion) -> u8 {
        v.spec_byte()
    }
}

} // verus!
