use vstd::prelude::*;

use crate::handshake::error::HandshakeError;

verus! {

/// The command of a request; only one is supported.
#[derive(Clone, Copy, PartialEq, Eq, Structural, Debug)]
pub enum SocksCmd {
    Connect,
}

impl SocksCmd {
    /// The wire byte of the command.
    pub open spec fn spec_byte(self) -> u8 {
        match self {
            SocksCmd::Connect => 1,
        }
    }

    /// The command a wire byte names, if any.
    pub open spec fn spec_parse(b: u8) -> Result<SocksCmd, HandshakeError> {
        if b == 1 {
            Ok(SocksCmd::Connect)
        } else {
            Err(HandshakeError::UnsupportedCommand)
        }
    }
}

impl TryFrom<u8> for SocksCmd {
    type Error = HandshakeError;

    fn try_from(value: u8) -> (r: Result<Self, Self::Error>)
        ensures
            r == SocksCmd::spec_parse(value),
    {
        match value {
            1 => Ok(SocksCmd::Connect),
            _ => Err(HandshakeError::UnsupportedCommand),
        }
    }
}

impl vstd::std_specs::convert::TryFromSpecImpl<u8> for SocksCmd {
    open spec fn obeys_try_from_spec() -> bool {
        true
    }

    open spec fn try_from_spec(v: u8) -> Result<Self, Self::Error> {
        SocksCmd::spec_parse(v)
    }
}

impl From<SocksCmd> for u8 {
    fn from(item: SocksCmd) -> (r: u8)
        ensures
            r == item.spec_byte(),
    {
        match item {
            SocksCmd::Connect => 1,
        }
    }
}

impl vstd::std_specs::convert::FromSpecImpl<SocksCmd> for u8 {
    open spec fn obeys_from_spec() -> bool {
        true
    }

    open spec fn from_spec(v: SocksCmd) -> u8 {
        v.spec_byte()
    }
}

} // verus!
