use vstd::prelude::*;

verus! {

/// Why a handshake message could not be decoded.
#[derive(Clone, Copy, PartialEq, Eq, Structural, Debug)]
pub enum HandshakeError {
    UnsupportedVersion,
    /// Not a failure: more bytes are needed before the message can be read.
    Incomplete,
    UnsupportedMethod,
    UnsupportedCommand,
    UnsupportedAddrType,
    UnsupportedRepType,
}

impl HandshakeError {
    /// A human-readable description of the error.
    pub fn message(&self) -> (r: &'static str) {
        match self {
            HandshakeError::UnsupportedVersion => "unsupported SOCKS version",
            HandshakeError::Incomplete => "incomplete input",
            HandshakeError::UnsupportedMethod => "unsupported method",
            HandshakeError::UnsupportedCommand => "unsupported command",
            HandshakeError::UnsupportedAddrType => "unsupported atyp",
            HandshakeError::UnsupportedRepType => "unsupported rep",
        }
    }
}

/// Why a server reply could not be decoded on the client side.
#[derive(Clone, Copy, PartialEq, Eq, Structural, Debug)]
pub enum SocksReplyParseError {
    Incomplete,
}

} // verus!
