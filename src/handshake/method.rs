use vstd::prelude::*;

verus! {

/// An authentication method, as offered by a client or selected by the server.
#[derive(Clone, Copy, PartialEq, Eq, Structural, Debug)]
pub enum SocksMethod {
    NoAuth,
    NoAcceptableMethod,
}

impl SocksMethod {
    /// The wire byte of a method.
    pub open spec fn spec_byte(self) -> u8 {
        match self {
            SocksMethod::NoAuth => 0x00,
            SocksMethod::NoAcceptableMethod => 0xFF,
        }
    }

    /// The method a wire byte stands for: every method other than "no
    /// authentication" is one this server cannot accept.
    pub open spec fn spec_from_byte(b: u8) -> SocksMethod {
        if b == 0x00 {
            SocksMethod::NoAuth
        } else {
            SocksMethod::NoAcceptableMethod
        }
    }
}

impl From<u8> for SocksMethod {
    fn from(value: u8) -> (r: Self)
        ensures
            r == SocksMethod::spec_from_byte(value),
    {
        match value {
            0x00 => SocksMethod::NoAuth,
            _ => SocksMethod::NoAcceptableMethod,
        }
    }
}

impl vstd::std_specs::convert::FromSpecImpl<u8> for SocksMethod {
    open spec fn obeys_from_spec() -> bool {
        true
    }

    open spec fn from_spec(v: u8) -> SocksMethod {
        SocksMethod::spec_from_byte(v)
    }
}

impl From<SocksMethod> for u8 {
    fn from(method: SocksMethod) -> (r: u8)
        ensures
            r == method.spec_byte(),
    {
        match method {
            SocksMethod::NoAuth => 0x00,
            SocksMethod::NoAcceptableMethod => 0xFF,
        }
    }
}

impl vstd::std_specs::convert::FromSpecImpl<SocksMethod> for u8 {
    open spec fn obeys_from_spec() -> bool {
        true
    }

    open spec fn from_spec(v: SocksMethod) -> u8 {
        v.spec_byte()
    }
}

} // verus!
