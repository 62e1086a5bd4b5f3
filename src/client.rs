use vstd::prelude::*;

use crate::handshake::method::SocksMethod;
use crate::handshake::version::SocksVersion;

verus! {

/// The greeting a client opens a SOCKS session with.
pub struct ClientConnectMsg {
    version: SocksVersion,
    n_methods: u8,
    methods: Vec<SocksMethod>,
}

/// The wire bytes of a list of methods.
pub open spec fn method_bytes(methods: Seq<SocksMethod>) -> Seq<u8> {
    methods.map_values(|m: SocksMethod| m.spec_byte())
}

impl ClientConnectMsg {
    pub closed spec fn spec_version(&self) -> SocksVersion {
        self.version
    }

    pub closed spec fn spec_n_methods(&self) -> u8 {
        self.n_methods
    }

    pub closed spec fn spec_methods(&self) -> Seq<SocksMethod> {
        self.methods@
    }

    pub fn new(version: SocksVersion, n_methods: u8, methods: Vec<SocksMethod>) -> (r: Self)
        ensures
            r.spec_version() == version,
            r.spec_n_methods() == n_methods,
            r.spec_methods() == methods@,
    {
        ClientConnectMsg { version, n_methods, methods }
    }

    /// `[version, n_methods, method_1 .. method_k]`, with the count as given.
    pub fn to_request(&self) -> (r: Vec<u8>)
        ensures
            r@ == seq![self.spec_version().spec_byte(), self.spec_n_methods()] + method_bytes(self.spec_methods()),
    {
        let mut req: Vec<u8> = Vec::new();
        req.push(self.version.into());
        req.push(self.n_methods);
        let ghost head = req@;
        let mut i: usize = 0;
        while i < self.methods.len()
            invariant
                i <= self.methods@.len(),
                head == seq![self.version.spec_byte(), self.n_methods],
                req@ == head + method_bytes(self.methods@.subrange(0, i as int)),
            decreases self.methods@.len() - i,
        {
            req.push(self.methods[i].into());
            i += 1;
            assert(req@ =~= head + method_bytes(self.methods@.subrange(0, i as int)));
        }
        assert(self.methods@.subrange(0, i as int) =~= self.methods@);
        req
    }
}

} // verus!
