use vstd::prelude::*;

verus! {

/// Options of the server and of the test target: the port to listen on.
#[derive(Clone, Debug)]
pub struct Cli {
    pub port: Option<u16>,
}

/// Options of the test client: the proxy's port and host.
#[derive(Clone, Debug)]
pub struct ClientCli {
    pub port: Option<u16>,
    pub host: Option<String>,
}

} // verus!
