//! The daemon's configuration and the ports it uses.
use vstd::prelude::*;

verus! {

/// The port the backend serves on, on the loopback interface.
pub const BACKEND_PORT: u16 = 19276;

/// The public port the proxy listens on unless configured otherwise.
pub const PROXY_PORT: u16 = BACKEND_PORT + 1;

#[derive(Debug, Clone, PartialEq, Eq)]
pub struct Config {
    pub version: u32,
    pub server_url: String,
    pub public_url: String,
    pub proxy_port: u16,
}

/// The configuration a development build uses when no file is found.
pub open spec fn dev_defaults_spec(c: Config) -> bool {
    &&& c.version == 1
    &&& c.server_url@ == "http://localhost:4001"@
    &&& c.public_url@ == "http://localhost:19277"@
    &&& c.proxy_port == PROXY_PORT
}

pub fn dev_defaults() -> (r: Config)
    ensures
        dev_defaults_spec(r),
{
    Config {
        version: 1,
        server_url: String::from_str("http://localhost:4001"),
        public_url: String::from_str("http://localhost:19277"),
        proxy_port: PROXY_PORT,
    }
}

/// The configuration in effect: the one read from the file if any; else,
/// in a development build, the development defaults; else none.
pub fn load(found: Option<Config>, dev_build: bool) -> (r: Option<Config>)
    ensures
        found is Some ==> r == found,
        found is None && dev_build ==> r is Some && dev_defaults_spec(r->0),
        found is None && !dev_build ==> r is None,
{
    match found {
        Some(c) => Some(c),
        None => if dev_build {
            Some(dev_defaults())
        } else {
            None
        },
    }
}

/// The port the proxy listens on: the configured one, or the default.
pub fn proxy_port(cfg: &Option<Config>) -> (r: u16)
    ensures
        r == match cfg {
            Some(c) => c.proxy_port,
            None => PROXY_PORT,
        },
{
    match cfg {
        Some(c) => c.proxy_port,
        None => PROXY_PORT,
    }
}

} // verus!
