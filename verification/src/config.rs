//! The configuration of one connection. It is put together once per
//! incoming request and only read afterwards.

use vstd::prelude::*;

verus! {

/// What a connection is configured with.
#[derive(Debug)]
pub struct Config {
    /// The identity secret: the sixteen bytes of a UUID.
    pub uuid: [u8; 16],
    /// The host string of the incoming request.
    pub host: String,
    /// The fallback destinations, each `host:port` or a bare host, in the
    /// order in which they are tried.
    pub proxy_ip: Vec<String>,
    /// Where requests that do not open a tunnel are sent.
    pub redirect_url: String,
    /// Whether the connection descriptor may be shown.
    pub display_link: bool,
}

} // verus!
