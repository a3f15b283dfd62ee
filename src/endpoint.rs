//! The address of the proxy endpoint.
use vstd::prelude::*;

use crate::text::{decimal, push_char, push_decimal};

verus! {

/// Default port of the proxy endpoint.
pub const DEFAULT_SERVER_PROXY_PORT: u16 = 46637;

/// The proxy endpoint `<host>:<port>` that the daemon resolves once per
/// registration.
pub fn server_proxy_url(host: &str, port: u16) -> (r: String)
    ensures
        r@ == host@ + seq![':'] + decimal(port as nat),
{
    let mut out = String::from_str(host);
    push_char(&mut out, ':');
    push_decimal(&mut out, port as u64);
    assert(out@ =~= host@ + seq![':'] + decimal(port as nat));
    out
}

} // verus!
