//! Addresses to listen on and to connect to.

use vstd::prelude::*;
use vstd::string::StringExecFns;

verus! {

/// `host:port`.
pub open spec fn joined(host: Seq<char>, port: Seq<char>) -> Seq<char> {
    host + ":"@ + port
}

/// The address to listen on: `host:port`, or a free port on the local host
/// where either is left empty.
pub open spec fn bind_address_text(host: Seq<char>, port: Seq<char>) -> Seq<char> {
    if host.len() == 0 || port.len() == 0 {
        "127.0.0.1:0"@
    } else {
        joined(host, port)
    }
}

/// The address to listen on.
pub fn bind_address(host: &str, port: &str) -> (address: String)
    ensures
        address@ == bind_address_text(host@, port@),
{
    if host.is_empty() || port.is_empty() {
        String::from_str("127.0.0.1:0")
    } else {
        let mut address = String::from_str(host);
        address.append(":");
        address.append(port);
        address
    }
}

/// The address to connect to: `host:port`, or `None` where either is left
/// empty and there is nothing to connect to.
pub fn peer_address(host: &str, port: &str) -> (address: Option<String>)
    ensures
        host@.len() == 0 || port@.len() == 0 ==> address is None,
        host@.len() > 0 && port@.len() > 0 ==> address is Some && address->0@ == joined(
            host@,
            port@,
        ),
{
    if host.is_empty() || port.is_empty() {
        None
    } else {
        let mut address = String::from_str(host);
        address.append(":");
        address.append(port);
        Some(address)
    }
}

} // verus!
