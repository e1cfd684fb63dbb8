//! Turning a host name into the one address the proxy connects to.
//!
//! The lookup itself happens outside this library. Here is what goes into it
//! (the key) and what is made of its answer (the first address, in the order
//! the resolver gave them).

use crate::failure::Failure;
use crate::handshake::as_str;
use vstd::prelude::*;

verus! {

/// A socket address as plain numbers: the address bits as one number, most
/// significant byte first, the port, and for IPv6 the flow label and scope.
#[derive(Clone, Copy, Debug, PartialEq, Eq, Structural)]
pub enum SocketAddress {
    V4 { octets: u32, port: u16 },
    V6 { segments: u128, port: u16, flow_info: u32, scope_id: u32 },
}

/// The key under which `host` is looked up: the host name, a colon, and the
/// port every backend is reached on, 443, in decimal.
pub open spec fn lookup_key_of(host: Seq<char>) -> Seq<char> {
    host + seq![':', '4', '4', '3']
}

/// Forms the lookup key for `host`.
pub fn lookup_key(host: &str) -> (key: String)
    ensures
        key@ == lookup_key_of(host@),
{
    let mut key = as_str(host);
    key.append(":443");
    proof {
        reveal_strlit(":443");
    }
    key
}

/// The address chosen among those a lookup returned: the first, if any.
pub open spec fn first_address(addresses: Seq<SocketAddress>) -> Result<SocketAddress, Failure> {
    if addresses.len() == 0 {
        Err(Failure::ResolutionFailed)
    } else {
        Ok(addresses[0])
    }
}

/// Chooses the address to connect to. The resolver's order is the only
/// preference: the first address wins, and an empty answer is a failed
/// resolution.
pub fn select_address(addresses: &Vec<SocketAddress>) -> (result: Result<SocketAddress, Failure>)
    ensures
        result == first_address(addresses@),
{
    if addresses.len() == 0 {
        Err(Failure::ResolutionFailed)
    } else {
        Ok(addresses[0])
    }
}

} // verus!
