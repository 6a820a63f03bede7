//! The tunnel resources: address pools, tunnel configurations and peers.

pub mod addresses;
pub mod allocations;
pub mod configs;
pub mod peers;

use vstd::prelude::*;

verus! {

/// The UDP port on which a tunnel listens unless told otherwise.
pub const DEFAULT_WIREGUARD_LISTEN_PORT: u16 = 51820;

/// The listen port given to an interface or peer that names none.
pub fn default_wireguard_listen_port() -> (r: Option<u16>)
    ensures
        r == Some(DEFAULT_WIREGUARD_LISTEN_PORT),
{
    Some(DEFAULT_WIREGUARD_LISTEN_PORT)
}

} // verus!
