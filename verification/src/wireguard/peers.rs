//! Peers of a tunnel: given in full, or by reference to another tunnel.

use crate::fields::texts;
use crate::helpers::{ObjectReference, ObjectReferenceView};
use crate::net::Ipv4Addr;
use crate::text::{decimal, push_decimal};
use vstd::prelude::*;
use vstd::string::*;

verus! {

/// A copy of `items`.
pub fn clone_strings(items: &Vec<String>) -> (r: Vec<String>)
    ensures
        r@ == items@,
{
    let mut r: Vec<String> = Vec::new();
    let mut i: usize = 0;
    while i < items.len()
        invariant
            i <= items.len(),
            r@ == items@.subrange(0, i as int),
        decreases items.len() - i,
    {
        r.push(items[i].clone());
        i += 1;
        assert(r@ =~= items@.subrange(0, i as int));
    }
    assert(r@ =~= items@);
    r
}

/// The configuration of one peer as the tunnel interface needs it.
#[derive(Debug, PartialEq)]
pub struct WireguardPeerConfig {
    pub public_key: String,
    pub endpoint_address: Ipv4Addr,
    pub endpoint_port: Option<u16>,
    pub tunnel_address: Option<Ipv4Addr>,
    pub tunnel_address_prefix: Option<u8>,
    pub allowed_ips: Vec<String>,
    pub persistent_keepalive: Option<i32>,
}

/// What a `WireguardPeerConfig` denotes.
pub struct WireguardPeerConfigView {
    pub public_key: Seq<char>,
    pub endpoint_address: Ipv4Addr,
    pub endpoint_port: Option<u16>,
    pub tunnel_address: Option<Ipv4Addr>,
    pub tunnel_address_prefix: Option<u8>,
    pub allowed_ips: Seq<Seq<char>>,
    pub persistent_keepalive: Option<i32>,
}

impl WireguardPeerConfigView {
    /// The text `address:port` of the peer's endpoint, with port 0 where
    /// there is none.
    pub open spec fn endpoint(self) -> Seq<char> {
        self.endpoint_address.text() + seq![':'] + decimal(
            match self.endpoint_port {
                Some(port) => port as nat,
                None => 0,
            },
        )
    }
}

impl View for WireguardPeerConfig {
    type V = WireguardPeerConfigView;

    open spec fn view(&self) -> WireguardPeerConfigView {
        WireguardPeerConfigView {
            public_key: self.public_key@,
            endpoint_address: self.endpoint_address,
            endpoint_port: self.endpoint_port,
            tunnel_address: self.tunnel_address,
            tunnel_address_prefix: self.tunnel_address_prefix,
            allowed_ips: texts(self.allowed_ips@),
            persistent_keepalive: self.persistent_keepalive,
        }
    }
}

impl WireguardPeerConfig {
    /// The text `address:port` of the peer's endpoint, with port 0 where
    /// there is none.
    pub fn endpoint(&self) -> (r: String)
        ensures
            r@ == self@.endpoint(),
    {
        proof {
            reveal_strlit(":");
        }
        let port: u16 = match self.endpoint_port {
            Some(port) => port,
            None => 0,
        };
        let mut out = String::new();
        self.endpoint_address.push_text(&mut out);
        out.append(":");
        push_decimal(&mut out, port as u64);
        assert(out@ =~= self@.endpoint());
        out
    }
}

impl Clone for WireguardPeerConfig {
    fn clone(&self) -> (r: Self)
        ensures
            r@ == self@,
    {
        WireguardPeerConfig {
            public_key: self.public_key.clone(),
            endpoint_address: self.endpoint_address,
            endpoint_port: self.endpoint_port,
            tunnel_address: self.tunnel_address,
            tunnel_address_prefix: self.tunnel_address_prefix,
            allowed_ips: clone_strings(&self.allowed_ips),
            persistent_keepalive: self.persistent_keepalive,
        }
    }
}

/// The configurations that a list of peers denotes.
pub open spec fn peer_views(peers: Seq<WireguardPeerConfig>) -> Seq<WireguardPeerConfigView> {
    Seq::new(peers.len(), |k: int| peers[k]@)
}

/// A copy of `peers`.
pub fn clone_peers(peers: &Vec<WireguardPeerConfig>) -> (r: Vec<WireguardPeerConfig>)
    ensures
        peer_views(r@) == peer_views(peers@),
{
    let mut r: Vec<WireguardPeerConfig> = Vec::new();
    let mut i: usize = 0;
    while i < peers.len()
        invariant
            i <= peers.len(),
            r.len() == i,
            forall|k: int| 0 <= k < i ==> (#[trigger] r[k])@ == peers[k]@,
        decreases peers.len() - i,
    {
        r.push(peers[i].clone());
        i += 1;
    }
    assert(peer_views(r@) =~= peer_views(peers@));
    r
}

/// A peer as a tunnel's `spec` names it.
#[derive(Debug, PartialEq)]
pub enum WireguardPeer {
    /// The peer's configuration, written out.
    Config(WireguardPeerConfig),
    /// Another tunnel, whose resolved state gives the configuration.
    Pod(ObjectReference),
}

/// What a `WireguardPeer` denotes.
pub enum WireguardPeerView {
    Config(WireguardPeerConfigView),
    Pod(ObjectReferenceView),
}

impl View for WireguardPeer {
    type V = WireguardPeerView;

    open spec fn view(&self) -> WireguardPeerView {
        match self {
            WireguardPeer::Config(config) => WireguardPeerView::Config(config@),
            WireguardPeer::Pod(reference) => WireguardPeerView::Pod(reference@),
        }
    }
}

impl Clone for WireguardPeer {
    fn clone(&self) -> (r: Self)
        ensures
            r@ == self@,
    {
        match self {
            WireguardPeer::Config(config) => WireguardPeer::Config(config.clone()),
            WireguardPeer::Pod(reference) => WireguardPeer::Pod(reference.clone()),
        }
    }
}

} // verus!
