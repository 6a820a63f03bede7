//! Tunnel configurations: what is wanted of a pod's tunnel, and the state
//! that the reconciliation stages have reached for it.

use crate::helpers::{ObjectReference, ObjectReferenceView};
use crate::net::Ipv4Addr;
use crate::wireguard::addresses::WireguardNetwork;
use crate::wireguard::peers::{
    clone_peers, peer_views, WireguardPeer, WireguardPeerConfig, WireguardPeerConfigView,
    WireguardPeerView,
};
use vstd::prelude::*;

verus! {

/// The view of an optional string.
pub open spec fn text_of(s: Option<String>) -> Option<Seq<char>> {
    match s {
        Some(s) => Some(s@),
        None => None,
    }
}

/// The view of an optional reference.
pub open spec fn reference_of(r: Option<ObjectReference>) -> Option<ObjectReferenceView> {
    match r {
        Some(r) => Some(r@),
        None => None,
    }
}

/// A copy of an optional string.
pub fn clone_text(s: &Option<String>) -> (r: Option<String>)
    ensures
        r == *s,
{
    match s {
        Some(s) => Some(s.clone()),
        None => None,
    }
}

/// A copy of an optional reference.
pub fn clone_reference(reference: &Option<ObjectReference>) -> (r: Option<ObjectReference>)
    ensures
        r == *reference,
{
    match reference {
        Some(reference) => Some(reference.clone()),
        None => None,
    }
}

/// Where a tunnel's address comes from.
#[derive(Debug, PartialEq)]
pub enum WireguardAddress {
    /// The address and prefix length, written out.
    NetworkAddress(WireguardNetwork),
    /// An address pool, in the tunnel's own namespace, that grants one.
    PoolAddress(ObjectReference),
}

/// What a `WireguardAddress` denotes.
pub enum WireguardAddressView {
    NetworkAddress(WireguardNetwork),
    PoolAddress(ObjectReferenceView),
}

impl View for WireguardAddress {
    type V = WireguardAddressView;

    open spec fn view(&self) -> WireguardAddressView {
        match self {
            WireguardAddress::NetworkAddress(network) => WireguardAddressView::NetworkAddress(
                *network,
            ),
            WireguardAddress::PoolAddress(pool) => WireguardAddressView::PoolAddress(pool@),
        }
    }
}

/// The wanted configuration of the tunnel interface itself.
#[derive(Debug, PartialEq)]
pub struct WireguardInterface {
    pub address: Option<WireguardAddress>,
    pub dns: Option<Vec<String>>,
    pub listen_port: Option<u16>,
    pub private_key: Option<ObjectReference>,
}

impl Default for WireguardInterface {
    fn default() -> (r: Self)
        ensures
            r.address is None,
            r.dns is None,
            r.listen_port is None,
            r.private_key is None,
    {
        WireguardInterface { address: None, dns: None, listen_port: None, private_key: None }
    }
}

/// What is wanted of a pod's tunnel.
#[derive(Debug, PartialEq)]
pub struct WireguardConfigSpec {
    pub interface: WireguardInterface,
    pub peers: Vec<WireguardPeer>,
}

impl Default for WireguardConfigSpec {
    fn default() -> (r: Self)
        ensures
            r.interface.address is None,
            r.interface.dns is None,
            r.interface.listen_port is None,
            r.interface.private_key is None,
            r.peers@.len() == 0,
    {
        WireguardConfigSpec { interface: WireguardInterface::default(), peers: Vec::new() }
    }
}

/// The state that the reconciliation stages have reached for a tunnel.
#[derive(Debug, PartialEq)]
pub struct WireguardConfigStatus {
    pub interface_ready: bool,
    pub peers: Vec<WireguardPeerConfig>,
    pub pod_address: Option<Ipv4Addr>,
    pub tunnel_address: Option<Ipv4Addr>,
    pub tunnel_address_prefix: Option<u8>,
    pub private_key: Option<ObjectReference>,
    pub public_key: Option<String>,
}

/// What a `WireguardConfigStatus` denotes.
pub struct StatusView {
    pub interface_ready: bool,
    pub peers: Seq<WireguardPeerConfigView>,
    pub pod_address: Option<Ipv4Addr>,
    pub tunnel_address: Option<Ipv4Addr>,
    pub tunnel_address_prefix: Option<u8>,
    pub private_key: Option<ObjectReferenceView>,
    pub public_key: Option<Seq<char>>,
}

impl StatusView {
    /// The state of a tunnel that no stage has touched.
    pub open spec fn empty() -> StatusView {
        StatusView {
            interface_ready: false,
            peers: Seq::empty(),
            pod_address: None,
            tunnel_address: None,
            tunnel_address_prefix: None,
            private_key: None,
            public_key: None,
        }
    }

    /// Whether everything that the interface needs is present: the pod's
    /// address, the tunnel address with its prefix, and both keys.
    pub open spec fn complete(self) -> bool {
        &&& self.pod_address is Some
        &&& self.tunnel_address is Some
        &&& self.tunnel_address_prefix is Some
        &&& self.private_key is Some
        &&& self.public_key is Some
    }

    /// Readiness is never claimed of an incomplete state.
    pub open spec fn consistent(self) -> bool {
        self.interface_ready ==> self.complete()
    }

    /// This state after the merge of `patch`: the fields that the patch
    /// names take its values, all others stay.
    pub open spec fn merge(self, patch: StatusPatchView) -> StatusView {
        match patch {
            StatusPatchView::TunnelAddress { address, prefix } => StatusView {
                tunnel_address: Some(address),
                tunnel_address_prefix: Some(prefix),
                ..self
            },
            StatusPatchView::Key { private_key, public_key } => StatusView {
                private_key: Some(private_key),
                public_key: Some(public_key),
                ..self
            },
            StatusPatchView::Peers(peers) => StatusView { peers, ..self },
            StatusPatchView::InterfaceReady => StatusView { interface_ready: true, ..self },
            StatusPatchView::PodAddress(address) => StatusView {
                pod_address: Some(address),
                ..self
            },
        }
    }
}

impl View for WireguardConfigStatus {
    type V = StatusView;

    open spec fn view(&self) -> StatusView {
        StatusView {
            interface_ready: self.interface_ready,
            peers: peer_views(self.peers@),
            pod_address: self.pod_address,
            tunnel_address: self.tunnel_address,
            tunnel_address_prefix: self.tunnel_address_prefix,
            private_key: reference_of(self.private_key),
            public_key: text_of(self.public_key),
        }
    }
}

impl Default for WireguardConfigStatus {
    fn default() -> (r: Self)
        ensures
            r@ == StatusView::empty(),
    {
        let r = WireguardConfigStatus {
            interface_ready: false,
            peers: Vec::new(),
            pod_address: None,
            tunnel_address: None,
            tunnel_address_prefix: None,
            private_key: None,
            public_key: None,
        };
        assert(r@.peers =~= Seq::<WireguardPeerConfigView>::empty());
        r
    }
}

impl Clone for WireguardConfigStatus {
    fn clone(&self) -> (r: Self)
        ensures
            r@ == self@,
    {
        WireguardConfigStatus {
            interface_ready: self.interface_ready,
            peers: clone_peers(&self.peers),
            pod_address: self.pod_address,
            tunnel_address: self.tunnel_address,
            tunnel_address_prefix: self.tunnel_address_prefix,
            private_key: clone_reference(&self.private_key),
            public_key: clone_text(&self.public_key),
        }
    }
}

/// A change to a tunnel's state, as one stage writes it: it names the
/// fields it sets and leaves every other field alone.
#[derive(Debug, PartialEq)]
pub enum StatusPatch {
    /// The tunnel address and its prefix length.
    TunnelAddress { address: Ipv4Addr, prefix: u8 },
    /// The reference to the key secret, and the public key.
    Key { private_key: ObjectReference, public_key: String },
    /// The resolved peers, replacing the earlier list.
    Peers(Vec<WireguardPeerConfig>),
    /// The readiness flag, set.
    InterfaceReady,
    /// The address of the pod that the tunnel belongs to.
    PodAddress(Ipv4Addr),
}

/// What a `StatusPatch` denotes.
pub enum StatusPatchView {
    TunnelAddress { address: Ipv4Addr, prefix: u8 },
    Key { private_key: ObjectReferenceView, public_key: Seq<char> },
    Peers(Seq<WireguardPeerConfigView>),
    InterfaceReady,
    PodAddress(Ipv4Addr),
}

impl View for StatusPatch {
    type V = StatusPatchView;

    open spec fn view(&self) -> StatusPatchView {
        match self {
            StatusPatch::TunnelAddress { address, prefix } => StatusPatchView::TunnelAddress {
                address: *address,
                prefix: *prefix,
            },
            StatusPatch::Key { private_key, public_key } => StatusPatchView::Key {
                private_key: private_key@,
                public_key: public_key@,
            },
            StatusPatch::Peers(peers) => StatusPatchView::Peers(peer_views(peers@)),
            StatusPatch::InterfaceReady => StatusPatchView::InterfaceReady,
            StatusPatch::PodAddress(address) => StatusPatchView::PodAddress(*address),
        }
    }
}

/// The view of an optional patch.
pub open spec fn patch_of(patch: Option<StatusPatch>) -> Option<StatusPatchView> {
    match patch {
        Some(patch) => Some(patch@),
        None => None,
    }
}

impl WireguardConfigStatus {
    /// Merges `patch` into this state.
    pub fn merge(&mut self, patch: StatusPatch)
        ensures
            final(self)@ == old(self)@.merge(patch@),
    {
        match patch {
            StatusPatch::TunnelAddress { address, prefix } => {
                self.tunnel_address = Some(address);
                self.tunnel_address_prefix = Some(prefix);
            },
            StatusPatch::Key { private_key, public_key } => {
                self.private_key = Some(private_key);
                self.public_key = Some(public_key);
            },
            StatusPatch::Peers(peers) => {
                self.peers = peers;
            },
            StatusPatch::InterfaceReady => {
                self.interface_ready = true;
            },
            StatusPatch::PodAddress(address) => {
                self.pod_address = Some(address);
            },
        }
    }
}

/// The identity of a stored object.
#[derive(Debug, PartialEq)]
pub struct ObjectMeta {
    pub name: String,
    pub namespace: Option<String>,
    pub uid: Option<String>,
}

/// A pod's tunnel: its identity, what is wanted of it, and the state that
/// the stages have reached, if any has written one.
#[derive(Debug, PartialEq)]
pub struct WireguardConfig {
    pub metadata: ObjectMeta,
    pub spec: WireguardConfigSpec,
    pub status: Option<WireguardConfigStatus>,
}

/// The view of a list of peers as a tunnel's `spec` names them.
pub open spec fn peer_spec_views(peers: Seq<WireguardPeer>) -> Seq<WireguardPeerView> {
    Seq::new(peers.len(), |k: int| peers[k]@)
}

impl WireguardConfig {
    /// The state of this tunnel; the untouched state where none was written.
    pub open spec fn status_view(&self) -> StatusView {
        match self.status {
            Some(status) => status@,
            None => StatusView::empty(),
        }
    }

    /// The namespace of this tunnel, empty where it names none.
    pub open spec fn namespace_view(&self) -> Seq<char> {
        match self.metadata.namespace {
            Some(namespace) => namespace@,
            None => Seq::empty(),
        }
    }

    /// The namespace of this tunnel, empty where it names none.
    pub fn namespace(&self) -> (r: String)
        ensures
            r@ == self.namespace_view(),
    {
        match &self.metadata.namespace {
            Some(namespace) => namespace.clone(),
            None => String::new(),
        }
    }
}

} // verus!
