//! The peer stage: turns the peers that a tunnel's `spec` names
//! into the configurations that its interface needs. A peer written out is
//! taken as it is; a peer given by reference is read from the referenced
//! tunnel, which must have completed its own provisioning. The list is
//! written only once every peer is resolved.

use crate::controllers::{writing, Action, Reconciliation, ReconciliationView};
use crate::errors::{Error, ErrorView};
use crate::net::Ipv4Addr;
use crate::wireguard::configs::{
    peer_spec_views, StatusPatch, StatusPatchView, StatusView, WireguardConfig,
};
use crate::wireguard::peers::{
    clone_peers, peer_views, WireguardPeer, WireguardPeerConfig, WireguardPeerConfigView,
    WireguardPeerView,
};
use vstd::prelude::*;
use vstd::string::*;

verus! {

/// The seconds between keepalive packets to a peer given by reference.
pub const PERSISTENT_KEEPALIVE: i32 = 25;

/// The single address `address` as a network: `address/32`.
pub open spec fn host_route(address: Ipv4Addr) -> Seq<char> {
    address.text() + "/32"@
}

/// The single address `address` as a network: `address/32`.
pub fn host_route_string(address: &Ipv4Addr) -> (r: String)
    ensures
        r@ == host_route(*address),
{
    let mut out = String::new();
    address.push_text(&mut out);
    out.append("/32");
    assert(out@ =~= host_route(*address));
    out
}

/// The peer configuration that a tunnel with listen port `listen_port` and
/// state `status` stands for, where that tunnel is flagged ready and has
/// its public key, its pod's address and its tunnel address: the pod's
/// address is the endpoint, and the peer is allowed its tunnel address and
/// its pod's address.
pub open spec fn peer_config_of(listen_port: Option<u16>, status: StatusView) -> Option<
    WireguardPeerConfigView,
> {
    if status.interface_ready && status.public_key is Some && status.pod_address is Some
        && status.tunnel_address is Some {
        Some(
            WireguardPeerConfigView {
                public_key: status.public_key->0,
                endpoint_address: status.pod_address->0,
                endpoint_port: listen_port,
                tunnel_address: status.tunnel_address,
                tunnel_address_prefix: status.tunnel_address_prefix,
                allowed_ips: seq![
                    host_route(status.tunnel_address->0),
                    host_route(status.pod_address->0),
                ],
                persistent_keepalive: Some(PERSISTENT_KEEPALIVE),
            },
        )
    } else {
        None
    }
}

/// The peer configuration that the tunnel `fetched` stands for, or
/// `PeerNotReady` where that tunnel has not completed its provisioning.
pub fn get_peer_config(fetched: &WireguardConfig) -> (r: Result<WireguardPeerConfig, Error>)
    ensures
        match peer_config_of(fetched.spec.interface.listen_port, fetched.status_view()) {
            Some(config) => r is Ok && r->Ok_0@ == config,
            None => r == Err::<WireguardPeerConfig, Error>(Error::PeerNotReady),
        },
{
    let status = match &fetched.status {
        Some(status) => status,
        None => { return Err(Error::PeerNotReady); },
    };
    if !status.interface_ready {
        return Err(Error::PeerNotReady);
    }
    match (&status.public_key, status.pod_address, status.tunnel_address) {
        (Some(public_key), Some(pod_address), Some(tunnel_address)) => {
            let mut allowed_ips: Vec<String> = Vec::new();
            allowed_ips.push(host_route_string(&tunnel_address));
            allowed_ips.push(host_route_string(&pod_address));
            let config = WireguardPeerConfig {
                public_key: public_key.clone(),
                endpoint_address: pod_address,
                endpoint_port: fetched.spec.interface.listen_port,
                tunnel_address: Some(tunnel_address),
                tunnel_address_prefix: status.tunnel_address_prefix,
                allowed_ips,
                persistent_keepalive: Some(PERSISTENT_KEEPALIVE),
            };
            assert(config@.allowed_ips =~= seq![
                host_route(tunnel_address),
                host_route(pod_address),
            ]);
            Ok(config)
        },
        _ => Err(Error::PeerNotReady),
    }
}

/// How far a run of the peer stage has come: the configurations of the
/// peers resolved so far, in the order of the tunnel's `spec`.
#[derive(Debug, PartialEq)]
pub struct PeerStage {
    pub resolved: Vec<WireguardPeerConfig>,
}

impl View for PeerStage {
    type V = Seq<WireguardPeerConfigView>;

    open spec fn view(&self) -> Seq<WireguardPeerConfigView> {
        peer_views(self.resolved@)
    }
}

/// What came of the last request of the peer stage.
#[derive(Debug, PartialEq)]
pub enum PeerEvent {
    /// Nothing was asked yet.
    Begin,
    /// The referenced tunnel was read.
    Found(WireguardConfig),
    /// The store holds no tunnel of that name.
    Missing,
    /// The store failed in any other way.
    StoreFailed,
}

/// What a `PeerEvent` denotes.
pub enum PeerEventView {
    Begin,
    Found { listen_port: Option<u16>, status: StatusView },
    Missing,
    StoreFailed,
}

impl View for PeerEvent {
    type V = PeerEventView;

    open spec fn view(&self) -> PeerEventView {
        match self {
            PeerEvent::Begin => PeerEventView::Begin,
            PeerEvent::Found(config) => PeerEventView::Found {
                listen_port: config.spec.interface.listen_port,
                status: config.status_view(),
            },
            PeerEvent::Missing => PeerEventView::Missing,
            PeerEvent::StoreFailed => PeerEventView::StoreFailed,
        }
    }
}

/// What the peer stage asks for next.
#[derive(Debug, PartialEq)]
pub enum PeerRequest {
    /// Read the tunnel `name` in `namespace`.
    Fetch { namespace: String, name: String },
    /// The run is over: write the patch and run again as told.
    Settle(Reconciliation),
    /// The run has failed; nothing is written.
    Fail(Error),
}

/// What a `PeerRequest` denotes.
pub enum PeerRequestView {
    Fetch { namespace: Seq<char>, name: Seq<char> },
    Settle(ReconciliationView),
    Fail(ErrorView),
}

impl View for PeerRequest {
    type V = PeerRequestView;

    open spec fn view(&self) -> PeerRequestView {
        match self {
            PeerRequest::Fetch { namespace, name } => PeerRequestView::Fetch {
                namespace: namespace@,
                name: name@,
            },
            PeerRequest::Settle(reconciliation) => PeerRequestView::Settle(reconciliation@),
            PeerRequest::Fail(error) => PeerRequestView::Fail(error@),
        }
    }
}

/// `resolved` with the peers taken over that the tunnel's `spec` writes out
/// from there on, up to the next peer given by reference or the end.
pub open spec fn absorb(
    peers: Seq<WireguardPeerView>,
    resolved: Seq<WireguardPeerConfigView>,
) -> Seq<WireguardPeerConfigView>
    decreases peers.len() - resolved.len(),
{
    if resolved.len() < peers.len() && peers[resolved.len() as int] is Config {
        absorb(peers, resolved.push(peers[resolved.len() as int]->Config_0))
    } else {
        resolved
    }
}

/// Where the run goes from `resolved`: it takes over what is written out,
/// and then either asks for the next referenced tunnel, in the tunnel's own
/// namespace, or settles on the full list.
pub open spec fn proceed(
    namespace: Seq<char>,
    peers: Seq<WireguardPeerView>,
    resolved: Seq<WireguardPeerConfigView>,
) -> (Seq<WireguardPeerConfigView>, PeerRequestView) {
    let resolved = absorb(peers, resolved);
    if resolved.len() < peers.len() {
        (
            resolved,
            PeerRequestView::Fetch { namespace, name: peers[resolved.len() as int]->Pod_0.name },
        )
    } else if resolved.len() == peers.len() {
        (resolved, PeerRequestView::Settle(writing(StatusPatchView::Peers(resolved))))
    } else {
        (resolved, PeerRequestView::Fail(ErrorView::UnexpectedEvent))
    }
}

/// One step of the peer stage for a tunnel in `namespace` whose
/// `spec` names `peers`: where the run stands after `event` arrived
/// with `resolved` peers done, and what it asks for next.
pub open spec fn peer_stage(
    namespace: Seq<char>,
    peers: Seq<WireguardPeerView>,
    resolved: Seq<WireguardPeerConfigView>,
    event: PeerEventView,
) -> (Seq<WireguardPeerConfigView>, PeerRequestView) {
    match event {
        PeerEventView::Begin => proceed(namespace, peers, resolved),
        PeerEventView::Missing => (resolved, PeerRequestView::Fail(ErrorView::ResourceNotFound)),
        PeerEventView::StoreFailed => (
            resolved,
            PeerRequestView::Fail(ErrorView::StoreUnavailable),
        ),
        PeerEventView::Found { listen_port, status } => if resolved.len() < peers.len()
            && peers[resolved.len() as int] is Pod {
            match peer_config_of(listen_port, status) {
                Some(config) => proceed(namespace, peers, resolved.push(config)),
                None => (resolved, PeerRequestView::Fail(ErrorView::PeerNotReady)),
            }
        } else {
            (resolved, PeerRequestView::Fail(ErrorView::UnexpectedEvent))
        },
    }
}

/// Takes over what is written out, and asks for the next referenced tunnel
/// or settles.
fn advance(config: &WireguardConfig, resolved: Vec<WireguardPeerConfig>) -> (r: (
    PeerStage,
    PeerRequest,
))
    ensures
        (r.0@, r.1@) == proceed(
            config.namespace_view(),
            peer_spec_views(config.spec.peers@),
            peer_views(resolved@),
        ),
{
    let ghost peers = peer_spec_views(config.spec.peers@);
    let ghost start = peer_views(resolved@);
    let mut resolved = resolved;
    while resolved.len() < config.spec.peers.len() && is_written_out(
        &config.spec.peers[resolved.len()],
    )
        invariant
            peers == peer_spec_views(config.spec.peers@),
            absorb(peers, start) == absorb(peers, peer_views(resolved@)),
        decreases config.spec.peers.len() - resolved.len(),
    {
        let ghost before = peer_views(resolved@);
        let i = resolved.len();
        assert(peers[i as int] == config.spec.peers[i as int]@);
        match &config.spec.peers[i] {
            WireguardPeer::Config(written) => {
                resolved.push(written.clone());
            },
            WireguardPeer::Pod(_) => {},
        }
        assert(peer_views(resolved@) =~= before.push(peers[i as int]->Config_0));
    }
    let ghost done = peer_views(resolved@);
    assert(absorb(peers, done) == done) by {
        if resolved.len() < config.spec.peers.len() {
            assert(peers[resolved.len() as int] == config.spec.peers[resolved.len() as int]@);
        }
    }
    if resolved.len() < config.spec.peers.len() {
        let i = resolved.len();
        assert(peers[i as int] == config.spec.peers[i as int]@);
        match &config.spec.peers[i] {
            WireguardPeer::Pod(reference) => {
                let request = PeerRequest::Fetch {
                    namespace: config.namespace(),
                    name: reference.name.clone(),
                };
                (PeerStage { resolved }, request)
            },
            WireguardPeer::Config(_) => (
                PeerStage { resolved },
                PeerRequest::Fail(Error::UnexpectedEvent),
            ),
        }
    } else if resolved.len() == config.spec.peers.len() {
        let patch = StatusPatch::Peers(clone_peers(&resolved));
        (
            PeerStage { resolved },
            PeerRequest::Settle(Reconciliation { patch: Some(patch), action: Action::AwaitChange }),
        )
    } else {
        (PeerStage { resolved }, PeerRequest::Fail(Error::UnexpectedEvent))
    }
}

/// Whether `peer` is written out rather than given by reference.
fn is_written_out(peer: &WireguardPeer) -> (r: bool)
    ensures
        r == (peer@ is Config),
{
    match peer {
        WireguardPeer::Config(_) => true,
        WireguardPeer::Pod(_) => false,
    }
}

/// Takes one step of the peer stage on `config`. A run starts with no peer
/// resolved and `PeerEvent::Begin`; the caller reads the tunnel that is
/// asked for and comes back with the stage that was returned and what it
/// read, until the request is to settle or to fail.
pub fn reconcile(config: &WireguardConfig, stage: PeerStage, event: PeerEvent) -> (r: (
    PeerStage,
    PeerRequest,
))
    ensures
        (r.0@, r.1@) == peer_stage(
            config.namespace_view(),
            peer_spec_views(config.spec.peers@),
            stage@,
            event@,
        ),
{
    let ghost peers = peer_spec_views(config.spec.peers@);
    match event {
        PeerEvent::Begin => advance(config, stage.resolved),
        PeerEvent::Missing => (stage, PeerRequest::Fail(Error::ResourceNotFound)),
        PeerEvent::StoreFailed => (stage, PeerRequest::Fail(Error::StoreUnavailable)),
        PeerEvent::Found(fetched) => {
            let i = stage.resolved.len();
            if i < config.spec.peers.len() && !is_written_out(&config.spec.peers[i]) {
                assert(peers[i as int] == config.spec.peers[i as int]@);
                match get_peer_config(&fetched) {
                    Ok(peer) => {
                        let ghost before = stage@;
                        let mut resolved = stage.resolved;
                        resolved.push(peer);
                        assert(peer_views(resolved@) =~= before.push(peer@));
                        advance(config, resolved)
                    },
                    Err(error) => (stage, PeerRequest::Fail(error)),
                }
            } else {
                proof {
                    if i < config.spec.peers.len() {
                        assert(peers[i as int] == config.spec.peers[i as int]@);
                    }
                }
                (stage, PeerRequest::Fail(Error::UnexpectedEvent))
            }
        },
    }
}

/// Whether `resolved` has at most one configuration per peer of the
/// tunnel's `spec` and, for each peer written out, that peer's own.
pub open spec fn faithful(
    peers: Seq<WireguardPeerView>,
    resolved: Seq<WireguardPeerConfigView>,
) -> bool {
    &&& resolved.len() <= peers.len()
    &&& forall|i: int|
        0 <= i < resolved.len() && (#[trigger] peers[i]) is Config ==> resolved[i]
            == peers[i]->Config_0
}

/// Taking over what is written out keeps what was resolved, stays faithful,
/// and stops at a peer given by reference or at the end.
pub proof fn lemma_absorb(peers: Seq<WireguardPeerView>, resolved: Seq<WireguardPeerConfigView>)
    requires
        faithful(peers, resolved),
    ensures
        faithful(peers, absorb(peers, resolved)),
        resolved.len() <= absorb(peers, resolved).len(),
        absorb(peers, resolved).subrange(0, resolved.len() as int) == resolved,
        absorb(peers, resolved).len() < peers.len() ==> peers[absorb(
            peers,
            resolved,
        ).len() as int] is Pod,
    decreases peers.len() - resolved.len(),
{
    if resolved.len() < peers.len() && peers[resolved.len() as int] is Config {
        let next = resolved.push(peers[resolved.len() as int]->Config_0);
        lemma_absorb(peers, next);
        assert(absorb(peers, resolved).subrange(0, resolved.len() as int) =~= absorb(
            peers,
            next,
        ).subrange(0, next.len() as int).subrange(0, resolved.len() as int));
    } else {
        assert(resolved.subrange(0, resolved.len() as int) =~= resolved);
    }
}

/// A step of the peer stage keeps the run faithful; and a run that settles
/// writes one configuration for each peer of the tunnel's `spec`, in order.
pub proof fn lemma_peer_stage_faithful(
    namespace: Seq<char>,
    peers: Seq<WireguardPeerView>,
    resolved: Seq<WireguardPeerConfigView>,
    event: PeerEventView,
)
    requires
        faithful(peers, resolved),
    ensures
        faithful(peers, peer_stage(namespace, peers, resolved, event).0),
        peer_stage(namespace, peers, resolved, event).1 matches PeerRequestView::Settle(
            reconciliation,
        ) ==> {
            &&& reconciliation == writing(
                StatusPatchView::Peers(peer_stage(namespace, peers, resolved, event).0),
            )
            &&& peer_stage(namespace, peers, resolved, event).0.len() == peers.len()
        },
{
    match event {
        PeerEventView::Begin => {
            lemma_absorb(peers, resolved);
        },
        PeerEventView::Missing => {},
        PeerEventView::StoreFailed => {},
        PeerEventView::Found { listen_port, status } => {
            if resolved.len() < peers.len() && peers[resolved.len() as int] is Pod {
                match peer_config_of(listen_port, status) {
                    Some(config) => {
                        lemma_absorb(peers, resolved.push(config));
                    },
                    None => {},
                }
            }
        },
    }
}

/// A referenced tunnel that is not flagged ready fails the run: nothing is
/// written, and the peers resolved so far stay as they are.
pub proof fn lemma_unready_peer_fails(
    namespace: Seq<char>,
    peers: Seq<WireguardPeerView>,
    resolved: Seq<WireguardPeerConfigView>,
    listen_port: Option<u16>,
    status: StatusView,
)
    requires
        !status.interface_ready,
        resolved.len() < peers.len(),
        peers[resolved.len() as int] is Pod,
    ensures
        peer_stage(namespace, peers, resolved, PeerEventView::Found { listen_port, status }) == (
            resolved,
            PeerRequestView::Fail(ErrorView::PeerNotReady),
        ),
{
}

impl PeerStage {
    /// The stage of a run that has resolved no peer yet.
    pub fn new() -> (r: PeerStage)
        ensures
            r@ == Seq::<WireguardPeerConfigView>::empty(),
    {
        let r = PeerStage { resolved: Vec::new() };
        assert(r@ =~= Seq::<WireguardPeerConfigView>::empty());
        r
    }
}

} // verus!
