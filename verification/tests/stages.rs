use podtunnel::controllers::interface;
use podtunnel::controllers::ipam::{self, AddressStep, PoolWrite};
use podtunnel::controllers::peer::{self, get_peer_config, PeerEvent, PeerRequest, PeerStage};
use podtunnel::controllers::{error_policy, Action, Reconciliation};
use podtunnel::errors::Error;
use podtunnel::helpers::{Cidr, ObjectReference};
use podtunnel::net::Ipv4Addr;
use podtunnel::wireguard::addresses::{
    WireguardAddressPool, WireguardAddressPoolSpec, WireguardNetwork,
};
use podtunnel::wireguard::configs::{
    ObjectMeta, StatusPatch, WireguardAddress, WireguardConfig, WireguardConfigSpec,
    WireguardConfigStatus, WireguardInterface,
};
use podtunnel::wireguard::peers::{WireguardPeer, WireguardPeerConfig};

fn tunnel(name: &str) -> WireguardConfig {
    WireguardConfig {
        metadata: ObjectMeta {
            name: name.to_string(),
            namespace: Some("default".to_string()),
            uid: Some(format!("uid-{}", name)),
        },
        spec: WireguardConfigSpec::default(),
        status: None,
    }
}

fn reference(name: &str) -> ObjectReference {
    ObjectReference { name: name.to_string(), namespace: Some("default".to_string()) }
}

fn complete_status() -> WireguardConfigStatus {
    WireguardConfigStatus {
        interface_ready: false,
        peers: Vec::new(),
        pod_address: Some(Ipv4Addr::new(192, 168, 1, 5)),
        tunnel_address: Some(Ipv4Addr::new(10, 0, 100, 2)),
        tunnel_address_prefix: Some(24),
        private_key: Some(reference("a")),
        public_key: Some("PUB".to_string()),
    }
}

fn settled() -> Reconciliation {
    Reconciliation { patch: None, action: Action::AwaitChange }
}

fn pending() -> Reconciliation {
    Reconciliation { patch: None, action: Action::Requeue { seconds: 1 } }
}

fn writing(patch: StatusPatch) -> Reconciliation {
    Reconciliation { patch: Some(patch), action: Action::AwaitChange }
}

fn inline_peer(key: &str) -> WireguardPeerConfig {
    WireguardPeerConfig {
        public_key: key.to_string(),
        endpoint_address: Ipv4Addr::new(172, 16, 0, 9),
        endpoint_port: Some(51820),
        tunnel_address: None,
        tunnel_address_prefix: None,
        allowed_ips: vec!["0.0.0.0/0".to_string()],
        persistent_keepalive: None,
    }
}

#[test]
fn a_tunnel_without_status_is_not_ready() {
    assert_eq!(interface::reconcile(&tunnel("a")), pending());
}

#[test]
fn a_tunnel_is_flagged_ready_only_when_all_five_fields_are_present() {
    let mut config = tunnel("a");
    config.status = Some(complete_status());
    assert_eq!(interface::reconcile(&config), writing(StatusPatch::InterfaceReady));

    for missing in 0..5 {
        let mut status = complete_status();
        match missing {
            0 => status.pod_address = None,
            1 => status.tunnel_address = None,
            2 => status.tunnel_address_prefix = None,
            3 => status.private_key = None,
            _ => status.public_key = None,
        }
        let mut config = tunnel("a");
        config.status = Some(status);
        assert_eq!(interface::reconcile(&config), pending(), "missing field {}", missing);
    }
}

#[test]
fn a_ready_tunnel_is_left_alone_by_the_interface_stage() {
    let mut config = tunnel("a");
    let mut status = complete_status();
    let first = interface::reconcile(&WireguardConfig {
        metadata: tunnel("a").metadata,
        spec: WireguardConfigSpec::default(),
        status: Some(status.clone()),
    });
    status.merge(first.patch.unwrap());
    assert!(status.interface_ready);
    let merged = status.clone();
    config.status = Some(status);
    assert_eq!(interface::reconcile(&config), settled());
    assert_eq!(config.status, Some(merged));
}

#[test]
fn the_stages_in_any_order_reach_ready_only_through_a_complete_state() {
    let patches = vec![
        StatusPatch::Peers(vec![inline_peer("PEER")]),
        StatusPatch::Key { private_key: reference("a"), public_key: "PUB".to_string() },
        StatusPatch::PodAddress(Ipv4Addr::new(192, 168, 1, 5)),
        StatusPatch::TunnelAddress { address: Ipv4Addr::new(10, 0, 100, 2), prefix: 24 },
    ];
    let mut status = WireguardConfigStatus::default();
    for patch in patches {
        let config = WireguardConfig {
            metadata: tunnel("a").metadata,
            spec: WireguardConfigSpec::default(),
            status: Some(status.clone()),
        };
        assert_eq!(interface::reconcile(&config), pending());
        assert!(!status.interface_ready);
        status.merge(patch);
    }
    let config = WireguardConfig {
        metadata: tunnel("a").metadata,
        spec: WireguardConfigSpec::default(),
        status: Some(status.clone()),
    };
    assert_eq!(interface::reconcile(&config), writing(StatusPatch::InterfaceReady));
    status.merge(StatusPatch::InterfaceReady);
    assert!(status.interface_ready);
    assert_eq!(status.pod_address, Some(Ipv4Addr::new(192, 168, 1, 5)));
    assert_eq!(status.tunnel_address, Some(Ipv4Addr::new(10, 0, 100, 2)));
    assert_eq!(status.tunnel_address_prefix, Some(24));
    assert_eq!(status.private_key, Some(reference("a")));
    assert_eq!(status.public_key, Some("PUB".to_string()));
    assert_eq!(status.peers, vec![inline_peer("PEER")]);
}

#[test]
fn a_patch_sets_its_own_fields_and_no_others() {
    let mut status = complete_status();
    status.merge(StatusPatch::PodAddress(Ipv4Addr::new(192, 168, 1, 6)));
    let mut expected = complete_status();
    expected.pod_address = Some(Ipv4Addr::new(192, 168, 1, 6));
    assert_eq!(status, expected);

    status.merge(StatusPatch::Peers(vec![inline_peer("P1"), inline_peer("P2")]));
    expected.peers = vec![inline_peer("P1"), inline_peer("P2")];
    assert_eq!(status, expected);

    status.merge(StatusPatch::Peers(vec![inline_peer("P3")]));
    expected.peers = vec![inline_peer("P3")];
    assert_eq!(status, expected);
}

#[test]
fn an_address_written_out_is_adopted() {
    let mut config = tunnel("a");
    config.spec.interface.address = Some(WireguardAddress::NetworkAddress(WireguardNetwork {
        address: Ipv4Addr::new(10, 9, 8, 7),
        prefix: 16,
    }));
    assert_eq!(
        ipam::reconcile(&config),
        AddressStep::Settled(writing(StatusPatch::TunnelAddress {
            address: Ipv4Addr::new(10, 9, 8, 7),
            prefix: 16,
        }))
    );
}

#[test]
fn a_tunnel_that_wants_no_address_stays_pending_without_a_write() {
    assert_eq!(ipam::reconcile(&tunnel("a")), AddressStep::Settled(settled()));
}

#[test]
fn a_pool_address_is_asked_of_the_pool_in_the_tunnels_namespace() {
    let mut config = tunnel("a");
    config.metadata.namespace = Some("blue".to_string());
    config.spec.interface.address = Some(WireguardAddress::PoolAddress(ObjectReference {
        name: "pool-1".to_string(),
        namespace: Some("elsewhere".to_string()),
    }));
    assert_eq!(
        ipam::reconcile(&config),
        AddressStep::AskPool {
            pool_name: "pool-1".to_string(),
            pool_namespace: "blue".to_string(),
            consumer: ObjectReference { name: "a".to_string(), namespace: Some("blue".to_string()) },
        }
    );
}

#[test]
fn the_address_stage_runs_once() {
    let mut config = tunnel("a");
    config.spec.interface.address = Some(WireguardAddress::PoolAddress(reference("pool-1")));
    let mut pool = WireguardAddressPool {
        metadata: ObjectMeta { name: "pool-1".to_string(), namespace: None, uid: None },
        spec: WireguardAddressPoolSpec { network: Cidr::new("10.0.100.0/24".to_string()) },
        status: None,
    };
    let consumer = match ipam::reconcile(&config) {
        AddressStep::AskPool { consumer, .. } => consumer,
        other => panic!("unexpected step {:?}", other),
    };
    let decided = ipam::assign_pool_address(&mut pool, consumer).unwrap();
    assert_eq!(
        decided,
        writing(StatusPatch::TunnelAddress { address: Ipv4Addr::new(10, 0, 100, 1), prefix: 24 })
    );
    let mut status = WireguardConfigStatus::default();
    status.merge(decided.patch.unwrap());
    let written = status.clone();
    config.status = Some(status);
    assert_eq!(ipam::reconcile(&config), AddressStep::Settled(settled()));
    assert_eq!(config.status, Some(written));
    assert_eq!(pool.status.unwrap().allocation.len(), 1);
}

#[test]
fn a_failing_pool_fails_the_address_stage() {
    let mut exhausted = WireguardAddressPool {
        metadata: ObjectMeta { name: "p".to_string(), namespace: None, uid: None },
        spec: WireguardAddressPoolSpec { network: Cidr::new("10.0.100.0/32".to_string()) },
        status: None,
    };
    assert_eq!(
        ipam::assign_pool_address(&mut exhausted, reference("a")),
        Err(Error::PoolExhausted)
    );
    let mut malformed = WireguardAddressPool {
        metadata: ObjectMeta { name: "p".to_string(), namespace: None, uid: None },
        spec: WireguardAddressPoolSpec { network: Cidr::new("10.0.100.0".to_string()) },
        status: None,
    };
    assert_eq!(
        ipam::assign_pool_address(&mut malformed, reference("a")),
        Err(Error::InvalidCidr)
    );
}

#[test]
fn a_failed_stage_is_retried_after_a_second() {
    assert_eq!(error_policy(&tunnel("a"), &Error::PeerNotReady), Action::Requeue { seconds: 1 });
    assert_eq!(error_policy(&tunnel("a"), &Error::PoolExhausted), Action::Requeue { seconds: 1 });
}

fn ready_peer(name: &str, pod: Ipv4Addr, address: Ipv4Addr) -> WireguardConfig {
    let mut config = tunnel(name);
    config.spec.interface.listen_port = Some(51820);
    config.status = Some(WireguardConfigStatus {
        interface_ready: true,
        peers: Vec::new(),
        pod_address: Some(pod),
        tunnel_address: Some(address),
        tunnel_address_prefix: Some(24),
        private_key: Some(reference(name)),
        public_key: Some(format!("PUB-{}", name)),
    });
    config
}

#[test]
fn a_ready_tunnel_stands_for_a_peer_configuration() {
    let fetched = ready_peer("b", Ipv4Addr::new(192, 168, 1, 9), Ipv4Addr::new(10, 0, 100, 3));
    assert_eq!(
        get_peer_config(&fetched),
        Ok(WireguardPeerConfig {
            public_key: "PUB-b".to_string(),
            endpoint_address: Ipv4Addr::new(192, 168, 1, 9),
            endpoint_port: Some(51820),
            tunnel_address: Some(Ipv4Addr::new(10, 0, 100, 3)),
            tunnel_address_prefix: Some(24),
            allowed_ips: vec!["10.0.100.3/32".to_string(), "192.168.1.9/32".to_string()],
            persistent_keepalive: Some(25),
        })
    );
}

#[test]
fn a_tunnel_that_lacks_anything_is_no_peer_yet() {
    assert_eq!(get_peer_config(&tunnel("b")), Err(Error::PeerNotReady));
    for missing in 0..4 {
        let mut fetched =
            ready_peer("b", Ipv4Addr::new(192, 168, 1, 9), Ipv4Addr::new(10, 0, 100, 3));
        let status = fetched.status.as_mut().unwrap();
        match missing {
            0 => status.interface_ready = false,
            1 => status.public_key = None,
            2 => status.pod_address = None,
            _ => status.tunnel_address = None,
        }
        assert_eq!(get_peer_config(&fetched), Err(Error::PeerNotReady), "missing {}", missing);
    }
    let mut no_prefix = ready_peer("b", Ipv4Addr::new(192, 168, 1, 9), Ipv4Addr::new(10, 0, 100, 3));
    no_prefix.status.as_mut().unwrap().tunnel_address_prefix = None;
    assert_eq!(get_peer_config(&no_prefix).unwrap().tunnel_address_prefix, None);
}

#[test]
fn a_peer_that_is_not_ready_fails_the_stage_and_leaves_the_peers_unchanged() {
    let mut config = tunnel("a");
    config.spec.peers = vec![WireguardPeer::Pod(reference("b"))];
    let mut status = complete_status();
    status.peers = vec![inline_peer("OLD")];
    config.status = Some(status.clone());

    let (stage, request) = peer::reconcile(&config, PeerStage::new(), PeerEvent::Begin);
    assert_eq!(
        request,
        PeerRequest::Fetch { namespace: "default".to_string(), name: "b".to_string() }
    );
    let mut unready = ready_peer("b", Ipv4Addr::new(192, 168, 1, 9), Ipv4Addr::new(10, 0, 100, 3));
    unready.status.as_mut().unwrap().interface_ready = false;
    let (stage, request) = peer::reconcile(&config, stage, PeerEvent::Found(unready));
    assert_eq!(request, PeerRequest::Fail(Error::PeerNotReady));
    assert_eq!(stage, PeerStage::new());
    assert_eq!(config.status, Some(status));
}

#[test]
fn peers_are_resolved_in_the_order_in_which_they_are_named() {
    let mut config = tunnel("a");
    config.spec.peers = vec![
        WireguardPeer::Config(inline_peer("FIRST")),
        WireguardPeer::Pod(reference("b")),
        WireguardPeer::Config(inline_peer("THIRD")),
        WireguardPeer::Pod(reference("c")),
    ];
    let (stage, request) = peer::reconcile(&config, PeerStage::new(), PeerEvent::Begin);
    assert_eq!(
        request,
        PeerRequest::Fetch { namespace: "default".to_string(), name: "b".to_string() }
    );
    assert_eq!(stage.resolved, vec![inline_peer("FIRST")]);

    let b = ready_peer("b", Ipv4Addr::new(192, 168, 1, 9), Ipv4Addr::new(10, 0, 100, 3));
    let (stage, request) = peer::reconcile(&config, stage, PeerEvent::Found(b));
    assert_eq!(
        request,
        PeerRequest::Fetch { namespace: "default".to_string(), name: "c".to_string() }
    );
    assert_eq!(stage.resolved.len(), 3);

    let c = ready_peer("c", Ipv4Addr::new(192, 168, 1, 10), Ipv4Addr::new(10, 0, 100, 4));
    let (stage, request) = peer::reconcile(&config, stage, PeerEvent::Found(c));
    let expected = vec![
        inline_peer("FIRST"),
        get_peer_config(&ready_peer(
            "b",
            Ipv4Addr::new(192, 168, 1, 9),
            Ipv4Addr::new(10, 0, 100, 3),
        ))
        .unwrap(),
        inline_peer("THIRD"),
        get_peer_config(&ready_peer(
            "c",
            Ipv4Addr::new(192, 168, 1, 10),
            Ipv4Addr::new(10, 0, 100, 4),
        ))
        .unwrap(),
    ];
    assert_eq!(request, PeerRequest::Settle(writing(StatusPatch::Peers(expected.clone()))));
    assert_eq!(stage.resolved, expected);
}

#[test]
fn a_tunnel_without_peers_settles_on_an_empty_list() {
    let (stage, request) = peer::reconcile(&tunnel("a"), PeerStage::new(), PeerEvent::Begin);
    assert_eq!(request, PeerRequest::Settle(writing(StatusPatch::Peers(Vec::new()))));
    assert_eq!(stage, PeerStage::new());
}

#[test]
fn the_peer_stage_rewrites_the_list_on_every_run() {
    let mut config = tunnel("a");
    config.spec.peers = vec![WireguardPeer::Config(inline_peer("ONLY"))];
    let mut status = complete_status();
    status.peers = vec![inline_peer("ONLY")];
    status.interface_ready = true;
    config.status = Some(status);
    let (_, request) = peer::reconcile(&config, PeerStage::new(), PeerEvent::Begin);
    assert_eq!(request, PeerRequest::Settle(writing(StatusPatch::Peers(vec![inline_peer("ONLY")]))));
}

#[test]
fn a_peer_that_cannot_be_read_fails_the_stage() {
    let mut config = tunnel("a");
    config.spec.peers = vec![WireguardPeer::Pod(reference("b"))];
    let (stage, _) = peer::reconcile(&config, PeerStage::new(), PeerEvent::Begin);
    let (stage, request) = peer::reconcile(&config, stage, PeerEvent::Missing);
    assert_eq!(request, PeerRequest::Fail(Error::ResourceNotFound));
    let (_, request) = peer::reconcile(&config, stage, PeerEvent::StoreFailed);
    assert_eq!(request, PeerRequest::Fail(Error::StoreUnavailable));
}

#[test]
fn an_answer_that_was_not_asked_for_fails_the_peer_stage() {
    let mut config = tunnel("a");
    config.spec.peers = vec![WireguardPeer::Config(inline_peer("ONLY"))];
    let b = ready_peer("b", Ipv4Addr::new(192, 168, 1, 9), Ipv4Addr::new(10, 0, 100, 3));
    let (_, request) = peer::reconcile(&config, PeerStage::new(), PeerEvent::Found(b));
    assert_eq!(request, PeerRequest::Fail(Error::UnexpectedEvent));
}

#[test]
fn the_endpoint_of_a_peer_is_address_and_port() {
    assert_eq!(inline_peer("P").endpoint(), "172.16.0.9:51820");
    let mut bare = inline_peer("P");
    bare.endpoint_port = None;
    assert_eq!(bare.endpoint(), "172.16.0.9:0");
    assert_eq!(
        WireguardInterface::default(),
        WireguardInterface { address: None, dns: None, listen_port: None, private_key: None }
    );
    assert_eq!(
        WireguardConfigSpec::default(),
        WireguardConfigSpec { interface: WireguardInterface::default(), peers: Vec::new() }
    );
}

#[test]
fn the_tunnel_gets_its_address_only_once_the_pool_is_written() {
    let decided =
        || writing(StatusPatch::TunnelAddress { address: Ipv4Addr::new(10, 0, 100, 1), prefix: 24 });
    assert_eq!(ipam::pool_written(decided(), PoolWrite::Written), Ok(decided()));
    assert_eq!(ipam::pool_written(decided(), PoolWrite::Conflict), Err(Error::StoreConflict));
    assert_eq!(ipam::pool_written(decided(), PoolWrite::Failed), Err(Error::StoreUnavailable));
}
