use podtunnel::drivers::system::{Command, CommandOutput};
use podtunnel::drivers::interface::{configure_wireguard_interface, network_string};
use podtunnel::drivers::workflows::{
    configure_wireguard_for_pod, get_privkey, get_wg_config, getnet, plan, readiness, PodSandbox,
    PollPolicy, ProvisionEvent, ProvisionRequest, Provisioning, Readiness, TunnelParams,
};
use podtunnel::errors::Error;
use podtunnel::helpers::ObjectReference;
use podtunnel::net::Ipv4Addr;
use podtunnel::secrets::{KeyData, KeySecret};
use podtunnel::wireguard::configs::{
    ObjectMeta, StatusPatch, WireguardConfig, WireguardConfigSpec, WireguardConfigStatus,
};
use podtunnel::wireguard::peers::WireguardPeerConfig;

fn command(program: &str, args: &[&str]) -> Command {
    Command {
        program: program.to_string(),
        args: args.iter().map(|a| a.to_string()).collect(),
        stdin: None,
    }
}

fn peer() -> WireguardPeerConfig {
    WireguardPeerConfig {
        public_key: "PEERKEY=".to_string(),
        endpoint_address: Ipv4Addr::new(192, 168, 1, 9),
        endpoint_port: Some(51820),
        tunnel_address: Some(Ipv4Addr::new(10, 0, 100, 3)),
        tunnel_address_prefix: Some(24),
        allowed_ips: vec!["10.0.100.3/32".to_string(), "192.168.1.9/32".to_string()],
        persistent_keepalive: Some(25),
    }
}

fn other_peer() -> WireguardPeerConfig {
    WireguardPeerConfig {
        public_key: "OTHERKEY=".to_string(),
        endpoint_address: Ipv4Addr::new(192, 168, 1, 10),
        endpoint_port: None,
        tunnel_address: None,
        tunnel_address_prefix: None,
        allowed_ips: Vec::new(),
        persistent_keepalive: None,
    }
}

fn expected_commands() -> Vec<Command> {
    vec![
        command("ip", &["link", "add", "wg0", "type", "wireguard"]),
        command("ip", &["addr", "add", "10.0.100.2/24", "dev", "wg0"]),
        Command {
            program: "wg".to_string(),
            args: vec![
                "set".to_string(),
                "wg0".to_string(),
                "private-key".to_string(),
                "/dev/stdin".to_string(),
            ],
            stdin: Some("PRIVATE=".to_string()),
        },
        command("wg", &["set", "wg0", "listen-port", "51820"]),
        command("ip", &["link", "set", "wg0", "up"]),
        command("wg", &["set", "wg0", "fwmark", "921481285"]),
        command("ip", &["route", "add", "default", "dev", "wg0", "table", "129518285"]),
        command(
            "wg",
            &[
                "set",
                "wg0",
                "peer",
                "PEERKEY=",
                "allowed-ips",
                "10.0.100.3/32,192.168.1.9/32",
                "endpoint",
                "192.168.1.9:51820",
            ],
        ),
        command(
            "ip",
            &[
                "rule", "add", "from", "all", "to", "192.168.1.9", "fwmark", "921481285", "lookup",
                "main", "priority", "1",
            ],
        ),
        command(
            "ip",
            &[
                "rule", "add", "from", "all", "to", "192.168.1.9", "fwmark", "0", "lookup",
                "129518285", "priority", "2",
            ],
        ),
        command(
            "ip",
            &["rule", "add", "table", "main", "suppress_prefixlength", "0", "priority", "3"],
        ),
    ]
}

fn is_rule(command: &Command) -> bool {
    command.program == "ip" && command.args.len() >= 2 && command.args[0] == "rule"
        && command.args[1] == "add"
}

#[test]
fn one_peer_gives_two_rules_and_the_suppress_rule() {
    let commands = configure_wireguard_interface(
        &Ipv4Addr::new(10, 0, 100, 2),
        24,
        "PRIVATE=",
        51820,
        &vec![peer()],
    );
    assert_eq!(commands, expected_commands());
    assert_eq!(commands.iter().filter(|c| is_rule(c)).count(), 3);
    assert_eq!(commands.last(), Some(&expected_commands()[10]));
}

#[test]
fn every_peer_adds_three_commands_and_two_rules() {
    for count in 0..5usize {
        let peers: Vec<WireguardPeerConfig> =
            (0..count).map(|i| if i % 2 == 0 { peer() } else { other_peer() }).collect();
        let commands =
            configure_wireguard_interface(&Ipv4Addr::new(10, 0, 100, 2), 24, "K", 1, &peers);
        assert_eq!(commands.len(), 8 + 3 * count);
        assert_eq!(commands.iter().filter(|c| is_rule(c)).count(), 2 * count + 1);
    }
}

#[test]
fn the_private_key_travels_on_standard_input_only() {
    let commands = configure_wireguard_interface(
        &Ipv4Addr::new(10, 0, 100, 2),
        24,
        "VERY-SECRET",
        51820,
        &vec![peer(), other_peer()],
    );
    for command in &commands {
        assert!(!command.program.contains("VERY-SECRET"));
        assert!(command.args.iter().all(|a| !a.contains("VERY-SECRET")));
    }
    let fed: Vec<&Command> = commands.iter().filter(|c| c.stdin.is_some()).collect();
    assert_eq!(fed.len(), 1);
    assert_eq!(fed[0].stdin, Some("VERY-SECRET".to_string()));
}

#[test]
fn a_peer_without_port_or_allowed_addresses_is_written_with_empty_fields() {
    let commands =
        configure_wireguard_interface(&Ipv4Addr::new(10, 0, 100, 2), 8, "K", 0, &vec![other_peer()]);
    assert_eq!(commands[1], command("ip", &["addr", "add", "10.0.100.2/8", "dev", "wg0"]));
    assert_eq!(commands[3], command("wg", &["set", "wg0", "listen-port", "0"]));
    assert_eq!(
        commands[7],
        command(
            "wg",
            &["set", "wg0", "peer", "OTHERKEY=", "allowed-ips", "", "endpoint", "192.168.1.10:0"]
        )
    );
    assert_eq!(network_string(&Ipv4Addr::new(10, 0, 100, 2), 24), "10.0.100.2/24");
}

fn pod() -> PodSandbox {
    PodSandbox {
        name: "pod-1".to_string(),
        namespace: "default".to_string(),
        netns: "/var/run/netns/pod-1".to_string(),
        pod_ip: Ipv4Addr::new(192, 168, 1, 5),
        policy: PollPolicy::unbounded(),
    }
}

fn tunnel(ready: bool, peers: Vec<WireguardPeerConfig>) -> WireguardConfig {
    let mut spec = WireguardConfigSpec::default();
    spec.interface.listen_port = Some(51820);
    WireguardConfig {
        metadata: ObjectMeta {
            name: "pod-1".to_string(),
            namespace: Some("default".to_string()),
            uid: Some("uid".to_string()),
        },
        spec,
        status: Some(WireguardConfigStatus {
            interface_ready: ready,
            peers,
            pod_address: None,
            tunnel_address: Some(Ipv4Addr::new(10, 0, 100, 2)),
            tunnel_address_prefix: Some(24),
            private_key: Some(ObjectReference {
                name: "pod-1".to_string(),
                namespace: Some("default".to_string()),
            }),
            public_key: Some("PUBLIC=".to_string()),
        }),
    }
}

fn secret(private_key: Option<&str>) -> KeySecret {
    KeySecret {
        name: "pod-1".to_string(),
        namespace: "default".to_string(),
        owner: None,
        labels: Vec::new(),
        data: Some(KeyData {
            private_key: private_key.map(|k| k.to_string()),
            public_key: Some("PUBLIC=".to_string()),
        }),
    }
}

fn ok() -> ProvisionEvent {
    ProvisionEvent::Ran(CommandOutput {
        success: true,
        stdout: String::new(),
        stderr: String::new(),
    })
}

fn get(delay_ms: u64) -> ProvisionRequest {
    ProvisionRequest::GetConfig {
        namespace: "default".to_string(),
        name: "pod-1".to_string(),
        delay_ms,
    }
}

fn patch() -> ProvisionRequest {
    ProvisionRequest::PatchStatus {
        namespace: "default".to_string(),
        name: "pod-1".to_string(),
        patch: StatusPatch::PodAddress(Ipv4Addr::new(192, 168, 1, 5)),
    }
}

fn until_inside(pod: &PodSandbox) -> (Provisioning, ProvisionRequest) {
    let (state, request) = configure_wireguard_for_pod(pod, Provisioning::Start, ProvisionEvent::Begin);
    assert_eq!(request, get(0));
    let (state, request) =
        configure_wireguard_for_pod(pod, state, ProvisionEvent::ConfigFound(tunnel(true, vec![peer()])));
    assert_eq!(request, patch());
    let (state, request) = configure_wireguard_for_pod(pod, state, ProvisionEvent::Patched);
    assert_eq!(
        request,
        ProvisionRequest::ListSecrets {
            namespace: "default".to_string(),
            label_selector: "operator.podtunnel.com/wireguard_config=pod-1".to_string(),
        }
    );
    let (state, request) = configure_wireguard_for_pod(
        pod,
        state,
        ProvisionEvent::Secrets(vec![secret(Some("PRIVATE="))]),
    );
    assert_eq!(
        request,
        ProvisionRequest::EnterNamespace { path: "/var/run/netns/pod-1".to_string() }
    );
    configure_wireguard_for_pod(pod, state, ProvisionEvent::NamespaceEntered)
}

#[test]
fn a_ready_tunnel_is_provisioned_command_by_command() {
    let pod = pod();
    let (mut state, mut request) = until_inside(&pod);
    let mut ran: Vec<Command> = Vec::new();
    while let ProvisionRequest::Run(command) = request {
        ran.push(command);
        let next = configure_wireguard_for_pod(&pod, state, ok());
        state = next.0;
        request = next.1;
    }
    assert_eq!(ran, expected_commands());
    assert_eq!(request, ProvisionRequest::RestoreNamespace);
    let (state, request) =
        configure_wireguard_for_pod(&pod, state, ProvisionEvent::NamespaceRestored);
    assert_eq!(state, Provisioning::Finished);
    assert_eq!(
        request,
        ProvisionRequest::Finish(Some(("wg0".to_string(), Ipv4Addr::new(10, 0, 100, 2), 24)))
    );
}

#[test]
fn the_namespace_is_restored_when_the_peer_command_fails() {
    let pod = pod();
    let (mut state, mut request) = until_inside(&pod);
    let mut ran = 0;
    loop {
        match &request {
            ProvisionRequest::Run(command) if command.args.contains(&"peer".to_string()) => break,
            ProvisionRequest::Run(_) => {
                ran += 1;
                let next = configure_wireguard_for_pod(&pod, state, ok());
                state = next.0;
                request = next.1;
            }
            other => panic!("unexpected request {:?}", other),
        }
    }
    assert_eq!(ran, 7);
    let failure = ProvisionEvent::Ran(CommandOutput {
        success: false,
        stdout: String::new(),
        stderr: "Invalid endpoint".to_string(),
    });
    let (state, request) = configure_wireguard_for_pod(&pod, state, failure);
    assert_eq!(request, ProvisionRequest::RestoreNamespace);
    let (state, request) =
        configure_wireguard_for_pod(&pod, state, ProvisionEvent::NamespaceRestored);
    assert_eq!(state, Provisioning::Finished);
    assert_eq!(
        request,
        ProvisionRequest::Fail(Error::CommandFailed { stderr: "Invalid endpoint".to_string() })
    );
}

#[test]
fn a_failure_keeps_its_cause_when_the_restore_fails_too() {
    let pod = pod();
    let (state, _) = until_inside(&pod);
    let failure = ProvisionEvent::Ran(CommandOutput {
        success: false,
        stdout: String::new(),
        stderr: "exists".to_string(),
    });
    let (state, request) = configure_wireguard_for_pod(&pod, state, failure);
    assert_eq!(request, ProvisionRequest::RestoreNamespace);
    let (_, request) = configure_wireguard_for_pod(&pod, state, ProvisionEvent::NamespaceFailed);
    assert_eq!(
        request,
        ProvisionRequest::Fail(Error::CommandFailed { stderr: "exists".to_string() })
    );
}

#[test]
fn an_answer_out_of_turn_inside_the_namespace_restores_it_first() {
    let pod = pod();
    let (state, _) = until_inside(&pod);
    let (state, request) = configure_wireguard_for_pod(&pod, state, ProvisionEvent::Patched);
    assert_eq!(request, ProvisionRequest::RestoreNamespace);
    let (_, request) = configure_wireguard_for_pod(&pod, state, ProvisionEvent::NamespaceRestored);
    assert_eq!(request, ProvisionRequest::Fail(Error::UnexpectedEvent));
}

#[test]
fn a_pod_without_tunnel_is_done_at_once() {
    let pod = pod();
    let (state, _) = configure_wireguard_for_pod(&pod, Provisioning::Start, ProvisionEvent::Begin);
    let (state, request) = configure_wireguard_for_pod(&pod, state, ProvisionEvent::ConfigMissing);
    assert_eq!(state, Provisioning::Finished);
    assert_eq!(request, ProvisionRequest::Finish(None));
}

#[test]
fn a_tunnel_is_polled_until_it_is_ready_and_has_a_peer() {
    let pod = pod();
    let (mut state, _) =
        configure_wireguard_for_pod(&pod, Provisioning::Start, ProvisionEvent::Begin);
    for found in [tunnel(false, Vec::new()), tunnel(false, vec![peer()]), tunnel(true, Vec::new())] {
        let (next, request) =
            configure_wireguard_for_pod(&pod, state, ProvisionEvent::ConfigFound(found));
        assert_eq!(request, patch());
        let (next, request) = configure_wireguard_for_pod(&pod, next, ProvisionEvent::Patched);
        assert_eq!(request, get(0));
        state = next;
    }
    let (state, _) = configure_wireguard_for_pod(
        &pod,
        state,
        ProvisionEvent::ConfigFound(tunnel(true, vec![peer()])),
    );
    let (state, request) = configure_wireguard_for_pod(&pod, state, ProvisionEvent::PatchFailed);
    assert_eq!(request, get(0));
    assert_eq!(state, Provisioning::ConfigAwaited { polls: 5, delay_ms: 0 });
}

#[test]
fn polls_are_paced_and_bounded_as_the_policy_says() {
    let mut pod = pod();
    pod.policy = PollPolicy { max_polls: Some(5), base_delay_ms: 100, max_delay_ms: 350 };
    let (mut state, request) =
        configure_wireguard_for_pod(&pod, Provisioning::Start, ProvisionEvent::Begin);
    assert_eq!(request, get(0));
    for delay in [100u64, 200, 350, 350] {
        let (next, _) = configure_wireguard_for_pod(
            &pod,
            state,
            ProvisionEvent::ConfigFound(tunnel(false, Vec::new())),
        );
        let (next, request) = configure_wireguard_for_pod(&pod, next, ProvisionEvent::Patched);
        assert_eq!(request, get(delay));
        state = next;
    }
    let (state, _) = configure_wireguard_for_pod(
        &pod,
        state,
        ProvisionEvent::ConfigFound(tunnel(false, Vec::new())),
    );
    let (state, request) = configure_wireguard_for_pod(&pod, state, ProvisionEvent::Patched);
    assert_eq!(state, Provisioning::Finished);
    assert_eq!(request, ProvisionRequest::Fail(Error::ProvisioningTimedOut));
    assert_eq!(pod.policy.delay_after(0), 100);
    assert_eq!(pod.policy.delay_after(175), 350);
    assert_eq!(pod.policy.delay_after(176), 350);
    assert_eq!(pod.policy.delay_after(u64::MAX), 350);
    assert_eq!(
        PollPolicy { max_polls: None, base_delay_ms: 500, max_delay_ms: 350 }.delay_after(0),
        350
    );
}

#[test]
fn store_and_secret_failures_fail_the_provisioning() {
    let pod = pod();
    let start = || configure_wireguard_for_pod(&pod, Provisioning::Start, ProvisionEvent::Begin).0;
    assert_eq!(
        configure_wireguard_for_pod(&pod, start(), ProvisionEvent::StoreFailed).1,
        ProvisionRequest::Fail(Error::StoreUnavailable)
    );
    let ready = || {
        let (state, _) = configure_wireguard_for_pod(
            &pod,
            start(),
            ProvisionEvent::ConfigFound(tunnel(true, vec![peer()])),
        );
        configure_wireguard_for_pod(&pod, state, ProvisionEvent::Patched).0
    };
    assert_eq!(
        configure_wireguard_for_pod(&pod, ready(), ProvisionEvent::StoreFailed).1,
        ProvisionRequest::Fail(Error::SecretReadError)
    );
    assert_eq!(
        configure_wireguard_for_pod(&pod, ready(), ProvisionEvent::Secrets(Vec::new())).1,
        ProvisionRequest::Fail(Error::SecretReadError)
    );
    assert_eq!(
        configure_wireguard_for_pod(
            &pod,
            ready(),
            ProvisionEvent::Secrets(vec![secret(Some("A")), secret(Some("B"))])
        )
        .1,
        ProvisionRequest::Fail(Error::SecretReadError)
    );
    assert_eq!(
        configure_wireguard_for_pod(&pod, ready(), ProvisionEvent::Secrets(vec![secret(None)])).1,
        ProvisionRequest::Fail(Error::MalformedSecret)
    );
    let (state, _) = configure_wireguard_for_pod(
        &pod,
        ready(),
        ProvisionEvent::Secrets(vec![secret(Some("PRIVATE="))]),
    );
    assert_eq!(
        configure_wireguard_for_pod(&pod, state, ProvisionEvent::NamespaceFailed),
        (Provisioning::Finished, ProvisionRequest::Fail(Error::NamespaceSwitchFailed))
    );
    assert_eq!(
        configure_wireguard_for_pod(&pod, Provisioning::Finished, ProvisionEvent::Patched).1,
        ProvisionRequest::Fail(Error::UnexpectedEvent)
    );
}

#[test]
fn a_ready_tunnel_without_address_fails_the_provisioning() {
    let pod = pod();
    let mut broken = tunnel(true, vec![peer()]);
    broken.status.as_mut().unwrap().tunnel_address = None;
    assert_eq!(readiness(&broken), Readiness::Incomplete);
    let (state, _) = configure_wireguard_for_pod(&pod, Provisioning::Start, ProvisionEvent::Begin);
    let (state, _) = configure_wireguard_for_pod(&pod, state, ProvisionEvent::ConfigFound(broken));
    let (_, request) = configure_wireguard_for_pod(&pod, state, ProvisionEvent::Patched);
    assert_eq!(request, ProvisionRequest::Fail(Error::IncompleteStatus));
}

#[test]
fn the_network_of_a_tunnel_is_address_prefix_and_port() {
    assert_eq!(
        getnet(&tunnel(true, Vec::new())),
        Some((Ipv4Addr::new(10, 0, 100, 2), 24, 51820))
    );
    let mut no_port = tunnel(true, Vec::new());
    no_port.spec.interface.listen_port = None;
    assert_eq!(getnet(&no_port), Some((Ipv4Addr::new(10, 0, 100, 2), 24, 51820)));
    assert_eq!(
        readiness(&{
            let mut ready = tunnel(true, vec![peer()]);
            ready.spec.interface.listen_port = None;
            ready
        }),
        Readiness::Ready(TunnelParams {
            tunnel_address: Ipv4Addr::new(10, 0, 100, 2),
            tunnel_address_prefix: 24,
            listen_port: 51820,
            peers: vec![peer()],
        })
    );
    let mut no_prefix = tunnel(true, Vec::new());
    no_prefix.status.as_mut().unwrap().tunnel_address_prefix = None;
    assert_eq!(getnet(&no_prefix), None);
    let mut no_status = tunnel(true, Vec::new());
    no_status.status = None;
    assert_eq!(getnet(&no_status), None);
    assert_eq!(readiness(&no_status), Readiness::NotReady);
    assert_eq!(
        readiness(&tunnel(true, vec![peer()])),
        Readiness::Ready(TunnelParams {
            tunnel_address: Ipv4Addr::new(10, 0, 100, 2),
            tunnel_address_prefix: 24,
            listen_port: 51820,
            peers: vec![peer()],
        })
    );
}

#[test]
fn the_private_key_comes_from_the_one_labelled_secret() {
    assert_eq!(get_privkey(&vec![secret(Some("PRIVATE="))]), Ok("PRIVATE=".to_string()));
    assert_eq!(get_privkey(&Vec::new()), Err(Error::SecretReadError));
    assert_eq!(get_privkey(&vec![secret(None)]), Err(Error::MalformedSecret));
    let mut no_data = secret(Some("PRIVATE="));
    no_data.data = None;
    assert_eq!(get_privkey(&vec![no_data]), Err(Error::MalformedSecret));
    let params = TunnelParams {
        tunnel_address: Ipv4Addr::new(10, 0, 100, 2),
        tunnel_address_prefix: 24,
        listen_port: 51820,
        peers: vec![peer()],
    };
    let planned = plan(&params, "PRIVATE=");
    assert_eq!(planned.commands, expected_commands());
    assert_eq!(planned.tunnel_address, Ipv4Addr::new(10, 0, 100, 2));
    assert_eq!(planned.tunnel_address_prefix, 24);
}

#[test]
fn the_wait_for_readiness_publishes_the_pod_address_first() {
    let pod = pod();
    let (state, request) = get_wg_config(&pod, Provisioning::Start, ProvisionEvent::Begin);
    assert_eq!(request, get(0));
    assert_eq!(state, Provisioning::ConfigAwaited { polls: 1, delay_ms: 0 });
    let (state, request) =
        get_wg_config(&pod, state, ProvisionEvent::ConfigFound(tunnel(true, vec![peer()])));
    assert_eq!(request, patch());
    let (state, _) = get_wg_config(&pod, state, ProvisionEvent::Patched);
    assert_eq!(
        state,
        Provisioning::SecretsAwaited {
            params: TunnelParams {
                tunnel_address: Ipv4Addr::new(10, 0, 100, 2),
                tunnel_address_prefix: 24,
                listen_port: 51820,
                peers: vec![peer()],
            }
        }
    );
    assert_eq!(
        get_wg_config(&pod, Provisioning::Finished, ProvisionEvent::Patched).1,
        ProvisionRequest::Fail(Error::UnexpectedEvent)
    );
}
