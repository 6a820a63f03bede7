//! Provisioning of a pod's tunnel: the wait for the tunnel's readiness, the
//! lookup of its private key, and the run of the interface's commands
//! inside the pod's network namespace.

use crate::drivers::interface::{
    configure_wireguard_interface, interface_commands, DEFAULT_WIREGUARD_INTERFACE_NAME,
};
use crate::drivers::system::{command_views, Command, CommandOutput, CommandOutputView, CommandView};
use crate::errors::{text_result, Error, ErrorView};
use crate::net::Ipv4Addr;
use crate::secrets::{label_selector, secret_label_selector, KeySecret, KeySecretView};
use crate::wireguard::configs::{StatusPatch, StatusPatchView, StatusView, WireguardConfig};
use crate::wireguard::DEFAULT_WIREGUARD_LISTEN_PORT;
use crate::wireguard::peers::{
    clone_peers, peer_views, WireguardPeerConfig, WireguardPeerConfigView,
};
use vstd::prelude::*;
use vstd::string::*;

verus! {

/// The pod whose tunnel is provisioned, and how patiently.
#[derive(Debug, PartialEq)]
pub struct PodSandbox {
    /// The pod's name, which is also the name of its tunnel.
    pub name: String,
    /// The pod's namespace in the object store.
    pub namespace: String,
    /// The path of the pod's network namespace.
    pub netns: String,
    /// The pod's own address.
    pub pod_ip: Ipv4Addr,
    /// How the wait for the tunnel's readiness is paced and bounded.
    pub policy: PollPolicy,
}

/// How the wait for a tunnel's readiness is paced and bounded.
#[derive(Clone, Copy, Debug, PartialEq, Eq, Structural)]
pub struct PollPolicy {
    /// The number of polls after which the wait is given up; none for a
    /// wait without end.
    pub max_polls: Option<u64>,
    /// The milliseconds to pause before the second poll.
    pub base_delay_ms: u64,
    /// The milliseconds that no pause exceeds.
    pub max_delay_ms: u64,
}

impl PollPolicy {
    /// Polling without pause and without end.
    pub fn unbounded() -> (r: PollPolicy)
        ensures
            r == (PollPolicy { max_polls: None, base_delay_ms: 0, max_delay_ms: 0 }),
    {
        PollPolicy { max_polls: None, base_delay_ms: 0, max_delay_ms: 0 }
    }

    /// The pause that follows a pause of `delay_ms`: the base delay after
    /// no pause, else twice as long, and never more than the maximum.
    pub open spec fn next_delay(self, delay_ms: u64) -> u64 {
        if delay_ms == 0 {
            if self.base_delay_ms <= self.max_delay_ms {
                self.base_delay_ms
            } else {
                self.max_delay_ms
            }
        } else if 2 * delay_ms <= self.max_delay_ms {
            (2 * delay_ms) as u64
        } else {
            self.max_delay_ms
        }
    }

    /// The pause that follows a pause of `delay_ms`.
    pub fn delay_after(&self, delay_ms: u64) -> (r: u64)
        ensures
            r == self.next_delay(delay_ms),
            r <= self.max_delay_ms,
    {
        if delay_ms == 0 {
            if self.base_delay_ms <= self.max_delay_ms {
                self.base_delay_ms
            } else {
                self.max_delay_ms
            }
        } else if delay_ms <= self.max_delay_ms / 2 {
            2 * delay_ms
        } else {
            self.max_delay_ms
        }
    }
}

/// What a pod's sandbox denotes.
pub struct PodSandboxView {
    pub name: Seq<char>,
    pub namespace: Seq<char>,
    pub netns: Seq<char>,
    pub pod_ip: Ipv4Addr,
    pub policy: PollPolicy,
}

impl View for PodSandbox {
    type V = PodSandboxView;

    open spec fn view(&self) -> PodSandboxView {
        PodSandboxView {
            name: self.name@,
            namespace: self.namespace@,
            netns: self.netns@,
            pod_ip: self.pod_ip,
            policy: self.policy,
        }
    }
}

/// What the interface of a ready tunnel is made from.
#[derive(Debug, PartialEq)]
pub struct TunnelParams {
    pub tunnel_address: Ipv4Addr,
    pub tunnel_address_prefix: u8,
    pub listen_port: u16,
    pub peers: Vec<WireguardPeerConfig>,
}

/// What a `TunnelParams` denotes.
pub struct TunnelParamsView {
    pub tunnel_address: Ipv4Addr,
    pub tunnel_address_prefix: u8,
    pub listen_port: u16,
    pub peers: Seq<WireguardPeerConfigView>,
}

impl View for TunnelParams {
    type V = TunnelParamsView;

    open spec fn view(&self) -> TunnelParamsView {
        TunnelParamsView {
            tunnel_address: self.tunnel_address,
            tunnel_address_prefix: self.tunnel_address_prefix,
            listen_port: self.listen_port,
            peers: peer_views(self.peers@),
        }
    }
}

/// What a tunnel that was read is good for.
#[derive(Debug, PartialEq)]
pub enum Readiness {
    /// It is not flagged ready, or has no peer yet.
    NotReady,
    /// It is flagged ready and has peers, but lacks its tunnel address or
    /// prefix.
    Incomplete,
    /// Its interface can be made from this.
    Ready(TunnelParams),
}

/// What a `Readiness` denotes.
pub enum ReadinessView {
    NotReady,
    Incomplete,
    Ready(TunnelParamsView),
}

impl View for Readiness {
    type V = ReadinessView;

    open spec fn view(&self) -> ReadinessView {
        match self {
            Readiness::NotReady => ReadinessView::NotReady,
            Readiness::Incomplete => ReadinessView::Incomplete,
            Readiness::Ready(params) => ReadinessView::Ready(params@),
        }
    }
}

/// The tunnel address, its prefix length and the listen port (the default
/// port where the tunnel's `spec` names none) of a tunnel with listen port
/// `listen_port` and state `status`, where the state has the address and
/// the prefix.
pub open spec fn net_of(listen_port: Option<u16>, status: StatusView) -> Option<(Ipv4Addr, u8, u16)> {
    if status.tunnel_address is Some && status.tunnel_address_prefix is Some {
        Some(
            (
                status.tunnel_address->0,
                status.tunnel_address_prefix->0,
                match listen_port {
                    Some(port) => port,
                    None => DEFAULT_WIREGUARD_LISTEN_PORT,
                },
            ),
        )
    } else {
        None
    }
}

/// The tunnel address, its prefix length and the listen port of
/// `wireguard_config`, where its state has the address and the prefix.
pub fn getnet(wireguard_config: &WireguardConfig) -> (r: Option<(Ipv4Addr, u8, u16)>)
    ensures
        r == net_of(wireguard_config.spec.interface.listen_port, wireguard_config.status_view()),
{
    let status = match &wireguard_config.status {
        Some(status) => status,
        None => { return None; },
    };
    let listen_port: u16 = match wireguard_config.spec.interface.listen_port {
        Some(port) => port,
        None => DEFAULT_WIREGUARD_LISTEN_PORT,
    };
    match (status.tunnel_address, status.tunnel_address_prefix) {
        (Some(address), Some(prefix)) => Some((address, prefix, listen_port)),
        _ => None,
    }
}

/// What a tunnel with listen port `listen_port` and state `status` is good
/// for: it is ready once it is flagged ready and has at least one peer.
pub open spec fn readiness_of(listen_port: Option<u16>, status: StatusView) -> ReadinessView {
    if !status.interface_ready || status.peers.len() == 0 {
        ReadinessView::NotReady
    } else {
        match net_of(listen_port, status) {
            Some((tunnel_address, tunnel_address_prefix, listen_port)) => ReadinessView::Ready(
                TunnelParamsView {
                    tunnel_address,
                    tunnel_address_prefix,
                    listen_port,
                    peers: status.peers,
                },
            ),
            None => ReadinessView::Incomplete,
        }
    }
}

/// What the tunnel `wireguard_config`, as it was read, is good for.
pub fn readiness(wireguard_config: &WireguardConfig) -> (r: Readiness)
    ensures
        r@ == readiness_of(
            wireguard_config.spec.interface.listen_port,
            wireguard_config.status_view(),
        ),
{
    let status = match &wireguard_config.status {
        Some(status) => status,
        None => { return Readiness::NotReady; },
    };
    assert(status@.peers.len() == status.peers.len());
    if !status.interface_ready || status.peers.len() == 0 {
        return Readiness::NotReady;
    }
    match getnet(wireguard_config) {
        Some((tunnel_address, tunnel_address_prefix, listen_port)) => Readiness::Ready(
            TunnelParams {
                tunnel_address,
                tunnel_address_prefix,
                listen_port,
                peers: clone_peers(&status.peers),
            },
        ),
        None => Readiness::Incomplete,
    }
}

/// What a list of secrets denotes.
pub open spec fn secret_views(secrets: Seq<KeySecret>) -> Seq<KeySecretView> {
    Seq::new(secrets.len(), |k: int| secrets[k]@)
}

/// The private key among `secrets`, the secrets that carry a tunnel's
/// label: there must be exactly one secret, and it must store the key.
pub open spec fn private_key_of(secrets: Seq<KeySecretView>) -> Result<Seq<char>, ErrorView> {
    if secrets.len() != 1 {
        Err(ErrorView::SecretReadError)
    } else {
        match secrets[0].private_key() {
            Some(private_key) => Ok(private_key),
            None => Err(ErrorView::MalformedSecret),
        }
    }
}

/// The private key among `secrets`, the secrets that carry a tunnel's
/// label: `SecretReadError` unless there is exactly one secret,
/// `MalformedSecret` where that one lacks its data or the key.
pub fn get_privkey(secrets: &Vec<KeySecret>) -> (r: Result<String, Error>)
    ensures
        text_result(r) == private_key_of(secret_views(secrets@)),
{
    if secrets.len() != 1 {
        return Err(Error::SecretReadError);
    }
    assert(secret_views(secrets@)[0] == secrets[0]@);
    match &secrets[0].data {
        Some(data) => match &data.private_key {
            Some(private_key) => Ok(private_key.clone()),
            None => Err(Error::MalformedSecret),
        },
        None => Err(Error::MalformedSecret),
    }
}

/// The commands of an interface, with what the caller is told once they
/// have all run.
#[derive(Debug, PartialEq)]
pub struct Plan {
    pub commands: Vec<Command>,
    pub tunnel_address: Ipv4Addr,
    pub tunnel_address_prefix: u8,
}

/// What a `Plan` denotes.
pub struct PlanView {
    pub commands: Seq<CommandView>,
    pub tunnel_address: Ipv4Addr,
    pub tunnel_address_prefix: u8,
}

impl View for Plan {
    type V = PlanView;

    open spec fn view(&self) -> PlanView {
        PlanView {
            commands: command_views(self.commands@),
            tunnel_address: self.tunnel_address,
            tunnel_address_prefix: self.tunnel_address_prefix,
        }
    }
}

/// The plan for the interface of a tunnel with these parameters and this
/// private key.
pub open spec fn plan_of(params: TunnelParamsView, private_key: Seq<char>) -> PlanView {
    PlanView {
        commands: interface_commands(
            params.tunnel_address,
            params.tunnel_address_prefix,
            private_key,
            params.listen_port,
            params.peers,
        ),
        tunnel_address: params.tunnel_address,
        tunnel_address_prefix: params.tunnel_address_prefix,
    }
}

/// How the work inside the pod's namespace ended.
#[derive(Debug, PartialEq)]
pub enum Outcome {
    /// Every command ran.
    Configured { tunnel_address: Ipv4Addr, tunnel_address_prefix: u8 },
    /// A command failed, or the work was cut short.
    Aborted(Error),
}

/// What an `Outcome` denotes.
pub enum OutcomeView {
    Configured { tunnel_address: Ipv4Addr, tunnel_address_prefix: u8 },
    Aborted(ErrorView),
}

impl View for Outcome {
    type V = OutcomeView;

    open spec fn view(&self) -> OutcomeView {
        match self {
            Outcome::Configured { tunnel_address, tunnel_address_prefix } => OutcomeView::Configured {
                tunnel_address: *tunnel_address,
                tunnel_address_prefix: *tunnel_address_prefix,
            },
            Outcome::Aborted(error) => OutcomeView::Aborted(error@),
        }
    }
}

/// How far the provisioning of a pod's tunnel has come.
#[derive(Debug, PartialEq)]
pub enum Provisioning {
    /// Nothing was done yet.
    Start,
    /// The tunnel is being read, for the `polls`th time, after a pause of
    /// `delay_ms` milliseconds.
    ConfigAwaited { polls: u64, delay_ms: u64 },
    /// The pod's address is being written to the tunnel that was read and
    /// found to be `found`.
    PatchAwaited { polls: u64, delay_ms: u64, found: Readiness },
    /// The tunnel is ready, and its key secret is being looked up.
    SecretsAwaited { params: TunnelParams },
    /// The pod's namespace is being entered.
    NamespaceAwaited { plan: Plan },
    /// Command number `cursor` of the plan is running inside the pod's
    /// namespace.
    CommandAwaited { plan: Plan, cursor: usize },
    /// The caller's namespace is being restored.
    RestoreAwaited { outcome: Outcome },
    /// The provisioning is over.
    Finished,
}

/// What a `Provisioning` denotes.
pub enum ProvisioningView {
    Start,
    ConfigAwaited { polls: u64, delay_ms: u64 },
    PatchAwaited { polls: u64, delay_ms: u64, found: ReadinessView },
    SecretsAwaited { params: TunnelParamsView },
    NamespaceAwaited { plan: PlanView },
    CommandAwaited { plan: PlanView, cursor: usize },
    RestoreAwaited { outcome: OutcomeView },
    Finished,
}

impl View for Provisioning {
    type V = ProvisioningView;

    open spec fn view(&self) -> ProvisioningView {
        match self {
            Provisioning::Start => ProvisioningView::Start,
            Provisioning::ConfigAwaited { polls, delay_ms } => ProvisioningView::ConfigAwaited {
                polls: *polls,
                delay_ms: *delay_ms,
            },
            Provisioning::PatchAwaited { polls, delay_ms, found } => ProvisioningView::PatchAwaited {
                polls: *polls,
                delay_ms: *delay_ms,
                found: found@,
            },
            Provisioning::SecretsAwaited { params } => ProvisioningView::SecretsAwaited {
                params: params@,
            },
            Provisioning::NamespaceAwaited { plan } => ProvisioningView::NamespaceAwaited {
                plan: plan@,
            },
            Provisioning::CommandAwaited { plan, cursor } => ProvisioningView::CommandAwaited {
                plan: plan@,
                cursor: *cursor,
            },
            Provisioning::RestoreAwaited { outcome } => ProvisioningView::RestoreAwaited {
                outcome: outcome@,
            },
            Provisioning::Finished => ProvisioningView::Finished,
        }
    }
}

/// What came of the last request of the provisioning.
#[derive(Debug, PartialEq)]
pub enum ProvisionEvent {
    /// Nothing was asked yet.
    Begin,
    /// The tunnel was read.
    ConfigFound(WireguardConfig),
    /// The store holds no tunnel for the pod.
    ConfigMissing,
    /// The patch was written.
    Patched,
    /// The patch was refused.
    PatchFailed,
    /// These secrets carry the tunnel's label.
    Secrets(Vec<KeySecret>),
    /// The store failed on a read.
    StoreFailed,
    /// The pod's namespace was entered.
    NamespaceEntered,
    /// The caller's namespace was restored.
    NamespaceRestored,
    /// The namespace could not be switched.
    NamespaceFailed,
    /// The command ran, and ended so.
    Ran(CommandOutput),
}

/// What a `ProvisionEvent` denotes.
pub enum ProvisionEventView {
    Begin,
    ConfigFound { listen_port: Option<u16>, status: StatusView },
    ConfigMissing,
    Patched,
    PatchFailed,
    Secrets(Seq<KeySecretView>),
    StoreFailed,
    NamespaceEntered,
    NamespaceRestored,
    NamespaceFailed,
    Ran(CommandOutputView),
}

impl View for ProvisionEvent {
    type V = ProvisionEventView;

    open spec fn view(&self) -> ProvisionEventView {
        match self {
            ProvisionEvent::Begin => ProvisionEventView::Begin,
            ProvisionEvent::ConfigFound(config) => ProvisionEventView::ConfigFound {
                listen_port: config.spec.interface.listen_port,
                status: config.status_view(),
            },
            ProvisionEvent::ConfigMissing => ProvisionEventView::ConfigMissing,
            ProvisionEvent::Patched => ProvisionEventView::Patched,
            ProvisionEvent::PatchFailed => ProvisionEventView::PatchFailed,
            ProvisionEvent::Secrets(secrets) => ProvisionEventView::Secrets(secret_views(secrets@)),
            ProvisionEvent::StoreFailed => ProvisionEventView::StoreFailed,
            ProvisionEvent::NamespaceEntered => ProvisionEventView::NamespaceEntered,
            ProvisionEvent::NamespaceRestored => ProvisionEventView::NamespaceRestored,
            ProvisionEvent::NamespaceFailed => ProvisionEventView::NamespaceFailed,
            ProvisionEvent::Ran(output) => ProvisionEventView::Ran(output@),
        }
    }
}

/// What the provisioning asks for next.
#[derive(Debug, PartialEq)]
pub enum ProvisionRequest {
    /// Pause for `delay_ms` milliseconds, then read the tunnel `name` in
    /// `namespace`.
    GetConfig { namespace: String, name: String, delay_ms: u64 },
    /// Merge `patch` into the state of the tunnel `name` in `namespace`.
    PatchStatus { namespace: String, name: String, patch: StatusPatch },
    /// List the secrets in `namespace` that match `label_selector`.
    ListSecrets { namespace: String, label_selector: String },
    /// Keep a handle on the current network namespace and enter the one at
    /// `path`.
    EnterNamespace { path: String },
    /// Run this command.
    Run(Command),
    /// Go back to the network namespace that was current before.
    RestoreNamespace,
    /// The provisioning is over: the pod has no tunnel, or its interface
    /// with this name, address and prefix length is up.
    Finish(Option<(String, Ipv4Addr, u8)>),
    /// The provisioning has failed.
    Fail(Error),
}

/// What a `ProvisionRequest` denotes.
pub enum ProvisionRequestView {
    GetConfig { namespace: Seq<char>, name: Seq<char>, delay_ms: u64 },
    PatchStatus { namespace: Seq<char>, name: Seq<char>, patch: StatusPatchView },
    ListSecrets { namespace: Seq<char>, label_selector: Seq<char> },
    EnterNamespace { path: Seq<char> },
    Run(CommandView),
    RestoreNamespace,
    Finish(Option<(Seq<char>, Ipv4Addr, u8)>),
    Fail(ErrorView),
}

impl View for ProvisionRequest {
    type V = ProvisionRequestView;

    open spec fn view(&self) -> ProvisionRequestView {
        match self {
            ProvisionRequest::GetConfig { namespace, name, delay_ms } => ProvisionRequestView::GetConfig {
                namespace: namespace@,
                name: name@,
                delay_ms: *delay_ms,
            },
            ProvisionRequest::PatchStatus { namespace, name, patch } => ProvisionRequestView::PatchStatus {
                namespace: namespace@,
                name: name@,
                patch: patch@,
            },
            ProvisionRequest::ListSecrets { namespace, label_selector } => ProvisionRequestView::ListSecrets {
                namespace: namespace@,
                label_selector: label_selector@,
            },
            ProvisionRequest::EnterNamespace { path } => ProvisionRequestView::EnterNamespace {
                path: path@,
            },
            ProvisionRequest::Run(command) => ProvisionRequestView::Run(command@),
            ProvisionRequest::RestoreNamespace => ProvisionRequestView::RestoreNamespace,
            ProvisionRequest::Finish(done) => ProvisionRequestView::Finish(
                match done {
                    Some((interface, address, prefix)) => Some((interface@, *address, *prefix)),
                    None => None,
                },
            ),
            ProvisionRequest::Fail(error) => ProvisionRequestView::Fail(error@),
        }
    }
}

/// The provisioning ends in failure.
pub open spec fn fail(error: ErrorView) -> (ProvisioningView, ProvisionRequestView) {
    (ProvisioningView::Finished, ProvisionRequestView::Fail(error))
}

/// The work inside the pod's namespace ends with `outcome`; the caller's
/// namespace is restored before anything else.
pub open spec fn leave(outcome: OutcomeView) -> (ProvisioningView, ProvisionRequestView) {
    (ProvisioningView::RestoreAwaited { outcome }, ProvisionRequestView::RestoreNamespace)
}

/// The tunnel is read once more, after the next pause, unless the polls
/// allowed are used up.
pub open spec fn poll_again(pod: PodSandboxView, polls: u64, delay_ms: u64) -> (
    ProvisioningView,
    ProvisionRequestView,
) {
    if pod.policy.max_polls is Some && polls >= pod.policy.max_polls->0 {
        fail(ErrorView::ProvisioningTimedOut)
    } else {
        (
            ProvisioningView::ConfigAwaited {
                polls: if polls < u64::MAX {
                    (polls + 1) as u64
                } else {
                    polls
                },
                delay_ms: pod.policy.next_delay(delay_ms),
            },
            ProvisionRequestView::GetConfig {
                namespace: pod.namespace,
                name: pod.name,
                delay_ms: pod.policy.next_delay(delay_ms),
            },
        )
    }
}

/// Command number `cursor` of `plan` is run, or, where the plan has no
/// such command, the namespace is left with every command done.
pub open spec fn run_from(plan: PlanView, cursor: usize) -> (
    ProvisioningView,
    ProvisionRequestView,
) {
    if cursor < plan.commands.len() {
        (
            ProvisioningView::CommandAwaited { plan, cursor },
            ProvisionRequestView::Run(plan.commands[cursor as int]),
        )
    } else {
        leave(
            OutcomeView::Configured {
                tunnel_address: plan.tunnel_address,
                tunnel_address_prefix: plan.tunnel_address_prefix,
            },
        )
    }
}

/// One step of the wait for the readiness of the tunnel of `pod`: where
/// the provisioning stands after `event` arrived in `state`, and what it
/// asks for next.
///
/// The tunnel is read; a pod without one is done at once. The pod's address
/// is written to the tunnel that was read. A write that was refused, or a
/// tunnel that was not found ready, leads to the next read; a tunnel that
/// was found ready leads to the lookup of its key secret.
pub open spec fn wait_for_readiness(
    pod: PodSandboxView,
    state: ProvisioningView,
    event: ProvisionEventView,
) -> (ProvisioningView, ProvisionRequestView) {
    match (state, event) {
        (ProvisioningView::Start, _) => (
            ProvisioningView::ConfigAwaited { polls: 1, delay_ms: 0 },
            ProvisionRequestView::GetConfig { namespace: pod.namespace, name: pod.name, delay_ms: 0 },
        ),
        (ProvisioningView::ConfigAwaited { .. }, ProvisionEventView::ConfigMissing) => (
            ProvisioningView::Finished,
            ProvisionRequestView::Finish(None),
        ),
        (ProvisioningView::ConfigAwaited { .. }, ProvisionEventView::StoreFailed) => fail(
            ErrorView::StoreUnavailable,
        ),
        (
            ProvisioningView::ConfigAwaited { polls, delay_ms },
            ProvisionEventView::ConfigFound { listen_port, status },
        ) => (
            ProvisioningView::PatchAwaited {
                polls,
                delay_ms,
                found: readiness_of(listen_port, status),
            },
            ProvisionRequestView::PatchStatus {
                namespace: pod.namespace,
                name: pod.name,
                patch: StatusPatchView::PodAddress(pod.pod_ip),
            },
        ),
        (
            ProvisioningView::PatchAwaited { polls, delay_ms, found },
            ProvisionEventView::Patched,
        ) => match found {
            ReadinessView::NotReady => poll_again(pod, polls, delay_ms),
            ReadinessView::Incomplete => fail(ErrorView::IncompleteStatus),
            ReadinessView::Ready(params) => (
                ProvisioningView::SecretsAwaited { params },
                ProvisionRequestView::ListSecrets {
                    namespace: pod.namespace,
                    label_selector: label_selector(pod.name),
                },
            ),
        },
        (
            ProvisioningView::PatchAwaited { polls, delay_ms, .. },
            ProvisionEventView::PatchFailed,
        ) => poll_again(pod, polls, delay_ms),
        _ => fail(ErrorView::UnexpectedEvent),
    }
}

/// Whether the provisioning in `state` still waits for the tunnel's
/// readiness.
pub open spec fn waiting(state: ProvisioningView) -> bool {
    state is Start || state is ConfigAwaited || state is PatchAwaited
}

/// One step of the provisioning of the tunnel of `pod`: where it stands
/// after `event` arrived in `state`, and what it asks for next.
///
/// First the tunnel's readiness is waited for. Then its private key is
/// looked up, the pod's namespace is entered, and the commands of the plan
/// are run in order. The first failure ends the run of commands. However
/// the work inside the pod's namespace ends, the caller's namespace is
/// restored before the provisioning finishes or fails.
pub open spec fn provision(
    pod: PodSandboxView,
    state: ProvisioningView,
    event: ProvisionEventView,
) -> (ProvisioningView, ProvisionRequestView) {
    if waiting(state) {
        wait_for_readiness(pod, state, event)
    } else {
        match (state, event) {
            (
                ProvisioningView::SecretsAwaited { params },
                ProvisionEventView::Secrets(secrets),
            ) => match private_key_of(secrets) {
                Ok(private_key) => (
                    ProvisioningView::NamespaceAwaited { plan: plan_of(params, private_key) },
                    ProvisionRequestView::EnterNamespace { path: pod.netns },
                ),
                Err(error) => fail(error),
            },
            (ProvisioningView::SecretsAwaited { .. }, ProvisionEventView::StoreFailed) => fail(
                ErrorView::SecretReadError,
            ),
            (
                ProvisioningView::NamespaceAwaited { plan },
                ProvisionEventView::NamespaceEntered,
            ) => run_from(plan, 0),
            (
                ProvisioningView::NamespaceAwaited { .. },
                ProvisionEventView::NamespaceFailed,
            ) => fail(ErrorView::NamespaceSwitchFailed),
            (ProvisioningView::NamespaceAwaited { .. }, _) => leave(
                OutcomeView::Aborted(ErrorView::UnexpectedEvent),
            ),
            (
                ProvisioningView::CommandAwaited { plan, cursor },
                ProvisionEventView::Ran(output),
            ) => match output.result() {
                Ok(_) => if cursor < usize::MAX {
                    run_from(plan, (cursor + 1) as usize)
                } else {
                    leave(OutcomeView::Aborted(ErrorView::UnexpectedEvent))
                },
                Err(error) => leave(OutcomeView::Aborted(error)),
            },
            (ProvisioningView::CommandAwaited { .. }, _) => leave(
                OutcomeView::Aborted(ErrorView::UnexpectedEvent),
            ),
            (
                ProvisioningView::RestoreAwaited { outcome },
                ProvisionEventView::NamespaceRestored,
            ) => match outcome {
                OutcomeView::Configured { tunnel_address, tunnel_address_prefix } => (
                    ProvisioningView::Finished,
                    ProvisionRequestView::Finish(
                        Some(
                            (
                                DEFAULT_WIREGUARD_INTERFACE_NAME@,
                                tunnel_address,
                                tunnel_address_prefix,
                            ),
                        ),
                    ),
                ),
                OutcomeView::Aborted(error) => fail(error),
            },
            (ProvisioningView::RestoreAwaited { outcome }, _) => match outcome {
                OutcomeView::Configured { .. } => fail(ErrorView::NamespaceSwitchFailed),
                OutcomeView::Aborted(error) => fail(error),
            },
            _ => fail(ErrorView::UnexpectedEvent),
        }
    }
}

/// Ends the provisioning in failure.
fn failed(error: Error) -> (r: (Provisioning, ProvisionRequest))
    ensures
        (r.0@, r.1@) == fail(error@),
{
    (Provisioning::Finished, ProvisionRequest::Fail(error))
}

/// Leaves the pod's namespace with `outcome`.
fn leaving(outcome: Outcome) -> (r: (Provisioning, ProvisionRequest))
    ensures
        (r.0@, r.1@) == leave(outcome@),
{
    (Provisioning::RestoreAwaited { outcome }, ProvisionRequest::RestoreNamespace)
}

/// Reads the tunnel once more, unless the polls allowed are used up.
fn polling_again(pod: &PodSandbox, polls: u64, delay_ms: u64) -> (r: (
    Provisioning,
    ProvisionRequest,
))
    ensures
        (r.0@, r.1@) == poll_again(pod@, polls, delay_ms),
{
    let used_up = match pod.policy.max_polls {
        Some(max_polls) => polls >= max_polls,
        None => false,
    };
    if used_up {
        return failed(Error::ProvisioningTimedOut);
    }
    let next_polls: u64 = if polls < u64::MAX {
        polls + 1
    } else {
        polls
    };
    let next_delay = pod.policy.delay_after(delay_ms);
    (
        Provisioning::ConfigAwaited { polls: next_polls, delay_ms: next_delay },
        ProvisionRequest::GetConfig {
            namespace: pod.namespace.clone(),
            name: pod.name.clone(),
            delay_ms: next_delay,
        },
    )
}

/// Runs command number `cursor` of `plan`, or leaves the namespace.
fn running_from(plan: Plan, cursor: usize) -> (r: (Provisioning, ProvisionRequest))
    ensures
        (r.0@, r.1@) == run_from(plan@, cursor),
{
    assert(plan@.commands.len() == plan.commands.len());
    if cursor < plan.commands.len() {
        let command = plan.commands[cursor].clone();
        assert(plan@.commands[cursor as int] == plan.commands[cursor as int]@);
        (Provisioning::CommandAwaited { plan, cursor }, ProvisionRequest::Run(command))
    } else {
        leaving(
            Outcome::Configured {
                tunnel_address: plan.tunnel_address,
                tunnel_address_prefix: plan.tunnel_address_prefix,
            },
        )
    }
}

/// The plan for the interface of a tunnel with these parameters and this
/// private key.
pub fn plan(params: &TunnelParams, private_key: &str) -> (r: Plan)
    ensures
        r@ == plan_of(params@, private_key@),
{
    Plan {
        commands: configure_wireguard_interface(
            &params.tunnel_address,
            params.tunnel_address_prefix,
            private_key,
            params.listen_port,
            &params.peers,
        ),
        tunnel_address: params.tunnel_address,
        tunnel_address_prefix: params.tunnel_address_prefix,
    }
}

/// Takes one step of the wait for the readiness of the tunnel of `pod`:
/// reads the tunnel, writes the pod's address to it, and reads again
/// until the tunnel was found ready.
pub fn get_wg_config(pod: &PodSandbox, state: Provisioning, event: ProvisionEvent) -> (r: (
    Provisioning,
    ProvisionRequest,
))
    ensures
        (r.0@, r.1@) == wait_for_readiness(pod@, state@, event@),
{
    match (state, event) {
        (Provisioning::Start, _) => (
            Provisioning::ConfigAwaited { polls: 1, delay_ms: 0 },
            ProvisionRequest::GetConfig {
                namespace: pod.namespace.clone(),
                name: pod.name.clone(),
                delay_ms: 0,
            },
        ),
        (Provisioning::ConfigAwaited { .. }, ProvisionEvent::ConfigMissing) => (
            Provisioning::Finished,
            ProvisionRequest::Finish(None),
        ),
        (Provisioning::ConfigAwaited { .. }, ProvisionEvent::StoreFailed) => failed(
            Error::StoreUnavailable,
        ),
        (Provisioning::ConfigAwaited { polls, delay_ms }, ProvisionEvent::ConfigFound(config)) => (
            Provisioning::PatchAwaited { polls, delay_ms, found: readiness(&config) },
            ProvisionRequest::PatchStatus {
                namespace: pod.namespace.clone(),
                name: pod.name.clone(),
                patch: StatusPatch::PodAddress(pod.pod_ip),
            },
        ),
        (Provisioning::PatchAwaited { polls, delay_ms, found }, ProvisionEvent::Patched) => match found {
            Readiness::NotReady => polling_again(pod, polls, delay_ms),
            Readiness::Incomplete => failed(Error::IncompleteStatus),
            Readiness::Ready(params) => (
                Provisioning::SecretsAwaited { params },
                ProvisionRequest::ListSecrets {
                    namespace: pod.namespace.clone(),
                    label_selector: secret_label_selector(pod.name.as_str()),
                },
            ),
        },
        (Provisioning::PatchAwaited { polls, delay_ms, .. }, ProvisionEvent::PatchFailed) => polling_again(
            pod,
            polls,
            delay_ms,
        ),
        _ => failed(Error::UnexpectedEvent),
    }
}

/// Whether the provisioning in `state` still waits for the tunnel's
/// readiness.
fn is_waiting(state: &Provisioning) -> (r: bool)
    ensures
        r == waiting(state@),
{
    match state {
        Provisioning::Start => true,
        Provisioning::ConfigAwaited { .. } => true,
        Provisioning::PatchAwaited { .. } => true,
        _ => false,
    }
}

/// Takes one step of the provisioning of the tunnel of `pod`. It starts in
/// `Provisioning::Start` with `ProvisionEvent::Begin`; the caller does what
/// is asked and comes back with the state that was returned and what came
/// of the request, until the request is to finish or to fail.
pub fn configure_wireguard_for_pod(
    pod: &PodSandbox,
    state: Provisioning,
    event: ProvisionEvent,
) -> (r: (Provisioning, ProvisionRequest))
    ensures
        (r.0@, r.1@) == provision(pod@, state@, event@),
{
    if is_waiting(&state) {
        return get_wg_config(pod, state, event);
    }
    match (state, event) {
        (Provisioning::SecretsAwaited { params }, ProvisionEvent::Secrets(secrets)) => match get_privkey(
            &secrets,
        ) {
            Ok(private_key) => (
                Provisioning::NamespaceAwaited { plan: plan(&params, private_key.as_str()) },
                ProvisionRequest::EnterNamespace { path: pod.netns.clone() },
            ),
            Err(error) => failed(error),
        },
        (Provisioning::SecretsAwaited { .. }, ProvisionEvent::StoreFailed) => failed(
            Error::SecretReadError,
        ),
        (Provisioning::NamespaceAwaited { plan }, ProvisionEvent::NamespaceEntered) => running_from(
            plan,
            0,
        ),
        (Provisioning::NamespaceAwaited { .. }, ProvisionEvent::NamespaceFailed) => failed(
            Error::NamespaceSwitchFailed,
        ),
        (Provisioning::NamespaceAwaited { .. }, _) => leaving(
            Outcome::Aborted(Error::UnexpectedEvent),
        ),
        (Provisioning::CommandAwaited { plan, cursor }, ProvisionEvent::Ran(output)) => match output.into_result() {
            Ok(_) => if cursor < usize::MAX {
                running_from(plan, cursor + 1)
            } else {
                leaving(Outcome::Aborted(Error::UnexpectedEvent))
            },
            Err(error) => leaving(Outcome::Aborted(error)),
        },
        (Provisioning::CommandAwaited { .. }, _) => leaving(
            Outcome::Aborted(Error::UnexpectedEvent),
        ),
        (Provisioning::RestoreAwaited { outcome }, ProvisionEvent::NamespaceRestored) => match outcome {
            Outcome::Configured { tunnel_address, tunnel_address_prefix } => (
                Provisioning::Finished,
                ProvisionRequest::Finish(
                    Some(
                        (
                            String::from_str(DEFAULT_WIREGUARD_INTERFACE_NAME),
                            tunnel_address,
                            tunnel_address_prefix,
                        ),
                    ),
                ),
            ),
            Outcome::Aborted(error) => failed(error),
        },
        (Provisioning::RestoreAwaited { outcome }, _) => match outcome {
            Outcome::Configured { .. } => failed(Error::NamespaceSwitchFailed),
            Outcome::Aborted(error) => failed(error),
        },
        _ => failed(Error::UnexpectedEvent),
    }
}

/// While a command runs inside the pod's namespace, nothing that arrives
/// finishes or fails the provisioning: the next request is the next
/// command, or the return to the caller's namespace.
pub proof fn lemma_namespace_is_restored(
    pod: PodSandboxView,
    plan: PlanView,
    cursor: usize,
    event: ProvisionEventView,
)
    ensures
        ({
            let (next, request) = provision(
                pod,
                ProvisioningView::CommandAwaited { plan, cursor },
                event,
            );
            ||| next is CommandAwaited && request is Run
            ||| next is RestoreAwaited && request is RestoreNamespace
        }),
{
}

/// A command that fails ends the run of commands: the namespace is
/// restored next, and then the provisioning fails with what the command
/// wrote to its standard error.
pub proof fn lemma_failed_command_aborts(
    pod: PodSandboxView,
    plan: PlanView,
    cursor: usize,
    output: CommandOutputView,
)
    requires
        !output.success,
    ensures
        ({
            let aborted = provision(
                pod,
                ProvisioningView::CommandAwaited { plan, cursor },
                ProvisionEventView::Ran(output),
            );
            &&& aborted == leave(
                OutcomeView::Aborted(ErrorView::CommandFailed { stderr: output.stderr }),
            )
            &&& provision(pod, aborted.0, ProvisionEventView::NamespaceRestored) == fail(
                ErrorView::CommandFailed { stderr: output.stderr },
            )
        }),
{
}

/// The commands run in the order of the plan, and the namespace is left as
/// configured only after the last of them succeeded.
pub proof fn lemma_commands_in_order(
    pod: PodSandboxView,
    plan: PlanView,
    cursor: usize,
    event: ProvisionEventView,
)
    ensures
        ({
            let (next, request) = provision(
                pod,
                ProvisioningView::CommandAwaited { plan, cursor },
                event,
            );
            &&& request matches ProvisionRequestView::Run(command) ==> {
                &&& cursor + 1 < plan.commands.len()
                &&& command == plan.commands[cursor + 1]
                &&& next == (ProvisioningView::CommandAwaited { plan, cursor: (cursor + 1) as usize })
                &&& event matches ProvisionEventView::Ran(output) && output.success
            }
            &&& next matches ProvisioningView::RestoreAwaited {
                outcome: OutcomeView::Configured { .. },
            } ==> {
                &&& cursor + 1 >= plan.commands.len()
                &&& event matches ProvisionEventView::Ran(output) && output.success
            }
        }),
{
}

/// The provisioning reports an interface only on the return to the
/// caller's namespace, after every command ran.
pub proof fn lemma_finish_follows_restore(
    pod: PodSandboxView,
    state: ProvisioningView,
    event: ProvisionEventView,
)
    requires
        provision(pod, state, event).1 matches ProvisionRequestView::Finish(Some(_)),
    ensures
        state matches ProvisioningView::RestoreAwaited { outcome: OutcomeView::Configured { .. } },
        event is NamespaceRestored,
{
}

/// Where the provisioning stands once the commands from number `cursor` on
/// have ended as `outputs` say, one after the other.
pub open spec fn after_outputs(
    pod: PodSandboxView,
    plan: PlanView,
    cursor: usize,
    outputs: Seq<CommandOutputView>,
) -> (ProvisioningView, ProvisionRequestView)
    decreases outputs.len(),
{
    if outputs.len() == 0 {
        run_from(plan, cursor)
    } else {
        provision(
            pod,
            after_outputs(pod, plan, cursor, outputs.drop_last()).0,
            ProvisionEventView::Ran(outputs.last()),
        )
    }
}

/// As long as the commands succeed, they are run one after the other in
/// the order of the plan; after the last of them the namespace is left as
/// configured.
pub proof fn lemma_successful_run(
    pod: PodSandboxView,
    plan: PlanView,
    cursor: usize,
    outputs: Seq<CommandOutputView>,
)
    requires
        cursor + outputs.len() <= plan.commands.len() <= usize::MAX,
        forall|i: int| 0 <= i < outputs.len() ==> (#[trigger] outputs[i]).success,
    ensures
        after_outputs(pod, plan, cursor, outputs) == run_from(
            plan,
            (cursor + outputs.len()) as usize,
        ),
        cursor + outputs.len() == plan.commands.len() ==> after_outputs(
            pod,
            plan,
            cursor,
            outputs,
        ) == leave(
            OutcomeView::Configured {
                tunnel_address: plan.tunnel_address,
                tunnel_address_prefix: plan.tunnel_address_prefix,
            },
        ),
    decreases outputs.len(),
{
    if outputs.len() > 0 {
        let front = outputs.drop_last();
        assert forall|i: int| 0 <= i < front.len() implies (#[trigger] front[i]).success by {
            assert(front[i] == outputs[i]);
        }
        lemma_successful_run(pod, plan, cursor, front);
        assert(outputs.last() == outputs[outputs.len() - 1]);
    }
}

/// The first command that fails is the last that is run: the namespace is
/// left next, and the provisioning then fails with what that command wrote
/// to its standard error.
pub proof fn lemma_first_failure_ends_the_run(
    pod: PodSandboxView,
    plan: PlanView,
    cursor: usize,
    outputs: Seq<CommandOutputView>,
    failed: CommandOutputView,
)
    requires
        cursor + outputs.len() < plan.commands.len() <= usize::MAX,
        forall|i: int| 0 <= i < outputs.len() ==> (#[trigger] outputs[i]).success,
        !failed.success,
    ensures
        after_outputs(pod, plan, cursor, outputs.push(failed)) == leave(
            OutcomeView::Aborted(ErrorView::CommandFailed { stderr: failed.stderr }),
        ),
        provision(
            pod,
            after_outputs(pod, plan, cursor, outputs.push(failed)).0,
            ProvisionEventView::NamespaceRestored,
        ) == fail(ErrorView::CommandFailed { stderr: failed.stderr }),
{
    lemma_successful_run(pod, plan, cursor, outputs);
    assert(outputs.push(failed).drop_last() =~= outputs);
    assert(outputs.push(failed).last() == failed);
}

} // verus!
