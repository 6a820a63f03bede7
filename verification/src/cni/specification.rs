//! The configuration that the container runtime hands to the plugin, with
//! the result of the plugins that ran before it.

use crate::fields::{cut, find_char, first_index, split, split_ranges, substring};
use crate::net::Ipv4Addr;
use crate::text::chars_of;
use crate::wireguard::configs::text_of;
use vstd::prelude::*;
use vstd::string::*;

verus! {

/// The key of the pod's namespace among the plugin's arguments.
pub const POD_NAMESPACE_KEY: &'static str = "K8S_POD_NAMESPACE";

/// The key of the pod's name among the plugin's arguments.
pub const POD_NAME_KEY: &'static str = "K8S_POD_NAME";

/// Why the plugin could not tell which pod it was called for, or what to
/// do.
#[derive(Clone, Copy, Debug, PartialEq, Eq, Structural)]
pub enum CniError {
    /// The command is none of `ADD`, `DEL` and `CHECK`.
    UnsupportedCommand,
    /// The configuration carries no result of an earlier plugin.
    MissingPreviousResult,
    /// The path of the pod's network namespace was not given.
    MissingNetns,
    /// No interface of the earlier result lies in the pod's namespace.
    NoInterface,
    /// No address of the earlier result belongs to that interface.
    NoAddress,
    /// The entry for the pod's interface names no address.
    MissingAddress,
    /// The address of the pod's interface is no IPv4 address.
    MalformedAddress,
    /// The plugin's arguments were not given.
    MissingArgs,
    /// An entry of the plugin's arguments has no `=`.
    MalformedArgs,
    /// The plugin's arguments do not name the pod's namespace.
    MissingPodNamespace,
    /// The plugin's arguments do not name the pod.
    MissingPodName,
}

impl CniError {
    /// A description of this failure for people.
    pub open spec fn message(self) -> Seq<char> {
        match self {
            CniError::UnsupportedCommand => "unsupported cni command"@,
            CniError::MissingPreviousResult => "no cni prevresult found"@,
            CniError::MissingNetns => "empty CNI_NETNS"@,
            CniError::NoInterface => "no interface index found for cni prevresult"@,
            CniError::NoAddress => "no cni ip found for pod"@,
            CniError::MissingAddress => "no address found for cni ip"@,
            CniError::MalformedAddress => "malformed cni ip"@,
            CniError::MissingArgs => "empty CNI_ARGS"@,
            CniError::MalformedArgs => "malformed CNI_ARGS"@,
            CniError::MissingPodNamespace => "empty K8S_POD_NAMESPACE"@,
            CniError::MissingPodName => "empty K8S_POD_NAME"@,
        }
    }

    /// A description of this failure for people.
    pub fn to_string(&self) -> (r: String)
        ensures
            r@ == self.message(),
    {
        match self {
            CniError::UnsupportedCommand => String::from_str("unsupported cni command"),
            CniError::MissingPreviousResult => String::from_str("no cni prevresult found"),
            CniError::MissingNetns => String::from_str("empty CNI_NETNS"),
            CniError::NoInterface => String::from_str(
                "no interface index found for cni prevresult",
            ),
            CniError::NoAddress => String::from_str("no cni ip found for pod"),
            CniError::MissingAddress => String::from_str("no address found for cni ip"),
            CniError::MalformedAddress => String::from_str("malformed cni ip"),
            CniError::MissingArgs => String::from_str("empty CNI_ARGS"),
            CniError::MalformedArgs => String::from_str("malformed CNI_ARGS"),
            CniError::MissingPodNamespace => String::from_str("empty K8S_POD_NAMESPACE"),
            CniError::MissingPodName => String::from_str("empty K8S_POD_NAME"),
        }
    }
}

/// A network interface as a plugin reports it.
#[derive(Debug, PartialEq, Eq)]
pub struct Interface {
    pub name: String,
    pub mac: Option<String>,
    pub mtu: Option<usize>,
    pub sandbox: Option<String>,
    pub socket_path: Option<String>,
    pub pci_id: Option<String>,
}

/// What an `Interface` denotes.
pub struct InterfaceView {
    pub name: Seq<char>,
    pub mac: Option<Seq<char>>,
    pub mtu: Option<usize>,
    pub sandbox: Option<Seq<char>>,
    pub socket_path: Option<Seq<char>>,
    pub pci_id: Option<Seq<char>>,
}

impl View for Interface {
    type V = InterfaceView;

    open spec fn view(&self) -> InterfaceView {
        InterfaceView {
            name: self.name@,
            mac: text_of(self.mac),
            mtu: self.mtu,
            sandbox: text_of(self.sandbox),
            socket_path: text_of(self.socket_path),
            pci_id: text_of(self.pci_id),
        }
    }
}

/// An address as a plugin reports it, with the index of the interface it
/// belongs to.
#[derive(Debug, PartialEq, Eq)]
pub struct Ips {
    pub interface: Option<usize>,
    pub address: Option<String>,
    pub gateway: Option<String>,
}

/// What an `Ips` denotes.
pub struct IpsView {
    pub interface: Option<usize>,
    pub address: Option<Seq<char>>,
    pub gateway: Option<Seq<char>>,
}

impl View for Ips {
    type V = IpsView;

    open spec fn view(&self) -> IpsView {
        IpsView {
            interface: self.interface,
            address: text_of(self.address),
            gateway: text_of(self.gateway),
        }
    }
}

/// A route as a plugin reports it.
#[derive(Debug, PartialEq, Eq)]
pub struct Route {
    pub dst: Option<String>,
    pub gw: Option<String>,
    pub mtu: Option<usize>,
    pub advmss: Option<usize>,
    pub priority: Option<usize>,
    pub table: Option<usize>,
    pub scope: Option<usize>,
}

/// Name resolution as a plugin reports it.
#[derive(Debug, PartialEq, Eq)]
pub struct Dns {
    pub nameservers: Vec<String>,
    pub domain: Option<String>,
    pub search: Vec<String>,
    pub options: Vec<String>,
}

/// The result of the plugins that ran before this one.
#[derive(Debug, PartialEq, Eq)]
pub struct PreviousResult {
    pub cni_version: String,
    pub interfaces: Vec<Interface>,
    pub ips: Vec<Ips>,
    pub routes: Vec<Route>,
    pub dns: Option<Dns>,
}

/// The configuration that the plugin is called with.
#[derive(Debug, PartialEq, Eq)]
pub struct Config {
    pub name: String,
    pub cni_version: String,
    pub type_field: String,
    pub previous_result: Option<PreviousResult>,
}

/// What a list of interfaces denotes.
pub open spec fn interface_views(interfaces: Seq<Interface>) -> Seq<InterfaceView> {
    Seq::new(interfaces.len(), |k: int| interfaces[k]@)
}

/// What a list of addresses denotes.
pub open spec fn ips_views(ips: Seq<Ips>) -> Seq<IpsView> {
    Seq::new(ips.len(), |k: int| ips[k]@)
}

/// The index of the first interface that lies in the namespace `netns`.
pub open spec fn pod_interface(interfaces: Seq<InterfaceView>, netns: Seq<char>) -> Option<int>
    decreases interfaces.len(),
{
    if interfaces.len() == 0 {
        None
    } else if interfaces.last().sandbox == Some(netns) && pod_interface(
        interfaces.drop_last(),
        netns,
    ) is None {
        Some(interfaces.len() - 1)
    } else {
        pod_interface(interfaces.drop_last(), netns)
    }
}

/// The index of the first address that belongs to interface number
/// `interface`.
pub open spec fn pod_ip_entry(ips: Seq<IpsView>, interface: usize) -> Option<int>
    decreases ips.len(),
{
    if ips.len() == 0 {
        None
    } else if ips.last().interface == Some(interface) && pod_ip_entry(ips.drop_last(), interface)
        is None {
        Some(ips.len() - 1)
    } else {
        pod_ip_entry(ips.drop_last(), interface)
    }
}

/// `pod_interface` finds the first interface in the namespace, and none
/// where there is none.
pub proof fn lemma_pod_interface(interfaces: Seq<InterfaceView>, netns: Seq<char>)
    ensures
        match pod_interface(interfaces, netns) {
            Some(index) => {
                &&& 0 <= index < interfaces.len()
                &&& interfaces[index].sandbox == Some(netns)
                &&& forall|k: int|
                    0 <= k < index ==> (#[trigger] interfaces[k]).sandbox != Some(netns)
            },
            None => forall|k: int|
                0 <= k < interfaces.len() ==> (#[trigger] interfaces[k]).sandbox != Some(netns),
        },
    decreases interfaces.len(),
{
    if interfaces.len() > 0 {
        let front = interfaces.drop_last();
        lemma_pod_interface(front, netns);
        assert forall|k: int| 0 <= k < front.len() implies front[k] == interfaces[k] by {
        }
    }
}

/// `pod_ip_entry` finds the first address of the interface, and none where
/// there is none.
pub proof fn lemma_pod_ip_entry(ips: Seq<IpsView>, interface: usize)
    ensures
        match pod_ip_entry(ips, interface) {
            Some(index) => {
                &&& 0 <= index < ips.len()
                &&& ips[index].interface == Some(interface)
                &&& forall|k: int| 0 <= k < index ==> (#[trigger] ips[k]).interface != Some(interface)
            },
            None => forall|k: int|
                0 <= k < ips.len() ==> (#[trigger] ips[k]).interface != Some(interface),
        },
    decreases ips.len(),
{
    if ips.len() > 0 {
        let front = ips.drop_last();
        lemma_pod_ip_entry(front, interface);
        assert forall|k: int| 0 <= k < front.len() implies front[k] == ips[k] by {
        }
    }
}

/// The address part of `address`: what stands before its first `/`.
pub open spec fn address_part(address: Seq<char>) -> Seq<char> {
    split(address, '/')[0]
}

/// The value of `key` among `pairs`, each of the form `key=value`: that
/// of the first pair with this key. A pair without `=` that stands before
/// it is an error.
pub open spec fn lookup(pairs: Seq<Seq<char>>, key: Seq<char>) -> Result<
    Option<Seq<char>>,
    CniError,
>
    decreases pairs.len(),
{
    if pairs.len() == 0 {
        Ok(None)
    } else {
        let pair = pairs[0];
        let at = first_index(pair, '=');
        if at < 0 || at >= pair.len() {
            Err(CniError::MalformedArgs)
        } else if pair.subrange(0, at) == key {
            Ok(Some(pair.subrange(at + 1, pair.len() as int)))
        } else {
            lookup(pairs.drop_first(), key)
        }
    }
}

/// The value of `key` in the plugin's arguments `args`, a list of
/// `key=value` pairs with `;` between them.
pub open spec fn args_value(key: Seq<char>, args: Seq<char>) -> Result<Option<Seq<char>>, CniError> {
    lookup(split(args, ';'), key)
}

/// The view of a looked-up value.
pub open spec fn value_view(r: Result<Option<String>, CniError>) -> Result<
    Option<Seq<char>>,
    CniError,
> {
    match r {
        Ok(value) => Ok(text_of(value)),
        Err(error) => Err(error),
    }
}

/// The value of `cni_args_key` in the plugin's arguments `cni_args`;
/// `None` where no pair has this key, `MalformedArgs` where a pair without
/// `=` stands before the first that has it.
pub fn cni_args_extract(cni_args_key: &str, cni_args: &str) -> (r: Result<
    Option<String>,
    CniError,
>)
    ensures
        value_view(r) == args_value(cni_args_key@, cni_args@),
{
    let text = chars_of(cni_args);
    let wanted = String::from_str(cni_args_key);
    let ranges = split_ranges(&text, ';');
    let ghost pairs = split(cni_args@, ';');
    assert(cut(text@, ranges@).len() == ranges.len());
    let mut i: usize = 0;
    assert(pairs.subrange(0, pairs.len() as int) =~= pairs);
    while i < ranges.len()
        invariant
            i <= ranges.len(),
            text@ == cni_args@,
            wanted@ == cni_args_key@,
            pairs == split(cni_args@, ';'),
            cut(text@, ranges@) == pairs,
            forall|k: int| 0 <= k < ranges.len() ==> (#[trigger] ranges[k]).0 <= ranges[k].1
                <= text.len(),
            lookup(pairs, cni_args_key@) == lookup(
                pairs.subrange(i as int, pairs.len() as int),
                cni_args_key@,
            ),
        decreases ranges.len() - i,
    {
        let (from, to) = ranges[i];
        let ghost rest = pairs.subrange(i as int, pairs.len() as int);
        let ghost pair = rest[0];
        assert(pair == cut(text@, ranges@)[i as int]);
        assert(pair == text@.subrange(from as int, to as int));
        let pair_text = substring(cni_args, from, to);
        let pair_chars = chars_of(pair_text.as_str());
        let at = find_char(&pair_chars, 0, '=');
        assert(pair_chars@.subrange(0, pair_chars.len() as int) =~= pair);
        if at >= pair_chars.len() {
            return Err(CniError::MalformedArgs);
        }
        let key = substring(pair_text.as_str(), 0, at);
        if key == wanted {
            let value = substring(pair_text.as_str(), at + 1, pair_chars.len());
            return Ok(Some(value));
        }
        assert(rest.drop_first() =~= pairs.subrange(i + 1, pairs.len() as int));
        i += 1;
    }
    Ok(None)
}

/// The namespace, the name, the network-namespace path and the address of
/// the pod that a plugin call is for, given the interfaces and addresses
/// of the earlier result, if there is one, and, as far as the runtime
/// handed them over, the network-namespace path and the plugin's
/// arguments.
///
/// The pod's address is that of the first address entry that belongs to
/// the first interface in the pod's namespace. What is missing is reported
/// in this order: the earlier result, the namespace path, the interface,
/// its address entry, the address in it, an address that reads as IPv4,
/// the arguments, the pod's namespace, the pod's name.
pub open spec fn pod_info(
    previous: Option<(Seq<InterfaceView>, Seq<IpsView>)>,
    netns: Option<Seq<char>>,
    args: Option<Seq<char>>,
) -> Result<(Seq<char>, Seq<char>, Seq<char>, Ipv4Addr), CniError> {
    match (previous, netns) {
        (None, _) => Err(CniError::MissingPreviousResult),
        (Some(_), None) => Err(CniError::MissingNetns),
        (Some((interfaces, ips)), Some(netns)) => match pod_interface(interfaces, netns) {
            None => Err(CniError::NoInterface),
            Some(interface) => match pod_ip_entry(ips, interface as usize) {
                None => Err(CniError::NoAddress),
                Some(entry) => match ips[entry].address {
                    None => Err(CniError::MissingAddress),
                    Some(address) => match Ipv4Addr::spec_parse(address_part(address)) {
                        None => Err(CniError::MalformedAddress),
                        Some(pod_ip) => match args {
                            None => Err(CniError::MissingArgs),
                            Some(args) => match args_value(POD_NAMESPACE_KEY@, args) {
                                Err(error) => Err(error),
                                Ok(None) => Err(CniError::MissingPodNamespace),
                                Ok(Some(namespace)) => match args_value(POD_NAME_KEY@, args) {
                                    Err(error) => Err(error),
                                    Ok(None) => Err(CniError::MissingPodName),
                                    Ok(Some(name)) => Ok((namespace, name, netns, pod_ip)),
                                },
                            },
                        },
                    },
                },
            },
        },
    }
}

/// The view of what was learnt of a pod.
pub open spec fn pod_view(r: Result<(String, String, String, Ipv4Addr), CniError>) -> Result<
    (Seq<char>, Seq<char>, Seq<char>, Ipv4Addr),
    CniError,
> {
    match r {
        Ok((namespace, name, netns, pod_ip)) => Ok((namespace@, name@, netns@, pod_ip)),
        Err(error) => Err(error),
    }
}

impl Config {
    /// The interfaces of the earlier result; none where there is no result.
    pub open spec fn interfaces(&self) -> Seq<InterfaceView> {
        match self.previous_result {
            Some(result) => interface_views(result.interfaces@),
            None => Seq::empty(),
        }
    }

    /// The addresses of the earlier result; none where there is no result.
    pub open spec fn ips(&self) -> Seq<IpsView> {
        match self.previous_result {
            Some(result) => ips_views(result.ips@),
            None => Seq::empty(),
        }
    }

    /// The interfaces and addresses of the earlier result, if there is one.
    pub open spec fn previous(&self) -> Option<(Seq<InterfaceView>, Seq<IpsView>)> {
        match self.previous_result {
            Some(result) => Some((interface_views(result.interfaces@), ips_views(result.ips@))),
            None => None,
        }
    }

    /// The namespace, the name, the network-namespace path and the address
    /// of the pod that the plugin was called for, as `pod_info` says.
    /// `pod_netns` and `cni_args` are what the runtime handed over as the
    /// pod's network-namespace path and the plugin's arguments, if it did.
    pub fn extract_pod_info(&self, pod_netns: Option<String>, cni_args: Option<String>) -> (r:
        Result<(String, String, String, Ipv4Addr), CniError>)
        ensures
            pod_view(r) == pod_info(self.previous(), text_of(pod_netns), text_of(cni_args)),
    {
        let previous = match &self.previous_result {
            Some(previous) => previous,
            None => { return Err(CniError::MissingPreviousResult); },
        };
        let pod_netns = match pod_netns {
            Some(pod_netns) => pod_netns,
            None => { return Err(CniError::MissingNetns); },
        };
        let ghost interfaces = self.interfaces();
        let ghost ips = self.ips();
        let mut interface: usize = 0;
        let mut found = false;
        while interface < previous.interfaces.len() && !found
            invariant
                interface <= previous.interfaces.len(),
                interfaces == interface_views(previous.interfaces@),
                !found ==> forall|k: int|
                    0 <= k < interface ==> (#[trigger] interfaces[k]).sandbox != Some(pod_netns@),
                found ==> interface < interfaces.len() && interfaces[interface as int].sandbox
                    == Some(pod_netns@) && forall|k: int|
                    0 <= k < interface ==> (#[trigger] interfaces[k]).sandbox != Some(pod_netns@),
            decreases previous.interfaces.len() - interface + (if found { 0int } else { 1int }),
        {
            assert(interfaces[interface as int] == previous.interfaces[interface as int]@);
            let here = match &previous.interfaces[interface].sandbox {
                Some(sandbox) => *sandbox == pod_netns,
                None => false,
            };
            if here {
                found = true;
            } else {
                interface += 1;
            }
        }
        proof {
            lemma_pod_interface(interfaces, pod_netns@);
        }
        if !found {
            return Err(CniError::NoInterface);
        }
        assert(pod_interface(interfaces, pod_netns@) == Some(interface as int));
        let mut ip: usize = 0;
        let mut found = false;
        while ip < previous.ips.len() && !found
            invariant
                ip <= previous.ips.len(),
                ips == ips_views(previous.ips@),
                !found ==> forall|k: int|
                    0 <= k < ip ==> (#[trigger] ips[k]).interface != Some(interface),
                found ==> ip < ips.len() && ips[ip as int].interface == Some(interface)
                    && forall|k: int|
                    0 <= k < ip ==> (#[trigger] ips[k]).interface != Some(interface),
            decreases previous.ips.len() - ip + (if found { 0int } else { 1int }),
        {
            assert(ips[ip as int] == previous.ips[ip as int]@);
            let here = match previous.ips[ip].interface {
                Some(index) => index == interface,
                None => false,
            };
            if here {
                found = true;
            } else {
                ip += 1;
            }
        }
        proof {
            lemma_pod_ip_entry(ips, interface);
        }
        if !found {
            return Err(CniError::NoAddress);
        }
        assert(pod_ip_entry(ips, interface) == Some(ip as int));
        assert(ips[ip as int] == previous.ips[ip as int]@);
        let address = match &previous.ips[ip].address {
            Some(address) => address,
            None => { return Err(CniError::MissingAddress); },
        };
        let address_chars = chars_of(address.as_str());
        let slash = find_char(&address_chars, 0, '/');
        assert(address_chars@.subrange(0, address_chars.len() as int) =~= address@);
        let address_text = substring(address.as_str(), 0, slash);
        assert(address_text@ == address_part(address@));
        let pod_ip = match Ipv4Addr::parse(address_text.as_str()) {
            Some(pod_ip) => pod_ip,
            None => { return Err(CniError::MalformedAddress); },
        };
        let cni_args = match cni_args {
            Some(cni_args) => cni_args,
            None => { return Err(CniError::MissingArgs); },
        };
        let pod_namespace = match cni_args_extract(POD_NAMESPACE_KEY, cni_args.as_str()) {
            Err(error) => { return Err(error); },
            Ok(None) => { return Err(CniError::MissingPodNamespace); },
            Ok(Some(pod_namespace)) => pod_namespace,
        };
        let pod_name = match cni_args_extract(POD_NAME_KEY, cni_args.as_str()) {
            Err(error) => { return Err(error); },
            Ok(None) => { return Err(CniError::MissingPodName); },
            Ok(Some(pod_name)) => pod_name,
        };
        Ok((pod_namespace, pod_name, pod_netns, pod_ip))
    }
}

} // verus!
