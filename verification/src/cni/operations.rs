//! What the plugin does for each command of the container runtime.

use crate::cni::specification::{
    interface_views, ips_views, CniError, Config, Interface, InterfaceView, Ips, IpsView,
};
use crate::drivers::interface::{network_string, network_text};
use crate::net::Ipv4Addr;
use vstd::prelude::*;
use vstd::string::*;

verus! {

/// A command of the container runtime.
#[derive(Clone, Copy, Debug, PartialEq, Eq, Structural)]
pub enum Operation {
    Add,
    Del,
    Check,
}

/// The operation that a command text names.
pub open spec fn operation_of(command: Seq<char>) -> Result<Operation, CniError> {
    if command == "ADD"@ {
        Ok(Operation::Add)
    } else if command == "DEL"@ {
        Ok(Operation::Del)
    } else if command == "CHECK"@ {
        Ok(Operation::Check)
    } else {
        Err(CniError::UnsupportedCommand)
    }
}

/// The operation that `command` names: `ADD`, `DEL` or `CHECK`;
/// `UnsupportedCommand` for any other text.
pub fn operation(command: &str) -> (r: Result<Operation, CniError>)
    ensures
        r == operation_of(command@),
{
    let command = String::from_str(command);
    if command == String::from_str("ADD") {
        Ok(Operation::Add)
    } else if command == String::from_str("DEL") {
        Ok(Operation::Del)
    } else if command == String::from_str("CHECK") {
        Ok(Operation::Check)
    } else {
        Err(CniError::UnsupportedCommand)
    }
}

/// The tunnel interface `name` in the namespace `netns` as the plugin
/// reports it.
pub open spec fn tunnel_interface(name: Seq<char>, netns: Seq<char>) -> InterfaceView {
    InterfaceView {
        name,
        mac: None,
        mtu: None,
        sandbox: Some(netns),
        socket_path: None,
        pci_id: None,
    }
}

/// The tunnel address as the plugin reports it: `address/prefix`, tied to
/// no interface index.
pub open spec fn tunnel_ip(address: Ipv4Addr, prefix: u8) -> IpsView {
    IpsView { interface: None, address: Some(network_text(address, prefix)), gateway: None }
}

/// Records in the result what was provisioned for the pod in the namespace
/// `pod_netns`: nothing for a pod without a tunnel; else the tunnel
/// interface and the tunnel address, each at the end of its list.
/// `MissingPreviousResult` where there is a tunnel but no result to add
/// to; the configuration then stays as it is.
pub fn add(
    cni_config: &mut Config,
    pod_netns: String,
    provisioned: Option<(String, Ipv4Addr, u8)>,
) -> (r: Result<(), CniError>)
    ensures
        final(cni_config).name == old(cni_config).name,
        final(cni_config).cni_version == old(cni_config).cni_version,
        final(cni_config).type_field == old(cni_config).type_field,
        match provisioned {
            None => r is Ok && *final(cni_config) == *old(cni_config),
            Some((interface_name, tunnel_address, tunnel_address_prefix)) => match old(cni_config)
                .previous_result {
                None => r == Err::<(), CniError>(CniError::MissingPreviousResult)
                    && *final(cni_config) == *old(cni_config),
                Some(before) => {
                    &&& r is Ok
                    &&& final(cni_config).previous_result is Some
                    &&& final(cni_config).interfaces() == old(cni_config).interfaces().push(
                        tunnel_interface(interface_name@, pod_netns@),
                    )
                    &&& final(cni_config).ips() == old(cni_config).ips().push(
                        tunnel_ip(tunnel_address, tunnel_address_prefix),
                    )
                    &&& final(cni_config).previous_result->0.cni_version == before.cni_version
                    &&& final(cni_config).previous_result->0.routes == before.routes
                    &&& final(cni_config).previous_result->0.dns == before.dns
                },
            },
        },
{
    let (interface_name, tunnel_address, tunnel_address_prefix) = match provisioned {
        Some(provisioned) => provisioned,
        None => { return Ok(()); },
    };
    let mut previous = match cni_config.previous_result.take() {
        Some(previous) => previous,
        None => { return Err(CniError::MissingPreviousResult); },
    };
    let ghost interfaces = interface_views(previous.interfaces@);
    let ghost ips = ips_views(previous.ips@);
    previous.interfaces.push(
        Interface {
            name: interface_name,
            sandbox: Some(pod_netns),
            mac: None,
            mtu: None,
            socket_path: None,
            pci_id: None,
        },
    );
    previous.ips.push(
        Ips {
            interface: None,
            address: Some(network_string(&tunnel_address, tunnel_address_prefix)),
            gateway: None,
        },
    );
    assert(interface_views(previous.interfaces@) =~= interfaces.push(
        tunnel_interface(interface_name@, pod_netns@),
    ));
    assert(ips_views(previous.ips@) =~= ips.push(
        tunnel_ip(tunnel_address, tunnel_address_prefix),
    ));
    cni_config.previous_result = Some(previous);
    Ok(())
}

/// Tears nothing down: the removal of a tunnel is not provided, and the
/// configuration passes through as it is.
pub fn del(cni_config: &mut Config) -> (r: Result<(), CniError>)
    ensures
        r is Ok,
        *final(cni_config) == *old(cni_config),
{
    Ok(())
}

/// Checks nothing: the configuration passes through as it is.
pub fn check(cni_config: &mut Config) -> (r: Result<(), CniError>)
    ensures
        r is Ok,
        *final(cni_config) == *old(cni_config),
{
    Ok(())
}

} // verus!
