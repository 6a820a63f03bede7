//! The address stage: gives a tunnel its address, from its own `spec`
//! or from an address pool.

use crate::controllers::{settled, writing, Action, Reconciliation, ReconciliationView};
use crate::errors::Error;
use crate::helpers::{ObjectReference, ObjectReferenceView};
use crate::net::Ipv4Addr;
use crate::wireguard::addresses::{assign, network_of, WireguardAddressPool, WireguardNetwork};
use crate::wireguard::configs::{
    StatusPatch, StatusPatchView, StatusView, WireguardAddress, WireguardAddressView,
    WireguardConfig,
};
use vstd::prelude::*;

verus! {

/// What the address stage does next.
#[derive(Debug, PartialEq)]
pub enum AddressStep {
    /// The stage is done with this run.
    Settled(Reconciliation),
    /// The pool `pool_name` in `pool_namespace` is to be read, asked for
    /// the address of `consumer`, and written back.
    AskPool { pool_name: String, pool_namespace: String, consumer: ObjectReference },
}

/// What an `AddressStep` denotes.
pub enum AddressStepView {
    Settled(ReconciliationView),
    AskPool { pool_name: Seq<char>, pool_namespace: Seq<char>, consumer: ObjectReferenceView },
}

impl View for AddressStep {
    type V = AddressStepView;

    open spec fn view(&self) -> AddressStepView {
        match self {
            AddressStep::Settled(reconciliation) => AddressStepView::Settled(reconciliation@),
            AddressStep::AskPool { pool_name, pool_namespace, consumer } => AddressStepView::AskPool {
                pool_name: pool_name@,
                pool_namespace: pool_namespace@,
                consumer: consumer@,
            },
        }
    }
}

/// The view of an optional address source.
pub open spec fn address_of(address: Option<WireguardAddress>) -> Option<WireguardAddressView> {
    match address {
        Some(address) => Some(address@),
        None => None,
    }
}

/// What the address stage decides of the tunnel `name` in `namespace` that
/// wants `wanted` and is in state `status`: nothing where the tunnel has
/// its address or wants none; the wanted address where the tunnel's `spec`
/// writes it out; otherwise to ask the pool, which lives in the tunnel's
/// own namespace, on behalf of `namespace/name`.
pub open spec fn address_stage(
    name: Seq<char>,
    namespace: Seq<char>,
    wanted: Option<WireguardAddressView>,
    status: StatusView,
) -> AddressStepView {
    if status.tunnel_address is Some {
        AddressStepView::Settled(settled())
    } else {
        match wanted {
            None => AddressStepView::Settled(settled()),
            Some(WireguardAddressView::NetworkAddress(network)) => AddressStepView::Settled(
                writing(
                    StatusPatchView::TunnelAddress {
                        address: network.address,
                        prefix: network.prefix,
                    },
                ),
            ),
            Some(WireguardAddressView::PoolAddress(pool)) => AddressStepView::AskPool {
                pool_name: pool.name,
                pool_namespace: namespace,
                consumer: ObjectReferenceView { name, namespace: Some(namespace) },
            },
        }
    }
}

/// Runs the address stage on `config`.
pub fn reconcile(config: &WireguardConfig) -> (r: AddressStep)
    ensures
        r@ == address_stage(
            config.metadata.name@,
            config.namespace_view(),
            address_of(config.spec.interface.address),
            config.status_view(),
        ),
{
    let assigned = match &config.status {
        Some(status) => status.tunnel_address.is_some(),
        None => false,
    };
    if assigned {
        return AddressStep::Settled(Reconciliation { patch: None, action: Action::AwaitChange });
    }
    match &config.spec.interface.address {
        None => AddressStep::Settled(Reconciliation { patch: None, action: Action::AwaitChange }),
        Some(WireguardAddress::NetworkAddress(network)) => AddressStep::Settled(
            Reconciliation {
                patch: Some(
                    StatusPatch::TunnelAddress { address: network.address, prefix: network.prefix },
                ),
                action: Action::AwaitChange,
            },
        ),
        Some(WireguardAddress::PoolAddress(pool)) => {
            let namespace = config.namespace();
            AddressStep::AskPool {
                pool_name: pool.name.clone(),
                pool_namespace: namespace.clone(),
                consumer: ObjectReference {
                    name: config.metadata.name.clone(),
                    namespace: Some(namespace),
                },
            }
        },
    }
}

/// What the stage settles on once the pool has answered `answer`: the
/// granted address as the tunnel's address, or the pool's failure.
pub open spec fn pool_answer(answer: Result<(Ipv4Addr, u8), Error>) -> Result<
    ReconciliationView,
    Error,
> {
    match answer {
        Ok((address, prefix)) => Ok(writing(StatusPatchView::TunnelAddress { address, prefix })),
        Err(error) => Err(error),
    }
}

/// Asks `pool` for the address of the tunnel `config_ref`, and settles the
/// stage on the answer. The pool changes as `assign` says; the caller
/// writes it back, and hands what came of that to `pool_written`, before
/// the tunnel's own patch.
pub fn assign_pool_address(pool: &mut WireguardAddressPool, config_ref: ObjectReference) -> (r:
    Result<Reconciliation, Error>)
    ensures
        final(pool).ledger() == assign(
            old(pool).spec.network@,
            old(pool).ledger(),
            config_ref@.key(),
        ).1,
        final(pool).spec == old(pool).spec,
        final(pool).metadata == old(pool).metadata,
        match pool_answer(
            assign(old(pool).spec.network@, old(pool).ledger(), config_ref@.key()).0,
        ) {
            Ok(reconciliation) => r is Ok && r->Ok_0@ == reconciliation,
            Err(error) => r == Err::<Reconciliation, Error>(error),
        },
{
    match pool.assign_ipv4(config_ref) {
        Ok((address, prefix)) => Ok(
            Reconciliation {
                patch: Some(StatusPatch::TunnelAddress { address, prefix }),
                action: Action::AwaitChange,
            },
        ),
        Err(error) => Err(error),
    }
}

/// What came of writing a pool's ledger back to the store.
#[derive(Clone, Copy, Debug, PartialEq, Eq, Structural)]
pub enum PoolWrite {
    /// The ledger was written.
    Written,
    /// The store refused the write because the pool had changed since it
    /// was read.
    Conflict,
    /// The store failed in any other way.
    Failed,
}

/// What the stage settles on once the pool's ledger was to be written
/// back: on `decided`, the tunnel's address, only where the ledger was
/// written. A refused write fails the run, so that the pool is read afresh
/// and asked again; nothing of the run counts as done.
pub fn pool_written(decided: Reconciliation, write: PoolWrite) -> (r: Result<
    Reconciliation,
    Error,
>)
    ensures
        match write {
            PoolWrite::Written => r == Ok::<Reconciliation, Error>(decided),
            PoolWrite::Conflict => r == Err::<Reconciliation, Error>(Error::StoreConflict),
            PoolWrite::Failed => r == Err::<Reconciliation, Error>(Error::StoreUnavailable),
        },
{
    match write {
        PoolWrite::Written => Ok(decided),
        PoolWrite::Conflict => Err(Error::StoreConflict),
        PoolWrite::Failed => Err(Error::StoreUnavailable),
    }
}

} // verus!
