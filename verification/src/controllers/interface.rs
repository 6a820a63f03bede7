//! The interface stage: flags a tunnel ready once everything its interface needs is
//! present.

use crate::controllers::{pending, settled, writing, Action, Reconciliation, ReconciliationView,
    RETRY_SECONDS};
use crate::wireguard::configs::{StatusPatch, StatusPatchView, StatusView, WireguardConfig};
use vstd::prelude::*;

verus! {

/// What the interface stage decides of a tunnel in state `status`: nothing where the
/// tunnel is flagged ready already; the readiness flag where the state is
/// complete; otherwise to look again later.
pub open spec fn interface_stage(status: StatusView) -> ReconciliationView {
    if status.interface_ready {
        settled()
    } else if status.complete() {
        writing(StatusPatchView::InterfaceReady)
    } else {
        pending()
    }
}

/// Runs the interface stage on `config`.
pub fn reconcile(config: &WireguardConfig) -> (r: Reconciliation)
    ensures
        r@ == interface_stage(config.status_view()),
{
    match &config.status {
        Some(status) => {
            if status.interface_ready {
                Reconciliation { patch: None, action: Action::AwaitChange }
            } else if status.pod_address.is_some() && status.tunnel_address.is_some()
                && status.tunnel_address_prefix.is_some() && status.private_key.is_some()
                && status.public_key.is_some() {
                Reconciliation {
                    patch: Some(StatusPatch::InterfaceReady),
                    action: Action::AwaitChange,
                }
            } else {
                Reconciliation { patch: None, action: Action::Requeue { seconds: RETRY_SECONDS } }
            }
        },
        None => Reconciliation { patch: None, action: Action::Requeue { seconds: RETRY_SECONDS } },
    }
}

} // verus!
