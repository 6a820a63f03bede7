//! The reconciliation stages. Each stage looks at a tunnel, decides whether
//! its own part of the tunnel's state is still to be written, and says what
//! to write and when to look again. The stages share nothing but the
//! tunnel's state, which each of them changes by a patch of its own fields.

pub mod interface;
pub mod ipam;
pub mod key;
pub mod peer;
pub mod pipeline;

use crate::errors::Error;
use crate::wireguard::configs::{patch_of, StatusPatch, StatusPatchView, WireguardConfig};
use vstd::prelude::*;

verus! {

/// The seconds after which a stage that could not finish is run again.
pub const RETRY_SECONDS: u64 = 1;

/// When a stage wants to be run again.
#[derive(Clone, Copy, Debug, PartialEq, Eq, Structural)]
pub enum Action {
    /// When the tunnel changes next.
    AwaitChange,
    /// After this many seconds.
    Requeue { seconds: u64 },
}

/// What a stage decided: the patch to write to the tunnel's state, if any,
/// and when to run again.
#[derive(Debug, PartialEq)]
pub struct Reconciliation {
    pub patch: Option<StatusPatch>,
    pub action: Action,
}

/// What a `Reconciliation` denotes.
pub struct ReconciliationView {
    pub patch: Option<StatusPatchView>,
    pub action: Action,
}

impl View for Reconciliation {
    type V = ReconciliationView;

    open spec fn view(&self) -> ReconciliationView {
        ReconciliationView { patch: patch_of(self.patch), action: self.action }
    }
}

/// Nothing to write; wait for the next change.
pub open spec fn settled() -> ReconciliationView {
    ReconciliationView { patch: None, action: Action::AwaitChange }
}

/// Nothing to write yet; look again after the retry delay.
pub open spec fn pending() -> ReconciliationView {
    ReconciliationView { patch: None, action: Action::Requeue { seconds: RETRY_SECONDS } }
}

/// Write `patch`, then wait for the next change.
pub open spec fn writing(patch: StatusPatchView) -> ReconciliationView {
    ReconciliationView { patch: Some(patch), action: Action::AwaitChange }
}

/// What follows a stage that failed, whatever the tunnel and the failure:
/// the stage is run again after the retry delay.
pub fn error_policy(config: &WireguardConfig, error: &Error) -> (r: Action)
    ensures
        r == (Action::Requeue { seconds: RETRY_SECONDS }),
{
    Action::Requeue { seconds: RETRY_SECONDS }
}

} // verus!
