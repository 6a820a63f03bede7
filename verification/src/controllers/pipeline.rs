//! What holds of the stages together.

use crate::controllers::interface::interface_stage;
use crate::controllers::ipam::{address_stage, pool_answer, AddressStepView};
use crate::controllers::key::{key_stage, KeyEventView, KeyRequestView, KeyStageView};
use crate::controllers::{settled, ReconciliationView};
use crate::errors::Error;
use crate::net::Ipv4Addr;
use crate::wireguard::configs::{StatusPatchView, StatusView, WireguardAddressView};
use vstd::prelude::*;

verus! {

/// Whether a tunnel in state `status` may be written `patch`: any patch
/// but the readiness flag, which only the interface stage writes, where it decides to.
pub open spec fn permitted(status: StatusView, patch: StatusPatchView) -> bool {
    patch is InterfaceReady ==> interface_stage(status).patch == Some(StatusPatchView::InterfaceReady)
}

/// The state that `start` becomes when `patches` are merged in order.
pub open spec fn replay(start: StatusView, patches: Seq<StatusPatchView>) -> StatusView
    decreases patches.len(),
{
    if patches.len() == 0 {
        start
    } else {
        replay(start, patches.drop_last()).merge(patches.last())
    }
}

/// Whether each of `patches` is permitted in the state that the patches
/// before it have made of `start`.
pub open spec fn lawful(start: StatusView, patches: Seq<StatusPatchView>) -> bool
    decreases patches.len(),
{
    patches.len() == 0 || (lawful(start, patches.drop_last()) && permitted(
        replay(start, patches.drop_last()),
        patches.last(),
    ))
}

/// A permitted patch keeps readiness tied to completeness.
pub proof fn lemma_permitted_patch_keeps_consistent(status: StatusView, patch: StatusPatchView)
    requires
        status.consistent(),
        permitted(status, patch),
    ensures
        status.merge(patch).consistent(),
{
}

/// Whatever the stages write, in whatever order, a tunnel is flagged ready
/// only while its pod's address, its tunnel address and prefix, its key
/// reference and its public key are all present.
pub proof fn lemma_ready_only_when_complete(start: StatusView, patches: Seq<StatusPatchView>)
    requires
        start.consistent(),
        lawful(start, patches),
    ensures
        replay(start, patches).consistent(),
    decreases patches.len(),
{
    if patches.len() > 0 {
        lemma_ready_only_when_complete(start, patches.drop_last());
        lemma_permitted_patch_keeps_consistent(
            replay(start, patches.drop_last()),
            patches.last(),
        );
    }
}

/// The interface stage leaves alone a tunnel that is flagged ready; and once its own
/// patch is merged, it writes nothing more.
pub proof fn lemma_interface_stage_idempotent(status: StatusView)
    ensures
        status.interface_ready ==> interface_stage(status) == settled(),
        interface_stage(status).patch matches Some(patch) ==> interface_stage(
            status.merge(patch),
        ) == settled(),
{
}

/// The address stage leaves alone a tunnel that has its address; and once
/// its own patch is merged, whether the address came from the
/// tunnel's `spec` or from a pool, it writes nothing more.
pub proof fn lemma_address_stage_idempotent(
    name: Seq<char>,
    namespace: Seq<char>,
    wanted: Option<WireguardAddressView>,
    status: StatusView,
    answer: Result<(Ipv4Addr, u8), Error>,
)
    ensures
        status.tunnel_address is Some ==> address_stage(name, namespace, wanted, status)
            == AddressStepView::Settled(settled()),
        address_stage(name, namespace, wanted, status) matches AddressStepView::Settled(
            ReconciliationView { patch: Some(patch), .. },
        ) ==> address_stage(name, namespace, wanted, status.merge(patch))
            == AddressStepView::Settled(settled()),
        pool_answer(answer) matches Ok(ReconciliationView { patch: Some(patch), .. })
            ==> address_stage(name, namespace, wanted, status.merge(patch))
            == AddressStepView::Settled(settled()),
{
}

/// The key stage leaves alone a tunnel that has its key reference; and
/// once the patch that a run settled on is merged, a new run writes
/// nothing more.
pub proof fn lemma_key_stage_idempotent(
    name: Seq<char>,
    namespace: Seq<char>,
    uid: Option<Seq<char>>,
    status: StatusView,
    stage: KeyStageView,
    event: KeyEventView,
    again: KeyEventView,
)
    ensures
        status.private_key is Some ==> key_stage(
            name,
            namespace,
            uid,
            status,
            KeyStageView::Start,
            again,
        ) == (KeyStageView::Finished, KeyRequestView::Settle(settled())),
        key_stage(name, namespace, uid, status, stage, event).1 matches KeyRequestView::Settle(
            ReconciliationView { patch: Some(patch), .. },
        ) ==> key_stage(name, namespace, uid, status.merge(patch), KeyStageView::Start, again) == (
            KeyStageView::Finished,
            KeyRequestView::Settle(settled()),
        ),
{
}

/// On a tunnel that is flagged ready none of the three write-once stages
/// writes anything.
pub proof fn lemma_ready_is_terminal(
    name: Seq<char>,
    namespace: Seq<char>,
    uid: Option<Seq<char>>,
    wanted: Option<WireguardAddressView>,
    status: StatusView,
    event: KeyEventView,
)
    requires
        status.consistent(),
        status.interface_ready,
    ensures
        interface_stage(status) == settled(),
        address_stage(name, namespace, wanted, status) == AddressStepView::Settled(settled()),
        key_stage(name, namespace, uid, status, KeyStageView::Start, event) == (
            KeyStageView::Finished,
            KeyRequestView::Settle(settled()),
        ),
{
}

} // verus!
