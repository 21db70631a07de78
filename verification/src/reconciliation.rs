//! What provisioning achieves, stated over a model of the channel's path:
//! the effect that each request has when the system carries it out, and the
//! relation between the provisioner's state and the channel that this keeps.

use crate::channel::{
    permission_bits, ChannelConfig, ChannelState, Inspection, OwnerChange, ProvisionError,
    ProvisionEvent, ProvisionRequest, ProvisionState, PERMISSION_MASK,
};
use vstd::prelude::*;

verus! {

/// `wanted` where a side of the owner is named, else what was there.
pub open spec fn side_after(wanted: Option<u32>, was: u32) -> u32 {
    match wanted {
        Some(id) => id,
        None => was,
    }
}

/// Whether `after` is how the path stands once `request` has been carried
/// out on a path that stood as `before`. `None` is a path with nothing at
/// it. A change of owner touches only the sides it names, setting the mode
/// only the permission bits, and a creation makes a FIFO with the bits asked
/// for where nothing was.
pub open spec fn carried_out(
    request: ProvisionRequest,
    before: Option<ChannelState>,
    after: Option<ChannelState>,
) -> bool {
    match request {
        ProvisionRequest::Inspect => after == before,
        ProvisionRequest::Nothing => after == before,
        ProvisionRequest::ChangeOwner(change) => {
            &&& before is Some
            &&& after is Some
            &&& after->0.is_fifo == before->0.is_fifo
            &&& permission_bits(after->0.mode) == permission_bits(before->0.mode)
            &&& after->0.uid == side_after(change.uid(), before->0.uid)
            &&& after->0.gid == side_after(change.gid(), before->0.gid)
        },
        ProvisionRequest::SetMode(mode) => {
            &&& before is Some
            &&& after is Some
            &&& after->0.is_fifo == before->0.is_fifo
            &&& after->0.uid == before->0.uid
            &&& after->0.gid == before->0.gid
            &&& permission_bits(after->0.mode) == permission_bits(mode)
        },
        ProvisionRequest::CreateFifo(mode) => {
            &&& before is None
            &&& after is Some
            &&& after->0.is_fifo
            &&& permission_bits(after->0.mode) == permission_bits(mode)
        },
    }
}

/// Whether an inspection tells what is at the path.
pub open spec fn describes(inspection: Inspection, channel: Option<ChannelState>) -> bool {
    match inspection {
        Inspection::Found(found) => channel == Some(found),
        Inspection::Absent => channel is None,
        Inspection::Unreadable => true,
    }
}

/// Whether the path goes from `before` to `after` as `event` comes in while
/// the provisioner is in `state`: an inspection reports the path and leaves
/// it alone, a success carries out the state's request, and a refused
/// request changes nothing.
pub open spec fn moves(
    state: ProvisionState,
    event: ProvisionEvent,
    before: Option<ChannelState>,
    after: Option<ChannelState>,
) -> bool {
    match event {
        ProvisionEvent::Inspected(inspection) => describes(inspection, before) && after == before,
        ProvisionEvent::Succeeded => carried_out(state.request(), before, after),
        ProvisionEvent::Failed(_) => after == before,
    }
}

/// Whether `channel` is a FIFO for the configuration that took the place of
/// `initial`: it has the configured permission bits; where there was a
/// FIFO before, each configured side of its owner is as configured and each
/// other side as it was.
pub open spec fn reconciled(
    config: ChannelConfig,
    initial: Option<ChannelState>,
    channel: Option<ChannelState>,
) -> bool {
    &&& channel is Some
    &&& channel->0.is_fifo
    &&& permission_bits(channel->0.mode) == config.permissions@
    &&& initial matches Some(was) ==> {
        &&& channel->0.uid == side_after(config.uid, was.uid)
        &&& channel->0.gid == side_after(config.gid, was.gid)
    }
}

/// What holds of the path in each state of the provisioner, `initial`
/// being what was at the path when provisioning began.
pub open spec fn consistent(
    config: ChannelConfig,
    initial: Option<ChannelState>,
    state: ProvisionState,
    channel: Option<ChannelState>,
) -> bool {
    match state {
        ProvisionState::Inspecting => channel == initial,
        ProvisionState::ChangingOwner { change, observed_mode } => {
            &&& channel == initial
            &&& channel is Some
            &&& channel->0.is_fifo
            &&& channel->0.mode == observed_mode
            &&& config.owner_change() == Some(change)
        },
        ProvisionState::ChangingMode { mode } => {
            &&& initial is Some
            &&& channel is Some
            &&& channel->0.is_fifo
            &&& channel->0.uid == side_after(config.uid, initial->0.uid)
            &&& channel->0.gid == side_after(config.gid, initial->0.gid)
            &&& mode == config.permissions@
        },
        ProvisionState::Creating { mode } => {
            &&& initial is None
            &&& channel is None
            &&& mode == config.permissions@
        },
        ProvisionState::Ready => reconciled(config, initial, channel),
        ProvisionState::Failed(ProvisionError::NotAFifo) => {
            &&& channel == initial
            &&& channel is Some
            &&& !channel->0.is_fifo
        },
        ProvisionState::Failed(ProvisionError::InspectionFailed) => channel == initial,
        ProvisionState::Failed(_) => true,
    }
}

/// Provisioning begins consistent with whatever is at the path.
pub proof fn lemma_start_is_consistent(config: ChannelConfig, initial: Option<ChannelState>)
    ensures
        consistent(config, initial, ProvisionState::Inspecting, initial),
{
}

/// Every step of the provisioner keeps it consistent with the path, for
/// permission bits within the nine. So a provisioner that is ready stands
/// for a FIFO with the configured permission bits and owner, and one that
/// found something other than a FIFO has left it as it was.
pub proof fn lemma_advance_keeps_consistent(
    config: ChannelConfig,
    initial: Option<ChannelState>,
    state: ProvisionState,
    event: ProvisionEvent,
    before: Option<ChannelState>,
    after: Option<ChannelState>,
)
    requires
        config.permissions@ <= PERMISSION_MASK,
        consistent(config, initial, state, before),
        moves(state, event, before, after),
    ensures
        consistent(config, initial, state.spec_advance(&config, event), after),
{
    let wanted = config.permissions@;
    assert(permission_bits(wanted) == wanted) by (bit_vector)
        requires
            wanted <= 0o777u32,
            permission_bits(wanted) == wanted & 0o777u32,
    ;
}

/// Where nothing is at the path, a FIFO with the configured permission bits
/// is asked for, and once it is made the provisioner is ready: the path
/// then holds a FIFO whose permission bits are the configured ones.
pub proof fn lemma_absent_channel_is_created(config: ChannelConfig, created: Option<ChannelState>)
    requires
        config.permissions@ <= PERMISSION_MASK,
        carried_out(ProvisionRequest::CreateFifo(config.permissions@), None, created),
    ensures
        ({
            let creating = ProvisionState::Inspecting.spec_advance(
                &config,
                ProvisionEvent::Inspected(Inspection::Absent),
            );
            &&& creating.request() == ProvisionRequest::CreateFifo(config.permissions@)
            &&& creating.spec_advance(&config, ProvisionEvent::Succeeded) == ProvisionState::Ready
        }),
        created is Some,
        created->0.is_fifo,
        permission_bits(created->0.mode) == config.permissions@,
{
    lemma_start_is_consistent(config, None);
    let inspected = ProvisionEvent::Inspected(Inspection::Absent);
    let creating = ProvisionState::Inspecting.spec_advance(&config, inspected);
    lemma_advance_keeps_consistent(config, None, ProvisionState::Inspecting, inspected, None, None);
    lemma_advance_keeps_consistent(
        config,
        None,
        creating,
        ProvisionEvent::Succeeded,
        None,
        created,
    );
}

/// Where a FIFO with the configured owner has other permission bits than
/// the configured ones, setting the mode is all that is asked for, and once
/// it is set the provisioner is ready: the path then holds the same FIFO
/// with the same owner and the configured permission bits.
pub proof fn lemma_wrong_mode_is_corrected(
    config: ChannelConfig,
    found: ChannelState,
    corrected: Option<ChannelState>,
)
    requires
        config.permissions@ <= PERMISSION_MASK,
        found.is_fifo,
        !config.owner_differs(&found),
        config.mode_differs(found.mode),
        carried_out(ProvisionRequest::SetMode(config.permissions@), Some(found), corrected),
    ensures
        ({
            let changing = ProvisionState::Inspecting.spec_advance(
                &config,
                ProvisionEvent::Inspected(Inspection::Found(found)),
            );
            &&& changing.request() == ProvisionRequest::SetMode(config.permissions@)
            &&& changing.spec_advance(&config, ProvisionEvent::Succeeded) == ProvisionState::Ready
        }),
        corrected is Some,
        corrected->0.is_fifo,
        corrected->0.uid == found.uid,
        corrected->0.gid == found.gid,
        permission_bits(corrected->0.mode) == config.permissions@,
{
    let wanted = config.permissions@;
    assert(permission_bits(wanted) == wanted) by (bit_vector)
        requires
            wanted <= 0o777u32,
            permission_bits(wanted) == wanted & 0o777u32,
    ;
}

/// Where something other than a FIFO is at the path, provisioning fails at
/// once: nothing is asked of the system, then or later, so what is there is
/// left as it is.
pub proof fn lemma_non_fifo_is_left_alone(
    config: ChannelConfig,
    found: ChannelState,
    event: ProvisionEvent,
)
    requires
        !found.is_fifo,
    ensures
        ({
            let failed = ProvisionState::Inspecting.spec_advance(
                &config,
                ProvisionEvent::Inspected(Inspection::Found(found)),
            );
            &&& failed == ProvisionState::Failed(ProvisionError::NotAFifo)
            &&& failed.request() == ProvisionRequest::Nothing
            &&& failed.spec_advance(&config, event) == failed
        }),
{
}

/// Provisioning ends with the inspection and the outcomes of at most two
/// requests: after them the provisioner is ready or has failed.
pub proof fn lemma_provisioning_ends(
    config: ChannelConfig,
    inspection: Inspection,
    first: ProvisionEvent,
    second: ProvisionEvent,
)
    requires
        !(first is Inspected),
        !(second is Inspected),
    ensures
        ({
            let inspected = ProvisionState::Inspecting.spec_advance(
                &config,
                ProvisionEvent::Inspected(inspection),
            );
            let last = inspected.spec_advance(&config, first).spec_advance(&config, second);
            last is Ready || last is Failed
        }),
{
}

/// The provisioner asks for nothing once it is ready or has failed, and no
/// event moves it from there.
pub proof fn lemma_end_states_are_final(
    config: ChannelConfig,
    state: ProvisionState,
    event: ProvisionEvent,
)
    requires
        state is Ready || state is Failed,
    ensures
        state.request() == ProvisionRequest::Nothing,
        state.spec_advance(&config, event) == state,
{
}

} // verus!
