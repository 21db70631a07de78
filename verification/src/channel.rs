//! Provisioning of the command channel: the decisions that lead from what is
//! found at the channel's path to a FIFO with the configured owner and mode.
//!
//! The provisioner is a state machine. In each state it has one request to
//! the system; the outcome of that request is the event that moves it on.

use crate::permissions::OctalPermissions;
use vstd::prelude::*;

verus! {

/// The nine permission bits within a file mode.
pub const PERMISSION_MASK: u32 = 0o777;

/// The permission bits of a file mode.
pub open spec fn permission_bits(mode: u32) -> u32 {
    mode & PERMISSION_MASK
}

/// What the channel is to be like.
#[derive(Debug, Clone, Copy, PartialEq, Eq)]
pub struct ChannelConfig {
    /// The permission bits of the channel.
    pub permissions: OctalPermissions,
    /// The user that owns the channel; `None` leaves the user as it is.
    pub uid: Option<u32>,
    /// The group that owns the channel; `None` leaves the group as it is.
    pub gid: Option<u32>,
}

/// What was found at the channel's path.
#[derive(Debug, Clone, Copy, PartialEq, Eq)]
pub struct ChannelState {
    /// Whether the object is a FIFO.
    pub is_fifo: bool,
    /// The user that owns it.
    pub uid: u32,
    /// The group that owns it.
    pub gid: u32,
    /// Its file mode.
    pub mode: u32,
}

/// The outcome of looking at the channel's path.
#[derive(Debug, Clone, Copy, PartialEq, Eq)]
pub enum Inspection {
    /// Something is there.
    Found(ChannelState),
    /// Nothing is there.
    Absent,
    /// The path could not be looked at, for another reason than absence.
    Unreadable,
}

/// A change of owner. A side that is not named stays as it is.
#[derive(Debug, Clone, Copy, PartialEq, Eq)]
pub enum OwnerChange {
    /// Set the user and the group.
    UserAndGroup(u32, u32),
    /// Set the user only.
    User(u32),
    /// Set the group only.
    Group(u32),
}

/// Why provisioning was given up.
#[derive(Debug, Clone, Copy, PartialEq, Eq)]
pub enum ProvisionError {
    /// The path could not be inspected.
    InspectionFailed,
    /// Something other than a FIFO occupies the path.
    NotAFifo,
    /// The owner could not be changed.
    OwnerChangeFailed,
    /// The mode could not be set.
    ModeChangeFailed,
    /// The FIFO could not be created; the error number says why.
    CreateFailed(i32),
}

/// Where provisioning stands.
#[derive(Debug, Clone, Copy, PartialEq, Eq)]
pub enum ProvisionState {
    /// The path is yet to be inspected.
    Inspecting,
    /// A change of owner is under way. The mode that was observed is kept
    /// for the comparison that follows.
    ChangingOwner { change: OwnerChange, observed_mode: u32 },
    /// The mode is being set.
    ChangingMode { mode: u32 },
    /// The FIFO is being created.
    Creating { mode: u32 },
    /// The channel is as configured.
    Ready,
    /// Provisioning was given up.
    Failed(ProvisionError),
}

/// What the system is asked to do.
#[derive(Debug, Clone, Copy, PartialEq, Eq)]
pub enum ProvisionRequest {
    /// Look at the channel's path.
    Inspect,
    /// Change the owner of the channel.
    ChangeOwner(OwnerChange),
    /// Set the mode of the channel to exactly these bits.
    SetMode(u32),
    /// Create a FIFO with exactly these permission bits, with the file
    /// creation mask cleared for the time of the creation.
    CreateFifo(u32),
    /// Nothing: provisioning has ended.
    Nothing,
}

/// The outcome of a request.
#[derive(Debug, Clone, Copy, PartialEq, Eq)]
pub enum ProvisionEvent {
    /// The path was looked at.
    Inspected(Inspection),
    /// The change was made.
    Succeeded,
    /// The change was refused, with this error number.
    Failed(i32),
}

impl OwnerChange {
    /// The user to set, if any.
    pub open spec fn spec_uid(&self) -> Option<u32> {
        match *self {
            OwnerChange::UserAndGroup(uid, _) => Some(uid),
            OwnerChange::User(uid) => Some(uid),
            OwnerChange::Group(_) => None,
        }
    }

    /// The group to set, if any.
    pub open spec fn spec_gid(&self) -> Option<u32> {
        match *self {
            OwnerChange::UserAndGroup(_, gid) => Some(gid),
            OwnerChange::User(_) => None,
            OwnerChange::Group(gid) => Some(gid),
        }
    }

    /// The user to set, if any.
    #[verifier::when_used_as_spec(spec_uid)]
    pub fn uid(&self) -> (uid: Option<u32>)
        ensures
            uid == self.spec_uid(),
    {
        match *self {
            OwnerChange::UserAndGroup(uid, _) => Some(uid),
            OwnerChange::User(uid) => Some(uid),
            OwnerChange::Group(_) => None,
        }
    }

    /// The group to set, if any.
    #[verifier::when_used_as_spec(spec_gid)]
    pub fn gid(&self) -> (gid: Option<u32>)
        ensures
            gid == self.spec_gid(),
    {
        match *self {
            OwnerChange::UserAndGroup(_, gid) => Some(gid),
            OwnerChange::User(_) => None,
            OwnerChange::Group(gid) => Some(gid),
        }
    }
}

impl ChannelConfig {
    /// Whether a configured side of the owner differs from the one found.
    pub open spec fn spec_owner_differs(&self, found: &ChannelState) -> bool {
        ||| self.uid matches Some(uid) && uid != found.uid
        ||| self.gid matches Some(gid) && gid != found.gid
    }

    /// Whether the permission bits of `mode` differ from the configured ones.
    pub open spec fn spec_mode_differs(&self, mode: u32) -> bool {
        permission_bits(mode) != self.permissions@
    }

    /// The change that sets the owner to the configured sides; `None` where
    /// no side is configured.
    pub open spec fn spec_owner_change(&self) -> Option<OwnerChange> {
        match (self.uid, self.gid) {
            (Some(uid), Some(gid)) => Some(OwnerChange::UserAndGroup(uid, gid)),
            (Some(uid), None) => Some(OwnerChange::User(uid)),
            (None, Some(gid)) => Some(OwnerChange::Group(gid)),
            (None, None) => None,
        }
    }

    /// The state that follows once the owner is as configured: the mode is
    /// set where its permission bits differ.
    pub open spec fn after_owner(&self, observed_mode: u32) -> ProvisionState {
        if self.mode_differs(observed_mode) {
            ProvisionState::ChangingMode { mode: self.permissions@ }
        } else {
            ProvisionState::Ready
        }
    }

    /// The state that follows an inspection. Where nothing is there, the
    /// FIFO is created. Where the path cannot be looked at, or holds
    /// anything but a FIFO, provisioning ends. A FIFO gets its owner
    /// changed where a configured side differs, both configured sides being
    /// requested together, and then its mode.
    pub open spec fn after_inspection(&self, inspection: Inspection) -> ProvisionState {
        match inspection {
            Inspection::Absent => ProvisionState::Creating { mode: self.permissions@ },
            Inspection::Unreadable => ProvisionState::Failed(ProvisionError::InspectionFailed),
            Inspection::Found(found) => if !found.is_fifo {
                ProvisionState::Failed(ProvisionError::NotAFifo)
            } else if self.owner_differs(&found) {
                ProvisionState::ChangingOwner {
                    change: self.owner_change()->0,
                    observed_mode: found.mode,
                }
            } else {
                self.after_owner(found.mode)
            },
        }
    }

    /// Whether a configured side of the owner differs from the one found.
    #[verifier::when_used_as_spec(spec_owner_differs)]
    pub fn owner_differs(&self, found: &ChannelState) -> (differs: bool)
        ensures
            differs == self.spec_owner_differs(found),
    {
        let wrong_uid = match self.uid {
            Some(uid) => found.uid != uid,
            None => false,
        };
        let wrong_gid = match self.gid {
            Some(gid) => found.gid != gid,
            None => false,
        };
        wrong_uid || wrong_gid
    }

    /// Whether the permission bits of `mode` differ from the configured ones.
    #[verifier::when_used_as_spec(spec_mode_differs)]
    pub fn mode_differs(&self, mode: u32) -> (differs: bool)
        ensures
            differs == self.spec_mode_differs(mode),
    {
        (mode & PERMISSION_MASK) != self.permissions.value()
    }

    /// The change that sets the owner to the configured sides.
    #[verifier::when_used_as_spec(spec_owner_change)]
    pub fn owner_change(&self) -> (change: Option<OwnerChange>)
        ensures
            change == self.spec_owner_change(),
    {
        match (self.uid, self.gid) {
            (Some(uid), Some(gid)) => Some(OwnerChange::UserAndGroup(uid, gid)),
            (Some(uid), None) => Some(OwnerChange::User(uid)),
            (None, Some(gid)) => Some(OwnerChange::Group(gid)),
            (None, None) => None,
        }
    }
}

impl ProvisionState {
    /// What the system is asked to do in this state.
    pub open spec fn spec_request(&self) -> ProvisionRequest {
        match *self {
            ProvisionState::Inspecting => ProvisionRequest::Inspect,
            ProvisionState::ChangingOwner { change, .. } => ProvisionRequest::ChangeOwner(change),
            ProvisionState::ChangingMode { mode } => ProvisionRequest::SetMode(mode),
            ProvisionState::Creating { mode } => ProvisionRequest::CreateFifo(mode),
            ProvisionState::Ready => ProvisionRequest::Nothing,
            ProvisionState::Failed(_) => ProvisionRequest::Nothing,
        }
    }

    /// The state that follows on an event. A failure of any request ends
    /// provisioning. An event that is no outcome of the state's request
    /// leaves the state as it is.
    pub open spec fn spec_advance(&self, config: &ChannelConfig, event: ProvisionEvent) -> ProvisionState {
        match (*self, event) {
            (ProvisionState::Inspecting, ProvisionEvent::Inspected(inspection)) => {
                config.after_inspection(inspection)
            },
            (ProvisionState::ChangingOwner { observed_mode, .. }, ProvisionEvent::Succeeded) => {
                config.after_owner(observed_mode)
            },
            (ProvisionState::ChangingOwner { .. }, ProvisionEvent::Failed(_)) => {
                ProvisionState::Failed(ProvisionError::OwnerChangeFailed)
            },
            (ProvisionState::ChangingMode { .. }, ProvisionEvent::Succeeded) => ProvisionState::Ready,
            (ProvisionState::ChangingMode { .. }, ProvisionEvent::Failed(_)) => {
                ProvisionState::Failed(ProvisionError::ModeChangeFailed)
            },
            (ProvisionState::Creating { .. }, ProvisionEvent::Succeeded) => ProvisionState::Ready,
            (ProvisionState::Creating { .. }, ProvisionEvent::Failed(errno)) => {
                ProvisionState::Failed(ProvisionError::CreateFailed(errno))
            },
            _ => *self,
        }
    }

    /// The state in which provisioning begins.
    pub fn start() -> (state: ProvisionState)
        ensures
            state == ProvisionState::Inspecting,
    {
        ProvisionState::Inspecting
    }

    /// What the system is asked to do in this state.
    #[verifier::when_used_as_spec(spec_request)]
    pub fn request(&self) -> (request: ProvisionRequest)
        ensures
            request == self.spec_request(),
    {
        match *self {
            ProvisionState::Inspecting => ProvisionRequest::Inspect,
            ProvisionState::ChangingOwner { change, .. } => ProvisionRequest::ChangeOwner(change),
            ProvisionState::ChangingMode { mode } => ProvisionRequest::SetMode(mode),
            ProvisionState::Creating { mode } => ProvisionRequest::CreateFifo(mode),
            ProvisionState::Ready => ProvisionRequest::Nothing,
            ProvisionState::Failed(_) => ProvisionRequest::Nothing,
        }
    }

    /// Moves on with the outcome of the state's request.
    pub fn advance(self, config: &ChannelConfig, event: ProvisionEvent) -> (next: ProvisionState)
        ensures
            next == self.spec_advance(config, event),
    {
        match (self, event) {
            (ProvisionState::Inspecting, ProvisionEvent::Inspected(inspection)) => {
                inspected(config, inspection)
            },
            (ProvisionState::ChangingOwner { observed_mode, .. }, ProvisionEvent::Succeeded) => {
                owner_settled(config, observed_mode)
            },
            (ProvisionState::ChangingOwner { .. }, ProvisionEvent::Failed(_)) => {
                ProvisionState::Failed(ProvisionError::OwnerChangeFailed)
            },
            (ProvisionState::ChangingMode { .. }, ProvisionEvent::Succeeded) => ProvisionState::Ready,
            (ProvisionState::ChangingMode { .. }, ProvisionEvent::Failed(_)) => {
                ProvisionState::Failed(ProvisionError::ModeChangeFailed)
            },
            (ProvisionState::Creating { .. }, ProvisionEvent::Succeeded) => ProvisionState::Ready,
            (ProvisionState::Creating { .. }, ProvisionEvent::Failed(errno)) => {
                ProvisionState::Failed(ProvisionError::CreateFailed(errno))
            },
            (state, _) => state,
        }
    }
}

/// The state once the owner is as configured.
fn owner_settled(config: &ChannelConfig, observed_mode: u32) -> (next: ProvisionState)
    ensures
        next == config.after_owner(observed_mode),
{
    if config.mode_differs(observed_mode) {
        ProvisionState::ChangingMode { mode: config.permissions.value() }
    } else {
        ProvisionState::Ready
    }
}

/// The state that follows an inspection.
fn inspected(config: &ChannelConfig, inspection: Inspection) -> (next: ProvisionState)
    ensures
        next == config.after_inspection(inspection),
{
    match inspection {
        Inspection::Absent => ProvisionState::Creating { mode: config.permissions.value() },
        Inspection::Unreadable => ProvisionState::Failed(ProvisionError::InspectionFailed),
        Inspection::Found(found) => {
            if !found.is_fifo {
                return ProvisionState::Failed(ProvisionError::NotAFifo);
            }
            match config.owner_change() {
                Some(change) if config.owner_differs(&found) => ProvisionState::ChangingOwner {
                    change,
                    observed_mode: found.mode,
                },
                _ => owner_settled(config, found.mode),
            }
        },
    }
}

} // verus!
