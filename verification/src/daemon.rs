//! The command loop: the daemon provisions its channel once and then serves
//! payloads for as long as the process lives.

use crate::channel::ProvisionError;
use crate::command::{parse_command, parse_command_spec, Command, CommandView};
use crate::threshold::{dispatch_spec, set_thresholds, Dispatch};
use vstd::prelude::*;

verus! {

/// Why the daemon stopped before it served.
#[derive(Debug, Clone, Copy, PartialEq, Eq)]
pub enum StopReason {
    /// The channel could not be provisioned.
    ChannelUnavailable(ProvisionError),
    /// Neither control point can be written.
    NothingWritable,
}

/// The states of the daemon.
#[derive(Debug, Clone, Copy, PartialEq, Eq)]
pub enum DaemonState {
    /// The channel is being provisioned. Entered once, at the start.
    Provisioning,
    /// Payloads are read from the channel and acted upon.
    Serving,
    /// The daemon has given up.
    Stopped(StopReason),
}

/// What happens to the daemon.
#[derive(Debug, Clone, Copy)]
pub enum DaemonEvent<'a> {
    /// Provisioning was given up.
    ChannelFailed(ProvisionError),
    /// The channel is ready, and each control point was probed for write
    /// access.
    ChannelReady { start_writable: bool, end_writable: bool },
    /// A read from the channel gave this payload.
    Payload(&'a str),
    /// A read from the channel failed.
    ReadFailed,
}

/// What the daemon does about an event.
#[derive(Debug, Clone, Copy, PartialEq, Eq)]
pub enum Reaction {
    /// Nothing.
    Idle,
    /// Attempt the writes and report the complaint, if there is one.
    Dispatch(Dispatch),
    /// Report an assignment to something other than `start` or `end`.
    RejectMode,
}

/// An event over sequences of characters.
pub enum DaemonEventView {
    ChannelFailed(ProvisionError),
    ChannelReady { start_writable: bool, end_writable: bool },
    Payload(Seq<char>),
    ReadFailed,
}

impl<'a> View for DaemonEvent<'a> {
    type V = DaemonEventView;

    open spec fn view(&self) -> DaemonEventView {
        match *self {
            DaemonEvent::ChannelFailed(error) => DaemonEventView::ChannelFailed(error),
            DaemonEvent::ChannelReady { start_writable, end_writable } => {
                DaemonEventView::ChannelReady { start_writable, end_writable }
            },
            DaemonEvent::Payload(payload) => DaemonEventView::Payload(payload@),
            DaemonEvent::ReadFailed => DaemonEventView::ReadFailed,
        }
    }
}

/// What a payload leads to: the writes for a request, a report for a wrong
/// mode, nothing for anything else.
pub open spec fn react_spec(payload: Seq<char>) -> Reaction {
    match parse_command_spec(payload) {
        CommandView::Thresholds { start, end } => Reaction::Dispatch(dispatch_spec(start, end)),
        CommandView::WrongMode => Reaction::RejectMode,
        CommandView::Ignored => Reaction::Idle,
    }
}

/// The state that follows `state` on `event`. Provisioning ends in serving
/// where the channel is ready and at least one control point can be
/// written, and in a stop otherwise. Serving goes on whatever is read.
/// An event that does not belong to a state leaves it as it is.
pub open spec fn next_state(state: DaemonState, event: DaemonEventView) -> DaemonState {
    match (state, event) {
        (DaemonState::Provisioning, DaemonEventView::ChannelFailed(error)) => DaemonState::Stopped(
            StopReason::ChannelUnavailable(error),
        ),
        (
            DaemonState::Provisioning,
            DaemonEventView::ChannelReady { start_writable, end_writable },
        ) => if start_writable || end_writable {
            DaemonState::Serving
        } else {
            DaemonState::Stopped(StopReason::NothingWritable)
        },
        _ => state,
    }
}

/// What the daemon does about `event` in `state`: it acts on payloads while
/// it serves, and on nothing else.
pub open spec fn reaction(state: DaemonState, event: DaemonEventView) -> Reaction {
    match (state, event) {
        (DaemonState::Serving, DaemonEventView::Payload(payload)) => react_spec(payload),
        _ => Reaction::Idle,
    }
}

/// Acts on one payload.
pub fn react(payload: &str) -> (reaction: Reaction)
    ensures
        reaction == react_spec(payload@),
{
    match parse_command(payload) {
        Command::Thresholds(intent) => Reaction::Dispatch(set_thresholds(intent.start, intent.end)),
        Command::WrongMode => Reaction::RejectMode,
        Command::Ignored => Reaction::Idle,
    }
}

impl DaemonState {
    /// The state in which the daemon begins.
    pub fn start() -> (state: DaemonState)
        ensures
            state == DaemonState::Provisioning,
    {
        DaemonState::Provisioning
    }

    /// Takes one event: the state that follows, and what to do.
    pub fn step(self, event: DaemonEvent) -> (next: (DaemonState, Reaction))
        ensures
            next.0 == next_state(self, event@),
            next.1 == reaction(self, event@),
    {
        match (self, event) {
            (DaemonState::Provisioning, DaemonEvent::ChannelFailed(error)) => (
                DaemonState::Stopped(StopReason::ChannelUnavailable(error)),
                Reaction::Idle,
            ),
            (DaemonState::Provisioning, DaemonEvent::ChannelReady { start_writable, end_writable }) => {
                if start_writable || end_writable {
                    (DaemonState::Serving, Reaction::Idle)
                } else {
                    (DaemonState::Stopped(StopReason::NothingWritable), Reaction::Idle)
                }
            },
            (DaemonState::Serving, DaemonEvent::Payload(payload)) => (
                DaemonState::Serving,
                react(payload),
            ),
            (state, _) => (state, Reaction::Idle),
        }
    }
}

/// Nothing that is read, and no failure to read, ends serving.
pub proof fn lemma_serving_goes_on(event: DaemonEventView)
    ensures
        next_state(DaemonState::Serving, event) == DaemonState::Serving,
{
}

/// A daemon that has stopped stays stopped and does nothing.
pub proof fn lemma_stopped_is_final(reason: StopReason, event: DaemonEventView)
    ensures
        next_state(DaemonState::Stopped(reason), event) == DaemonState::Stopped(reason),
        reaction(DaemonState::Stopped(reason), event) == Reaction::Idle,
{
}

/// Serving is entered only from provisioning, with the channel ready and a
/// control point that can be written.
pub proof fn lemma_serving_needs_channel_and_access(state: DaemonState, event: DaemonEventView)
    requires
        state != DaemonState::Serving,
        next_state(state, event) == DaemonState::Serving,
    ensures
        state == DaemonState::Provisioning,
        event matches DaemonEventView::ChannelReady { start_writable, end_writable } && (
        start_writable || end_writable),
{
}

} // verus!
