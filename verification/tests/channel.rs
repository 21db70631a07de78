use battery_pipe::channel::{
    ChannelConfig, ChannelState, Inspection, OwnerChange, ProvisionError, ProvisionEvent,
    ProvisionRequest, ProvisionState,
};
use battery_pipe::permissions::OctalPermissions;

fn config(mode: u32, uid: Option<u32>, gid: Option<u32>) -> ChannelConfig {
    ChannelConfig { permissions: OctalPermissions::new(mode), uid, gid }
}

fn fifo(uid: u32, gid: u32, mode: u32) -> ChannelState {
    ChannelState { is_fifo: true, uid, gid, mode }
}

fn inspect(config: &ChannelConfig, found: Inspection) -> ProvisionState {
    ProvisionState::start().advance(config, ProvisionEvent::Inspected(found))
}

/// Carries the requests out on a path that holds `channel`, every one with
/// success, and returns the state reached, the path and the requests made.
fn run(
    config: &ChannelConfig,
    mut channel: Option<ChannelState>,
) -> (ProvisionState, Option<ChannelState>, Vec<ProvisionRequest>) {
    let mut state = ProvisionState::start();
    let mut requests = Vec::new();
    for _ in 0..8 {
        let request = state.request();
        let event = match request {
            ProvisionRequest::Nothing => return (state, channel, requests),
            ProvisionRequest::Inspect => ProvisionEvent::Inspected(match channel {
                Some(found) => Inspection::Found(found),
                None => Inspection::Absent,
            }),
            ProvisionRequest::ChangeOwner(change) => {
                let held = channel.as_mut().expect("a channel to change");
                held.uid = change.uid().unwrap_or(held.uid);
                held.gid = change.gid().unwrap_or(held.gid);
                ProvisionEvent::Succeeded
            }
            ProvisionRequest::SetMode(mode) => {
                let held = channel.as_mut().expect("a channel to change");
                held.mode = (held.mode & !0o7777) | (mode & 0o7777);
                ProvisionEvent::Succeeded
            }
            ProvisionRequest::CreateFifo(mode) => {
                assert_eq!(channel, None);
                channel = Some(ChannelState { is_fifo: true, uid: 0, gid: 0, mode: 0o010000 | mode });
                ProvisionEvent::Succeeded
            }
        };
        requests.push(request);
        state = state.advance(config, event);
    }
    panic!("provisioning did not end");
}

#[test]
fn begins_by_inspecting() {
    assert_eq!(ProvisionState::start(), ProvisionState::Inspecting);
    assert_eq!(ProvisionState::start().request(), ProvisionRequest::Inspect);
}

#[test]
fn absent_channel_is_created_with_the_configured_mode() {
    let config = config(0o660, Some(1000), Some(1000));
    let state = inspect(&config, Inspection::Absent);
    assert_eq!(state, ProvisionState::Creating { mode: 0o660 });
    assert_eq!(state.request(), ProvisionRequest::CreateFifo(0o660));
    assert_eq!(state.advance(&config, ProvisionEvent::Succeeded), ProvisionState::Ready);
}

#[test]
fn created_channel_is_a_fifo_with_the_configured_bits() {
    let config = config(0o777, None, None);
    let (state, channel, requests) = run(&config, None);
    assert_eq!(state, ProvisionState::Ready);
    assert_eq!(requests, vec![ProvisionRequest::Inspect, ProvisionRequest::CreateFifo(0o777)]);
    let channel = channel.expect("a channel");
    assert!(channel.is_fifo);
    assert_eq!(channel.mode & 0o777, 0o777);
}

#[test]
fn failed_creation_ends_provisioning() {
    let config = config(0o777, None, None);
    let state = inspect(&config, Inspection::Absent);
    let failed = state.advance(&config, ProvisionEvent::Failed(13));
    assert_eq!(failed, ProvisionState::Failed(ProvisionError::CreateFailed(13)));
    assert_eq!(failed.request(), ProvisionRequest::Nothing);
}

#[test]
fn unreadable_path_ends_provisioning() {
    let config = config(0o777, None, None);
    let state = inspect(&config, Inspection::Unreadable);
    assert_eq!(state, ProvisionState::Failed(ProvisionError::InspectionFailed));
    assert_eq!(state.request(), ProvisionRequest::Nothing);
}

#[test]
fn wrong_mode_is_corrected() {
    let config = config(0o660, None, None);
    let state = inspect(&config, Inspection::Found(fifo(0, 0, 0o010644)));
    assert_eq!(state, ProvisionState::ChangingMode { mode: 0o660 });
    assert_eq!(state.request(), ProvisionRequest::SetMode(0o660));
    assert_eq!(state.advance(&config, ProvisionEvent::Succeeded), ProvisionState::Ready);
}

#[test]
fn correcting_the_mode_changes_nothing_else() {
    let config = config(0o660, None, None);
    let (state, channel, requests) = run(&config, Some(fifo(12, 34, 0o010644)));
    assert_eq!(state, ProvisionState::Ready);
    assert_eq!(requests, vec![ProvisionRequest::Inspect, ProvisionRequest::SetMode(0o660)]);
    assert_eq!(channel, Some(fifo(12, 34, 0o010660)));
}

#[test]
fn failed_mode_change_ends_provisioning() {
    let config = config(0o660, None, None);
    let state = inspect(&config, Inspection::Found(fifo(0, 0, 0o644)));
    assert_eq!(
        state.advance(&config, ProvisionEvent::Failed(1)),
        ProvisionState::Failed(ProvisionError::ModeChangeFailed)
    );
}

#[test]
fn only_the_permission_bits_are_compared() {
    let config = config(0o644, None, None);
    for mode in [0o644, 0o010644, 0o017644, 0o4644, 0xffff_fe00 | 0o644] {
        assert_eq!(inspect(&config, Inspection::Found(fifo(0, 0, mode))), ProvisionState::Ready);
    }
    for mode in [0o645, 0o010744, 0o244, 0] {
        assert_eq!(
            inspect(&config, Inspection::Found(fifo(0, 0, mode))),
            ProvisionState::ChangingMode { mode: 0o644 }
        );
    }
}

#[test]
fn fitting_channel_needs_nothing() {
    let config = config(0o777, Some(5), Some(6));
    let (state, channel, requests) = run(&config, Some(fifo(5, 6, 0o010777)));
    assert_eq!(state, ProvisionState::Ready);
    assert_eq!(requests, vec![ProvisionRequest::Inspect]);
    assert_eq!(channel, Some(fifo(5, 6, 0o010777)));
}

#[test]
fn non_fifo_aborts_and_is_left_untouched() {
    let config = config(0o777, Some(1), Some(1));
    let other = ChannelState { is_fifo: false, uid: 0, gid: 0, mode: 0o100644 };
    let state = inspect(&config, Inspection::Found(other));
    assert_eq!(state, ProvisionState::Failed(ProvisionError::NotAFifo));
    assert_eq!(state.request(), ProvisionRequest::Nothing);
    let (state, channel, requests) = run(&config, Some(other));
    assert_eq!(state, ProvisionState::Failed(ProvisionError::NotAFifo));
    assert_eq!(requests, vec![ProvisionRequest::Inspect]);
    assert_eq!(channel, Some(other));
}

#[test]
fn wrong_user_is_changed() {
    let config = config(0o777, Some(1000), None);
    let state = inspect(&config, Inspection::Found(fifo(0, 7, 0o010777)));
    assert_eq!(
        state,
        ProvisionState::ChangingOwner { change: OwnerChange::User(1000), observed_mode: 0o010777 }
    );
    assert_eq!(state.request(), ProvisionRequest::ChangeOwner(OwnerChange::User(1000)));
    assert_eq!(state.advance(&config, ProvisionEvent::Succeeded), ProvisionState::Ready);
}

#[test]
fn wrong_group_is_changed() {
    let config = config(0o777, None, Some(50));
    let state = inspect(&config, Inspection::Found(fifo(0, 7, 0o010777)));
    assert_eq!(state.request(), ProvisionRequest::ChangeOwner(OwnerChange::Group(50)));
}

#[test]
fn both_configured_sides_are_requested_together() {
    let config = config(0o777, Some(1000), Some(50));
    for found in [fifo(0, 50, 0o777), fifo(1000, 0, 0o777), fifo(1, 2, 0o777)] {
        let state = inspect(&config, Inspection::Found(found));
        assert_eq!(
            state.request(),
            ProvisionRequest::ChangeOwner(OwnerChange::UserAndGroup(1000, 50))
        );
    }
}

#[test]
fn unconfigured_owner_is_never_changed() {
    let config = config(0o777, None, None);
    let state = inspect(&config, Inspection::Found(fifo(123, 456, 0o777)));
    assert_eq!(state, ProvisionState::Ready);
}

#[test]
fn mode_is_checked_after_the_owner() {
    let config = config(0o600, Some(1000), Some(50));
    let (state, channel, requests) = run(&config, Some(fifo(0, 0, 0o010666)));
    assert_eq!(state, ProvisionState::Ready);
    assert_eq!(
        requests,
        vec![
            ProvisionRequest::Inspect,
            ProvisionRequest::ChangeOwner(OwnerChange::UserAndGroup(1000, 50)),
            ProvisionRequest::SetMode(0o600),
        ]
    );
    assert_eq!(channel, Some(fifo(1000, 50, 0o010600)));
}

#[test]
fn partial_owner_change_leaves_the_other_side() {
    let config = config(0o666, None, Some(50));
    let (state, channel, _) = run(&config, Some(fifo(77, 0, 0o010666)));
    assert_eq!(state, ProvisionState::Ready);
    assert_eq!(channel, Some(fifo(77, 50, 0o010666)));
}

#[test]
fn failed_owner_change_ends_provisioning() {
    let config = config(0o600, Some(1000), None);
    let state = inspect(&config, Inspection::Found(fifo(0, 0, 0o666)));
    let failed = state.advance(&config, ProvisionEvent::Failed(1));
    assert_eq!(failed, ProvisionState::Failed(ProvisionError::OwnerChangeFailed));
    assert_eq!(failed.request(), ProvisionRequest::Nothing);
}

#[test]
fn wide_mode_is_passed_on_as_configured() {
    let config = config(0o4755, None, None);
    assert_eq!(inspect(&config, Inspection::Absent).request(), ProvisionRequest::CreateFifo(0o4755));
    assert_eq!(
        inspect(&config, Inspection::Found(fifo(0, 0, 0o4755))).request(),
        ProvisionRequest::SetMode(0o4755)
    );
}

#[test]
fn end_states_are_final() {
    let config = config(0o777, Some(1), None);
    let events = [
        ProvisionEvent::Inspected(Inspection::Absent),
        ProvisionEvent::Inspected(Inspection::Found(fifo(0, 0, 0))),
        ProvisionEvent::Succeeded,
        ProvisionEvent::Failed(2),
    ];
    for state in [ProvisionState::Ready, ProvisionState::Failed(ProvisionError::NotAFifo)] {
        for event in events {
            assert_eq!(state.advance(&config, event), state);
        }
    }
}

#[test]
fn events_that_do_not_belong_leave_the_state() {
    let config = config(0o777, Some(1), None);
    let inspecting = ProvisionState::Inspecting;
    assert_eq!(inspecting.advance(&config, ProvisionEvent::Succeeded), inspecting);
    assert_eq!(inspecting.advance(&config, ProvisionEvent::Failed(5)), inspecting);
    let creating = ProvisionState::Creating { mode: 0o777 };
    assert_eq!(creating.advance(&config, ProvisionEvent::Inspected(Inspection::Absent)), creating);
    let changing = ProvisionState::ChangingMode { mode: 0o777 };
    assert_eq!(changing.advance(&config, ProvisionEvent::Inspected(Inspection::Unreadable)), changing);
}

#[test]
fn owner_change_names_its_sides() {
    assert_eq!(OwnerChange::UserAndGroup(1, 2).uid(), Some(1));
    assert_eq!(OwnerChange::UserAndGroup(1, 2).gid(), Some(2));
    assert_eq!(OwnerChange::User(3).uid(), Some(3));
    assert_eq!(OwnerChange::User(3).gid(), None);
    assert_eq!(OwnerChange::Group(4).uid(), None);
    assert_eq!(OwnerChange::Group(4).gid(), Some(4));
}

#[test]
fn config_tells_what_differs() {
    let config = config(0o640, Some(10), None);
    assert!(config.owner_differs(&fifo(11, 0, 0)));
    assert!(!config.owner_differs(&fifo(10, 99, 0)));
    assert!(config.mode_differs(0o641));
    assert!(!config.mode_differs(0o010640));
    assert_eq!(config.owner_change(), Some(OwnerChange::User(10)));
    assert_eq!(self::config(0, None, None).owner_change(), None);
    assert_eq!(self::config(0, None, Some(3)).owner_change(), Some(OwnerChange::Group(3)));
    assert_eq!(
        self::config(0, Some(2), Some(3)).owner_change(),
        Some(OwnerChange::UserAndGroup(2, 3))
    );
}
