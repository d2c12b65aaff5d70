use vstd::prelude::*;

use crate::errors::Error;
use crate::meta::InternalMeta;

verus! {

/// Where a boot-success commit stands. It runs once after a boot the
/// operator judges stable, and makes the running slot the bootloader's
/// permanent default; `SettingDefault` is the only state in which the boot
/// filesystem is mounted.
pub enum CommitState {
    MountingBoot { current: InternalMeta },
    SettingDefault,
    ReleaseMount { verdict: Result<(), Error> },
    Done,
    Failed { error: Error },
}

/// What the committer asks its driver to do next.
pub enum CommitAction {
    MountBoot,
    SetDefault { uuid: String },
    Unmount,
    Idle,
}

/// What the driver reports back after performing an action.
pub enum CommitEvent {
    MountDone { result: Result<(), Error> },
    DefaultSet { result: Result<(), Error> },
    UnmountDone { result: Result<(), Error> },
}

/// The step aborted the run.
pub open spec fn c_failure_step(s2: CommitState, a: CommitAction) -> bool {
    (s2 matches CommitState::Failed { .. }) && a == CommitAction::Idle
}

/// The committer's transition relation: every `commit_step` call satisfies
/// it.
pub open spec fn c_step_rel(s: CommitState, e: CommitEvent, s2: CommitState, a: CommitAction) -> bool {
    match s {
        CommitState::MountingBoot { current } => match e {
            CommitEvent::MountDone { result } => match result {
                Ok(_) => (s2 == CommitState::SettingDefault) && a == (CommitAction::SetDefault {
                    uuid: current.uuid,
                }),
                Err(_) => c_failure_step(s2, a),
            },
            _ => c_failure_step(s2, a),
        },
        CommitState::SettingDefault => match e {
            CommitEvent::DefaultSet { result } => match result {
                Ok(_) => (s2 == (CommitState::ReleaseMount { verdict: Ok(()) })) && a
                    == CommitAction::Unmount,
                Err(err) => (s2 == (CommitState::ReleaseMount { verdict: Err(err) })) && a
                    == CommitAction::Unmount,
            },
            _ => c_failure_step(s2, a),
        },
        CommitState::ReleaseMount { verdict } => match e {
            CommitEvent::UnmountDone { .. } => match verdict {
                Ok(_) => (s2 == CommitState::Done) && a == CommitAction::Idle,
                Err(err) => (s2 == (CommitState::Failed { error: err })) && a == CommitAction::Idle,
            },
            _ => c_failure_step(s2, a),
        },
        CommitState::Done => (s2 == CommitState::Done) && a == CommitAction::Idle,
        CommitState::Failed { error } => (s2 == (CommitState::Failed { error })) && a
            == CommitAction::Idle,
    }
}

/// Begins a commit run for the version this machine is running: the boot
/// filesystem is mounted first.
pub fn start_commit(current: InternalMeta) -> (r: (CommitState, CommitAction))
    ensures
        r.0 == (CommitState::MountingBoot { current }),
        r.1 == CommitAction::MountBoot,
{
    (CommitState::MountingBoot { current }, CommitAction::MountBoot)
}

/// Advances the commit run by one event: after the boot filesystem is
/// mounted, the running version's uuid becomes the bootloader's permanent
/// default, and the mount is released on every path.
pub fn commit_step(state: CommitState, event: CommitEvent) -> (r: (CommitState, CommitAction))
    ensures
        c_step_rel(state, event, r.0, r.1),
{
    match (state, event) {
        (CommitState::MountingBoot { current }, CommitEvent::MountDone { result }) => match result {
            Ok(_) => (CommitState::SettingDefault, CommitAction::SetDefault {
                uuid: current.uuid,
            }),
            Err(e) => (CommitState::Failed { error: e }, CommitAction::Idle),
        },
        (CommitState::SettingDefault, CommitEvent::DefaultSet { result }) => match result {
            Ok(_) => (CommitState::ReleaseMount { verdict: Ok(()) }, CommitAction::Unmount),
            Err(err) => (CommitState::ReleaseMount { verdict: Err(err) }, CommitAction::Unmount),
        },
        (CommitState::ReleaseMount { verdict }, CommitEvent::UnmountDone { result: _ }) => match verdict {
            Ok(_) => (CommitState::Done, CommitAction::Idle),
            Err(e) => (CommitState::Failed { error: e }, CommitAction::Idle),
        },
        (CommitState::Done, _) => (CommitState::Done, CommitAction::Idle),
        (CommitState::Failed { error }, _) => (CommitState::Failed { error }, CommitAction::Idle),
        _ => (
            CommitState::Failed { error: Error::msg("Unexpected event for the current state") },
            CommitAction::Idle,
        ),
    }
}

/// Law (mount released on error, commit): if setting the permanent default
/// fails while the boot filesystem is mounted, the very next action
/// releases the mount, and the run then fails with exactly that error.
pub proof fn lemma_commit_mount_released_on_error(
    err: Error,
    e0: CommitEvent,
    e1: CommitEvent,
    s1: CommitState,
    a0: CommitAction,
    s2: CommitState,
    a1: CommitAction,
)
    requires
        e0 == (CommitEvent::DefaultSet { result: Err(err) }),
        e1 matches CommitEvent::UnmountDone { .. },
        c_step_rel(CommitState::SettingDefault, e0, s1, a0),
        c_step_rel(s1, e1, s2, a1),
    ensures
        a0 == CommitAction::Unmount,
        s1 == (CommitState::ReleaseMount { verdict: Err(err) }),
        s2 == (CommitState::Failed { error: err }),
{
}

} // verus!
