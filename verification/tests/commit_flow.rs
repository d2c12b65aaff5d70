use organixm::commit::{commit_step, start_commit, CommitAction, CommitEvent, CommitState};
use organixm::errors::Error;
use organixm::meta::InternalMeta;

fn internal(uuid: &str) -> InternalMeta {
    InternalMeta {
        region: "eu-west-1".to_owned(),
        bucket: "images".to_owned(),
        object_path: "os/root.img".to_owned(),
        access_key: "SECRET-REDACTED".to_owned(),
        secret_key: "SECRET-REDACTED".to_owned(),
        uuid: uuid.to_owned(),
        der_bzimage: "bzimage-1".to_owned(),
        der_init: "init-1".to_owned(),
        der_initrd: "initrd-1".to_owned(),
    }
}

#[test]
fn commit_sets_the_running_uuid_as_default() {
    let (s, a) = start_commit(internal("v2"));
    assert!(matches!(a, CommitAction::MountBoot));
    let (s, a) = commit_step(s, CommitEvent::MountDone { result: Ok(()) });
    match &a {
        CommitAction::SetDefault { uuid } => assert_eq!(uuid, "v2"),
        _ => panic!("expected the default to be set"),
    }
    let (s, a) = commit_step(s, CommitEvent::DefaultSet { result: Ok(()) });
    assert!(matches!(a, CommitAction::Unmount));
    let (s, a) = commit_step(s, CommitEvent::UnmountDone { result: Ok(()) });
    assert!(matches!(s, CommitState::Done));
    assert!(matches!(a, CommitAction::Idle));
}

#[test]
fn commit_mount_failure_is_fatal() {
    let (s, _) = start_commit(internal("v2"));
    let (s, a) = commit_step(
        s,
        CommitEvent::MountDone { result: Err(Error::msg("mount exited nonzero")) },
    );
    assert!(matches!(s, CommitState::Failed { .. }));
    assert!(matches!(a, CommitAction::Idle));
}

#[test]
fn commit_releases_mount_when_set_default_fails() {
    let (s, _) = start_commit(internal("v2"));
    let (s, _) = commit_step(s, CommitEvent::MountDone { result: Ok(()) });
    let (s, a) = commit_step(
        s,
        CommitEvent::DefaultSet { result: Err(Error::msg("grub-set-default failed")) },
    );
    assert!(matches!(a, CommitAction::Unmount));
    let (s, a) = commit_step(s, CommitEvent::UnmountDone { result: Ok(()) });
    match s {
        CommitState::Failed { error } => {
            assert_eq!(error.chain, vec!["grub-set-default failed".to_owned()])
        },
        _ => panic!("the run must fail with the original error"),
    }
    assert!(matches!(a, CommitAction::Idle));
}
