use organixm::devices::LsblkDevice;
use organixm::errors::Error;
use organixm::layout::{PartEnd, PartLabel};
use organixm::meta::{BootConfig, ExternalMeta, InternalMeta};
use organixm::provision::{
    provision_step, start_provision, ProvisionAction, ProvisionConfig, ProvisionEvent,
    ProvisionState,
};

fn internal(uuid: &str) -> InternalMeta {
    InternalMeta {
        region: "eu-west-1".to_owned(),
        bucket: "images".to_owned(),
        object_path: "os/root.img".to_owned(),
        access_key: "SECRET-REDACTED".to_owned(),
        secret_key: "SECRET-REDACTED".to_owned(),
        uuid: uuid.to_owned(),
        der_bzimage: "bzimage-1".to_owned(),
        der_init: "init-1".to_owned(),
        der_initrd: "initrd-1".to_owned(),
    }
}

fn config(size: u64) -> ProvisionConfig {
    ProvisionConfig {
        size,
        version: ExternalMeta {
            sha256: "00".to_owned(),
            size: 500 * 1024 * 1024,
            format: "ext4.zst".to_owned(),
            internal: internal("v1"),
        },
        version_path: "/data/initial.img.zst".to_owned(),
    }
}

fn bare_disk() -> Vec<LsblkDevice> {
    vec![LsblkDevice {
        path: "/dev/sda".to_owned(),
        size: 8 * 1024 * 1024 * 1024,
        type_field: "disk".to_owned(),
        mountpoint: None,
        partlabel: None,
        children: Vec::new(),
    }]
}

fn part(path: &str, label: &str) -> LsblkDevice {
    LsblkDevice {
        path: path.to_owned(),
        size: 2048 * 1024 * 1024,
        type_field: "part".to_owned(),
        mountpoint: None,
        partlabel: Some(label.to_owned()),
        children: Vec::new(),
    }
}

fn partitioned_disk() -> Vec<LsblkDevice> {
    let mut disk = bare_disk();
    disk[0].children = vec![
        part("/dev/sda1", "no-fs"),
        part("/dev/sda2", "boot"),
        part("/dev/sda3", "organixm-a"),
        part("/dev/sda4", "organixm-b"),
        part("/dev/sda5", "rw"),
    ];
    disk
}

fn ok<T>(v: T) -> Result<T, Error> {
    Ok(v)
}

#[test]
fn provision_run_reaches_poweroff() {
    let raw = vec![7u8; 500];
    let compressed = zstd::encode_all(&raw[..], 0).unwrap();

    let (s, a) = start_provision(config(2));
    assert!(matches!(a, ProvisionAction::ListDevices));

    let (s, a) = provision_step(s, ProvisionEvent::DevicesListed { result: Ok(bare_disk()) });
    match &a {
        ProvisionAction::RunParted { disk_path, plan } => {
            assert_eq!(disk_path, "/dev/sda");
            assert_eq!(plan.len(), 5);
            assert_eq!(plan[2].start_mib, 129);
            assert_eq!(plan[2].end, PartEnd::At(2177));
            assert_eq!(plan[3].end, PartEnd::At(4225));
            assert_eq!(plan[4].end, PartEnd::DiskEnd);
        },
        _ => panic!("expected the disk to be partitioned"),
    }

    let (s, a) = provision_step(s, ProvisionEvent::PartedDone { result: ok(()) });
    match &a {
        ProvisionAction::WaitDeviceNode { label, policy } => {
            assert_eq!(*label, PartLabel::Rw);
            assert_eq!(policy.total_ms, 300_000);
            assert_eq!(policy.period_ms, 10_000);
        },
        _ => panic!("expected a wait for the rw device node"),
    }

    let (s, a) = provision_step(s, ProvisionEvent::NodeReady { result: ok(()) });
    assert!(matches!(a, ProvisionAction::WaitDeviceNode { label: PartLabel::Boot, .. }));

    let (s, a) = provision_step(s, ProvisionEvent::NodeReady { result: ok(()) });
    assert!(matches!(a, ProvisionAction::RunMkfs { label: PartLabel::Boot }));

    let (s, a) = provision_step(s, ProvisionEvent::MkfsDone { result: ok(()) });
    assert!(matches!(a, ProvisionAction::RunMkfs { label: PartLabel::Rw }));

    let (s, a) = provision_step(s, ProvisionEvent::MkfsDone { result: ok(()) });
    assert!(matches!(a, ProvisionAction::ListDevices));

    let (s, a) = provision_step(
        s,
        ProvisionEvent::DevicesListed { result: Ok(partitioned_disk()) },
    );
    match &a {
        ProvisionAction::ReadImageFile { path } => assert_eq!(path, "/data/initial.img.zst"),
        _ => panic!("expected the initial image file to be read"),
    }

    let (s, a) = provision_step(s, ProvisionEvent::ImageFileRead { result: Ok(compressed) });
    match &a {
        ProvisionAction::WriteDevice { path, bytes } => {
            // The first slot, in child order, takes the initial image.
            assert_eq!(path, "/dev/sda3");
            assert_eq!(bytes, &raw);
        },
        _ => panic!("expected the decompressed image to be written"),
    }

    let (s, a) = provision_step(s, ProvisionEvent::ImageWritten { result: ok(()) });
    assert!(matches!(a, ProvisionAction::MountBoot));

    let (s, a) = provision_step(s, ProvisionEvent::MountDone { result: ok(()) });
    match &a {
        ProvisionAction::WriteBootConfig { config } => match config {
            BootConfig::Single { new } => assert_eq!(new.uuid, "v1"),
            _ => panic!("the initial config must name a single version"),
        },
        _ => panic!("expected the bootloader config to be written"),
    }

    let (s, a) = provision_step(s, ProvisionEvent::ConfigWritten { result: ok(()) });
    match &a {
        ProvisionAction::InstallBootloader { disk_path } => assert_eq!(disk_path, "/dev/sda"),
        _ => panic!("expected a bootloader install"),
    }

    let (s, a) = provision_step(s, ProvisionEvent::BootloaderInstalled { result: ok(()) });
    assert!(matches!(a, ProvisionAction::Unmount));

    let (s, a) = provision_step(s, ProvisionEvent::UnmountDone { result: ok(()) });
    assert!(matches!(a, ProvisionAction::Poweroff));

    let (s, a) = provision_step(s, ProvisionEvent::PoweroffIssued { result: ok(()) });
    assert!(matches!(s, ProvisionState::Done));
    assert!(matches!(a, ProvisionAction::Idle));
}

#[test]
fn no_disk_is_fatal() {
    let (s, _) = start_provision(config(2));
    let (s, a) = provision_step(s, ProvisionEvent::DevicesListed { result: Ok(vec![]) });
    assert!(matches!(s, ProvisionState::Failed { .. }));
    assert!(matches!(a, ProvisionAction::Idle));
}

#[test]
fn oversized_slot_config_is_fatal() {
    let (s, _) = start_provision(config(u64::MAX));
    let (s, a) = provision_step(s, ProvisionEvent::DevicesListed { result: Ok(bare_disk()) });
    assert!(matches!(s, ProvisionState::Failed { .. }));
    assert!(matches!(a, ProvisionAction::Idle));
}

#[test]
fn corrupt_initial_image_is_fatal() {
    let (s, _) = start_provision(config(2));
    let (s, _) = provision_step(s, ProvisionEvent::DevicesListed { result: Ok(bare_disk()) });
    let (s, _) = provision_step(s, ProvisionEvent::PartedDone { result: ok(()) });
    let (s, _) = provision_step(s, ProvisionEvent::NodeReady { result: ok(()) });
    let (s, _) = provision_step(s, ProvisionEvent::NodeReady { result: ok(()) });
    let (s, _) = provision_step(s, ProvisionEvent::MkfsDone { result: ok(()) });
    let (s, _) = provision_step(s, ProvisionEvent::MkfsDone { result: ok(()) });
    let (s, _) = provision_step(
        s,
        ProvisionEvent::DevicesListed { result: Ok(partitioned_disk()) },
    );
    let garbage = vec![9u8; 16];
    let (s, a) = provision_step(s, ProvisionEvent::ImageFileRead { result: Ok(garbage) });
    assert!(matches!(s, ProvisionState::Failed { .. }));
    assert!(matches!(a, ProvisionAction::Idle));
}

#[test]
fn provision_mount_released_when_install_fails() {
    let raw = vec![7u8; 64];
    let compressed = zstd::encode_all(&raw[..], 0).unwrap();
    let (s, _) = start_provision(config(2));
    let (s, _) = provision_step(s, ProvisionEvent::DevicesListed { result: Ok(bare_disk()) });
    let (s, _) = provision_step(s, ProvisionEvent::PartedDone { result: ok(()) });
    let (s, _) = provision_step(s, ProvisionEvent::NodeReady { result: ok(()) });
    let (s, _) = provision_step(s, ProvisionEvent::NodeReady { result: ok(()) });
    let (s, _) = provision_step(s, ProvisionEvent::MkfsDone { result: ok(()) });
    let (s, _) = provision_step(s, ProvisionEvent::MkfsDone { result: ok(()) });
    let (s, _) = provision_step(
        s,
        ProvisionEvent::DevicesListed { result: Ok(partitioned_disk()) },
    );
    let (s, _) = provision_step(s, ProvisionEvent::ImageFileRead { result: Ok(compressed) });
    let (s, _) = provision_step(s, ProvisionEvent::ImageWritten { result: ok(()) });
    let (s, _) = provision_step(s, ProvisionEvent::MountDone { result: ok(()) });
    let (s, _) = provision_step(s, ProvisionEvent::ConfigWritten { result: ok(()) });
    let (s, a) = provision_step(
        s,
        ProvisionEvent::BootloaderInstalled { result: Err(Error::msg("grub-install failed")) },
    );
    assert!(matches!(a, ProvisionAction::Unmount));
    let (s, a) = provision_step(s, ProvisionEvent::UnmountDone { result: ok(()) });
    match s {
        ProvisionState::Failed { error } => {
            assert_eq!(error.chain, vec!["grub-install failed".to_owned()])
        },
        _ => panic!("the run must fail with the original error"),
    }
    assert!(matches!(a, ProvisionAction::Idle));
}
