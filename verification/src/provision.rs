use vstd::prelude::*;

use crate::devices::{
    disk_root_count, find_root_parts, first_disk, has_root_label, qualifying_disk,
    sound_topology, LsblkDevice,
};
use crate::digest::{zstd_decode, zstd_decode_of};
use crate::errors::Error;
use crate::layout::{max_slot_gib, partition_plan, spec_plan, PartLabel, PartSpec};
use crate::meta::{BootConfig, ExternalMeta};
use crate::retry::RetryPolicy;

verus! {

/// The polling policy while waiting for the kernel to expose a freshly
/// created partition's label symlink: a five-minute budget with ten
/// seconds between probes.
pub open spec fn spec_node_policy() -> RetryPolicy {
    RetryPolicy { total_ms: 300000, period_ms: 10000 }
}

pub fn node_policy() -> (r: RetryPolicy)
    ensures
        r == spec_node_policy(),
{
    RetryPolicy { total_ms: 300000, period_ms: 10000 }
}

/// What the provisioner is asked to do: the slot size in GiB, the initial
/// version's manifest, and the path of the local image file to install.
pub struct ProvisionConfig {
    pub size: u64,
    pub version: ExternalMeta,
    pub version_path: String,
}

/// Where a provisioning run stands. The run moves linearly through these
/// states; `WriteConfig` and `InstallingBootloader` are the only states in
/// which the boot filesystem is mounted.
pub enum ProvisionState {
    ListDisks { config: ProvisionConfig },
    Partition { config: ProvisionConfig, disk_path: String },
    WaitRwNode { config: ProvisionConfig, disk_path: String },
    WaitBootNode { config: ProvisionConfig, disk_path: String },
    MkfsBoot { config: ProvisionConfig, disk_path: String },
    MkfsRw { config: ProvisionConfig, disk_path: String },
    FindRoots { config: ProvisionConfig, disk_path: String },
    ReadImage { version: ExternalMeta, root_path: String, disk_path: String },
    WritingImage { version: ExternalMeta, disk_path: String },
    MountingBoot { version: ExternalMeta, disk_path: String },
    WriteConfig { disk_path: String },
    InstallingBootloader,
    ReleaseMount { verdict: Result<(), Error> },
    PoweringOff,
    Done,
    Failed { error: Error },
}

/// What the provisioner asks its driver to do next.
pub enum ProvisionAction {
    ListDevices,
    RunParted { disk_path: String, plan: Vec<PartSpec> },
    WaitDeviceNode { label: PartLabel, policy: RetryPolicy },
    RunMkfs { label: PartLabel },
    ReadImageFile { path: String },
    WriteDevice { path: String, bytes: Vec<u8> },
    MountBoot,
    WriteBootConfig { config: BootConfig },
    InstallBootloader { disk_path: String },
    Unmount,
    Poweroff,
    Idle,
}

/// What the driver reports back after performing an action.
pub enum ProvisionEvent {
    DevicesListed { result: Result<Vec<LsblkDevice>, Error> },
    PartedDone { result: Result<(), Error> },
    NodeReady { result: Result<(), Error> },
    MkfsDone { result: Result<(), Error> },
    ImageFileRead { result: Result<Vec<u8>, Error> },
    ImageWritten { result: Result<(), Error> },
    MountDone { result: Result<(), Error> },
    ConfigWritten { result: Result<(), Error> },
    BootloaderInstalled { result: Result<(), Error> },
    UnmountDone { result: Result<(), Error> },
    PoweroffIssued { result: Result<(), Error> },
}

/// The step aborted the run.
pub open spec fn p_failure_step(s2: ProvisionState, a: ProvisionAction) -> bool {
    (s2 matches ProvisionState::Failed { .. }) && a == ProvisionAction::Idle
}

/// What a fresh device enumeration leads to at the start of provisioning:
/// the first whole disk becomes the root disk and is repartitioned to the
/// computed plan; no disk at all, or a slot size beyond the planner's
/// bound, aborts the run.
pub open spec fn list_disks_rel(
    config: ProvisionConfig,
    devs: Seq<LsblkDevice>,
    s2: ProvisionState,
    a: ProvisionAction,
) -> bool {
    if config.size > max_slot_gib() {
        p_failure_step(s2, a)
    } else if exists|i: int| 0 <= i < devs.len() && devs[i].type_field@ == "disk"@ {
        exists|i: int|
            {
                &&& 0 <= i < devs.len()
                &&& devs[i].type_field@ == "disk"@
                &&& forall|j: int| 0 <= j < i ==> devs[j].type_field@ != "disk"@
                &&& s2 == (ProvisionState::Partition { config, disk_path: devs[i].path })
                &&& (a matches ProvisionAction::RunParted { disk_path, plan } && disk_path
                    == devs[i].path && plan@ == spec_plan(config.size))
            }
    } else {
        p_failure_step(s2, a)
    }
}

/// What the post-format device enumeration leads to: on a sound topology
/// — exactly one disk carries exactly the two root-slot partitions and no
/// root-slot label occurs anywhere else — the first slot (in child order)
/// becomes the install target for the initial image; any other topology
/// fails the run.
pub open spec fn find_roots_rel(
    config: ProvisionConfig,
    devs: Seq<LsblkDevice>,
    s2: ProvisionState,
    a: ProvisionAction,
) -> bool {
    if sound_topology(devs) {
        exists|i: int, ia: int, ib: int|
            {
                &&& 0 <= i < devs.len()
                &&& qualifying_disk(devs[i])
                &&& forall|j: int| 0 <= j < devs.len() && j != i ==> disk_root_count(devs[j]) == 0
                &&& 0 <= ia < ib < devs[i].children@.len()
                &&& has_root_label(devs[i].children@[ia])
                &&& has_root_label(devs[i].children@[ib])
                &&& forall|j: int| 0 <= j < ia ==> !has_root_label(devs[i].children@[j])
                &&& s2 == (ProvisionState::ReadImage {
                    version: config.version,
                    root_path: devs[i].children@[ia].path,
                    disk_path: devs[i].path,
                })
                &&& (a matches ProvisionAction::ReadImageFile { path } && path
                    == config.version_path)
            }
    } else {
        p_failure_step(s2, a)
    }
}

/// The provisioner's transition relation: every `provision_step` call
/// satisfies it. It pins the decision logic exactly and leaves open only
/// the wording of error messages.
pub open spec fn p_step_rel(
    s: ProvisionState,
    e: ProvisionEvent,
    s2: ProvisionState,
    a: ProvisionAction,
) -> bool {
    match s {
        ProvisionState::ListDisks { config } => match e {
            ProvisionEvent::DevicesListed { result } => match result {
                Ok(devs) => list_disks_rel(config, devs@, s2, a),
                Err(_) => p_failure_step(s2, a),
            },
            _ => p_failure_step(s2, a),
        },
        ProvisionState::Partition { config, disk_path } => match e {
            ProvisionEvent::PartedDone { result } => match result {
                Ok(_) => (s2 == (ProvisionState::WaitRwNode { config, disk_path })) && a
                    == (ProvisionAction::WaitDeviceNode {
                    label: PartLabel::Rw,
                    policy: spec_node_policy(),
                }),
                Err(_) => p_failure_step(s2, a),
            },
            _ => p_failure_step(s2, a),
        },
        ProvisionState::WaitRwNode { config, disk_path } => match e {
            ProvisionEvent::NodeReady { result } => match result {
                Ok(_) => (s2 == (ProvisionState::WaitBootNode { config, disk_path })) && a
                    == (ProvisionAction::WaitDeviceNode {
                    label: PartLabel::Boot,
                    policy: spec_node_policy(),
                }),
                Err(_) => p_failure_step(s2, a),
            },
            _ => p_failure_step(s2, a),
        },
        ProvisionState::WaitBootNode { config, disk_path } => match e {
            ProvisionEvent::NodeReady { result } => match result {
                Ok(_) => (s2 == (ProvisionState::MkfsBoot { config, disk_path })) && a
                    == (ProvisionAction::RunMkfs { label: PartLabel::Boot }),
                Err(_) => p_failure_step(s2, a),
            },
            _ => p_failure_step(s2, a),
        },
        ProvisionState::MkfsBoot { config, disk_path } => match e {
            ProvisionEvent::MkfsDone { result } => match result {
                Ok(_) => (s2 == (ProvisionState::MkfsRw { config, disk_path })) && a
                    == (ProvisionAction::RunMkfs { label: PartLabel::Rw }),
                Err(_) => p_failure_step(s2, a),
            },
            _ => p_failure_step(s2, a),
        },
        ProvisionState::MkfsRw { config, disk_path } => match e {
            ProvisionEvent::MkfsDone { result } => match result {
                Ok(_) => (s2 == (ProvisionState::FindRoots { config, disk_path })) && a
                    == ProvisionAction::ListDevices,
                Err(_) => p_failure_step(s2, a),
            },
            _ => p_failure_step(s2, a),
        },
        ProvisionState::FindRoots { config, disk_path } => match e {
            ProvisionEvent::DevicesListed { result } => match result {
                Ok(devs) => find_roots_rel(config, devs@, s2, a),
                Err(_) => p_failure_step(s2, a),
            },
            _ => p_failure_step(s2, a),
        },
        ProvisionState::ReadImage { version, root_path, disk_path } => match e {
            ProvisionEvent::ImageFileRead { result } => match result {
                Ok(bytes) => match zstd_decode_of(bytes@) {
                    Some(raw) => (s2 == (ProvisionState::WritingImage { version, disk_path })) && (
                    a matches ProvisionAction::WriteDevice { path, bytes: w } && path == root_path
                        && w@ == raw),
                    None => p_failure_step(s2, a),
                },
                Err(_) => p_failure_step(s2, a),
            },
            _ => p_failure_step(s2, a),
        },
        ProvisionState::WritingImage { version, disk_path } => match e {
            ProvisionEvent::ImageWritten { result } => match result {
                Ok(_) => (s2 == (ProvisionState::MountingBoot { version, disk_path })) && a
                    == ProvisionAction::MountBoot,
                Err(_) => p_failure_step(s2, a),
            },
            _ => p_failure_step(s2, a),
        },
        ProvisionState::MountingBoot { version, disk_path } => match e {
            ProvisionEvent::MountDone { result } => match result {
                Ok(_) => (s2 == (ProvisionState::WriteConfig { disk_path })) && a
                    == (ProvisionAction::WriteBootConfig {
                    config: BootConfig::Single { new: version.internal },
                }),
                Err(_) => p_failure_step(s2, a),
            },
            _ => p_failure_step(s2, a),
        },
        ProvisionState::WriteConfig { disk_path } => match e {
            ProvisionEvent::ConfigWritten { result } => match result {
                Ok(_) => (s2 == ProvisionState::InstallingBootloader) && a
                    == (ProvisionAction::InstallBootloader { disk_path }),
                Err(err) => (s2 == (ProvisionState::ReleaseMount { verdict: Err(err) })) && a
                    == ProvisionAction::Unmount,
            },
            _ => p_failure_step(s2, a),
        },
        ProvisionState::InstallingBootloader => match e {
            ProvisionEvent::BootloaderInstalled { result } => match result {
                Ok(_) => (s2 == (ProvisionState::ReleaseMount { verdict: Ok(()) })) && a
                    == ProvisionAction::Unmount,
                Err(err) => (s2 == (ProvisionState::ReleaseMount { verdict: Err(err) })) && a
                    == ProvisionAction::Unmount,
            },
            _ => p_failure_step(s2, a),
        },
        ProvisionState::ReleaseMount { verdict } => match e {
            ProvisionEvent::UnmountDone { .. } => match verdict {
                Ok(_) => (s2 == ProvisionState::PoweringOff) && a == ProvisionAction::Poweroff,
                Err(err) => (s2 == (ProvisionState::Failed { error: err })) && a
                    == ProvisionAction::Idle,
            },
            _ => p_failure_step(s2, a),
        },
        ProvisionState::PoweringOff => match e {
            ProvisionEvent::PoweroffIssued { result } => match result {
                Ok(_) => (s2 == ProvisionState::Done) && a == ProvisionAction::Idle,
                Err(_) => p_failure_step(s2, a),
            },
            _ => p_failure_step(s2, a),
        },
        ProvisionState::Done => (s2 == ProvisionState::Done) && a == ProvisionAction::Idle,
        ProvisionState::Failed { error } => (s2 == (ProvisionState::Failed { error })) && a
            == ProvisionAction::Idle,
    }
}

/// Begins a provisioning run: the machine first enumerates the block
/// devices to pick the root disk.
pub fn start_provision(config: ProvisionConfig) -> (r: (ProvisionState, ProvisionAction))
    ensures
        r.0 == (ProvisionState::ListDisks { config }),
        r.1 == ProvisionAction::ListDevices,
{
    (ProvisionState::ListDisks { config }, ProvisionAction::ListDevices)
}

/// Picks the root disk out of the first device enumeration and plans its
/// partitioning.
fn step_list_disks(config: ProvisionConfig, devs: Vec<LsblkDevice>) -> (r: (
    ProvisionState,
    ProvisionAction,
))
    ensures
        list_disks_rel(config, devs@, r.0, r.1),
{
    let ghost gconfig = config;
    if config.size > 0x100000 {
        return (
            ProvisionState::Failed {
                error: Error::msg("Configured slot size is beyond the supported bound"),
            },
            ProvisionAction::Idle,
        );
    }
    match first_disk(&devs) {
        Some(d) => {
            let disk_path = d.path.clone();
            let plan = partition_plan(config.size);
            let s2 = ProvisionState::Partition { config, disk_path: d.path.clone() };
            let a = ProvisionAction::RunParted { disk_path, plan };
            proof {
                let i = choose|i: int|
                    0 <= i < devs@.len() && *d == devs@[i] && devs@[i].type_field@ == "disk"@ && (
                    forall|j: int| 0 <= j < i ==> devs@[j].type_field@ != "disk"@);
                assert(exists|i: int|
                    {
                        &&& 0 <= i < devs@.len()
                        &&& devs@[i].type_field@ == "disk"@
                        &&& forall|j: int| 0 <= j < i ==> devs@[j].type_field@ != "disk"@
                        &&& s2 == (ProvisionState::Partition {
                            config: gconfig,
                            disk_path: devs@[i].path,
                        })
                        &&& (a matches ProvisionAction::RunParted { disk_path, plan } && disk_path
                            == devs@[i].path && plan@ == spec_plan(gconfig.size))
                    });
            }
            (s2, a)
        },
        None => (
            ProvisionState::Failed {
                error: Error::msg(
                    "When looking for a disk to use as the root disk, couldn't find any disks",
                ),
            },
            ProvisionAction::Idle,
        ),
    }
}

/// Finds the freshly created root-slot partitions and starts installing
/// the initial image onto the first of them.
fn step_find_roots(config: ProvisionConfig, devs: Vec<LsblkDevice>) -> (r: (
    ProvisionState,
    ProvisionAction,
))
    ensures
        find_roots_rel(config, devs@, r.0, r.1),
{
    let ghost gconfig = config;
    match find_root_parts(&devs) {
        Ok(rp) => {
            let ghost i = choose|i: int|
                0 <= i < devs@.len() && *rp.disk == devs@[i] && qualifying_disk(devs@[i]) && (
                forall|j: int| 0 <= j < devs@.len() && j != i ==> disk_root_count(devs@[j]) == 0);
            let ghost (ia, ib) = choose|ia: int, ib: int|
                0 <= ia < ib < rp.disk.children@.len() && *rp.part_a == rp.disk.children@[ia]
                    && *rp.part_b == rp.disk.children@[ib] && has_root_label(
                    rp.disk.children@[ia],
                ) && has_root_label(rp.disk.children@[ib]) && (forall|j: int|
                    0 <= j < ia ==> !has_root_label(rp.disk.children@[j]));
            let root_path = rp.part_a.path.clone();
            let disk_path = rp.disk.path.clone();
            let path = config.version_path.clone();
            let s2 = ProvisionState::ReadImage { version: config.version, root_path, disk_path };
            let a = ProvisionAction::ReadImageFile { path };
            proof {
                assert(sound_topology(devs@));
                assert(exists|i: int, ia: int, ib: int|
                    {
                        &&& 0 <= i < devs@.len()
                        &&& qualifying_disk(devs@[i])
                        &&& forall|j: int|
                            0 <= j < devs@.len() && j != i ==> disk_root_count(devs@[j]) == 0
                        &&& 0 <= ia < ib < devs@[i].children@.len()
                        &&& has_root_label(devs@[i].children@[ia])
                        &&& has_root_label(devs@[i].children@[ib])
                        &&& forall|j: int| 0 <= j < ia ==> !has_root_label(devs@[i].children@[j])
                        &&& s2 == (ProvisionState::ReadImage {
                            version: gconfig.version,
                            root_path: devs@[i].children@[ia].path,
                            disk_path: devs@[i].path,
                        })
                        &&& (a matches ProvisionAction::ReadImageFile { path } && path
                            == gconfig.version_path)
                    });
            }
            (s2, a)
        },
        Err(e) => (ProvisionState::Failed { error: e }, ProvisionAction::Idle),
    }
}

/// Advances the provisioning run by one event and decides the next
/// action: the partition plan, the order of the formatting steps, the
/// decompression of the initial image and the single-entry bootloader
/// configuration all follow from here.
pub fn provision_step(state: ProvisionState, event: ProvisionEvent) -> (r: (
    ProvisionState,
    ProvisionAction,
))
    ensures
        p_step_rel(state, event, r.0, r.1),
{
    match (state, event) {
        (ProvisionState::ListDisks { config }, ProvisionEvent::DevicesListed { result }) => match result {
            Ok(devs) => step_list_disks(config, devs),
            Err(e) => (
                ProvisionState::Failed { error: e.context("Enumerating block devices") },
                ProvisionAction::Idle,
            ),
        },
        (
            ProvisionState::Partition { config, disk_path },
            ProvisionEvent::PartedDone { result },
        ) => match result {
            Ok(_) => (
                ProvisionState::WaitRwNode { config, disk_path },
                ProvisionAction::WaitDeviceNode { label: PartLabel::Rw, policy: node_policy() },
            ),
            Err(e) => (
                ProvisionState::Failed { error: e.context("Partitioning the root disk") },
                ProvisionAction::Idle,
            ),
        },
        (
            ProvisionState::WaitRwNode { config, disk_path },
            ProvisionEvent::NodeReady { result },
        ) => match result {
            Ok(_) => (
                ProvisionState::WaitBootNode { config, disk_path },
                ProvisionAction::WaitDeviceNode { label: PartLabel::Boot, policy: node_policy() },
            ),
            Err(e) => (ProvisionState::Failed { error: e }, ProvisionAction::Idle),
        },
        (
            ProvisionState::WaitBootNode { config, disk_path },
            ProvisionEvent::NodeReady { result },
        ) => match result {
            Ok(_) => (
                ProvisionState::MkfsBoot { config, disk_path },
                ProvisionAction::RunMkfs { label: PartLabel::Boot },
            ),
            Err(e) => (ProvisionState::Failed { error: e }, ProvisionAction::Idle),
        },
        (
            ProvisionState::MkfsBoot { config, disk_path },
            ProvisionEvent::MkfsDone { result },
        ) => match result {
            Ok(_) => (
                ProvisionState::MkfsRw { config, disk_path },
                ProvisionAction::RunMkfs { label: PartLabel::Rw },
            ),
            Err(e) => (
                ProvisionState::Failed { error: e.context("Formatting the boot partition") },
                ProvisionAction::Idle,
            ),
        },
        (ProvisionState::MkfsRw { config, disk_path }, ProvisionEvent::MkfsDone { result }) => match result {
            Ok(_) => (
                ProvisionState::FindRoots { config, disk_path },
                ProvisionAction::ListDevices,
            ),
            Err(e) => (
                ProvisionState::Failed { error: e.context("Formatting the rw partition") },
                ProvisionAction::Idle,
            ),
        },
        (
            ProvisionState::FindRoots { config, disk_path: _ },
            ProvisionEvent::DevicesListed { result },
        ) => match result {
            Ok(devs) => step_find_roots(config, devs),
            Err(e) => (
                ProvisionState::Failed { error: e.context("Enumerating block devices") },
                ProvisionAction::Idle,
            ),
        },
        (
            ProvisionState::ReadImage { version, root_path, disk_path },
            ProvisionEvent::ImageFileRead { result },
        ) => match result {
            Ok(bytes) => match zstd_decode(&bytes) {
                Ok(raw) => (
                    ProvisionState::WritingImage { version, disk_path },
                    ProvisionAction::WriteDevice { path: root_path, bytes: raw },
                ),
                Err(e) => (
                    ProvisionState::Failed { error: e.context("Error writing initial image") },
                    ProvisionAction::Idle,
                ),
            },
            Err(e) => (
                ProvisionState::Failed { error: e.context("Error writing initial image") },
                ProvisionAction::Idle,
            ),
        },
        (
            ProvisionState::WritingImage { version, disk_path },
            ProvisionEvent::ImageWritten { result },
        ) => match result {
            Ok(_) => (
                ProvisionState::MountingBoot { version, disk_path },
                ProvisionAction::MountBoot,
            ),
            Err(e) => (
                ProvisionState::Failed { error: e.context("Error writing initial image") },
                ProvisionAction::Idle,
            ),
        },
        (
            ProvisionState::MountingBoot { version, disk_path },
            ProvisionEvent::MountDone { result },
        ) => match result {
            Ok(_) => (
                ProvisionState::WriteConfig { disk_path },
                ProvisionAction::WriteBootConfig {
                    config: BootConfig::Single { new: version.internal },
                },
            ),
            Err(e) => (
                ProvisionState::Failed { error: e.context("Error installing grub") },
                ProvisionAction::Idle,
            ),
        },
        (
            ProvisionState::WriteConfig { disk_path },
            ProvisionEvent::ConfigWritten { result },
        ) => match result {
            Ok(_) => (
                ProvisionState::InstallingBootloader,
                ProvisionAction::InstallBootloader { disk_path },
            ),
            Err(err) => (
                ProvisionState::ReleaseMount { verdict: Err(err) },
                ProvisionAction::Unmount,
            ),
        },
        (
            ProvisionState::InstallingBootloader,
            ProvisionEvent::BootloaderInstalled { result },
        ) => match result {
            Ok(_) => (
                ProvisionState::ReleaseMount { verdict: Ok(()) },
                ProvisionAction::Unmount,
            ),
            Err(err) => (
                ProvisionState::ReleaseMount { verdict: Err(err) },
                ProvisionAction::Unmount,
            ),
        },
        (
            ProvisionState::ReleaseMount { verdict },
            ProvisionEvent::UnmountDone { result: _ },
        ) => match verdict {
            Ok(_) => (ProvisionState::PoweringOff, ProvisionAction::Poweroff),
            Err(e) => (ProvisionState::Failed { error: e }, ProvisionAction::Idle),
        },
        (ProvisionState::PoweringOff, ProvisionEvent::PoweroffIssued { result }) => match result {
            Ok(_) => (ProvisionState::Done, ProvisionAction::Idle),
            Err(e) => (
                ProvisionState::Failed { error: e.context("Powering off") },
                ProvisionAction::Idle,
            ),
        },
        (ProvisionState::Done, _) => (ProvisionState::Done, ProvisionAction::Idle),
        (ProvisionState::Failed { error }, _) => (
            ProvisionState::Failed { error },
            ProvisionAction::Idle,
        ),
        _ => (
            ProvisionState::Failed { error: Error::msg("Unexpected event for the current state") },
            ProvisionAction::Idle,
        ),
    }
}

/// The state in force before step `i` of a provisioning run.
pub open spec fn p_state_before(
    s0: ProvisionState,
    states: Seq<ProvisionState>,
    i: int,
) -> ProvisionState {
    if i == 0 {
        s0
    } else {
        states[i - 1]
    }
}

/// A whole provisioning run: starting from `s0`, event `events[i]` moved
/// the machine to `states[i]` while it issued `actions[i]`.
pub open spec fn p_run_rel(
    s0: ProvisionState,
    events: Seq<ProvisionEvent>,
    states: Seq<ProvisionState>,
    actions: Seq<ProvisionAction>,
) -> bool {
    &&& states.len() == events.len()
    &&& actions.len() == events.len()
    &&& forall|i: int|
        0 <= i < events.len() ==> p_step_rel(
            p_state_before(s0, states, i),
            #[trigger] events[i],
            states[i],
            actions[i],
        )
}

/// The error of an operation that failed while the boot filesystem was
/// mounted, if the event reports one for the given state.
pub open spec fn p_mounted_failure(s: ProvisionState, e: ProvisionEvent) -> Option<Error> {
    match (s, e) {
        (
            ProvisionState::WriteConfig { .. },
            ProvisionEvent::ConfigWritten { result: Err(err) },
        ) => Some(err),
        (
            ProvisionState::InstallingBootloader,
            ProvisionEvent::BootloaderInstalled { result: Err(err) },
        ) => Some(err),
        _ => None,
    }
}

/// Law (mount released on error, provisioning): if an operation performed
/// while the boot filesystem is mounted fails, the very next action
/// releases the mount, and once the unmount attempt finishes — whatever
/// its own outcome — the run fails with exactly the original error.
pub proof fn lemma_provision_mount_released_on_error(
    s0: ProvisionState,
    err: Error,
    events: Seq<ProvisionEvent>,
    states: Seq<ProvisionState>,
    actions: Seq<ProvisionAction>,
)
    requires
        p_run_rel(s0, events, states, actions),
        events.len() >= 2,
        p_mounted_failure(s0, events[0]) == Some(err),
        events[1] matches ProvisionEvent::UnmountDone { .. },
    ensures
        actions[0] == ProvisionAction::Unmount,
        states[0] == (ProvisionState::ReleaseMount { verdict: Err(err) }),
        states[1] == (ProvisionState::Failed { error: err }),
{
    assert(p_step_rel(s0, events[0], states[0], actions[0]));
    assert(p_step_rel(states[0], events[1], states[1], actions[1]));
}

} // verus!
