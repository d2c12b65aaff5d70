use vstd::prelude::*;

use crate::devices::{
    disk_root_count, find_root_parts, has_root_label, identify_slots, qualifying_disk,
    sound_topology, LsblkDevice,
};
use crate::digest::{decode_verified_image, digest_matches, sha256_hex_of, spec_verified_image};
use crate::errors::Error;
use crate::meta::{meta_object_path, BootConfig, ExternalMeta, InternalMeta};
use crate::retry::{should_give_up, spec_give_up, RetryPolicy};

verus! {

/// The polling policy while waiting for a network gateway: a ten-minute
/// budget with ten seconds between probes.
pub open spec fn spec_net_policy() -> RetryPolicy {
    RetryPolicy { total_ms: 600000, period_ms: 10000 }
}

pub fn net_policy() -> (r: RetryPolicy)
    ensures
        r == spec_net_policy(),
{
    RetryPolicy { total_ms: 600000, period_ms: 10000 }
}

/// The grace period between installing the bootloader and rebooting, so
/// pending log output can be flushed.
pub open spec fn spec_reboot_grace_ms() -> u64 {
    15000
}

/// An attempt counter that can no longer overflow: it sticks at its
/// maximum, far beyond any count a bounded poll can reach.
pub open spec fn spec_bump(a: u64) -> u64 {
    if a == u64::MAX {
        a
    } else {
        (a + 1) as u64
    }
}

fn bump(a: u64) -> (r: u64)
    ensures
        r == spec_bump(a),
{
    if a == u64::MAX {
        a
    } else {
        a + 1
    }
}

/// How one update run ended without an error: the machine is rebooting
/// into the new slot, the manifest named the version already running, or
/// the alternate slot already held the target image.
#[derive(Clone, Copy, Debug, PartialEq, Eq, Structural)]
pub enum UpdateOutcome {
    Updated,
    AlreadyCurrent,
    FallbackPresent,
}

/// Where an update run stands. The run moves linearly through these
/// states; `WriteConfig` and `InstallingBootloader` are the only states in
/// which the boot filesystem is mounted.
pub enum UpdateState {
    WaitNetwork { current: InternalMeta, attempts: u64 },
    FetchManifest { current: InternalMeta },
    ListDevices { current: InternalMeta, new: ExternalMeta },
    CheckAlternate { current: InternalMeta, new: ExternalMeta, disk_path: String, alt_path: String },
    Download { current: InternalMeta, new: ExternalMeta, disk_path: String, alt_path: String },
    WriteImage { current: InternalMeta, new: ExternalMeta, disk_path: String },
    MountingBoot { current: InternalMeta, new: ExternalMeta, disk_path: String },
    WriteConfig { disk_path: String },
    InstallingBootloader,
    ReleaseMount { verdict: Result<(), Error> },
    SleepBeforeReboot,
    Rebooting,
    Done { outcome: UpdateOutcome },
    Failed { error: Error },
}

/// What the machine asks its driver to do next. The driver performs the
/// one operation and reports the outcome as the next event.
pub enum UpdateAction {
    ProbeNetwork,
    Sleep { ms: u64 },
    FetchManifest { meta: InternalMeta, object: String },
    ListDevices,
    ReadAlternate { path: String, len: u64 },
    FetchImage { meta: InternalMeta, object: String },
    WriteDevice { path: String, bytes: Vec<u8> },
    MountBoot,
    WriteBootConfig { config: BootConfig },
    InstallBootloader { disk_path: String },
    Unmount,
    Reboot,
    Idle,
}

/// What the driver reports back: the outcome of the action it was asked to
/// perform.
pub enum UpdateEvent {
    NetworkProbe { gateway: Result<bool, Error>, elapsed_ms: u64 },
    Slept,
    ManifestFetched { result: Result<ExternalMeta, Error> },
    DevicesListed { result: Result<Vec<LsblkDevice>, Error> },
    AlternateRead { result: Result<Vec<u8>, Error> },
    ImageFetched { result: Result<Vec<u8>, Error> },
    ImageWritten { result: Result<(), Error> },
    MountDone { result: Result<(), Error> },
    ConfigWritten { result: Result<(), Error> },
    BootloaderInstalled { result: Result<(), Error> },
    UnmountDone { result: Result<(), Error> },
    RebootIssued { result: Result<(), Error> },
}

/// The step aborted the run: the machine is in some failed state and asks
/// for nothing further.
pub open spec fn failure_step(s2: UpdateState, a: UpdateAction) -> bool {
    (s2 matches UpdateState::Failed { .. }) && a == UpdateAction::Idle
}

/// What follows a failed network probe whose error has the chain `last`:
/// once the budget is spent and a second attempt has been made, the run
/// fails with that same error, wrapped in one added layer of context (its
/// wording open); otherwise the machine sleeps one period and will probe
/// again.
pub open spec fn net_wait_failure(
    current: InternalMeta,
    attempts: u64,
    elapsed_ms: u64,
    last: Seq<Seq<char>>,
    s2: UpdateState,
    a: UpdateAction,
) -> bool {
    if spec_give_up(spec_net_policy(), elapsed_ms as int, spec_bump(attempts) as int) {
        &&& (s2 matches UpdateState::Failed { error } && (exists|m: Seq<char>|
            error@ == last.push(m)))
        &&& a == UpdateAction::Idle
    } else {
        &&& s2 == (UpdateState::WaitNetwork { current, attempts: spec_bump(attempts) })
        &&& a == (UpdateAction::Sleep { ms: spec_net_policy().period_ms })
    }
}

/// The outcome of sorting a qualifying disk's two root-slot partitions
/// `pa` and `pb` into roles: with exactly one of them mounted the run goes
/// on to check the unmounted one, otherwise the boot state is ambiguous
/// and the run fails.
pub open spec fn slots_outcome(
    current: InternalMeta,
    new: ExternalMeta,
    disk: LsblkDevice,
    pa: LsblkDevice,
    pb: LsblkDevice,
    s2: UpdateState,
    a: UpdateAction,
) -> bool {
    if (pa.mountpoint is Some) != (pb.mountpoint is Some) {
        let alt = if pa.mountpoint is Some {
            pb
        } else {
            pa
        };
        &&& s2 == (UpdateState::CheckAlternate {
            current,
            new,
            disk_path: disk.path,
            alt_path: alt.path,
        })
        &&& (a matches UpdateAction::ReadAlternate { path, len } && path == alt.path && len
            == new.size)
    } else {
        failure_step(s2, a)
    }
}

/// What a device enumeration leads to: on a sound topology — exactly one
/// disk carries exactly the two root-slot partitions and no root-slot
/// label occurs anywhere else — that disk's two partitions are sorted into
/// roles as `slots_outcome` says; any other topology fails the run.
pub open spec fn list_devices_rel(
    current: InternalMeta,
    new: ExternalMeta,
    devs: Seq<LsblkDevice>,
    s2: UpdateState,
    a: UpdateAction,
) -> bool {
    if sound_topology(devs) {
        exists|i: int, ia: int, ib: int|
            {
                &&& 0 <= i < devs.len()
                &&& qualifying_disk(devs[i])
                &&& forall|j: int| 0 <= j < devs.len() && j != i ==> disk_root_count(devs[j]) == 0
                &&& 0 <= ia < ib < devs[i].children@.len()
                &&& has_root_label(devs[i].children@[ia])
                &&& has_root_label(devs[i].children@[ib])
                &&& slots_outcome(
                    current,
                    new,
                    devs[i],
                    devs[i].children@[ia],
                    devs[i].children@[ib],
                    s2,
                    a,
                )
            }
    } else {
        failure_step(s2, a)
    }
}

/// The update orchestrator's transition relation: every `update_step` call
/// satisfies it. It pins the decision logic exactly — which state follows
/// which event, and which action is issued — and leaves open only the
/// wording of error messages.
pub open spec fn step_rel(s: UpdateState, e: UpdateEvent, s2: UpdateState, a: UpdateAction) -> bool {
    match s {
        UpdateState::WaitNetwork { current, attempts } => match e {
            UpdateEvent::NetworkProbe { gateway, elapsed_ms } => match gateway {
                Ok(b) => if b {
                    (s2 == (UpdateState::FetchManifest { current })) && (
                    a matches UpdateAction::FetchManifest { meta, object } && meta == current
                        && object@ == current.object_path@ + ".meta"@)
                } else {
                    net_wait_failure(
                        current,
                        attempts,
                        elapsed_ms,
                        seq!["No default route found yet"@],
                        s2,
                        a,
                    )
                },
                Err(err) => net_wait_failure(current, attempts, elapsed_ms, err@, s2, a),
            },
            UpdateEvent::Slept => (s2 == (UpdateState::WaitNetwork { current, attempts })) && a
                == UpdateAction::ProbeNetwork,
            _ => failure_step(s2, a),
        },
        UpdateState::FetchManifest { current } => match e {
            UpdateEvent::ManifestFetched { result } => match result {
                Ok(new) => if new.internal.uuid@ == current.uuid@ {
                    (s2 == (UpdateState::Done { outcome: UpdateOutcome::AlreadyCurrent })) && a
                        == UpdateAction::Idle
                } else {
                    (s2 == (UpdateState::ListDevices { current, new })) && a
                        == UpdateAction::ListDevices
                },
                Err(_) => failure_step(s2, a),
            },
            _ => failure_step(s2, a),
        },
        UpdateState::ListDevices { current, new } => match e {
            UpdateEvent::DevicesListed { result } => match result {
                Ok(devs) => list_devices_rel(current, new, devs@, s2, a),
                Err(_) => failure_step(s2, a),
            },
            _ => failure_step(s2, a),
        },
        UpdateState::CheckAlternate { current, new, disk_path, alt_path } => match e {
            UpdateEvent::AlternateRead { result } => match result {
                Ok(bytes) => if sha256_hex_of(bytes@) == new.sha256@ {
                    (s2 == (UpdateState::Done { outcome: UpdateOutcome::FallbackPresent })) && a
                        == UpdateAction::Idle
                } else {
                    (s2 == (UpdateState::Download { current, new, disk_path, alt_path })) && (
                    a matches UpdateAction::FetchImage { meta, object } && meta == current && object
                        == new.internal.object_path)
                },
                Err(_) => failure_step(s2, a),
            },
            _ => failure_step(s2, a),
        },
        UpdateState::Download { current, new, disk_path, alt_path } => match e {
            UpdateEvent::ImageFetched { result } => match result {
                Ok(bytes) => match spec_verified_image(bytes@, new.sha256@) {
                    Some(raw) => (s2 == (UpdateState::WriteImage { current, new, disk_path })) && (
                    a matches UpdateAction::WriteDevice { path, bytes: w } && path == alt_path && w@
                        == raw),
                    None => failure_step(s2, a),
                },
                Err(_) => failure_step(s2, a),
            },
            _ => failure_step(s2, a),
        },
        UpdateState::WriteImage { current, new, disk_path } => match e {
            UpdateEvent::ImageWritten { result } => match result {
                Ok(_) => (s2 == (UpdateState::MountingBoot { current, new, disk_path })) && a
                    == UpdateAction::MountBoot,
                Err(_) => failure_step(s2, a),
            },
            _ => failure_step(s2, a),
        },
        UpdateState::MountingBoot { current, new, disk_path } => match e {
            UpdateEvent::MountDone { result } => match result {
                Ok(_) => (s2 == (UpdateState::WriteConfig { disk_path })) && a
                    == (UpdateAction::WriteBootConfig {
                    config: BootConfig::Dual { new: new.internal, current },
                }),
                Err(_) => failure_step(s2, a),
            },
            _ => failure_step(s2, a),
        },
        UpdateState::WriteConfig { disk_path } => match e {
            UpdateEvent::ConfigWritten { result } => match result {
                Ok(_) => (s2 == UpdateState::InstallingBootloader) && a
                    == (UpdateAction::InstallBootloader { disk_path }),
                Err(err) => (s2 == (UpdateState::ReleaseMount { verdict: Err(err) })) && a
                    == UpdateAction::Unmount,
            },
            _ => failure_step(s2, a),
        },
        UpdateState::InstallingBootloader => match e {
            UpdateEvent::BootloaderInstalled { result } => match result {
                Ok(_) => (s2 == (UpdateState::ReleaseMount { verdict: Ok(()) })) && a
                    == UpdateAction::Unmount,
                Err(err) => (s2 == (UpdateState::ReleaseMount { verdict: Err(err) })) && a
                    == UpdateAction::Unmount,
            },
            _ => failure_step(s2, a),
        },
        UpdateState::ReleaseMount { verdict } => match e {
            UpdateEvent::UnmountDone { .. } => match verdict {
                Ok(_) => (s2 == UpdateState::SleepBeforeReboot) && a == (UpdateAction::Sleep {
                    ms: spec_reboot_grace_ms(),
                }),
                Err(err) => (s2 == (UpdateState::Failed { error: err })) && a == UpdateAction::Idle,
            },
            _ => failure_step(s2, a),
        },
        UpdateState::SleepBeforeReboot => match e {
            UpdateEvent::Slept => (s2 == UpdateState::Rebooting) && a == UpdateAction::Reboot,
            _ => failure_step(s2, a),
        },
        UpdateState::Rebooting => match e {
            UpdateEvent::RebootIssued { result } => match result {
                Ok(_) => (s2 == (UpdateState::Done { outcome: UpdateOutcome::Updated })) && a
                    == UpdateAction::Idle,
                Err(_) => failure_step(s2, a),
            },
            _ => failure_step(s2, a),
        },
        UpdateState::Done { outcome } => (s2 == (UpdateState::Done { outcome })) && a
            == UpdateAction::Idle,
        UpdateState::Failed { error } => (s2 == (UpdateState::Failed { error })) && a
            == UpdateAction::Idle,
    }
}

/// Begins an update run for the version this machine believes it is
/// running: the machine first waits for a network gateway.
pub fn start_update(current: InternalMeta) -> (r: (UpdateState, UpdateAction))
    ensures
        r.0 == (UpdateState::WaitNetwork { current, attempts: 0 }),
        r.1 == UpdateAction::ProbeNetwork,
{
    (UpdateState::WaitNetwork { current, attempts: 0 }, UpdateAction::ProbeNetwork)
}

/// Handles a failed network probe: either gives up — wrapping the probe's
/// own error in a context that reports the elapsed time and the attempt
/// count — or sleeps one period before the next probe.
fn step_net_failure(current: InternalMeta, attempts: u64, elapsed_ms: u64, last: Error) -> (r: (
    UpdateState,
    UpdateAction,
))
    ensures
        net_wait_failure(current, attempts, elapsed_ms, last@, r.0, r.1),
{
    let p = net_policy();
    let na = bump(attempts);
    if should_give_up(&p, elapsed_ms, na) {
        let mut m: String = "Giving up after ".to_owned();
        m.append(elapsed_ms.to_string().as_str());
        m.append(" ms (");
        m.append(na.to_string().as_str());
        m.append(" attempts)");
        let ghost ctx = m@;
        let err = last.context(m.as_str());
        proof {
            assert(err@ == last@.push(ctx));
        }
        (UpdateState::Failed { error: err }, UpdateAction::Idle)
    } else {
        (UpdateState::WaitNetwork { current, attempts: na }, UpdateAction::Sleep { ms: p.period_ms })
    }
}

/// Sorts a fresh device enumeration into the disk that carries the image
/// slots and the running and alternate partitions, and moves the run on to
/// checking the alternate slot's present contents.
fn step_list_devices(current: InternalMeta, new: ExternalMeta, devs: Vec<LsblkDevice>) -> (r: (
    UpdateState,
    UpdateAction,
))
    ensures
        list_devices_rel(current, new, devs@, r.0, r.1),
{
    let ghost gcur = current;
    let ghost gnew = new;
    match find_root_parts(&devs) {
        Ok(rp) => {
            let ghost i = choose|i: int|
                0 <= i < devs@.len() && *rp.disk == devs@[i] && qualifying_disk(devs@[i]) && (
                forall|j: int| 0 <= j < devs@.len() && j != i ==> disk_root_count(devs@[j]) == 0);
            let ghost (ia, ib) = choose|ia: int, ib: int|
                0 <= ia < ib < rp.disk.children@.len() && *rp.part_a == rp.disk.children@[ia]
                    && *rp.part_b == rp.disk.children@[ib] && has_root_label(
                    rp.disk.children@[ia],
                ) && has_root_label(rp.disk.children@[ib]);
            let res = match identify_slots(rp.part_a, rp.part_b) {
                Ok(slots) => {
                    let disk_path = rp.disk.path.clone();
                    let alt_path = slots.alternate.path.clone();
                    let path = slots.alternate.path.clone();
                    let len = new.size;
                    (
                        UpdateState::CheckAlternate { current, new, disk_path, alt_path },
                        UpdateAction::ReadAlternate { path, len },
                    )
                },
                Err(e) => (UpdateState::Failed { error: e }, UpdateAction::Idle),
            };
            proof {
                assert(sound_topology(devs@));
                assert(slots_outcome(
                    gcur,
                    gnew,
                    devs@[i],
                    devs@[i].children@[ia],
                    devs@[i].children@[ib],
                    res.0,
                    res.1,
                ));
                assert(exists|i: int, ia: int, ib: int|
                    {
                        &&& 0 <= i < devs@.len()
                        &&& qualifying_disk(devs@[i])
                        &&& forall|j: int|
                            0 <= j < devs@.len() && j != i ==> disk_root_count(devs@[j]) == 0
                        &&& 0 <= ia < ib < devs@[i].children@.len()
                        &&& has_root_label(devs@[i].children@[ia])
                        &&& has_root_label(devs@[i].children@[ib])
                        &&& slots_outcome(
                            gcur,
                            gnew,
                            devs@[i],
                            devs@[i].children@[ia],
                            devs@[i].children@[ib],
                            res.0,
                            res.1,
                        )
                    });
            }
            res
        },
        Err(e) => (UpdateState::Failed { error: e }, UpdateAction::Idle),
    }
}

/// Advances the update run by one event and decides the next action. All
/// decision logic of an update — the uuid no-op, the fallback-digest
/// no-op, digest verification before any bootloader change, and the
/// release of the boot mount on every path — lives here.
pub fn update_step(state: UpdateState, event: UpdateEvent) -> (r: (UpdateState, UpdateAction))
    ensures
        step_rel(state, event, r.0, r.1),
{
    match (state, event) {
        (
            UpdateState::WaitNetwork { current, attempts },
            UpdateEvent::NetworkProbe { gateway, elapsed_ms },
        ) => match gateway {
            Ok(true) => {
                let object = meta_object_path(&current.object_path);
                let meta = current.clone();
                (UpdateState::FetchManifest { current }, UpdateAction::FetchManifest {
                    meta,
                    object,
                })
            },
            Ok(_) => step_net_failure(
                current,
                attempts,
                elapsed_ms,
                Error::msg("No default route found yet"),
            ),
            Err(err) => step_net_failure(current, attempts, elapsed_ms, err),
        },
        (UpdateState::WaitNetwork { current, attempts }, UpdateEvent::Slept) => (
            UpdateState::WaitNetwork { current, attempts },
            UpdateAction::ProbeNetwork,
        ),
        (UpdateState::FetchManifest { current }, UpdateEvent::ManifestFetched { result }) => match result {
            Ok(new) => {
                if new.internal.uuid.eq(&current.uuid) {
                    (
                        UpdateState::Done { outcome: UpdateOutcome::AlreadyCurrent },
                        UpdateAction::Idle,
                    )
                } else {
                    (UpdateState::ListDevices { current, new }, UpdateAction::ListDevices)
                }
            },
            Err(e) => (
                UpdateState::Failed { error: e.context("Fetching new version meta") },
                UpdateAction::Idle,
            ),
        },
        (UpdateState::ListDevices { current, new }, UpdateEvent::DevicesListed { result }) => match result {
            Ok(devs) => step_list_devices(current, new, devs),
            Err(e) => (
                UpdateState::Failed { error: e.context("Enumerating block devices") },
                UpdateAction::Idle,
            ),
        },
        (
            UpdateState::CheckAlternate { current, new, disk_path, alt_path },
            UpdateEvent::AlternateRead { result },
        ) => match result {
            Ok(bytes) => {
                if digest_matches(&bytes, &new.sha256) {
                    (
                        UpdateState::Done { outcome: UpdateOutcome::FallbackPresent },
                        UpdateAction::Idle,
                    )
                } else {
                    let object = new.internal.object_path.clone();
                    let meta = current.clone();
                    (
                        UpdateState::Download { current, new, disk_path, alt_path },
                        UpdateAction::FetchImage { meta, object },
                    )
                }
            },
            Err(e) => (
                UpdateState::Failed { error: e.context("Computing digest of alternate partition") },
                UpdateAction::Idle,
            ),
        },
        (
            UpdateState::Download { current, new, disk_path, alt_path },
            UpdateEvent::ImageFetched { result },
        ) => match result {
            Ok(bytes) => match decode_verified_image(&bytes, &new.sha256) {
                Ok(raw) => (
                    UpdateState::WriteImage { current, new, disk_path },
                    UpdateAction::WriteDevice { path: alt_path, bytes: raw },
                ),
                Err(e) => (UpdateState::Failed { error: e }, UpdateAction::Idle),
            },
            Err(e) => (
                UpdateState::Failed { error: e.context("Downloading new image") },
                UpdateAction::Idle,
            ),
        },
        (
            UpdateState::WriteImage { current, new, disk_path },
            UpdateEvent::ImageWritten { result },
        ) => match result {
            Ok(_) => (
                UpdateState::MountingBoot { current, new, disk_path },
                UpdateAction::MountBoot,
            ),
            Err(e) => (
                UpdateState::Failed { error: e.context("Writing new image to alternate partition") },
                UpdateAction::Idle,
            ),
        },
        (
            UpdateState::MountingBoot { current, new, disk_path },
            UpdateEvent::MountDone { result },
        ) => match result {
            Ok(_) => (
                UpdateState::WriteConfig { disk_path },
                UpdateAction::WriteBootConfig {
                    config: BootConfig::Dual { new: new.internal, current },
                },
            ),
            Err(e) => (
                UpdateState::Failed { error: e.context("Updating grub") },
                UpdateAction::Idle,
            ),
        },
        (UpdateState::WriteConfig { disk_path }, UpdateEvent::ConfigWritten { result }) => match result {
            Ok(_) => (
                UpdateState::InstallingBootloader,
                UpdateAction::InstallBootloader { disk_path },
            ),
            Err(err) => (
                UpdateState::ReleaseMount { verdict: Err(err) },
                UpdateAction::Unmount,
            ),
        },
        (UpdateState::InstallingBootloader, UpdateEvent::BootloaderInstalled { result }) => match result {
            Ok(_) => (UpdateState::ReleaseMount { verdict: Ok(()) }, UpdateAction::Unmount),
            Err(err) => (UpdateState::ReleaseMount { verdict: Err(err) }, UpdateAction::Unmount),
        },
        (UpdateState::ReleaseMount { verdict }, UpdateEvent::UnmountDone { result: _ }) => match verdict {
            Ok(_) => (UpdateState::SleepBeforeReboot, UpdateAction::Sleep {
                ms: 15000,
            }),
            Err(e) => (UpdateState::Failed { error: e }, UpdateAction::Idle),
        },
        (UpdateState::SleepBeforeReboot, UpdateEvent::Slept) => (
            UpdateState::Rebooting,
            UpdateAction::Reboot,
        ),
        (UpdateState::Rebooting, UpdateEvent::RebootIssued { result }) => match result {
            Ok(_) => (UpdateState::Done { outcome: UpdateOutcome::Updated }, UpdateAction::Idle),
            Err(e) => (
                UpdateState::Failed { error: e.context("Rebooting into new version") },
                UpdateAction::Idle,
            ),
        },
        (UpdateState::Done { outcome }, _) => (UpdateState::Done { outcome }, UpdateAction::Idle),
        (UpdateState::Failed { error }, _) => (
            UpdateState::Failed { error },
            UpdateAction::Idle,
        ),
        _ => (
            UpdateState::Failed { error: Error::msg("Unexpected event for the current state") },
            UpdateAction::Idle,
        ),
    }
}

/// The state in force before step `i` of a run that started at `s0`.
pub open spec fn state_before(s0: UpdateState, states: Seq<UpdateState>, i: int) -> UpdateState {
    if i == 0 {
        s0
    } else {
        states[i - 1]
    }
}

/// A whole run of the orchestrator: starting from `s0`, event `events[i]`
/// moved the machine to `states[i]` while it issued `actions[i]`.
pub open spec fn run_rel(
    s0: UpdateState,
    events: Seq<UpdateEvent>,
    states: Seq<UpdateState>,
    actions: Seq<UpdateAction>,
) -> bool {
    &&& states.len() == events.len()
    &&& actions.len() == events.len()
    &&& forall|i: int|
        0 <= i < events.len() ==> step_rel(
            state_before(s0, states, i),
            #[trigger] events[i],
            states[i],
            actions[i],
        )
}

/// A state from which the run no longer changes.
pub open spec fn is_terminal(s: UpdateState) -> bool {
    (s matches UpdateState::Done { .. }) || (s matches UpdateState::Failed { .. })
}

/// Law: a finished run stays finished. From a terminal state, every later
/// step keeps the state and issues no action.
pub proof fn lemma_terminal_stays(
    s0: UpdateState,
    events: Seq<UpdateEvent>,
    states: Seq<UpdateState>,
    actions: Seq<UpdateAction>,
    k: int,
)
    requires
        run_rel(s0, events, states, actions),
        0 <= k <= events.len(),
        is_terminal(state_before(s0, states, k)),
    ensures
        forall|i: int|
            k <= i < events.len() ==> states[i] == state_before(s0, states, k) && actions[i]
                == UpdateAction::Idle,
    decreases events.len() - k,
{
    if k < events.len() {
        let sb = state_before(s0, states, k);
        assert(step_rel(sb, events[k], states[k], actions[k]));
        assert(states[k] == sb && actions[k] == UpdateAction::Idle);
        lemma_terminal_stays(s0, events, states, actions, k + 1);
    }
}

/// Law (no-op on matching uuid): when the fetched manifest names the
/// version already running, the run ends as a no-op success: it reaches
/// `Done { AlreadyCurrent }` at once and never issues any further action —
/// in particular no download, no partition write and no bootloader
/// operation.
pub proof fn lemma_noop_on_uuid_match(
    current: InternalMeta,
    new: ExternalMeta,
    events: Seq<UpdateEvent>,
    states: Seq<UpdateState>,
    actions: Seq<UpdateAction>,
)
    requires
        run_rel(UpdateState::FetchManifest { current }, events, states, actions),
        events.len() >= 1,
        events[0] == (UpdateEvent::ManifestFetched { result: Ok(new) }),
        new.internal.uuid@ == current.uuid@,
    ensures
        forall|i: int|
            0 <= i < events.len() ==> states[i] == (UpdateState::Done {
                outcome: UpdateOutcome::AlreadyCurrent,
            }),
        forall|i: int| 0 <= i < actions.len() ==> actions[i] == UpdateAction::Idle,
{
    let s0 = UpdateState::FetchManifest { current };
    assert(step_rel(s0, events[0], states[0], actions[0]));
    lemma_terminal_stays(s0, events, states, actions, 1);
}

/// Law (no-op on fallback digest): when the alternate partition's leading
/// bytes already hash to the manifest digest, the run ends as a no-op
/// success: it reaches `Done { FallbackPresent }` at once and never issues
/// any further action — in particular nothing is downloaded or written.
pub proof fn lemma_noop_on_fallback_digest(
    current: InternalMeta,
    new: ExternalMeta,
    disk_path: String,
    alt_path: String,
    bytes: Vec<u8>,
    events: Seq<UpdateEvent>,
    states: Seq<UpdateState>,
    actions: Seq<UpdateAction>,
)
    requires
        run_rel(
            UpdateState::CheckAlternate { current, new, disk_path, alt_path },
            events,
            states,
            actions,
        ),
        events.len() >= 1,
        events[0] == (UpdateEvent::AlternateRead { result: Ok(bytes) }),
        sha256_hex_of(bytes@) == new.sha256@,
    ensures
        forall|i: int|
            0 <= i < events.len() ==> states[i] == (UpdateState::Done {
                outcome: UpdateOutcome::FallbackPresent,
            }),
        forall|i: int| 0 <= i < actions.len() ==> actions[i] == UpdateAction::Idle,
{
    let s0 = UpdateState::CheckAlternate { current, new, disk_path, alt_path };
    assert(step_rel(s0, events[0], states[0], actions[0]));
    lemma_terminal_stays(s0, events, states, actions, 1);
}

/// Law (verify before commit): when the downloaded stream does not decode
/// to bytes whose digest equals the manifest digest, the run fails at once
/// and never issues any further action — so the alternate partition is not
/// written and the bootloader configuration is left untouched.
pub proof fn lemma_failed_verification_stops_run(
    current: InternalMeta,
    new: ExternalMeta,
    disk_path: String,
    alt_path: String,
    bytes: Vec<u8>,
    events: Seq<UpdateEvent>,
    states: Seq<UpdateState>,
    actions: Seq<UpdateAction>,
)
    requires
        run_rel(
            UpdateState::Download { current, new, disk_path, alt_path },
            events,
            states,
            actions,
        ),
        events.len() >= 1,
        events[0] == (UpdateEvent::ImageFetched { result: Ok(bytes) }),
        spec_verified_image(bytes@, new.sha256@) is None,
    ensures
        states[0] matches UpdateState::Failed { .. },
        forall|i: int| 0 <= i < events.len() ==> #[trigger] states[i] == states[0],
        forall|i: int| 0 <= i < actions.len() ==> actions[i] == UpdateAction::Idle,
{
    let s0 = UpdateState::Download { current, new, disk_path, alt_path };
    assert(step_rel(s0, events[0], states[0], actions[0]));
    lemma_terminal_stays(s0, events, states, actions, 1);
}

/// The error of an operation that failed while the boot filesystem was
/// mounted, if the event reports one for the given state.
pub open spec fn mounted_failure(s: UpdateState, e: UpdateEvent) -> Option<Error> {
    match (s, e) {
        (
            UpdateState::WriteConfig { .. },
            UpdateEvent::ConfigWritten { result: Err(err) },
        ) => Some(err),
        (
            UpdateState::InstallingBootloader,
            UpdateEvent::BootloaderInstalled { result: Err(err) },
        ) => Some(err),
        _ => None,
    }
}

/// Law (mount released on error): if an operation performed while the boot
/// filesystem is mounted fails, the very next action releases the mount,
/// and once the unmount attempt finishes — whatever its own outcome — the
/// run fails with exactly the original error.
pub proof fn lemma_mount_released_on_error(
    s0: UpdateState,
    err: Error,
    events: Seq<UpdateEvent>,
    states: Seq<UpdateState>,
    actions: Seq<UpdateAction>,
)
    requires
        run_rel(s0, events, states, actions),
        events.len() >= 2,
        mounted_failure(s0, events[0]) == Some(err),
        events[1] matches UpdateEvent::UnmountDone { .. },
    ensures
        actions[0] == UpdateAction::Unmount,
        states[0] == (UpdateState::ReleaseMount { verdict: Err(err) }),
        states[1] == (UpdateState::Failed { error: err }),
{
    assert(step_rel(s0, events[0], states[0], actions[0]));
    assert(step_rel(states[0], events[1], states[1], actions[1]));
}

} // verus!
