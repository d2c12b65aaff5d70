use vstd::prelude::*;

verus! {

/// The GPT roles this system gives its partitions. The two root labels are
/// the only stable identity of the image slots; `Boot` holds the bootloader
/// configuration and `Rw` the persistent writable state.
#[derive(Clone, Copy, Debug, PartialEq, Eq, Structural)]
pub enum PartLabel {
    BiosGrub,
    Boot,
    RootA,
    RootB,
    Rw,
}

impl PartLabel {
    /// The GPT label text for this role, as it appears on disk and in
    /// device enumerations.
    pub open spec fn spec_text(&self) -> Seq<char> {
        match self {
            PartLabel::BiosGrub => "no-fs"@,
            PartLabel::Boot => "boot"@,
            PartLabel::RootA => "organixm-a"@,
            PartLabel::RootB => "organixm-b"@,
            PartLabel::Rw => "rw"@,
        }
    }

    pub fn text(&self) -> (r: &'static str)
        ensures
            r@ == self.spec_text(),
    {
        match self {
            PartLabel::BiosGrub => "no-fs",
            PartLabel::Boot => "boot",
            PartLabel::RootA => "organixm-a",
            PartLabel::RootB => "organixm-b",
            PartLabel::Rw => "rw",
        }
    }
}

/// Where a partition ends: at a fixed MiB offset, or at the disk's last
/// addressable byte.
#[derive(Clone, Copy, Debug, PartialEq, Eq, Structural)]
pub enum PartEnd {
    At(u64),
    DiskEnd,
}

/// One planned partition: half-open MiB interval `[start_mib, end)`, its
/// label, whether it is formatted ext4, whether the BIOS-boot flag is set,
/// and whether its alignment must be checked after creation.
#[derive(Clone, Copy, Debug, PartialEq, Eq, Structural)]
pub struct PartSpec {
    pub label: PartLabel,
    pub start_mib: u64,
    pub end: PartEnd,
    pub ext4: bool,
    pub bios_grub: bool,
    pub align_check: bool,
}

/// The end of a planned partition in MiB, once the disk's size is known.
pub open spec fn end_mib(p: PartSpec, disk_mib: int) -> int {
    match p.end {
        PartEnd::At(e) => e as int,
        PartEnd::DiskEnd => disk_mib,
    }
}

/// The largest slot size (in GiB) the planner accepts; keeps every MiB
/// offset far below the range of a `u64`.
pub open spec fn max_slot_gib() -> int {
    0x10_0000
}

/// The partition scheme for a disk with two image slots of `slot_gib` GiB
/// each: a 1 MiB offset, a 1 MiB BIOS-boot partition, a 127 MiB boot
/// partition, the two root slots in label order, and a final `rw` partition
/// running to the end of the disk.
pub open spec fn spec_plan(slot_gib: u64) -> Seq<PartSpec> {
    let s = slot_gib as int;
    seq![
        PartSpec {
            label: PartLabel::BiosGrub,
            start_mib: 1u64,
            end: PartEnd::At(2u64),
            ext4: false,
            bios_grub: true,
            align_check: true,
        },
        PartSpec {
            label: PartLabel::Boot,
            start_mib: 2u64,
            end: PartEnd::At(129u64),
            ext4: true,
            bios_grub: false,
            align_check: true,
        },
        PartSpec {
            label: PartLabel::RootA,
            start_mib: 129u64,
            end: PartEnd::At((129 + s * 1024) as u64),
            ext4: true,
            bios_grub: false,
            align_check: true,
        },
        PartSpec {
            label: PartLabel::RootB,
            start_mib: (129 + s * 1024) as u64,
            end: PartEnd::At((129 + 2 * s * 1024) as u64),
            ext4: true,
            bios_grub: false,
            align_check: true,
        },
        PartSpec {
            label: PartLabel::Rw,
            start_mib: (129 + 2 * s * 1024) as u64,
            end: PartEnd::DiskEnd,
            ext4: true,
            bios_grub: false,
            align_check: true,
        },
    ]
}

/// Computes the partition scheme for the given slot size. The result is a
/// pure function of `slot_gib`.
pub fn partition_plan(slot_gib: u64) -> (r: Vec<PartSpec>)
    requires
        slot_gib <= max_slot_gib(),
    ensures
        r@ == spec_plan(slot_gib),
{
    let slot_mib: u64 = slot_gib * 1024;
    let mut r: Vec<PartSpec> = Vec::new();
    r.push(PartSpec {
        label: PartLabel::BiosGrub,
        start_mib: 1,
        end: PartEnd::At(2),
        ext4: false,
        bios_grub: true,
        align_check: true,
    });
    r.push(PartSpec {
        label: PartLabel::Boot,
        start_mib: 2,
        end: PartEnd::At(129),
        ext4: true,
        bios_grub: false,
        align_check: true,
    });
    r.push(PartSpec {
        label: PartLabel::RootA,
        start_mib: 129,
        end: PartEnd::At(129 + slot_mib),
        ext4: true,
        bios_grub: false,
        align_check: true,
    });
    r.push(PartSpec {
        label: PartLabel::RootB,
        start_mib: 129 + slot_mib,
        end: PartEnd::At(129 + 2 * slot_mib),
        ext4: true,
        bios_grub: false,
        align_check: true,
    });
    r.push(PartSpec {
        label: PartLabel::Rw,
        start_mib: 129 + 2 * slot_mib,
        end: PartEnd::DiskEnd,
        ext4: true,
        bios_grub: false,
        align_check: true,
    });
    proof {
        assert(r@ =~= spec_plan(slot_gib));
    }
    r
}

/// Law: the planned partitions are laid out in order without overlap, each
/// is non-empty, the first leaves the 1 MiB offset at the start of the
/// disk, and the `rw` partition ends exactly at the disk's last MiB.
pub proof fn lemma_plan_disjoint(slot_gib: u64, disk_mib: int)
    requires
        1 <= slot_gib <= max_slot_gib(),
        disk_mib > 129 + 2 * (slot_gib as int) * 1024,
    ensures
        forall|i: int, j: int|
            0 <= i < j < spec_plan(slot_gib).len() ==> end_mib(spec_plan(slot_gib)[i], disk_mib)
                <= spec_plan(slot_gib)[j].start_mib,
        forall|i: int|
            0 <= i < spec_plan(slot_gib).len() ==> spec_plan(slot_gib)[i].start_mib < end_mib(
                spec_plan(slot_gib)[i],
                disk_mib,
            ),
        spec_plan(slot_gib).last().end is DiskEnd,
        end_mib(spec_plan(slot_gib).last(), disk_mib) == disk_mib,
        spec_plan(slot_gib)[0].start_mib == 1,
{
}

} // verus!
