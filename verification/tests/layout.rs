use organixm::layout::{partition_plan, PartEnd, PartLabel, PartSpec};

fn part(p: &PartSpec) -> (PartLabel, u64, PartEnd) {
    (p.label, p.start_mib, p.end)
}

#[test]
fn plan_for_two_gib_slots() {
    // An 8 GiB disk with 2 GiB slots: 1 MiB gap, 1 MiB BIOS-boot part,
    // 127 MiB boot, two 2048 MiB slots, and rw to the end of the disk.
    let plan = partition_plan(2);
    assert_eq!(plan.len(), 5);
    assert_eq!(part(&plan[0]), (PartLabel::BiosGrub, 1, PartEnd::At(2)));
    assert_eq!(part(&plan[1]), (PartLabel::Boot, 2, PartEnd::At(129)));
    assert_eq!(part(&plan[2]), (PartLabel::RootA, 129, PartEnd::At(2177)));
    assert_eq!(part(&plan[3]), (PartLabel::RootB, 2177, PartEnd::At(4225)));
    assert_eq!(part(&plan[4]), (PartLabel::Rw, 4225, PartEnd::DiskEnd));
    assert!(plan[0].bios_grub);
    assert!(!plan[0].ext4);
    for p in &plan[1..] {
        assert!(p.ext4);
        assert!(!p.bios_grub);
    }
    for p in &plan {
        assert!(p.align_check);
    }
}

#[test]
fn plan_is_contiguous_for_one_gib() {
    let plan = partition_plan(1);
    for w in plan.windows(2) {
        match w[0].end {
            PartEnd::At(e) => assert_eq!(e, w[1].start_mib),
            PartEnd::DiskEnd => panic!("only the last partition may run to the disk end"),
        }
    }
    assert_eq!(plan[4].end, PartEnd::DiskEnd);
    assert_eq!(plan[0].start_mib, 1);
}

#[test]
fn label_texts() {
    assert_eq!(PartLabel::Boot.text(), "boot");
    assert_eq!(PartLabel::RootA.text(), "organixm-a");
    assert_eq!(PartLabel::RootB.text(), "organixm-b");
    assert_eq!(PartLabel::Rw.text(), "rw");
}
