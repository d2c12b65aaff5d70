use vstd::prelude::*;

use crate::errors::Error;

verus! {

/// One route-table entry: `dst` is `"default"` for the default route, or a
/// CIDR otherwise.
pub struct IpRoute {
    pub dst: String,
    pub gateway: Option<String>,
    pub dev: String,
}

/// Whether the route table holds a default route, i.e. the machine has a
/// gateway to the wider network.
pub fn has_default_route(routes: &Vec<IpRoute>) -> (r: bool)
    ensures
        r == exists|i: int| 0 <= i < routes@.len() && routes@[i].dst@ == "default"@,
{
    let needle: String = "default".to_owned();
    let n = routes.len();
    let mut i: usize = 0;
    while i < n
        invariant
            n == routes@.len(),
            0 <= i <= n,
            needle@ == "default"@,
            forall|j: int| 0 <= j < i ==> routes@[j].dst@ != "default"@,
        decreases n - i,
    {
        if routes[i].dst.eq(&needle) {
            return true;
        }
        i = i + 1;
    }
    false
}

/// One entry of a block-device enumeration: its device path, byte size,
/// device type (`"disk"` for a whole disk), current mountpoint if any, GPT
/// partition label if any, and child devices (a disk's partitions).
#[derive(Debug)]
pub struct LsblkDevice {
    pub path: String,
    pub size: i64,
    pub type_field: String,
    pub mountpoint: Option<String>,
    pub partlabel: Option<String>,
    pub children: Vec<LsblkDevice>,
}

/// The top-level shape of a block-device enumeration.
pub struct LsblkRoot {
    pub blockdevices: Vec<LsblkDevice>,
}

/// The two GPT labels that identify the image slots.
pub open spec fn is_root_label(l: Seq<char>) -> bool {
    l == "organixm-a"@ || l == "organixm-b"@
}

/// Whether a device carries one of the root-slot labels.
pub open spec fn has_root_label(d: LsblkDevice) -> bool {
    match d.partlabel {
        Some(l) => is_root_label(l@),
        None => false,
    }
}

/// How many of the devices carry a root-slot label.
pub open spec fn root_count(s: Seq<LsblkDevice>) -> int
    decreases s.len(),
{
    if s.len() == 0 {
        0
    } else {
        root_count(s.drop_last()) + if has_root_label(s.last()) {
            1int
        } else {
            0int
        }
    }
}

/// A whole disk that carries exactly the two root-slot partitions.
pub open spec fn qualifying_disk(d: LsblkDevice) -> bool {
    d.type_field@ == "disk"@ && root_count(d.children@) == 2
}

proof fn lemma_root_count_take(s: Seq<LsblkDevice>, k: int)
    requires
        0 <= k < s.len(),
    ensures
        root_count(s.take(k + 1)) == root_count(s.take(k)) + if has_root_label(s[k]) {
            1int
        } else {
            0int
        },
{
    assert(s.take(k + 1).drop_last() =~= s.take(k));
    assert(s.take(k + 1).last() == s[k]);
}

/// Finds the root-labeled children of a device: returns how many there
/// are, and the positions of the first and second of them (meaningful only
/// when the count reaches them).
fn scan_root_children(children: &Vec<LsblkDevice>) -> (r: (usize, usize, usize))
    ensures
        r.0 as int == root_count(children@),
        r.0 >= 1 ==> 0 <= r.1 < children@.len() && has_root_label(children@[r.1 as int]) && forall|
            j: int,
        | 0 <= j < r.1 ==> !has_root_label(children@[j]),
        r.0 >= 2 ==> r.1 < r.2 < children@.len() && has_root_label(children@[r.2 as int]) && forall|
            j: int,
        | r.1 < j < r.2 ==> !has_root_label(children@[j]),
{
    let la: String = "organixm-a".to_owned();
    let lb: String = "organixm-b".to_owned();
    let n = children.len();
    let mut count: usize = 0;
    let mut ia: usize = 0;
    let mut ib: usize = 0;
    let mut k: usize = 0;
    while k < n
        invariant
            n == children@.len(),
            0 <= k <= n,
            la@ == "organixm-a"@,
            lb@ == "organixm-b"@,
            count as int == root_count(children@.take(k as int)),
            count <= k,
            count >= 1 ==> 0 <= ia < k && has_root_label(children@[ia as int]) && forall|j: int|
                0 <= j < ia ==> !has_root_label(children@[j]),
            count >= 2 ==> ia < ib < k && has_root_label(children@[ib as int]) && forall|j: int|
                ia < j < ib ==> !has_root_label(children@[j]),
            count == 0 ==> forall|j: int| 0 <= j < k ==> !has_root_label(children@[j]),
            count == 1 ==> forall|j: int| ia < j < k ==> !has_root_label(children@[j]),
        decreases n - k,
    {
        let is_root = match &children[k].partlabel {
            Some(l) => l.eq(&la) || l.eq(&lb),
            None => false,
        };
        proof {
            assert(is_root == has_root_label(children@[k as int]));
            lemma_root_count_take(children@, k as int);
        }
        if is_root {
            if count == 0 {
                ia = k;
            } else if count == 1 {
                ib = k;
            }
            count = count + 1;
        }
        k = k + 1;
    }
    proof {
        assert(children@.take(n as int) =~= children@);
    }
    (count, ia, ib)
}

/// Picks the first whole disk out of a block-device enumeration: the
/// provisioner uses it as the root disk.
pub fn first_disk<'a>(devices: &'a Vec<LsblkDevice>) -> (r: Option<&'a LsblkDevice>)
    ensures
        r matches Some(d) ==> exists|i: int|
            0 <= i < devices@.len() && *d == devices@[i] && devices@[i].type_field@ == "disk"@ && (
            forall|j: int| 0 <= j < i ==> devices@[j].type_field@ != "disk"@),
        r is None ==> forall|i: int| 0 <= i < devices@.len() ==> devices@[i].type_field@ != "disk"@,
{
    let disk_ty: String = "disk".to_owned();
    let n = devices.len();
    let mut i: usize = 0;
    while i < n
        invariant
            n == devices@.len(),
            0 <= i <= n,
            disk_ty@ == "disk"@,
            forall|j: int| 0 <= j < i ==> devices@[j].type_field@ != "disk"@,
        decreases n - i,
    {
        if devices[i].type_field.eq(&disk_ty) {
            return Some(&devices[i]);
        }
        i = i + 1;
    }
    None
}

/// The disk that carries the image slots, with its two root-slot
/// partitions in on-disk child order.
#[derive(Debug)]
pub struct RootParts<'a> {
    pub disk: &'a LsblkDevice,
    pub part_a: &'a LsblkDevice,
    pub part_b: &'a LsblkDevice,
}

/// How many root-slot-labeled partitions a whole disk carries; a device
/// that is not a disk carries none that count.
pub open spec fn disk_root_count(d: LsblkDevice) -> int {
    if d.type_field@ == "disk"@ {
        root_count(d.children@)
    } else {
        0
    }
}

/// The one topology the system accepts: exactly one disk carries exactly
/// the two root-slot partitions, and no root-slot label occurs anywhere
/// else. Any other count — too few, too many, or pairs split across disks
/// — is a fatal misconfiguration.
pub open spec fn sound_topology(s: Seq<LsblkDevice>) -> bool {
    exists|i: int|
        0 <= i < s.len() && qualifying_disk(s[i]) && (forall|j: int|
            0 <= j < s.len() && j != i ==> disk_root_count(s[j]) == 0)
}

/// Scans a block-device enumeration for the one whole disk that carries
/// exactly the two root-labeled partitions, and hands back that disk
/// together with the two partitions in child order. Succeeds exactly on a
/// sound topology; the error reports how many root partitions were found.
pub fn find_root_parts<'a>(devices: &'a Vec<LsblkDevice>) -> (r: Result<RootParts<'a>, Error>)
    ensures
        r matches Ok(rp) ==> exists|i: int|
            0 <= i < devices@.len() && *rp.disk == devices@[i] && qualifying_disk(devices@[i])
                && (forall|j: int|
                0 <= j < devices@.len() && j != i ==> disk_root_count(devices@[j]) == 0),
        r matches Ok(rp) ==> exists|ia: int, ib: int|
            0 <= ia < ib < rp.disk.children@.len() && *rp.part_a == rp.disk.children@[ia]
                && *rp.part_b == rp.disk.children@[ib] && has_root_label(rp.disk.children@[ia])
                && has_root_label(rp.disk.children@[ib]) && (forall|j: int|
                0 <= j < ia ==> !has_root_label(rp.disk.children@[j])) && (forall|j: int|
                ia < j < ib ==> !has_root_label(rp.disk.children@[j])),
        r matches Err(_) ==> !sound_topology(devices@),
{
    let disk_ty: String = "disk".to_owned();
    let n = devices.len();
    let mut qual: Option<(usize, usize, usize)> = None;
    let mut stray: bool = false;
    let mut total: u64 = 0;
    let mut i: usize = 0;
    while i < n
        invariant
            n == devices@.len(),
            0 <= i <= n,
            disk_ty@ == "disk"@,
            match qual {
                Some(t) => {
                    &&& 0 <= t.0 < i
                    &&& qualifying_disk(devices@[t.0 as int])
                    &&& 0 <= t.1 < t.2 < devices@[t.0 as int].children@.len()
                    &&& has_root_label(devices@[t.0 as int].children@[t.1 as int])
                    &&& has_root_label(devices@[t.0 as int].children@[t.2 as int])
                    &&& forall|j: int|
                        0 <= j < t.1 ==> !has_root_label(devices@[t.0 as int].children@[j])
                    &&& forall|j: int|
                        t.1 < j < t.2 ==> !has_root_label(devices@[t.0 as int].children@[j])
                    &&& stray == exists|j: int|
                        0 <= j < i && j != t.0 && disk_root_count(devices@[j]) != 0
                },
                None => {
                    &&& forall|j: int| 0 <= j < i ==> !qualifying_disk(devices@[j])
                    &&& stray == exists|j: int| 0 <= j < i && disk_root_count(devices@[j]) != 0
                },
            },
        decreases n - i,
    {
        let d = &devices[i];
        if d.type_field.eq(&disk_ty) {
            let (count, ia, ib) = scan_root_children(&d.children);
            proof {
                assert(disk_root_count(devices@[i as int]) == count as int);
            }
            total = if (count as u64) > u64::MAX - total {
                u64::MAX
            } else {
                total + count as u64
            };
            if count != 0 {
                if count == 2 && qual.is_none() {
                    qual = Some((i, ia, ib));
                } else {
                    stray = true;
                }
            }
        } else {
            proof {
                assert(disk_root_count(devices@[i as int]) == 0);
            }
        }
        i = i + 1;
    }
    if !stray {
        if let Some((k, ia, ib)) = qual {
            let d = &devices[k];
            let rp = RootParts { disk: d, part_a: &d.children[ia], part_b: &d.children[ib] };
            return Ok(rp);
        }
    }
    let mut m: String = "Expected to find 2 root partitions, but found ".to_owned();
    m.append(total.to_string().as_str());
    m.append(" (or they were on separate disks)");
    proof {
        assert(!sound_topology(devices@)) by {
            if sound_topology(devices@) {
                let w = choose|w: int|
                    0 <= w < devices@.len() && qualifying_disk(devices@[w]) && (forall|j: int|
                        0 <= j < devices@.len() && j != w ==> disk_root_count(devices@[j]) == 0);
                match qual {
                    Some(t) => {
                        let s = choose|j: int|
                            0 <= j < devices@.len() && j != t.0 && disk_root_count(devices@[j])
                                != 0;
                        assert(disk_root_count(devices@[t.0 as int]) == 2);
                        assert(s == w && t.0 == w);
                        assert(false);
                    },
                    None => {
                        assert(!qualifying_disk(devices@[w]));
                        assert(false);
                    },
                }
            }
        }
    }
    Err(Error::msg(m.as_str()))
}

/// The two image-slot partitions sorted into their runtime roles: the
/// mounted one is the running system, the other is the update target.
pub struct Slots<'a> {
    pub current: &'a LsblkDevice,
    pub alternate: &'a LsblkDevice,
}

/// Decides which of the two root-slot partitions is the running one.
/// Exactly one of them must have a mountpoint; zero or two mounted slots is
/// an ambiguous boot state and a fatal error.
pub fn identify_slots<'a>(a: &'a LsblkDevice, b: &'a LsblkDevice) -> (r: Result<Slots<'a>, Error>)
    ensures
        r matches Ok(s) ==> (a.mountpoint is Some) != (b.mountpoint is Some) && (*s.current == (
        if a.mountpoint is Some {
            *a
        } else {
            *b
        })) && (*s.alternate == (
        if a.mountpoint is Some {
            *b
        } else {
            *a
        })),
        r matches Err(_) ==> (a.mountpoint is Some) == (b.mountpoint is Some),
{
    match (&a.mountpoint, &b.mountpoint) {
        (Some(_), None) => Ok(Slots { current: a, alternate: b }),
        (None, Some(_)) => Ok(Slots { current: b, alternate: a }),
        (Some(_), Some(_)) => Err(Error::msg("Unable to find alternate root device")),
        (None, None) => Err(Error::msg("Unable to find mounted root device")),
    }
}

} // verus!
