//! Choosing a GPU.
//!
//! The surrounding application enumerates physical devices and hands in
//! one plain description per device; this module ranks them the way the
//! renderer wants: device classes in order discrete, integrated,
//! virtual, CPU-emulated, other; within a class the device with the
//! most compute-capable queue slots (the last such device on a tie, as
//! a maximum scan keeps the latest best); and only devices that support
//! the device-local storage-buffer class qualify at all. The chosen
//! device must also offer a compute-capable queue family — the first
//! one is taken.

use vstd::prelude::*;

verus! {

/// The class a physical device reports.
#[derive(Clone, Copy, PartialEq, Eq, Structural, Debug)]
pub enum DeviceClass {
    Discrete,
    Integrated,
    Virtual,
    Cpu,
    Other,
}

/// One queue family: whether it can run compute work, and how many
/// queue slots it offers.
#[derive(Clone, Copy, PartialEq, Eq, Structural, Debug)]
pub struct QueueFamilyInfo {
    pub supports_compute: bool,
    pub queues_count: u32,
}

/// A physical device, reduced to what the ranking reads.
pub struct PhysicalDeviceInfo {
    pub class: DeviceClass,
    pub families: Vec<QueueFamilyInfo>,
    pub supports_storage_class: bool,
}

/// Total compute-capable queue slots across the first `n` families.
pub open spec fn spec_compute_queues(fams: Seq<QueueFamilyInfo>, n: int) -> int
    decreases n,
{
    if n <= 0 {
        0
    } else {
        spec_compute_queues(fams, n - 1) + if fams[n - 1].supports_compute {
            fams[n - 1].queues_count as int
        } else {
            0
        }
    }
}

/// Total compute-capable queue slots a device offers.
pub open spec fn spec_num_compute_queues(dev: PhysicalDeviceInfo) -> int {
    spec_compute_queues(dev.families@, dev.families@.len() as int)
}

/// Whether a device competes at all for the given class: it is of that
/// class and supports the storage-buffer storage class.
pub open spec fn qualifies(dev: PhysicalDeviceInfo, class: DeviceClass) -> bool {
    dev.class == class && dev.supports_storage_class
}

/// The index of the best qualifying device among the first `n`: most
/// compute queues, later index on ties.
pub open spec fn spec_best_device(devs: Seq<PhysicalDeviceInfo>, class: DeviceClass, n: int) -> Option<int>
    decreases n,
{
    if n <= 0 {
        None
    } else {
        let prev = spec_best_device(devs, class, n - 1);
        if !qualifies(devs[n - 1], class) {
            prev
        } else {
            match prev {
                None => Some(n - 1),
                Some(p) => if spec_num_compute_queues(devs[n - 1]) >= spec_num_compute_queues(
                    devs[p],
                ) {
                    Some(n - 1)
                } else {
                    Some(p)
                },
            }
        }
    }
}

/// The first compute-capable queue family of a device, if any.
pub open spec fn spec_first_compute_family(fams: Seq<QueueFamilyInfo>) -> Option<int> {
    if exists|i: int| 0 <= i < fams.len() && fams[i].supports_compute {
        Some(
            choose|i: int|
                0 <= i < fams.len() && fams[i].supports_compute && forall|j: int|
                    0 <= j < i ==> !(#[trigger] fams[j]).supports_compute,
        )
    } else {
        None
    }
}

/// What `find_best_by_type` yields: the best qualifying device paired
/// with its first compute family, or nothing when either is missing.
pub open spec fn spec_find_best_by_type(devs: Seq<PhysicalDeviceInfo>, class: DeviceClass) -> Option<(int, int)> {
    match spec_best_device(devs, class, devs.len() as int) {
        None => None,
        Some(b) => match spec_first_compute_family(devs[b].families@) {
            None => None,
            Some(f) => Some((b, f)),
        },
    }
}

/// The best qualifying device really is a maximum: every qualifying
/// device has no more compute queues, and an equal count only at an
/// earlier index; and when none is returned, none qualifies.
pub proof fn lemma_best_device_is_max(devs: Seq<PhysicalDeviceInfo>, class: DeviceClass, n: int)
    requires
        0 <= n <= devs.len(),
    ensures
        match spec_best_device(devs, class, n) {
            Some(b) => {
                &&& 0 <= b < n
                &&& qualifies(devs[b], class)
                &&& forall|j: int|
                    0 <= j < n && qualifies(#[trigger] devs[j], class)
                        ==> spec_num_compute_queues(devs[j]) <= spec_num_compute_queues(devs[b])
                &&& forall|j: int|
                    0 <= j < n && qualifies(#[trigger] devs[j], class)
                        && spec_num_compute_queues(devs[j]) == spec_num_compute_queues(devs[b])
                        ==> j <= b
            },
            None => forall|j: int| 0 <= j < n ==> !qualifies(#[trigger] devs[j], class),
        },
    decreases n,
{
    if n > 0 {
        lemma_best_device_is_max(devs, class, n - 1);
    }
}

/// Count a device's compute-capable queue slots.
pub fn num_compute_queues(dev: &PhysicalDeviceInfo) -> (total: u64)
    requires
        dev.families@.len() < 0x1_0000_0000,
    ensures
        total == spec_num_compute_queues(*dev),
{
    let mut total: u64 = 0;
    let mut i: usize = 0;
    let n = dev.families.len();
    while i < n
        invariant
            i <= n,
            n == dev.families@.len() < 0x1_0000_0000,
            total == spec_compute_queues(dev.families@, i as int),
            total <= i * 0x1_0000_0000,
        decreases n - i,
    {
        let fam = dev.families[i];
        if fam.supports_compute {
            total = total + fam.queues_count as u64;
        }
        i = i + 1;
    }
    total
}

/// The first compute-capable queue family of a device.
fn first_compute_family(dev: &PhysicalDeviceInfo) -> (r: Option<usize>)
    ensures
        (r matches Some(f) ==> spec_first_compute_family(dev.families@) == Some(f as int)),
        r is None ==> spec_first_compute_family(dev.families@) is None,
{
    let n = dev.families.len();
    let mut i: usize = 0;
    while i < n
        invariant
            i <= n,
            n == dev.families@.len(),
            forall|j: int| 0 <= j < i ==> !(#[trigger] dev.families@[j]).supports_compute,
        decreases n - i,
    {
        if dev.families[i].supports_compute {
            return Some(i);
        }
        i = i + 1;
    }
    None
}

/// The best device of one class: the qualifying device with the most
/// compute queues (last on ties), together with its first
/// compute-capable queue family. `None` when no device of the class
/// qualifies or the best one cannot run compute at all.
pub fn find_best_by_type(devs: &Vec<PhysicalDeviceInfo>, class: DeviceClass) -> (r: Option<
    (usize, usize),
>)
    requires
        forall|i: int| 0 <= i < devs@.len() ==> (#[trigger] devs@[i]).families@.len() < 0x1_0000_0000,
    ensures
        (r matches Some(p) ==> spec_find_best_by_type(devs@, class) == Some(
            (p.0 as int, p.1 as int),
        )),
        r is None ==> spec_find_best_by_type(devs@, class) is None,
{
    let n = devs.len();
    let mut best: Option<usize> = None;
    let mut best_queues: u64 = 0;
    let mut i: usize = 0;
    while i < n
        invariant
            i <= n,
            n == devs@.len(),
            forall|k: int|
                0 <= k < devs@.len() ==> (#[trigger] devs@[k]).families@.len() < 0x1_0000_0000,
            (best matches Some(b) ==> spec_best_device(devs@, class, i as int) == Some(b as int)
                && b < i && best_queues == spec_num_compute_queues(devs@[b as int])),
            best is None ==> spec_best_device(devs@, class, i as int) is None,
        decreases n - i,
    {
        let d = &devs[i];
        let qual = d.class == class && d.supports_storage_class;
        if qual {
            let q = num_compute_queues(d);
            match best {
                None => {
                    best = Some(i);
                    best_queues = q;
                },
                Some(_) => {
                    if q >= best_queues {
                        best = Some(i);
                        best_queues = q;
                    }
                },
            }
        }
        i = i + 1;
    }
    match best {
        None => None,
        Some(b) => match first_compute_family(&devs[b]) {
            None => None,
            Some(f) => Some((b, f)),
        },
    }
}

/// The best device overall: classes are tried in order discrete,
/// integrated, virtual, CPU-emulated, other, and the first class that
/// yields a device wins.
pub open spec fn spec_find_best_physical_device(devs: Seq<PhysicalDeviceInfo>) -> Option<
    (int, int),
> {
    match spec_find_best_by_type(devs, DeviceClass::Discrete) {
        Some(p) => Some(p),
        None => match spec_find_best_by_type(devs, DeviceClass::Integrated) {
            Some(p) => Some(p),
            None => match spec_find_best_by_type(devs, DeviceClass::Virtual) {
                Some(p) => Some(p),
                None => match spec_find_best_by_type(devs, DeviceClass::Cpu) {
                    Some(p) => Some(p),
                    None => spec_find_best_by_type(devs, DeviceClass::Other),
                },
            },
        },
    }
}

/// Rank every enumerated device and pick the winner; see
/// `spec_find_best_physical_device`.
pub fn find_best_physical_device(devs: &Vec<PhysicalDeviceInfo>) -> (r: Option<(usize, usize)>)
    requires
        forall|i: int| 0 <= i < devs@.len() ==> (#[trigger] devs@[i]).families@.len() < 0x1_0000_0000,
    ensures
        (r matches Some(p) ==> spec_find_best_physical_device(devs@) == Some(
            (p.0 as int, p.1 as int),
        )),
        r is None ==> spec_find_best_physical_device(devs@) is None,
{
    if let Some(p) = find_best_by_type(devs, DeviceClass::Discrete) {
        return Some(p);
    }
    if let Some(p) = find_best_by_type(devs, DeviceClass::Integrated) {
        return Some(p);
    }
    if let Some(p) = find_best_by_type(devs, DeviceClass::Virtual) {
        return Some(p);
    }
    if let Some(p) = find_best_by_type(devs, DeviceClass::Cpu) {
        return Some(p);
    }
    find_best_by_type(devs, DeviceClass::Other)
}

/// The side of the square window the interactive view opens with:
/// four fifths of the monitor's smaller dimension, in pixels.
pub fn window_side(width: i64, height: i64) -> (r: i64)
    requires
        0 < width <= 0x7fff_ffff,
        0 < height <= 0x7fff_ffff,
    ensures
        r == (if width < height {
            width
        } else {
            height
        }) * 4 / 5,
        0 <= r <= (if width < height {
            width
        } else {
            height
        }),
{
    let min_dim = if width < height {
        width
    } else {
        height
    };
    proof {
        assert(min_dim * 4 / 5 <= min_dim && min_dim * 4 >= 0) by (nonlinear_arith)
            requires
                min_dim > 0,
        ;
    }
    min_dim * 4 / 5
}

/// How many swapchain images to request: at least two for double
/// buffering, at least the surface's minimum, and no more than its
/// maximum when it states one.
pub fn swapchain_image_count(min_count: u32, max_count: Option<u32>) -> (r: u32)
    ensures
        match max_count {
            None => r == if min_count > 2 {
                min_count
            } else {
                2u32
            },
            Some(lim) => r == if (if min_count > 2 {
                min_count
            } else {
                2u32
            }) < lim {
                (if min_count > 2 {
                    min_count
                } else {
                    2u32
                })
            } else {
                lim
            },
        },
{
    let want = if min_count > 2 {
        min_count
    } else {
        2
    };
    match max_count {
        None => want,
        Some(lim) => if want < lim {
            want
        } else {
            lim
        },
    }
}

} // verus!
