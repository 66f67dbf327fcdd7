use julia::device::find_best_by_type;
use julia::device::find_best_physical_device;
use julia::device::num_compute_queues;
use julia::device::swapchain_image_count;
use julia::device::DeviceClass;
use julia::device::PhysicalDeviceInfo;
use julia::device::QueueFamilyInfo;

fn fam(compute: bool, queues: u32) -> QueueFamilyInfo {
    QueueFamilyInfo {
        supports_compute: compute,
        queues_count: queues,
    }
}

fn dev(class: DeviceClass, storage: bool, fams: Vec<QueueFamilyInfo>) -> PhysicalDeviceInfo {
    PhysicalDeviceInfo {
        class,
        families: fams,
        supports_storage_class: storage,
    }
}

#[test]
fn compute_queues_sum_only_compute_families() {
    let d = dev(
        DeviceClass::Discrete,
        true,
        vec![fam(true, 4), fam(false, 16), fam(true, 2)],
    );
    assert_eq!(num_compute_queues(&d), 6);
}

#[test]
fn best_by_type_prefers_more_compute_queues_and_later_ties() {
    let devs = vec![
        dev(DeviceClass::Discrete, true, vec![fam(true, 2)]),
        dev(DeviceClass::Discrete, true, vec![fam(false, 8), fam(true, 4)]),
        dev(DeviceClass::Discrete, true, vec![fam(true, 4)]),
        dev(DeviceClass::Integrated, true, vec![fam(true, 64)]),
    ];
    // Devices 1 and 2 tie on four compute queues: the later one wins,
    // and its first compute family is index 0.
    assert_eq!(find_best_by_type(&devs, DeviceClass::Discrete), Some((2, 0)));
    // Device 1's first compute family is its second family.
    let only_middle = vec![dev(
        DeviceClass::Discrete,
        true,
        vec![fam(false, 8), fam(true, 4)],
    )];
    assert_eq!(
        find_best_by_type(&only_middle, DeviceClass::Discrete),
        Some((0, 1))
    );
}

#[test]
fn best_by_type_requires_storage_class_support() {
    let devs = vec![dev(DeviceClass::Discrete, false, vec![fam(true, 8)])];
    assert_eq!(find_best_by_type(&devs, DeviceClass::Discrete), None);
}

#[test]
fn best_device_without_compute_family_yields_nothing() {
    // The best discrete device has no compute-capable family at all;
    // the scan does not fall back to a worse device of the same class.
    let devs = vec![
        dev(DeviceClass::Discrete, true, vec![fam(true, 1)]),
        dev(DeviceClass::Discrete, true, vec![fam(false, 99)]),
    ];
    assert_eq!(find_best_by_type(&devs, DeviceClass::Discrete), Some((0, 0)));
    let lone = vec![dev(DeviceClass::Discrete, true, vec![fam(false, 99)])];
    assert_eq!(find_best_by_type(&lone, DeviceClass::Discrete), None);
}

#[test]
fn device_classes_rank_discrete_first() {
    let devs = vec![
        dev(DeviceClass::Cpu, true, vec![fam(true, 64)]),
        dev(DeviceClass::Integrated, true, vec![fam(true, 1)]),
        dev(DeviceClass::Discrete, true, vec![fam(true, 1)]),
    ];
    assert_eq!(find_best_physical_device(&devs), Some((2, 0)));
    let no_discrete = vec![
        dev(DeviceClass::Cpu, true, vec![fam(true, 64)]),
        dev(DeviceClass::Integrated, true, vec![fam(true, 1)]),
    ];
    assert_eq!(find_best_physical_device(&no_discrete), Some((1, 0)));
    assert_eq!(find_best_physical_device(&vec![]), None);
}

#[test]
fn window_opens_at_four_fifths_of_the_smaller_monitor_side() {
    assert_eq!(julia::device::window_side(1920, 1080), 864);
    assert_eq!(julia::device::window_side(1080, 1920), 864);
    assert_eq!(julia::device::window_side(3, 100), 2);
}

#[test]
fn swapchain_count_wants_two_within_surface_limits() {
    assert_eq!(swapchain_image_count(1, None), 2);
    assert_eq!(swapchain_image_count(3, None), 3);
    assert_eq!(swapchain_image_count(3, Some(2)), 2);
    assert_eq!(swapchain_image_count(1, Some(5)), 2);
}
