use gfx_bringup::context::InitError;
use gfx_bringup::device::{
    check_physical_device, pick_physical_device, PhysicalDeviceInfo, QueueFamilyIndices,
    QUEUE_COMPUTE_BIT, QUEUE_GRAPHICS_BIT, QUEUE_TRANSFER_BIT,
};

fn device(name_tag: u64, queue_families: Vec<u32>) -> PhysicalDeviceInfo {
    PhysicalDeviceInfo { name_tag, queue_families }
}

#[test]
fn queue_family_indices_first_graphics_family() {
    let families = vec![
        QUEUE_TRANSFER_BIT,
        QUEUE_GRAPHICS_BIT | QUEUE_TRANSFER_BIT,
        QUEUE_COMPUTE_BIT,
    ];
    let indices = QueueFamilyIndices::get(&families).unwrap();
    assert_eq!(indices.graphics, 1);
}

#[test]
fn queue_family_indices_prefers_earliest() {
    let families = vec![QUEUE_GRAPHICS_BIT, QUEUE_GRAPHICS_BIT | QUEUE_COMPUTE_BIT];
    let indices = QueueFamilyIndices::get(&families).unwrap();
    assert_eq!(indices.graphics, 0);
}

#[test]
fn queue_family_indices_missing_graphics() {
    let families = vec![QUEUE_TRANSFER_BIT, QUEUE_COMPUTE_BIT];
    let r = QueueFamilyIndices::get(&families);
    assert_eq!(r.unwrap_err().0, "Missing required queue families.");
}

#[test]
fn queue_family_indices_empty_report() {
    let families: Vec<u32> = Vec::new();
    assert!(QueueFamilyIndices::get(&families).is_err());
}

#[test]
fn check_physical_device_requires_graphics_family() {
    let good = device(1, vec![QUEUE_TRANSFER_BIT, QUEUE_GRAPHICS_BIT]);
    let bad = device(2, vec![QUEUE_TRANSFER_BIT, QUEUE_COMPUTE_BIT]);
    assert!(check_physical_device(&good).is_ok());
    assert!(check_physical_device(&bad).is_err());
}

#[test]
fn pick_physical_device_first_fit_skips_earlier() {
    // Suitable devices sit at positions 2 and 4 (1-indexed); first fit
    // selects position 2 and reports position 1 as skipped before it.
    let devices = vec![
        device(10, vec![QUEUE_TRANSFER_BIT]),
        device(11, vec![QUEUE_GRAPHICS_BIT]),
        device(12, vec![QUEUE_COMPUTE_BIT]),
        device(13, vec![QUEUE_GRAPHICS_BIT | QUEUE_COMPUTE_BIT]),
        device(14, vec![QUEUE_TRANSFER_BIT]),
    ];
    let selection = pick_physical_device(&devices).unwrap();
    assert_eq!(selection.index, 1);
    assert_eq!(selection.skipped, vec![0]);
}

#[test]
fn pick_physical_device_empty_enumeration() {
    let devices: Vec<PhysicalDeviceInfo> = Vec::new();
    let r = pick_physical_device(&devices);
    assert!(matches!(r, Err(InitError::NoSuitableDevice)));
}

#[test]
fn pick_physical_device_all_unsuitable() {
    let devices = vec![
        device(20, vec![QUEUE_TRANSFER_BIT]),
        device(21, vec![QUEUE_COMPUTE_BIT]),
        device(22, Vec::new()),
    ];
    let r = pick_physical_device(&devices);
    assert!(matches!(r, Err(InitError::NoSuitableDevice)));
}

#[test]
fn pick_physical_device_skipped_in_scan_order() {
    let devices = vec![
        device(30, vec![QUEUE_TRANSFER_BIT]),
        device(31, Vec::new()),
        device(32, vec![QUEUE_COMPUTE_BIT]),
        device(33, vec![QUEUE_GRAPHICS_BIT]),
    ];
    let selection = pick_physical_device(&devices).unwrap();
    assert_eq!(selection.index, 3);
    assert_eq!(selection.skipped, vec![0, 1, 2]);
}
