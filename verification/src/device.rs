//! Physical-device suitability and first-fit selection.
//!
//! A candidate device is described by what the driver reports of it: a name
//! tag for logging and the capability flags of each of its queue families.
//! Selection is a capability check with a first-fit policy, not a ranking.

use vstd::prelude::*;

use crate::context::{InitError, SuitabilityError};

verus! {

/// Queue-family capability bit for graphics work.
pub const QUEUE_GRAPHICS_BIT: u32 = 0x1;

/// Queue-family capability bit for compute work.
pub const QUEUE_COMPUTE_BIT: u32 = 0x2;

/// Queue-family capability bit for transfer work.
pub const QUEUE_TRANSFER_BIT: u32 = 0x4;

/// What the driver reports of one candidate physical device.
pub struct PhysicalDeviceInfo {
    /// Tag standing for the driver-reported device name, for log lines.
    pub name_tag: u64,
    /// Capability flags of each queue family, in report order.
    pub queue_families: Vec<u32>,
}

/// Index of a queue family satisfying the graphics requirement.
#[derive(Clone, Copy, Debug, PartialEq, Eq, Structural)]
pub struct QueueFamilyIndices {
    pub graphics: usize,
}

/// Whether a queue family's capability flags include graphics.
pub open spec fn spec_has_graphics(flags: u32) -> bool {
    flags & QUEUE_GRAPHICS_BIT != 0
}

/// `i` is the first queue family in `families` with graphics capability.
pub open spec fn is_first_graphics_family(families: Seq<u32>, i: int) -> bool {
    &&& 0 <= i < families.len()
    &&& spec_has_graphics(families[i])
    &&& forall|j: int| 0 <= j < i ==> !spec_has_graphics(#[trigger] families[j])
}

/// The device exposes at least one graphics-capable queue family.
pub open spec fn spec_device_suitable(dev: PhysicalDeviceInfo) -> bool {
    exists|i: int|
        0 <= i < dev.queue_families@.len() && spec_has_graphics(#[trigger] dev.queue_families@[i])
}

/// `i` is the first suitable device in `devs`.
pub open spec fn is_first_suitable_device(devs: Seq<PhysicalDeviceInfo>, i: int) -> bool {
    &&& 0 <= i < devs.len()
    &&& spec_device_suitable(devs[i])
    &&& forall|j: int| 0 <= j < i ==> !spec_device_suitable(#[trigger] devs[j])
}

/// Some device in `devs` is suitable.
pub open spec fn spec_any_device_suitable(devs: Seq<PhysicalDeviceInfo>) -> bool {
    exists|i: int| 0 <= i < devs.len() && spec_device_suitable(#[trigger] devs[i])
}

pub fn has_graphics(flags: u32) -> (r: bool)
    ensures
        r == spec_has_graphics(flags),
{
    flags & QUEUE_GRAPHICS_BIT != 0
}

impl QueueFamilyIndices {
    /// Index of the first queue family whose flags include the graphics
    /// bit, in report order; fails when no family qualifies.
    pub fn get(families: &Vec<u32>) -> (r: Result<QueueFamilyIndices, SuitabilityError>)
        ensures
            r is Ok <==> exists|i: int|
                0 <= i < families@.len() && spec_has_graphics(#[trigger] families@[i]),
            r matches Ok(q) ==> is_first_graphics_family(families@, q.graphics as int),
    {
        let mut i: usize = 0;
        while i < families.len()
            invariant
                i <= families@.len(),
                forall|j: int| 0 <= j < i ==> !spec_has_graphics(#[trigger] families@[j]),
            decreases families@.len() - i,
        {
            if has_graphics(families[i]) {
                return Ok(QueueFamilyIndices { graphics: i });
            }
            i = i + 1;
        }
        Err(SuitabilityError("Missing required queue families."))
    }
}

/// Outcome of a first-fit scan over the enumerated devices: the selected
/// index, after the indices of every unsuitable device seen before it (in
/// scan order, so that each can be reported before the selection is).
pub struct DeviceSelection {
    pub index: usize,
    pub skipped: Vec<usize>,
}

/// The device must expose at least one graphics-capable queue family; this
/// is the sole suitability gate.
pub fn check_physical_device(dev: &PhysicalDeviceInfo) -> (r: Result<(), SuitabilityError>)
    ensures
        r is Ok <==> spec_device_suitable(*dev),
{
    match QueueFamilyIndices::get(&dev.queue_families) {
        Ok(_) => Ok(()),
        Err(e) => Err(e),
    }
}

/// First-fit selection over the devices in report order: the first device
/// passing the suitability check is selected, every earlier one is skipped
/// and listed for logging; fails when the list is empty or all fail.
pub fn pick_physical_device(devices: &Vec<PhysicalDeviceInfo>) -> (r: Result<
    DeviceSelection,
    InitError,
>)
    ensures
        r is Ok <==> spec_any_device_suitable(devices@),
        r matches Ok(s) ==> {
            &&& is_first_suitable_device(devices@, s.index as int)
            &&& s.skipped@.len() == s.index
            &&& forall|j: int| 0 <= j < s.index ==> #[trigger] s.skipped@[j] == j
        },
        r matches Err(e) ==> e == InitError::NoSuitableDevice,
{
    let mut skipped: Vec<usize> = Vec::new();
    let mut i: usize = 0;
    while i < devices.len()
        invariant
            i <= devices@.len(),
            forall|j: int| 0 <= j < i ==> !spec_device_suitable(#[trigger] devices@[j]),
            skipped@.len() == i,
            forall|j: int| 0 <= j < i ==> #[trigger] skipped@[j] == j,
        decreases devices@.len() - i,
    {
        if check_physical_device(&devices[i]).is_ok() {
            return Ok(DeviceSelection { index: i, skipped });
        }
        skipped.push(i);
        i = i + 1;
    }
    Err(InitError::NoSuitableDevice)
}

} // verus!
