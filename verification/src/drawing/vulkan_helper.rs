//! Choice of the device that draws and of the queue that it draws on.
//!
//! The caller describes every physical device of the machine, in the
//! order in which the machine lists them. The choice is made here, once,
//! and never revised.

use vstd::prelude::*;

verus! {

/// What kind of hardware a physical device is.
#[derive(Clone, Copy, Debug, PartialEq, Eq, Structural)]
pub enum PhysicalDeviceType {
    /// A graphics card of its own.
    DiscreteGpu,
    /// A graphics unit that shares the host's memory.
    IntegratedGpu,
    /// A graphics unit of a virtual machine.
    VirtualGpu,
    /// The processor itself, drawing in software.
    Cpu,
    /// Anything else.
    Other,
}

/// A family of queues of a physical device.
#[derive(Clone, Copy, Debug, PartialEq, Eq, Structural)]
pub struct QueueFamily {
    /// Whether its queues take graphics commands.
    pub graphics: bool,
    /// Whether its queues can present to the surface, where the device
    /// could tell.
    pub surface_support: Option<bool>,
}

/// A physical device, as far as the choice depends on it.
#[derive(Clone, Debug, PartialEq, Eq)]
pub struct PhysicalDevice {
    /// The kind of hardware.
    pub device_type: PhysicalDeviceType,
    /// Whether it supports the swapchain extension, the one extension
    /// that drawing needs.
    pub khr_swapchain: bool,
    /// Its queue families, in the device's own order.
    pub queue_families: Vec<QueueFamily>,
}

/// How much a kind of hardware is liked: the lower, the better.
pub open spec fn spec_rank(device_type: PhysicalDeviceType) -> int {
    match device_type {
        PhysicalDeviceType::DiscreteGpu => 0,
        PhysicalDeviceType::IntegratedGpu => 1,
        PhysicalDeviceType::VirtualGpu => 2,
        PhysicalDeviceType::Cpu => 3,
        PhysicalDeviceType::Other => 4,
    }
}

/// A queue family fits if it takes graphics commands and can present. A
/// family of which the device could not tell counts as one that cannot.
pub open spec fn fits(family: QueueFamily) -> bool {
    family.graphics && family.surface_support == Some(true)
}

/// `index` is the first family of `families` that fits.
pub open spec fn is_first_fit(families: Seq<QueueFamily>, index: int) -> bool {
    &&& 0 <= index < families.len()
    &&& fits(families[index])
    &&& forall|j: int| 0 <= j < index ==> !fits(#[trigger] families[j])
}

/// No family of `families` fits.
pub open spec fn none_fits(families: Seq<QueueFamily>) -> bool {
    forall|j: int| 0 <= j < families.len() ==> !fits(#[trigger] families[j])
}

/// A device is eligible if it supports the swapchain extension and has a
/// queue family that fits.
pub open spec fn eligible(device: PhysicalDevice) -> bool {
    device.khr_swapchain && !none_fits(device.queue_families@)
}

/// `index` is the best device of `devices`: it is eligible, no eligible
/// device is of a better kind, and none of those of its own kind comes
/// before it.
pub open spec fn is_best(devices: Seq<PhysicalDevice>, index: int) -> bool {
    &&& 0 <= index < devices.len()
    &&& eligible(devices[index])
    &&& forall|j: int|
        0 <= j < devices.len() && eligible(#[trigger] devices[j]) ==> spec_rank(
            devices[index].device_type,
        ) <= spec_rank(devices[j].device_type)
    &&& forall|j: int|
        0 <= j < index && eligible(#[trigger] devices[j]) ==> spec_rank(devices[index].device_type)
            < spec_rank(devices[j].device_type)
}

/// No device of `devices` is eligible.
pub open spec fn none_eligible(devices: Seq<PhysicalDevice>) -> bool {
    forall|j: int| 0 <= j < devices.len() ==> !eligible(#[trigger] devices[j])
}

/// At most one index is the first fit.
pub proof fn first_fit_is_unique(families: Seq<QueueFamily>, a: int, b: int)
    requires
        is_first_fit(families, a),
        is_first_fit(families, b),
    ensures
        a == b,
{
    if a < b {
        assert(!fits(families[a]));
    } else if b < a {
        assert(!fits(families[b]));
    }
}

/// At most one index is the best device: the choice is determined by the
/// list.
pub proof fn best_is_unique(devices: Seq<PhysicalDevice>, a: int, b: int)
    requires
        is_best(devices, a),
        is_best(devices, b),
    ensures
        a == b,
{
    if a < b {
        assert(eligible(devices[a]));
        assert(spec_rank(devices[b].device_type) < spec_rank(devices[a].device_type));
        assert(eligible(devices[b]));
        assert(spec_rank(devices[a].device_type) <= spec_rank(devices[b].device_type));
    } else if b < a {
        assert(eligible(devices[b]));
        assert(spec_rank(devices[a].device_type) < spec_rank(devices[b].device_type));
        assert(eligible(devices[a]));
        assert(spec_rank(devices[b].device_type) <= spec_rank(devices[a].device_type));
    }
}

/// How much a kind of hardware is liked: discrete before integrated
/// before virtual before software before the rest.
pub fn rank(device_type: PhysicalDeviceType) -> (r: u8)
    ensures
        r == spec_rank(device_type),
{
    match device_type {
        PhysicalDeviceType::DiscreteGpu => 0,
        PhysicalDeviceType::IntegratedGpu => 1,
        PhysicalDeviceType::VirtualGpu => 2,
        PhysicalDeviceType::Cpu => 3,
        PhysicalDeviceType::Other => 4,
    }
}

/// The first queue family of `device` that takes graphics commands and
/// can present, if there is one.
pub fn get_graphics_queue_family(device: &PhysicalDevice) -> (found: Option<usize>)
    ensures
        found matches Some(index) ==> is_first_fit(device.queue_families@, index as int),
        found is None ==> none_fits(device.queue_families@),
{
    let mut index: usize = 0;
    while index < device.queue_families.len()
        invariant
            index <= device.queue_families.len(),
            forall|j: int| 0 <= j < index ==> !fits(#[trigger] device.queue_families@[j]),
        decreases device.queue_families.len() - index,
    {
        let family = &device.queue_families[index];
        let presents = match family.surface_support {
            Some(support) => support,
            None => false,
        };
        if family.graphics && presents {
            return Some(index);
        }
        index += 1;
    }
    None
}

/// The device to draw with and the queue family to draw on.
///
/// Of the devices that support the swapchain extension and have a queue
/// family that fits, the one of the best kind is chosen, and the first of
/// them where several are of that kind. The family is the first of the
/// chosen device that fits. `None` means that no device is eligible.
pub fn get_best_physical_device(devices: &Vec<PhysicalDevice>) -> (best: Option<(usize, usize)>)
    ensures
        best matches Some((device, family)) ==> is_best(devices@, device as int) && is_first_fit(
            devices@[device as int].queue_families@,
            family as int,
        ),
        best is None <==> none_eligible(devices@),
{
    let mut best: Option<(usize, usize)> = None;
    let mut index: usize = 0;
    while index < devices.len()
        invariant
            index <= devices.len(),
            best matches Some((device, family)) ==> device < index && is_best(
                devices@.take(index as int),
                device as int,
            ) && is_first_fit(devices@[device as int].queue_families@, family as int),
            best is None ==> none_eligible(devices@.take(index as int)),
        decreases devices.len() - index,
    {
        let candidate = &devices[index];
        let ghost before = devices@.take(index as int);
        let ghost after = devices@.take(index + 1);
        assert(forall|j: int| 0 <= j < index ==> after[j] == before[j]);
        assert(after[index as int] == *candidate);
        let family = if candidate.khr_swapchain {
            get_graphics_queue_family(candidate)
        } else {
            None
        };
        match family {
            Some(family) => {
                assert(fits(candidate.queue_families@[family as int]));
                assert(eligible(*candidate));
                let better = match best {
                    Some((device, _)) => rank(candidate.device_type) < rank(
                        devices[device].device_type,
                    ),
                    None => true,
                };
                if better {
                    assert(is_best(after, index as int)) by {
                        assert forall|j: int|
                            0 <= j < after.len() && eligible(#[trigger] after[j]) implies spec_rank(
                            after[index as int].device_type,
                        ) <= spec_rank(after[j].device_type) by {
                            if j < index {
                                assert(eligible(before[j]));
                            }
                        }
                        assert forall|j: int|
                            0 <= j < index && eligible(#[trigger] after[j]) implies spec_rank(
                            after[index as int].device_type,
                        ) < spec_rank(after[j].device_type) by {
                            assert(eligible(before[j]));
                        }
                    }
                    best = Some((index, family));
                } else {
                    let ghost device = best->Some_0.0 as int;
                    assert(is_best(after, device)) by {
                        assert forall|j: int|
                            0 <= j < after.len() && eligible(#[trigger] after[j]) implies spec_rank(
                            after[device].device_type,
                        ) <= spec_rank(after[j].device_type) by {
                            if j < index {
                                assert(eligible(before[j]));
                            }
                        }
                        assert forall|j: int|
                            0 <= j < device && eligible(#[trigger] after[j]) implies spec_rank(
                            after[device].device_type,
                        ) < spec_rank(after[j].device_type) by {
                            assert(eligible(before[j]));
                        }
                    }
                }
            },
            None => {
                assert(!eligible(*candidate));
                match best {
                    Some((device, _)) => {
                        assert(is_best(after, device as int)) by {
                            assert forall|j: int|
                                0 <= j < after.len() && eligible(
                                    #[trigger] after[j],
                                ) implies spec_rank(after[device as int].device_type) <= spec_rank(
                                after[j].device_type,
                            ) by {
                                if j < index {
                                    assert(eligible(before[j]));
                                }
                            }
                            assert forall|j: int|
                                0 <= j < device && eligible(#[trigger] after[j]) implies spec_rank(
                                after[device as int].device_type,
                            ) < spec_rank(after[j].device_type) by {
                                assert(eligible(before[j]));
                            }
                        }
                    },
                    None => {
                        assert forall|j: int| 0 <= j < after.len() implies !eligible(
                            #[trigger] after[j],
                        ) by {
                            if j < index {
                                assert(!eligible(before[j]));
                            }
                        }
                    },
                }
            },
        }
        index += 1;
    }
    assert(devices@.take(index as int) =~= devices@);
    proof {
        if let Some((device, _)) = best {
            assert(eligible(devices@[device as int]));
        }
    }
    best
}

/// What the logical device is created with.
#[derive(Clone, Copy, Debug, PartialEq, Eq, Structural)]
pub struct DeviceCreateInfo {
    /// The one queue family that a queue is asked of. One queue is asked.
    pub queue_family_index: usize,
    /// Whether the swapchain extension is enabled. It always is.
    pub khr_swapchain: bool,
}

/// The logical device that drawing needs: one queue of the given family,
/// and the swapchain extension.
pub fn get_logical_device(queue_family_index: usize) -> (info: DeviceCreateInfo)
    ensures
        info == (DeviceCreateInfo { queue_family_index, khr_swapchain: true }),
{
    DeviceCreateInfo { queue_family_index, khr_swapchain: true }
}

/// The part of the drawing state that never changes: which physical
/// device draws, and on which queue family.
#[derive(Clone, Copy, Debug, PartialEq, Eq, Structural)]
pub struct VulkanCore {
    physical_device: usize,
    queue_family_index: usize,
}

impl VulkanCore {
    /// Index of the chosen physical device in the machine's list.
    pub closed spec fn spec_physical_device(&self) -> usize {
        self.physical_device
    }

    /// Index of the chosen queue family in the device's list.
    pub closed spec fn spec_queue_family_index(&self) -> usize {
        self.queue_family_index
    }

    /// Chooses the device and the queue family among `devices`, or finds
    /// that no device can both draw and present.
    pub fn new(devices: &Vec<PhysicalDevice>) -> (core: Option<VulkanCore>)
        ensures
            core matches Some(c) ==> is_best(devices@, c.spec_physical_device() as int)
                && is_first_fit(
                devices@[c.spec_physical_device() as int].queue_families@,
                c.spec_queue_family_index() as int,
            ),
            core is None <==> none_eligible(devices@),
    {
        match get_best_physical_device(devices) {
            Some((physical_device, queue_family_index)) => {
                assert(eligible(devices@[physical_device as int]));
                Some(VulkanCore { physical_device, queue_family_index })
            },
            None => None,
        }
    }

    /// Index of the chosen physical device in the machine's list.
    #[verifier::when_used_as_spec(spec_physical_device)]
    pub fn physical_device(&self) -> (index: usize)
        ensures
            index == self.spec_physical_device(),
    {
        self.physical_device
    }

    /// Index of the chosen queue family in the device's list.
    #[verifier::when_used_as_spec(spec_queue_family_index)]
    pub fn queue_family_index(&self) -> (index: usize)
        ensures
            index == self.spec_queue_family_index(),
    {
        self.queue_family_index
    }

    /// What the logical device is created with.
    pub fn device_create_info(&self) -> (info: DeviceCreateInfo)
        ensures
            info == (DeviceCreateInfo {
                queue_family_index: self.spec_queue_family_index(),
                khr_swapchain: true,
            }),
    {
        get_logical_device(self.queue_family_index)
    }
}

} // verus!
