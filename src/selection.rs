use vstd::prelude::*;

use crate::error::SetupError;

verus! {

/// Name of the debug-utils instance extension.
pub const DEBUG_EXT_NAME: &'static str = "VK_EXT_debug_utils";

/// Name of the surface instance extension.
pub const SURFACE_EXT_NAME: &'static str = "VK_KHR_surface";

/// Name of the swapchain device extension.
pub const SWAPCHAIN_EXT_NAME: &'static str = "VK_KHR_swapchain";

/// What a queue family of a hardware device reports.
#[derive(Clone, Copy, Debug, PartialEq, Eq, Structural)]
pub struct QueueFamilyInfo {
    /// The family's index on its device.
    pub index: u32,
    pub graphics: bool,
    pub surface_supported: bool,
}

/// A snapshot of one enumerated hardware device.
#[derive(Clone, Debug)]
pub struct HardwareInfo {
    pub discrete_gpu: bool,
    pub queue_families: Vec<QueueFamilyInfo>,
}

/// The chosen device and queue family, as positions in the enumeration.
#[derive(Clone, Copy, Debug, PartialEq, Eq, Structural)]
pub struct Selection {
    pub device: usize,
    pub queue_family: usize,
    /// The chosen family's own index, as the device reports it.
    pub family_index: u32,
}

/// How the logical device, its command pool and its queue are requested.
#[derive(Clone, Copy, Debug, PartialEq, Eq, Structural)]
pub struct DevicePlan {
    pub pool_family_index: u32,
    pub queue_family_index: u32,
    pub queue_index: u32,
    pub request_swapchain_extension: bool,
    pub custom_allocator: bool,
}

pub open spec fn queue_ok(q: QueueFamilyInfo) -> bool {
    q.graphics && q.surface_supported
}

pub open spec fn has_queue_ok(qs: Seq<QueueFamilyInfo>) -> bool {
    exists|k: int| 0 <= k < qs.len() && queue_ok(#[trigger] qs[k])
}

/// A device may be chosen: a discrete GPU with a graphics and present queue.
pub open spec fn device_ok(d: HardwareInfo) -> bool {
    d.discrete_gpu && has_queue_ok(d.queue_families@)
}

/// `s` names the first suitable device and its first suitable queue family.
pub open spec fn is_first_choice(devs: Seq<HardwareInfo>, s: Selection) -> bool {
    &&& s.device < devs.len()
    &&& device_ok(devs[s.device as int])
    &&& forall|j: int| 0 <= j < s.device ==> !device_ok(#[trigger] devs[j])
    &&& s.queue_family < devs[s.device as int].queue_families@.len()
    &&& queue_ok(devs[s.device as int].queue_families@[s.queue_family as int])
    &&& s.family_index == devs[s.device as int].queue_families@[s.queue_family as int].index
    &&& forall|k: int|
        0 <= k < s.queue_family ==> !queue_ok(
            #[trigger] devs[s.device as int].queue_families@[k],
        )
}

/// The instance extensions: the platform's, then debug, then surface.
pub fn instance_extensions(platform: Vec<&'static str>) -> (r: Vec<&'static str>)
    ensures
        r@ == platform@.push(DEBUG_EXT_NAME).push(SURFACE_EXT_NAME),
{
    let mut r = platform;
    r.push(DEBUG_EXT_NAME);
    r.push(SURFACE_EXT_NAME);
    r
}

/// The device extensions: the swapchain extension and nothing else.
pub fn device_extensions() -> (r: Vec<&'static str>)
    ensures
        r@ == seq![SWAPCHAIN_EXT_NAME],
{
    let mut r: Vec<&'static str> = Vec::new();
    r.push(SWAPCHAIN_EXT_NAME);
    r
}

/// The first queue family of `qs` that is graphics and present capable.
fn first_queue(qs: &Vec<QueueFamilyInfo>) -> (r: Option<usize>)
    ensures
        match r {
            Some(k) => k < qs@.len() && queue_ok(qs@[k as int]) && forall|i: int|
                0 <= i < k ==> !queue_ok(#[trigger] qs@[i]),
            None => !has_queue_ok(qs@),
        },
{
    let mut k: usize = 0;
    while k < qs.len()
        invariant
            k <= qs@.len(),
            forall|i: int| 0 <= i < k ==> !queue_ok(#[trigger] qs@[i]),
        decreases qs@.len() - k,
    {
        if qs[k].graphics && qs[k].surface_supported {
            return Some(k);
        }
        k = k + 1;
    }
    None
}

/// Picks the first discrete GPU, in enumeration order, that has a queue
/// family both graphics capable and able to present to the surface, and on
/// it the first such family. There is no fallback to other kinds of device.
pub fn select_device(devs: &Vec<HardwareInfo>) -> (r: Result<Selection, SetupError>)
    ensures
        devs@.len() == 0 ==> r == Err::<Selection, SetupError>(SetupError::NoHardware),
        devs@.len() > 0 && (forall|j: int| 0 <= j < devs@.len() ==> !device_ok(#[trigger] devs@[j]))
            ==> r == Err::<Selection, SetupError>(SetupError::NoSuitableDevice),
        r is Ok <==> exists|j: int| 0 <= j < devs@.len() && device_ok(#[trigger] devs@[j]),
        r matches Ok(s) ==> is_first_choice(devs@, s),
{
    if devs.len() == 0 {
        return Err(SetupError::NoHardware);
    }
    let mut j: usize = 0;
    while j < devs.len()
        invariant
            j <= devs@.len(),
            forall|i: int| 0 <= i < j ==> !device_ok(#[trigger] devs@[i]),
        decreases devs@.len() - j,
    {
        let d = &devs[j];
        if d.discrete_gpu {
            match first_queue(&d.queue_families) {
                Some(k) => {
                    let s = Selection {
                        device: j,
                        queue_family: k,
                        family_index: d.queue_families[k].index,
                    };
                    return Ok(s);
                },
                None => {},
            }
        }
        j = j + 1;
    }
    Err(SetupError::NoSuitableDevice)
}

/// The logical device request for a selection: the swapchain extension, the
/// default allocator, one pool and queue 0, both on the chosen family.
pub fn device_plan(s: &Selection) -> (r: DevicePlan)
    ensures
        r.pool_family_index == s.family_index,
        r.queue_family_index == s.family_index,
        r.queue_index == 0,
        r.request_swapchain_extension,
        !r.custom_allocator,
{
    DevicePlan {
        pool_family_index: s.family_index,
        queue_family_index: s.family_index,
        queue_index: 0,
        request_swapchain_extension: true,
        custom_allocator: false,
    }
}

/// A selected queue family is both graphics capable and able to present;
/// when no device has such a family, nothing is selected.
pub proof fn lemma_selected_queue_capable(devs: Seq<HardwareInfo>, s: Selection)
    requires
        is_first_choice(devs, s),
    ensures
        devs[s.device as int].discrete_gpu,
        devs[s.device as int].queue_families@[s.queue_family as int].graphics,
        devs[s.device as int].queue_families@[s.queue_family as int].surface_supported,
{
}

} // verus!
