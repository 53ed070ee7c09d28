use vkrender::error::SetupError;
use vkrender::selection::{
    device_extensions, device_plan, instance_extensions, select_device, HardwareInfo,
    QueueFamilyInfo, Selection, DEBUG_EXT_NAME, SURFACE_EXT_NAME, SWAPCHAIN_EXT_NAME,
};

fn queue(index: u32, graphics: bool, surface_supported: bool) -> QueueFamilyInfo {
    QueueFamilyInfo { index, graphics, surface_supported }
}

fn device(discrete_gpu: bool, queue_families: Vec<QueueFamilyInfo>) -> HardwareInfo {
    HardwareInfo { discrete_gpu, queue_families }
}

#[test]
fn empty_hardware_list_is_refused() {
    assert_eq!(select_device(&vec![]), Err(SetupError::NoHardware));
}

#[test]
fn integrated_gpu_is_never_chosen() {
    let devs = vec![device(false, vec![queue(0, true, true)])];
    assert_eq!(select_device(&devs), Err(SetupError::NoSuitableDevice));
}

#[test]
fn discrete_gpu_without_present_queue_is_refused() {
    let devs = vec![device(true, vec![queue(0, true, false), queue(1, false, true)])];
    assert_eq!(select_device(&devs), Err(SetupError::NoSuitableDevice));
}

#[test]
fn first_suitable_device_and_queue_are_chosen() {
    let devs = vec![
        device(false, vec![queue(0, true, true)]),
        device(true, vec![queue(0, true, false)]),
        device(true, vec![queue(0, false, true), queue(3, true, true), queue(5, true, true)]),
        device(true, vec![queue(0, true, true)]),
    ];
    let s = select_device(&devs).unwrap();
    assert_eq!(s, Selection { device: 2, queue_family: 1, family_index: 3 });
    let q = devs[s.device].queue_families[s.queue_family];
    assert!(q.graphics && q.surface_supported);
}

#[test]
fn device_plan_uses_queue_zero_of_chosen_family() {
    let s = Selection { device: 0, queue_family: 1, family_index: 7 };
    let p = device_plan(&s);
    assert_eq!(p.pool_family_index, 7);
    assert_eq!(p.queue_family_index, 7);
    assert_eq!(p.queue_index, 0);
    assert!(p.request_swapchain_extension);
    assert!(!p.custom_allocator);
}

#[test]
fn instance_extensions_append_debug_and_surface() {
    let r = instance_extensions(vec!["VK_KHR_xlib_surface"]);
    assert_eq!(r, vec!["VK_KHR_xlib_surface", DEBUG_EXT_NAME, SURFACE_EXT_NAME]);
    assert_eq!(r[1], "VK_EXT_debug_utils");
    assert_eq!(r[2], "VK_KHR_surface");
}

#[test]
fn device_extensions_are_swapchain_only() {
    assert_eq!(device_extensions(), vec![SWAPCHAIN_EXT_NAME]);
    assert_eq!(SWAPCHAIN_EXT_NAME, "VK_KHR_swapchain");
}
