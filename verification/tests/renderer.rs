use hobby::error::HobbyError;
use hobby::graphics::base::{
    debug_report_level, get_graphics_queue_family, get_present_queue_family, queue_create_plan,
    LogLevel,
};
use hobby::renderer::base::{
    check_device_extension_support, check_validation_layer_support, device_extensions,
    find_queue_families, get_required_extensions, instance_layers, is_device_suitable,
    pick_physical_device, unique_queue_families, validation_layers, QueueFamilyIndices,
};
use hobby::renderer::frame::{
    find_memory_type, next_frame, on_acquire, on_present, AcquireOutcome, ERROR_OUT_OF_DATE,
    SUBOPTIMAL,
};
use hobby::renderer::swapchain::{
    choose_pre_transform, get_present_mode, get_surface_format, swapchain_image_count,
    SurfaceFormat, PRESENT_MODE_FIFO, PRESENT_MODE_IMMEDIATE, PRESENT_MODE_MAILBOX,
};

fn names(list: &[&str]) -> Vec<String> {
    list.iter().map(|s| s.to_string()).collect()
}

#[test]
fn queue_family_indices_start_empty() {
    let indices = QueueFamilyIndices::new();
    assert_eq!((indices.graphics_family, indices.present_family), (-1, -1));
    assert!(!indices.is_complete());
}

#[test]
fn find_queue_families_stops_when_complete() {
    // family 0: graphics only; family 1: present only; family 2: both
    let indices = find_queue_families(&vec![true, false, true], &vec![false, true, true]);
    assert_eq!((indices.graphics_family, indices.present_family), (0, 1));
    assert!(indices.is_complete());
}

#[test]
fn find_queue_families_same_family() {
    let indices = find_queue_families(&vec![false, true], &vec![false, true]);
    assert_eq!((indices.graphics_family, indices.present_family), (1, 1));
}

#[test]
fn find_queue_families_incomplete() {
    let indices = find_queue_families(&vec![true, true, false], &vec![false, false, false]);
    assert_eq!((indices.graphics_family, indices.present_family), (1, -1));
    assert!(!indices.is_complete());
    let none = find_queue_families(&vec![], &vec![]);
    assert_eq!((none.graphics_family, none.present_family), (-1, -1));
}

#[test]
fn device_suitability() {
    let complete = QueueFamilyIndices { graphics_family: 0, present_family: 1 };
    assert!(is_device_suitable(&complete, true, 1, 2));
    assert!(!is_device_suitable(&complete, false, 1, 2));
    assert!(!is_device_suitable(&complete, true, 0, 2));
    assert!(!is_device_suitable(&complete, true, 1, 0));
    let incomplete = QueueFamilyIndices { graphics_family: 0, present_family: -1 };
    assert!(!is_device_suitable(&incomplete, true, 1, 1));
}

#[test]
fn pick_first_suitable_device() {
    assert_eq!(pick_physical_device(&vec![false, true, true]).unwrap(), 1);
    assert!(matches!(
        pick_physical_device(&vec![false, false]),
        Err(HobbyError::NoSuitablePhysicalDevice)
    ));
}

#[test]
fn unique_families() {
    let same = QueueFamilyIndices { graphics_family: 2, present_family: 2 };
    assert_eq!(unique_queue_families(&same), vec![2]);
    let different = QueueFamilyIndices { graphics_family: 0, present_family: 3 };
    assert_eq!(unique_queue_families(&different), vec![0, 3]);
}

#[test]
fn layer_and_extension_checks() {
    assert_eq!(validation_layers(), names(&["VK_LAYER_LUNARG_standard_validation"]));
    assert_eq!(device_extensions(), names(&["VK_KHR_swapchain"]));
    assert!(check_validation_layer_support(&names(&[
        "VK_LAYER_KHRONOS_validation",
        "VK_LAYER_LUNARG_standard_validation"
    ])));
    assert!(!check_validation_layer_support(&names(&["VK_LAYER_KHRONOS_validation"])));
    assert!(check_device_extension_support(&names(&["VK_KHR_maintenance1", "VK_KHR_swapchain"])));
    assert!(!check_device_extension_support(&names(&[])));
}

#[test]
fn instance_layer_decision() {
    assert!(matches!(instance_layers(true), Err(HobbyError::ValidationLayersUnavailable)));
    assert_eq!(instance_layers(false).unwrap(), Vec::<String>::new());
}

#[test]
fn required_instance_extensions() {
    let exts = get_required_extensions(&names(&["VK_KHR_surface", "VK_KHR_xlib_surface"]));
    assert_eq!(exts, names(&["VK_KHR_surface", "VK_KHR_xlib_surface", "VK_EXT_debug_report"]));
    let already = get_required_extensions(&names(&["VK_EXT_debug_report"]));
    assert_eq!(already, names(&["VK_EXT_debug_report"]));
}

#[test]
fn queue_plan() {
    let shared = queue_create_plan(1, 1);
    assert_eq!(shared.len(), 1);
    assert_eq!((shared[0].queue_family_index, shared[0].queue_count), (1, 2));
    let split = queue_create_plan(0, 2);
    assert_eq!(split.len(), 2);
    assert_eq!((split[0].queue_family_index, split[0].queue_count), (0, 1));
    assert_eq!((split[1].queue_family_index, split[1].queue_count), (2, 1));
}

#[test]
fn graphics_and_present_families() {
    // transfer only, compute only, graphics + compute
    assert_eq!(get_graphics_queue_family(&vec![0x4, 0x2, 0x3]).unwrap(), 2);
    assert!(matches!(
        get_graphics_queue_family(&vec![0x4, 0x2]),
        Err(HobbyError::NoGraphicsQueueFamily)
    ));
    assert_eq!(get_present_queue_family(&vec![false, false, true]).unwrap(), 2);
    assert!(matches!(get_present_queue_family(&vec![]), Err(HobbyError::NoPresentQueueFamily)));
}

#[test]
fn debug_report_levels() {
    assert_eq!(debug_report_level(0x1), Some(LogLevel::Info));
    assert_eq!(debug_report_level(0x4 | 0x8), Some(LogLevel::Info));
    assert_eq!(debug_report_level(0x2 | 0x8), Some(LogLevel::Warn));
    assert_eq!(debug_report_level(0x10), Some(LogLevel::Debug));
    assert_eq!(debug_report_level(0x8), Some(LogLevel::Error));
    assert_eq!(debug_report_level(0), None);
}

#[test]
fn memory_type_search() {
    let host_visible_coherent = 0x2 | 0x4;
    let flags = vec![0x1, 0x2, 0x6, 0x7];
    // type 2 is the first with both properties, but the filter only allows 1 and 3
    assert_eq!(find_memory_type(0b1010, &flags, host_visible_coherent).unwrap(), 3);
    assert_eq!(find_memory_type(0b1111, &flags, host_visible_coherent).unwrap(), 2);
    assert_eq!(find_memory_type(0b0001, &flags, 0x1).unwrap(), 0);
    match find_memory_type(0b0011, &flags, host_visible_coherent) {
        Err(HobbyError::NoSuitableMemoryType { type_filter, required_properties }) => {
            assert_eq!((type_filter, required_properties), (0b0011, 0x6));
        }
        _ => panic!("expected no suitable memory type"),
    }
}

#[test]
fn acquire_outcomes() {
    assert_eq!(on_acquire(Ok(2)).unwrap(), AcquireOutcome::Render(2));
    assert_eq!(on_acquire(Err(ERROR_OUT_OF_DATE)).unwrap(), AcquireOutcome::RecreateSwapchain);
    assert!(matches!(on_acquire(Err(-4)), Err(HobbyError::AcquireImageFailed)));
}

#[test]
fn present_outcomes() {
    assert_eq!(on_present(Ok(false), false).unwrap(), false);
    assert_eq!(on_present(Ok(true), true).unwrap(), true);
    assert_eq!(on_present(Err(ERROR_OUT_OF_DATE), false).unwrap(), true);
    assert_eq!(on_present(Err(SUBOPTIMAL), false).unwrap(), true);
    assert!(matches!(on_present(Err(-3), true), Err(HobbyError::QueuePresentFailed)));
}

#[test]
fn frames_take_turns() {
    assert_eq!(next_frame(0), 1);
    assert_eq!(next_frame(1), 0);
}

#[test]
fn swapchain_choices() {
    assert_eq!(swapchain_image_count(2, 0), 3);
    assert_eq!(swapchain_image_count(2, 8), 3);
    assert_eq!(swapchain_image_count(3, 3), 3);
    assert_eq!(choose_pre_transform(0x1 | 0x2, 0x2), 0x1);
    assert_eq!(choose_pre_transform(0x2, 0x2), 0x2);
    assert_eq!(get_present_mode(&vec![PRESENT_MODE_FIFO, PRESENT_MODE_IMMEDIATE]), PRESENT_MODE_IMMEDIATE);
    assert_eq!(
        get_present_mode(&vec![PRESENT_MODE_IMMEDIATE, PRESENT_MODE_MAILBOX]),
        PRESENT_MODE_MAILBOX
    );
    assert_eq!(get_present_mode(&vec![]), PRESENT_MODE_FIFO);
    let formats = vec![
        SurfaceFormat { format: 44, color_space: 0 },
        SurfaceFormat { format: 50, color_space: 0 },
    ];
    assert_eq!(get_surface_format(&formats), SurfaceFormat { format: 44, color_space: 0 });
}
