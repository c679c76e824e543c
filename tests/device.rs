use rusty_games::{
    check_extensions_supported, find_queue_families, get_device_extension_names, get_names,
    get_required_instance_extensions, get_validation_layers, pick_physical_device,
    queue_family_index_for, queue_family_supports, Extent2D, PhysicalDeviceSurface,
    QueueFamilyIndicies, SetupError, SurfaceCapabilities, SurfaceFormat, SwapChainSupportDetails,
    COLOR_SPACE_SRGB_NONLINEAR, FORMAT_B8G8R8A8_SRGB, PRESENT_MODE_FIFO, QUEUE_GRAPHICS_BIT,
};

const COMPUTE: u32 = 0b10;
const TRANSFER: u32 = 0b100;

fn names(list: &[&str]) -> Vec<String> {
    list.iter().map(|s| s.to_string()).collect()
}

#[test]
fn queue_families_pick_first_matches() {
    let flags = vec![TRANSFER, COMPUTE | QUEUE_GRAPHICS_BIT, QUEUE_GRAPHICS_BIT];
    let present = vec![false, false, true];
    let f = find_queue_families(&flags, &present);
    assert_eq!(f.graphics_family, Some(1));
    assert_eq!(f.present_family, Some(2));
    assert!(f.is_complete());
    assert_eq!(f.require_complete(), Ok((1, 2)));
    assert_eq!(f.unique_queue_families(), vec![1, 2]);
}

#[test]
fn queue_families_missing() {
    let f = find_queue_families(&vec![TRANSFER, COMPUTE], &vec![true, true]);
    assert_eq!(f.graphics_family, None);
    assert_eq!(f.present_family, Some(0));
    assert!(!f.is_complete());
    assert_eq!(f.require_complete(), Err(SetupError::NoGraphicsQueue));

    let f = find_queue_families(&vec![QUEUE_GRAPHICS_BIT], &vec![false]);
    assert_eq!(f.graphics_family, Some(0));
    assert_eq!(f.present_family, None);
    assert_eq!(f.require_complete(), Err(SetupError::NoPresentQueue));

    let f = find_queue_families(&vec![], &vec![]);
    assert!(!f.is_complete());
}

#[test]
fn shared_family_is_created_once() {
    let f = QueueFamilyIndicies { graphics_family: Some(3), present_family: Some(3) };
    assert_eq!(f.unique_queue_families(), vec![3]);
}

#[test]
fn queue_flag_lookup() {
    let flags = vec![QUEUE_GRAPHICS_BIT, COMPUTE | TRANSFER, TRANSFER];
    assert_eq!(queue_family_index_for(&flags, TRANSFER), Some(1));
    assert_eq!(queue_family_index_for(&flags, COMPUTE | TRANSFER), Some(1));
    assert_eq!(queue_family_index_for(&flags, 0b1000), None);
    assert!(queue_family_supports(&flags, COMPUTE));
    assert!(!queue_family_supports(&flags, 0b1000));
}

#[test]
fn extension_names_come_from_the_backend_headers() {
    assert_eq!(get_device_extension_names(), names(&["VK_KHR_swapchain"]));
    assert_eq!(get_names(true), names(&["VK_EXT_debug_utils"]));
    assert!(get_names(false).is_empty());
}

#[test]
fn validation_layers_follow_configuration() {
    assert_eq!(get_validation_layers(true), vec!["VK_LAYER_KHRONOS_validation"]);
    assert!(get_validation_layers(false).is_empty());
}

#[test]
fn instance_extensions_append_validation() {
    let window = names(&["VK_KHR_surface", "VK_KHR_xcb_surface"]);
    assert_eq!(
        get_required_instance_extensions(window.clone(), true),
        names(&["VK_KHR_surface", "VK_KHR_xcb_surface", "VK_EXT_debug_utils"])
    );
    assert_eq!(get_required_instance_extensions(window.clone(), false), window);
}

#[test]
fn extension_support_check() {
    let available = names(&["VK_KHR_maintenance1", "VK_KHR_swapchain"]);
    assert!(check_extensions_supported(&available, &names(&["VK_KHR_swapchain"])));
    assert!(check_extensions_supported(&available, &vec![]));
    assert!(!check_extensions_supported(&available, &names(&["VK_KHR_swapchain", "VK_X"])));
    assert!(!check_extensions_supported(&vec![], &names(&["VK_KHR_swapchain"])));
}

fn support(with_format: bool, with_mode: bool) -> SwapChainSupportDetails {
    let e = Extent2D { width: 800, height: 600 };
    let caps = SurfaceCapabilities {
        min_image_count: 2,
        max_image_count: 0,
        current_extent: e,
        min_image_extent: e,
        max_image_extent: e,
        current_transform: 1,
    };
    let f = SurfaceFormat { format: FORMAT_B8G8R8A8_SRGB, color_space: COLOR_SPACE_SRGB_NONLINEAR };
    SwapChainSupportDetails::new(
        caps,
        if with_format { vec![f] } else { vec![] },
        if with_mode { vec![PRESENT_MODE_FIFO] } else { vec![] },
    )
}

fn candidate(complete: bool, exts: &[&str], fmt: bool, mode: bool) -> PhysicalDeviceSurface {
    let families = QueueFamilyIndicies {
        graphics_family: Some(0),
        present_family: if complete { Some(0) } else { None },
    };
    PhysicalDeviceSurface::new(families, names(exts), support(fmt, mode))
}

#[test]
fn suitability_needs_all_three() {
    assert!(candidate(true, &["VK_KHR_swapchain"], true, true).is_suitable());
    assert!(!candidate(false, &["VK_KHR_swapchain"], true, true).is_suitable());
    assert!(!candidate(true, &["VK_KHR_maintenance1"], true, true).is_suitable());
    assert!(!candidate(true, &["VK_KHR_swapchain"], false, true).is_suitable());
    assert!(!candidate(true, &["VK_KHR_swapchain"], true, false).is_suitable());
}

#[test]
fn first_suitable_adapter_is_picked() {
    let candidates = vec![
        candidate(false, &["VK_KHR_swapchain"], true, true),
        candidate(true, &["VK_KHR_swapchain"], true, true),
        candidate(true, &["VK_KHR_swapchain"], true, true),
    ];
    assert_eq!(pick_physical_device(&candidates), Ok(1));
    let chosen = &candidates[1];
    assert_eq!(chosen.get_queue_family_indicies().present_family, Some(0));
    assert!(chosen.get_swapchain_support_details().supports_swapchain());
}

#[test]
fn no_suitable_adapter() {
    let candidates = vec![candidate(true, &[], true, true)];
    assert_eq!(pick_physical_device(&candidates), Err(SetupError::NoSuitableAdapter));
    assert_eq!(pick_physical_device(&vec![]), Err(SetupError::NoSuitableAdapter));
}
