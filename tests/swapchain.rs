use rusty_games::{
    plan_swapchain, Extent2D, QueueFamilyIndicies, SetupError, SurfaceCapabilities,
    SurfaceFormat, SwapChainSupportDetails, COLOR_SPACE_SRGB_NONLINEAR, FORMAT_B8G8R8A8_SRGB,
    PRESENT_MODE_FIFO, PRESENT_MODE_MAILBOX,
};

const FORMAT_R16G16B16A16_SFLOAT: i32 = 97;
const FORMAT_R8G8B8A8_UNORM: i32 = 37;
const COLOR_SPACE_EXTENDED_SRGB_LINEAR: i32 = 1000104002;
const PRESENT_MODE_IMMEDIATE: i32 = 0;

fn extent(width: u32, height: u32) -> Extent2D {
    Extent2D { width, height }
}

fn caps(min_count: u32, max_count: u32, current: Extent2D) -> SurfaceCapabilities {
    SurfaceCapabilities {
        min_image_count: min_count,
        max_image_count: max_count,
        current_extent: current,
        min_image_extent: extent(1, 1),
        max_image_extent: extent(4096, 4096),
        current_transform: 1,
    }
}

fn details(formats: Vec<SurfaceFormat>, modes: Vec<i32>) -> SwapChainSupportDetails {
    SwapChainSupportDetails::new(caps(2, 8, extent(800, 600)), formats, modes)
}

#[test]
fn format_selection_prefers_bgra_srgb_and_is_pure() {
    let formats = vec![
        SurfaceFormat { format: FORMAT_B8G8R8A8_SRGB, color_space: COLOR_SPACE_SRGB_NONLINEAR },
        SurfaceFormat {
            format: FORMAT_R16G16B16A16_SFLOAT,
            color_space: COLOR_SPACE_EXTENDED_SRGB_LINEAR,
        },
    ];
    let d = details(formats.clone(), vec![PRESENT_MODE_FIFO]);
    let first = d.choose_swap_surface_format();
    assert_eq!(first, formats[0]);
    assert_eq!(d.choose_swap_surface_format(), first);
    let again = details(formats.clone(), vec![PRESENT_MODE_FIFO]);
    assert_eq!(again.choose_swap_surface_format(), first);
}

#[test]
fn format_selection_finds_preferred_pair_later_in_list() {
    let formats = vec![
        SurfaceFormat { format: FORMAT_R8G8B8A8_UNORM, color_space: COLOR_SPACE_SRGB_NONLINEAR },
        SurfaceFormat { format: FORMAT_B8G8R8A8_SRGB, color_space: COLOR_SPACE_SRGB_NONLINEAR },
    ];
    let d = details(formats, vec![PRESENT_MODE_FIFO]);
    assert_eq!(
        d.choose_swap_surface_format(),
        SurfaceFormat { format: FORMAT_B8G8R8A8_SRGB, color_space: COLOR_SPACE_SRGB_NONLINEAR }
    );
}

#[test]
fn format_selection_falls_back_to_first_srgb() {
    let formats = vec![
        SurfaceFormat {
            format: FORMAT_R16G16B16A16_SFLOAT,
            color_space: COLOR_SPACE_EXTENDED_SRGB_LINEAR,
        },
        SurfaceFormat { format: FORMAT_R8G8B8A8_UNORM, color_space: COLOR_SPACE_SRGB_NONLINEAR },
        SurfaceFormat { format: 44, color_space: COLOR_SPACE_SRGB_NONLINEAR },
    ];
    let d = details(formats.clone(), vec![PRESENT_MODE_FIFO]);
    assert_eq!(d.choose_swap_surface_format(), formats[1]);
}

#[test]
fn format_selection_falls_back_to_first_format() {
    let formats = vec![
        SurfaceFormat { format: FORMAT_R16G16B16A16_SFLOAT, color_space: 1000104002 },
        SurfaceFormat { format: FORMAT_B8G8R8A8_SRGB, color_space: 1000104001 },
    ];
    let d = details(formats.clone(), vec![PRESENT_MODE_FIFO]);
    assert_eq!(d.choose_swap_surface_format(), formats[0]);
}

#[test]
fn extent_is_clamped_when_undefined() {
    let d = SwapChainSupportDetails::new(
        caps(2, 8, extent(u32::MAX, u32::MAX)),
        vec![],
        vec![],
    );
    assert_eq!(d.choose_swap_extent(extent(9000, 50)), extent(4096, 50));
    assert_eq!(d.choose_swap_extent(extent(0, 0)), extent(1, 1));
    assert_eq!(d.choose_swap_extent(extent(640, 480)), extent(640, 480));
}

#[test]
fn extent_uses_current_extent_when_defined() {
    let d = SwapChainSupportDetails::new(caps(2, 8, extent(800, 600)), vec![], vec![]);
    assert_eq!(d.choose_swap_extent(extent(9000, 50)), extent(800, 600));
}

#[test]
fn image_count_within_declared_bounds() {
    let d = SwapChainSupportDetails::new(caps(2, 8, extent(800, 600)), vec![], vec![]);
    let count = d.get_image_count();
    assert!(2 <= count && count <= 8);
    assert_eq!(count, 3);
}

#[test]
fn image_count_without_maximum_is_one_more_than_minimum() {
    let d = SwapChainSupportDetails::new(caps(2, 0, extent(800, 600)), vec![], vec![]);
    assert_eq!(d.get_image_count(), 3);
}

#[test]
fn image_count_capped_by_equal_maximum() {
    let d = SwapChainSupportDetails::new(caps(3, 3, extent(800, 600)), vec![], vec![]);
    assert_eq!(d.get_image_count(), 3);
}

#[test]
fn present_mode_falls_back_to_fifo() {
    let d = details(vec![], vec![PRESENT_MODE_FIFO]);
    assert_eq!(d.choose_swap_present_mode(), PRESENT_MODE_FIFO);
    let d = details(vec![], vec![PRESENT_MODE_IMMEDIATE, PRESENT_MODE_FIFO]);
    assert_eq!(d.choose_swap_present_mode(), PRESENT_MODE_FIFO);
}

#[test]
fn present_mode_prefers_mailbox() {
    let d = details(vec![], vec![PRESENT_MODE_FIFO, PRESENT_MODE_MAILBOX]);
    assert_eq!(d.choose_swap_present_mode(), PRESENT_MODE_MAILBOX);
}

#[test]
fn swapchain_support_needs_a_format_and_a_mode() {
    let f = SurfaceFormat { format: FORMAT_B8G8R8A8_SRGB, color_space: COLOR_SPACE_SRGB_NONLINEAR };
    assert!(details(vec![f], vec![PRESENT_MODE_FIFO]).supports_swapchain());
    assert!(!details(vec![], vec![PRESENT_MODE_FIFO]).supports_swapchain());
    assert!(!details(vec![f], vec![]).supports_swapchain());
}

fn families(g: Option<usize>, p: Option<usize>) -> QueueFamilyIndicies {
    QueueFamilyIndicies { graphics_family: g, present_family: p }
}

#[test]
fn plan_swapchain_negotiates_everything() {
    let f = SurfaceFormat { format: FORMAT_B8G8R8A8_SRGB, color_space: COLOR_SPACE_SRGB_NONLINEAR };
    let d = SwapChainSupportDetails::new(
        caps(2, 8, extent(u32::MAX, u32::MAX)),
        vec![f],
        vec![PRESENT_MODE_MAILBOX],
    );
    let plan = plan_swapchain(&d, &families(Some(0), Some(0)), extent(9000, 50)).unwrap();
    assert_eq!(plan.image_count, 3);
    assert_eq!(plan.surface_format, f);
    assert_eq!(plan.present_mode, PRESENT_MODE_MAILBOX);
    assert_eq!(plan.extent, extent(4096, 50));
    assert_eq!(plan.pre_transform, 1);
    assert!(plan.concurrent_families.is_empty());

    let plan = plan_swapchain(&d, &families(Some(0), Some(2)), extent(10, 10)).unwrap();
    assert_eq!(plan.concurrent_families, vec![0, 2]);
}

#[test]
fn plan_swapchain_reports_missing_queues_and_unusable_surfaces() {
    let f = SurfaceFormat { format: FORMAT_B8G8R8A8_SRGB, color_space: COLOR_SPACE_SRGB_NONLINEAR };
    let d = SwapChainSupportDetails::new(caps(2, 8, extent(800, 600)), vec![f], vec![]);
    let e = plan_swapchain(&d, &families(None, Some(0)), extent(1, 1)).err();
    assert_eq!(e, Some(SetupError::NoGraphicsQueue));
    let e = plan_swapchain(&d, &families(Some(0), None), extent(1, 1)).err();
    assert_eq!(e, Some(SetupError::NoPresentQueue));

    let no_formats = SwapChainSupportDetails::new(caps(2, 8, extent(800, 600)), vec![], vec![]);
    let e = plan_swapchain(&no_formats, &families(Some(0), Some(0)), extent(1, 1)).err();
    assert_eq!(e, Some(SetupError::UnsupportedSurface));

    let huge = SwapChainSupportDetails::new(caps(u32::MAX, 0, extent(800, 600)), vec![f], vec![]);
    let e = plan_swapchain(&huge, &families(Some(0), Some(0)), extent(1, 1)).err();
    assert_eq!(e, Some(SetupError::UnsupportedSurface));
}
