use wknup::swapchain::{
    check_surface_info, choose_format, choose_image_count, choose_present_mode,
    choose_swap_extent, choose_transform, SharingMode, Swapchain, SwapchainManager,
};
use wknup::surface::{
    Extent2d, PhysicalDeviceSurfaceInfo, SurfaceCapabilities, SurfaceFormat,
    COLOR_SPACE_SRGB_NONLINEAR, FORMAT_B8G8R8A8_SRGB, FORMAT_R8G8B8A8_UNORM,
    PRESENT_MODE_FIFO, PRESENT_MODE_IMMEDIATE, PRESENT_MODE_MAILBOX,
};

fn capabilities(min_image_count: u32, max_image_count: u32) -> SurfaceCapabilities {
    SurfaceCapabilities {
        min_image_count,
        max_image_count,
        current_extent: Extent2d { width: 800, height: 600 },
        current_transform: 1,
    }
}

#[test]
fn format_choice_takes_first_target_entry() {
    // a surface reporting an RGBA unorm format first and the BGRA sRGB
    // format second: the second entry is chosen
    let formats = vec![
        SurfaceFormat { format: FORMAT_R8G8B8A8_UNORM, color_space: COLOR_SPACE_SRGB_NONLINEAR },
        SurfaceFormat { format: FORMAT_B8G8R8A8_SRGB, color_space: COLOR_SPACE_SRGB_NONLINEAR },
    ];
    let chosen = choose_format(&formats).unwrap();
    assert_eq!(chosen, formats[1]);
}

#[test]
fn format_choice_requires_both_format_and_color_space() {
    let formats = vec![SurfaceFormat { format: FORMAT_B8G8R8A8_SRGB, color_space: 7 }];
    assert!(choose_format(&formats).is_none());
    assert!(choose_format(&Vec::new()).is_none());
}

#[test]
fn present_mode_choice_takes_fifo_only() {
    let modes = vec![PRESENT_MODE_IMMEDIATE, PRESENT_MODE_MAILBOX, PRESENT_MODE_FIFO];
    assert_eq!(choose_present_mode(&modes), Some(PRESENT_MODE_FIFO));
    assert_eq!(choose_present_mode(&vec![PRESENT_MODE_MAILBOX]), None);
}

#[test]
fn selection_is_idempotent_and_deterministic() {
    let formats = vec![
        SurfaceFormat { format: FORMAT_R8G8B8A8_UNORM, color_space: COLOR_SPACE_SRGB_NONLINEAR },
        SurfaceFormat { format: FORMAT_B8G8R8A8_SRGB, color_space: COLOR_SPACE_SRGB_NONLINEAR },
    ];
    let modes = vec![PRESENT_MODE_MAILBOX, PRESENT_MODE_FIFO];
    assert_eq!(choose_format(&formats), choose_format(&formats));
    assert_eq!(choose_present_mode(&modes), choose_present_mode(&modes));
}

#[test]
fn image_count_is_min_plus_one_clamped_by_cap() {
    // an uncapped surface (max of zero) yields one more than the minimum; a
    // cap of 2 clamps the choice to 2
    assert_eq!(choose_image_count(&capabilities(2, 0)), 3);
    assert_eq!(choose_image_count(&capabilities(2, 2)), 2);
    assert_eq!(choose_image_count(&capabilities(2, 5)), 3);
}

#[test]
fn extent_and_transform_pass_through() {
    let caps = capabilities(2, 0);
    assert_eq!(choose_swap_extent(&caps), Extent2d { width: 800, height: 600 });
    assert_eq!(choose_transform(&caps), 1);
}

#[test]
fn surface_usability_needs_format_and_mode() {
    let usable = PhysicalDeviceSurfaceInfo {
        capabilities: capabilities(2, 0),
        formats: vec![SurfaceFormat {
            format: FORMAT_B8G8R8A8_SRGB,
            color_space: COLOR_SPACE_SRGB_NONLINEAR,
        }],
        present_modes: vec![PRESENT_MODE_FIFO],
    };
    assert!(check_surface_info(&usable));
    let mut no_format = usable.clone();
    no_format.formats = Vec::new();
    assert!(!check_surface_info(&no_format));
    let mut no_mode = usable.clone();
    no_mode.present_modes = vec![PRESENT_MODE_MAILBOX];
    assert!(!check_surface_info(&no_mode));
}

#[test]
fn swapchain_plan_exclusive_when_families_shared() {
    let info = PhysicalDeviceSurfaceInfo {
        capabilities: capabilities(2, 0),
        formats: vec![SurfaceFormat {
            format: FORMAT_B8G8R8A8_SRGB,
            color_space: COLOR_SPACE_SRGB_NONLINEAR,
        }],
        present_modes: vec![PRESENT_MODE_FIFO],
    };
    let plan = SwapchainManager::new(0, 0).create_swapchain(&info).unwrap();
    assert_eq!(plan.sharing_mode, SharingMode::Exclusive);
    assert!(plan.queue_family_indices.is_empty());
    assert_eq!(plan.min_image_count, 3);
    assert_eq!(plan.extent, Extent2d { width: 800, height: 600 });
    assert_eq!(plan.pre_transform, 1);
    assert_eq!(plan.present_mode, PRESENT_MODE_FIFO);
    assert_eq!(plan.format.format, FORMAT_B8G8R8A8_SRGB);

    let concurrent = SwapchainManager::new(0, 1).create_swapchain(&info).unwrap();
    assert_eq!(concurrent.sharing_mode, SharingMode::Concurrent);
    assert_eq!(concurrent.queue_family_indices, vec![0, 1]);
}

#[test]
fn swapchain_plan_fails_on_unusable_surface() {
    let info = PhysicalDeviceSurfaceInfo {
        capabilities: capabilities(2, 0),
        formats: Vec::new(),
        present_modes: vec![PRESENT_MODE_FIFO],
    };
    assert!(SwapchainManager::new(0, 0).create_swapchain(&info).is_err());
    assert_eq!(
        wknup::swapchain::InvalidSwapchainError.message(),
        "the swapchain SwapchainManager currently has is missing or invalid"
    );
}

#[test]
fn swapchain_keeps_one_view_per_image() {
    let info = PhysicalDeviceSurfaceInfo {
        capabilities: capabilities(2, 0),
        formats: vec![SurfaceFormat {
            format: FORMAT_B8G8R8A8_SRGB,
            color_space: COLOR_SPACE_SRGB_NONLINEAR,
        }],
        present_modes: vec![PRESENT_MODE_FIFO],
    };
    let plan = SwapchainManager::new(0, 0).create_swapchain(&info).unwrap();
    let swapchain = Swapchain::new(&plan, 3);
    assert_eq!(swapchain.image_count, 3);
    assert_eq!(swapchain.view_count, 3);
    assert_eq!(swapchain.get_format().format, FORMAT_B8G8R8A8_SRGB);
    let (viewport, scissor) = swapchain.make_viewport().unwrap();
    assert_eq!(viewport, Extent2d { width: 800, height: 600 });
    assert_eq!(scissor, viewport);
}
