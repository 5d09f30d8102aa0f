use vk_bringup::device::QueueFamilyIndices;
use vk_bringup::error::BringUpError;
use vk_bringup::error::Stage;
use vk_bringup::swapchain::choose_image_count;
use vk_bringup::swapchain::choose_present_mode;
use vk_bringup::swapchain::choose_sharing_mode;
use vk_bringup::swapchain::choose_surface_format;
use vk_bringup::swapchain::choose_swapchain_extent;
use vk_bringup::swapchain::plan_swapchain;
use vk_bringup::swapchain::Extent2D;
use vk_bringup::swapchain::SharingMode;
use vk_bringup::swapchain::SurfaceCapabilities;
use vk_bringup::swapchain::SurfaceFormat;
use vk_bringup::swapchain::FORMAT_B8G8R8A8_UNORM;
use vk_bringup::swapchain::PRESENT_MODE_FIFO;
use vk_bringup::swapchain::PRESENT_MODE_MAILBOX;

fn caps_with_extent_bounds(min: Extent2D, max: Extent2D) -> SurfaceCapabilities {
    SurfaceCapabilities {
        min_image_count: 2,
        max_image_count: 0,
        current_extent: Extent2D {
            width: u32::MAX,
            height: u32::MAX,
        },
        min_image_extent: min,
        max_image_extent: max,
    }
}

#[test]
fn preferred_format_is_picked_when_offered() {
    let formats = vec![
        SurfaceFormat {
            format: 37,
            color_space: 0,
        },
        SurfaceFormat {
            format: FORMAT_B8G8R8A8_UNORM,
            color_space: 0,
        },
    ];
    let f = choose_surface_format(&formats).expect("format");
    assert_eq!(f.format, FORMAT_B8G8R8A8_UNORM);
    assert_eq!(f.color_space, 0);
}

#[test]
fn first_format_is_the_fallback() {
    let formats = vec![
        SurfaceFormat {
            format: 37,
            color_space: 0,
        },
        SurfaceFormat {
            format: 50,
            color_space: 0,
        },
    ];
    let f = choose_surface_format(&formats).expect("format");
    assert_eq!(f.format, 37);
}

#[test]
fn zero_formats_fail_before_any_swapchain_handle() {
    let r = choose_surface_format(&Vec::new());
    assert_eq!(
        r.err(),
        Some(BringUpError::EnvironmentUnsupported(Stage::Swapchain))
    );

    let caps = caps_with_extent_bounds(
        Extent2D {
            width: 1,
            height: 1,
        },
        Extent2D {
            width: 4096,
            height: 4096,
        },
    );
    let indices = QueueFamilyIndices {
        graphics_family: 0,
        present_family: 0,
    };
    let r = plan_swapchain(&Vec::new(), &vec![PRESENT_MODE_FIFO], &caps, 800, 600, indices);
    assert_eq!(
        r.err(),
        Some(BringUpError::EnvironmentUnsupported(Stage::Swapchain))
    );
}

#[test]
fn mailbox_is_preferred_over_fifo() {
    let modes = vec![PRESENT_MODE_FIFO, PRESENT_MODE_MAILBOX];
    assert_eq!(choose_present_mode(&modes), PRESENT_MODE_MAILBOX);
}

#[test]
fn fifo_is_the_fallback_mode() {
    let modes = vec![PRESENT_MODE_FIFO, 0];
    assert_eq!(choose_present_mode(&modes), PRESENT_MODE_FIFO);
}

#[test]
fn definite_current_extent_is_used_as_is() {
    let caps = SurfaceCapabilities {
        min_image_count: 2,
        max_image_count: 3,
        current_extent: Extent2D {
            width: 1024,
            height: 768,
        },
        min_image_extent: Extent2D {
            width: 1,
            height: 1,
        },
        max_image_extent: Extent2D {
            width: 4096,
            height: 4096,
        },
    };
    let e = choose_swapchain_extent(&caps, 800, 600);
    assert_eq!(
        e,
        Extent2D {
            width: 1024,
            height: 768
        }
    );
}

#[test]
fn indefinite_extent_clamps_the_window_size() {
    let caps = caps_with_extent_bounds(
        Extent2D {
            width: 1000,
            height: 100,
        },
        Extent2D {
            width: 2000,
            height: 200,
        },
    );
    let e = choose_swapchain_extent(&caps, 800, 600);
    assert_eq!(
        e,
        Extent2D {
            width: 1000,
            height: 200
        }
    );
}

#[test]
fn degenerate_extent_bounds_pin_the_extent() {
    let caps = caps_with_extent_bounds(
        Extent2D {
            width: 1280,
            height: 720,
        },
        Extent2D {
            width: 1280,
            height: 720,
        },
    );
    let e = choose_swapchain_extent(&caps, 800, 600);
    assert_eq!(
        e,
        Extent2D {
            width: 1280,
            height: 720
        }
    );
}

#[test]
fn image_count_is_one_over_the_minimum() {
    let mut caps = caps_with_extent_bounds(
        Extent2D {
            width: 1,
            height: 1,
        },
        Extent2D {
            width: 4096,
            height: 4096,
        },
    );
    caps.min_image_count = 2;
    caps.max_image_count = 0; // unbounded
    assert_eq!(choose_image_count(&caps), 3);
}

#[test]
fn image_count_is_clamped_to_a_bounded_maximum() {
    let mut caps = caps_with_extent_bounds(
        Extent2D {
            width: 1,
            height: 1,
        },
        Extent2D {
            width: 4096,
            height: 4096,
        },
    );
    caps.min_image_count = 3;
    caps.max_image_count = 3;
    assert_eq!(choose_image_count(&caps), 3);
}

#[test]
fn sharing_mode_follows_family_distinctness() {
    assert_eq!(
        choose_sharing_mode(QueueFamilyIndices {
            graphics_family: 0,
            present_family: 0,
        }),
        SharingMode::Exclusive
    );
    assert_eq!(
        choose_sharing_mode(QueueFamilyIndices {
            graphics_family: 0,
            present_family: 1,
        }),
        SharingMode::Concurrent
    );
}

#[test]
fn full_negotiation_combines_every_choice() {
    let formats = vec![SurfaceFormat {
        format: 37,
        color_space: 0,
    }];
    let modes = vec![PRESENT_MODE_FIFO, PRESENT_MODE_MAILBOX];
    let caps = SurfaceCapabilities {
        min_image_count: 2,
        max_image_count: 2,
        current_extent: Extent2D {
            width: u32::MAX,
            height: u32::MAX,
        },
        min_image_extent: Extent2D {
            width: 100,
            height: 100,
        },
        max_image_extent: Extent2D {
            width: 700,
            height: 700,
        },
    };
    let indices = QueueFamilyIndices {
        graphics_family: 1,
        present_family: 2,
    };
    let plan = plan_swapchain(&formats, &modes, &caps, 800, 600, indices).expect("plan");
    assert_eq!(plan.format.format, 37);
    assert_eq!(plan.present_mode, PRESENT_MODE_MAILBOX);
    assert_eq!(
        plan.extent,
        Extent2D {
            width: 700,
            height: 600
        }
    );
    assert_eq!(plan.image_count, 2);
    assert_eq!(plan.sharing_mode, SharingMode::Concurrent);
    assert_eq!(plan.shared_queue_families, vec![1, 2]);
}
