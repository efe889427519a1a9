use vulkan_vibe::swapchain::{
    choose_present_mode, clamp_image_count, plan_swapchain, resolve_extent, teardown_actions,
    Extent2D, GpuAction, PresentMode, SurfaceCapabilities, SurfaceFormat, SwapchainError,
    SwapchainResources, EXTENT_DECIDED_BY_WINDOW,
};

fn caps(min: u32, max: u32, extent: Extent2D) -> SurfaceCapabilities {
    SurfaceCapabilities {
        min_image_count: min,
        max_image_count: max,
        current_extent: extent,
        current_transform: 1,
    }
}

const FMT: SurfaceFormat = SurfaceFormat { format: 44, color_space: 0 };

#[test]
fn prefers_mailbox_when_offered() {
    let modes = vec![PresentMode::Fifo, PresentMode::Mailbox, PresentMode::Immediate];
    assert_eq!(choose_present_mode(&modes), PresentMode::Mailbox);
}

#[test]
fn falls_back_to_immediate() {
    let modes = vec![PresentMode::Fifo, PresentMode::Other];
    assert_eq!(choose_present_mode(&modes), PresentMode::Immediate);
    assert_eq!(choose_present_mode(&Vec::new()), PresentMode::Immediate);
}

#[test]
fn window_decides_extent_on_sentinel() {
    let c = caps(2, 0, Extent2D { width: EXTENT_DECIDED_BY_WINDOW, height: 0 });
    let e = resolve_extent(&c, Extent2D { width: 800, height: 600 });
    assert_eq!(e, Extent2D { width: 800, height: 600 });
}

#[test]
fn surface_decides_extent_otherwise() {
    let c = caps(2, 0, Extent2D { width: 1920, height: 1080 });
    let e = resolve_extent(&c, Extent2D { width: 800, height: 600 });
    assert_eq!(e, Extent2D { width: 1920, height: 1080 });
}

#[test]
fn image_count_is_min_plus_one_when_unbounded() {
    let c = caps(2, 0, Extent2D { width: 800, height: 600 });
    assert_eq!(clamp_image_count(&c), 3);
}

#[test]
fn image_count_clamps_to_maximum() {
    let c = caps(3, 3, Extent2D { width: 800, height: 600 });
    assert_eq!(clamp_image_count(&c), 3);
    let c2 = caps(2, 8, Extent2D { width: 800, height: 600 });
    assert_eq!(clamp_image_count(&c2), 3);
}

#[test]
fn plan_takes_first_format() {
    let c = caps(2, 0, Extent2D { width: 800, height: 600 });
    let formats = vec![FMT, SurfaceFormat { format: 50, color_space: 1 }];
    let modes = vec![PresentMode::Mailbox];
    let p = plan_swapchain(&c, &formats, &modes, Extent2D { width: 640, height: 480 }).unwrap();
    assert_eq!(p.format, FMT);
    assert_eq!(p.present_mode, PresentMode::Mailbox);
    assert_eq!(p.extent, Extent2D { width: 800, height: 600 });
    assert_eq!(p.min_image_count, 3);
    assert_eq!(p.pre_transform, 1);
}

#[test]
fn plan_fails_without_formats() {
    let c = caps(2, 0, Extent2D { width: 800, height: 600 });
    let r = plan_swapchain(&c, &Vec::new(), &vec![PresentMode::Fifo], Extent2D {
        width: 640,
        height: 480,
    });
    assert_eq!(r, Err(SwapchainError::NoSurfaceFormat));
}

fn a_plan() -> vulkan_vibe::swapchain::SwapchainPlan {
    let c = caps(2, 0, Extent2D { width: 800, height: 600 });
    plan_swapchain(&c, &vec![FMT], &vec![PresentMode::Mailbox], Extent2D {
        width: 800,
        height: 600,
    })
    .unwrap()
}

#[test]
fn assemble_holds_count_invariant() {
    let p = a_plan();
    let res = SwapchainResources::assemble(&p, 7, vec![1, 2, 3], vec![4, 5, 6], vec![8, 9, 10], 1)
        .unwrap();
    assert!(res.images.len() == res.image_views.len());
    assert!(res.image_views.len() == res.framebuffers.len());
    assert!(!res.images.is_empty());
    assert_eq!(res.format, FMT);
    assert_eq!(res.extent, Extent2D { width: 800, height: 600 });
    assert_eq!(res.generation, 1);
}

#[test]
fn assemble_rejects_no_images() {
    let p = a_plan();
    let r = SwapchainResources::assemble(&p, 7, vec![], vec![], vec![], 1);
    assert_eq!(r.unwrap_err(), SwapchainError::NoImages);
}

#[test]
fn assemble_rejects_mismatched_counts() {
    let p = a_plan();
    let r = SwapchainResources::assemble(&p, 7, vec![1, 2], vec![4], vec![8, 9], 1);
    assert_eq!(r.unwrap_err(), SwapchainError::MismatchedResourceCounts);
}

#[test]
fn teardown_waits_before_destroying() {
    let p = a_plan();
    let res = SwapchainResources::assemble(&p, 7, vec![1, 2], vec![4, 5], vec![8, 9], 1).unwrap();
    let actions = teardown_actions(&res);
    assert_eq!(actions[0], GpuAction::WaitDeviceIdle);
    for a in &actions[1..] {
        assert_ne!(*a, GpuAction::WaitDeviceIdle);
    }
}

#[test]
fn teardown_destroys_in_dependency_order() {
    let p = a_plan();
    let res = SwapchainResources::assemble(&p, 7, vec![1, 2], vec![4, 5], vec![8, 9], 1).unwrap();
    let actions = teardown_actions(&res);
    assert_eq!(
        actions,
        vec![
            GpuAction::WaitDeviceIdle,
            GpuAction::DestroyFramebuffer(8),
            GpuAction::DestroyFramebuffer(9),
            GpuAction::DestroyImageView(4),
            GpuAction::DestroyImageView(5),
            GpuAction::DestroySwapchain(7),
        ]
    );
}

#[test]
fn recreate_same_extent_is_structurally_equivalent() {
    // Two recreations from the same surface state and window extent: the
    // plans are identical, and with the presentation engine handing back the
    // requested number of images both times, the resource sets match in
    // counts, format and extent, whatever the handle values are.
    let c = caps(2, 0, Extent2D { width: 800, height: 600 });
    let formats = vec![FMT];
    let modes = vec![PresentMode::Mailbox];
    let window = Extent2D { width: 800, height: 600 };
    let p1 = plan_swapchain(&c, &formats, &modes, window).unwrap();
    let p2 = plan_swapchain(&c, &formats, &modes, window).unwrap();
    assert_eq!(p1, p2);
    let r1 =
        SwapchainResources::assemble(&p1, 11, vec![1, 2, 3], vec![4, 5, 6], vec![7, 8, 9], 2)
            .unwrap();
    let r2 = SwapchainResources::assemble(&p2, 21, vec![31, 32, 33], vec![34, 35, 36], vec![
        37, 38, 39,
    ], 3)
    .unwrap();
    assert_eq!(r1.images.len(), r2.images.len());
    assert_eq!(r1.image_views.len(), r2.image_views.len());
    assert_eq!(r1.framebuffers.len(), r2.framebuffers.len());
    assert_eq!(r1.format, r2.format);
    assert_eq!(r1.extent, r2.extent);
}
