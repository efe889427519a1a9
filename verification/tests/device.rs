use vulkan_vibe::device::{find_memory_type, select_queue_family, QUEUE_GRAPHICS_BIT};
use vulkan_vibe::surface::{
    base_instance_extensions, device_extensions, surface_api_for, surface_extension_name,
    InitError, SurfaceApi, WindowHandleKind,
};

#[test]
fn selects_first_graphics_queue_family() {
    // transfer-only, compute-only, then graphics+compute
    let flags = vec![0x4, 0x2, QUEUE_GRAPHICS_BIT | 0x2, QUEUE_GRAPHICS_BIT];
    assert_eq!(select_queue_family(&flags), Some(2));
}

#[test]
fn no_graphics_queue_family() {
    let flags = vec![0x4, 0x2];
    assert_eq!(select_queue_family(&flags), None);
    assert_eq!(select_queue_family(&Vec::new()), None);
}

#[test]
fn finds_first_suitable_memory_type() {
    // want host-visible (0x2) and host-coherent (0x4)
    let props = vec![0x1, 0x6, 0x6];
    // filter admits types 1 and 2 only
    assert_eq!(find_memory_type(0b110, &props, 0x6), Some(1));
    // filter admits type 2 only
    assert_eq!(find_memory_type(0b100, &props, 0x6), Some(2));
}

#[test]
fn no_suitable_memory_type() {
    let props = vec![0x1, 0x2];
    assert_eq!(find_memory_type(0b11, &props, 0x6), None);
    assert_eq!(find_memory_type(0, &props, 0x2), None);
}

#[test]
fn routes_supported_window_handles() {
    assert_eq!(surface_api_for(WindowHandleKind::Win32), Ok(SurfaceApi::Win32Surface));
    assert_eq!(surface_api_for(WindowHandleKind::AppKit), Ok(SurfaceApi::MetalSurface));
    assert_eq!(surface_api_for(WindowHandleKind::Xlib), Ok(SurfaceApi::XlibSurface));
    assert_eq!(surface_api_for(WindowHandleKind::Wayland), Ok(SurfaceApi::WaylandSurface));
}

#[test]
fn rejects_unsupported_window_handle() {
    assert_eq!(
        surface_api_for(WindowHandleKind::Unsupported),
        Err(InitError::UnsupportedWindowHandle)
    );
}

#[test]
fn extension_names() {
    assert_eq!(surface_extension_name(SurfaceApi::Win32Surface), "VK_KHR_win32_surface");
    assert_eq!(surface_extension_name(SurfaceApi::MetalSurface), "VK_EXT_metal_surface");
    assert_eq!(surface_extension_name(SurfaceApi::XlibSurface), "VK_KHR_xlib_surface");
    assert_eq!(surface_extension_name(SurfaceApi::WaylandSurface), "VK_KHR_wayland_surface");
    assert_eq!(base_instance_extensions(), vec!["VK_KHR_surface", "VK_KHR_portability_enumeration"]);
    assert_eq!(device_extensions(), vec!["VK_KHR_swapchain"]);
}
