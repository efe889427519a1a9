//! Platform dispatch for surface creation and the extension names each
//! platform needs.
//!
//! The windowing collaborator tags the native window handle with its kind;
//! exactly four kinds can carry a surface, and anything else is a fatal
//! configuration error, not a silent no-op. The instance-extension lists are
//! fixed per platform and include the portability-enumeration extension.

use vstd::prelude::*;
use vstd::string::StringExecFns;

verus! {

/// The kind of native window handle the windowing collaborator produced.
#[derive(Clone, Copy, Debug, PartialEq, Eq, Structural)]
pub enum WindowHandleKind {
    /// A native window of the Windows desktop.
    Win32,
    /// A view of the macOS application kit, to carry a compositor layer.
    AppKit,
    /// An X11 window of a display server.
    Xlib,
    /// A Wayland surface of a compositor.
    Wayland,
    /// Any handle kind the engine does not support.
    Unsupported,
}

/// Which surface-creation call of the graphics API to make.
#[derive(Clone, Copy, Debug, PartialEq, Eq, Structural)]
pub enum SurfaceApi {
    Win32Surface,
    MetalSurface,
    XlibSurface,
    WaylandSurface,
}

/// Why the engine could not start: the one startup failure the library
/// itself decides; every other fatal initialization failure is reported by
/// the graphics API and handled at the boundary.
#[derive(Clone, Copy, Debug, PartialEq, Eq, Structural)]
pub enum InitError {
    /// The native window handle is of no supported kind.
    UnsupportedWindowHandle,
}

/// Routes a native window handle to the surface-creation call that fits it;
/// an unsupported handle kind is a fatal configuration error.
pub fn surface_api_for(kind: WindowHandleKind) -> (r: Result<SurfaceApi, InitError>)
    ensures
        r == (match kind {
            WindowHandleKind::Win32 => Ok::<SurfaceApi, InitError>(SurfaceApi::Win32Surface),
            WindowHandleKind::AppKit => Ok::<SurfaceApi, InitError>(SurfaceApi::MetalSurface),
            WindowHandleKind::Xlib => Ok::<SurfaceApi, InitError>(SurfaceApi::XlibSurface),
            WindowHandleKind::Wayland => Ok::<SurfaceApi, InitError>(SurfaceApi::WaylandSurface),
            WindowHandleKind::Unsupported => Err::<SurfaceApi, InitError>(
                InitError::UnsupportedWindowHandle,
            ),
        }),
{
    match kind {
        WindowHandleKind::Win32 => Ok(SurfaceApi::Win32Surface),
        WindowHandleKind::AppKit => Ok(SurfaceApi::MetalSurface),
        WindowHandleKind::Xlib => Ok(SurfaceApi::XlibSurface),
        WindowHandleKind::Wayland => Ok(SurfaceApi::WaylandSurface),
        WindowHandleKind::Unsupported => Err(InitError::UnsupportedWindowHandle),
    }
}

/// The instance-extension name that a surface-creation call needs.
pub fn surface_extension_name(api: SurfaceApi) -> (r: String)
    ensures
        r@ == (match api {
            SurfaceApi::Win32Surface => "VK_KHR_win32_surface"@,
            SurfaceApi::MetalSurface => "VK_EXT_metal_surface"@,
            SurfaceApi::XlibSurface => "VK_KHR_xlib_surface"@,
            SurfaceApi::WaylandSurface => "VK_KHR_wayland_surface"@,
        }),
{
    match api {
        SurfaceApi::Win32Surface => String::from_str("VK_KHR_win32_surface"),
        SurfaceApi::MetalSurface => String::from_str("VK_EXT_metal_surface"),
        SurfaceApi::XlibSurface => String::from_str("VK_KHR_xlib_surface"),
        SurfaceApi::WaylandSurface => String::from_str("VK_KHR_wayland_surface"),
    }
}

/// The instance extensions every platform needs before the per-surface one:
/// the base surface extension and portability enumeration.
pub fn base_instance_extensions() -> (r: Vec<String>)
    ensures
        r@.len() == 2,
        r@[0]@ == "VK_KHR_surface"@,
        r@[1]@ == "VK_KHR_portability_enumeration"@,
{
    let mut r: Vec<String> = Vec::new();
    r.push(String::from_str("VK_KHR_surface"));
    r.push(String::from_str("VK_KHR_portability_enumeration"));
    r
}

/// The one device extension the engine enables: swapchain support.
pub fn device_extensions() -> (r: Vec<String>)
    ensures
        r@.len() == 1,
        r@[0]@ == "VK_KHR_swapchain"@,
{
    let mut r: Vec<String> = Vec::new();
    r.push(String::from_str("VK_KHR_swapchain"));
    r
}

} // verus!
