//! Surfaces: for which kind of native window a platform and backend can make
//! one, and whether one can be made from a given instance.

use vstd::prelude::*;
use crate::error::Error;
use crate::registry::{lookup, Id, Registry};

verus! {

/// Handle of a surface.
pub type SurfaceId = Id;

/// The graphics API that a backend drives.
#[derive(Clone, Copy, Debug, PartialEq, Eq, Structural, Hash)]
pub enum BackendKind {
    /// No graphics API: the mock backend.
    Empty,
    Vulkan,
    Metal,
    Dx11,
    Dx12,
}

/// How a caller describes a native window.
#[derive(Clone, Copy, Debug, PartialEq, Eq, Structural, Hash)]
pub enum WindowSystem {
    /// A window of the windowing library.
    Winit,
    /// An X11 display and window.
    Xlib,
    /// A compositor layer of macOS.
    MacosLayer,
    /// A module handle and a window handle of Windows.
    WindowsHwnd,
}

/// Where the object model runs: the family of the operating system and the
/// backend it was built on.
#[derive(Clone, Copy, Debug, PartialEq, Eq, Structural, Hash)]
pub struct Platform {
    pub unix: bool,
    pub windows: bool,
    pub backend: BackendKind,
}

/// The backend that this library is built on.
pub const BACKEND: BackendKind = BackendKind::Empty;

/// Whether `platform` has a way to make a surface for a window described by
/// `system`. A window of the windowing library always has one. An X11 window
/// has one on Unix with Vulkan, a macOS layer with Metal, and a Windows
/// handle on Windows with Direct3D 11, Direct3D 12 or Vulkan.
pub open spec fn has_surface_path(platform: Platform, system: WindowSystem) -> bool {
    match system {
        WindowSystem::Winit => true,
        WindowSystem::Xlib => platform.unix && platform.backend == BackendKind::Vulkan,
        WindowSystem::MacosLayer => platform.backend == BackendKind::Metal,
        WindowSystem::WindowsHwnd => platform.windows && (platform.backend == BackendKind::Dx11
            || platform.backend == BackendKind::Dx12 || platform.backend == BackendKind::Vulkan),
    }
}

/// Whether there is a way to make a surface for one window: the platform has
/// a path for windows that `system` describes, and a handle by which the
/// backend knows the window could be formed.
pub open spec fn has_window_path(
    platform: Platform,
    system: WindowSystem,
    handle_formed: bool,
) -> bool {
    has_surface_path(platform, system) && handle_formed
}

/// Whether a surface can be asked of the backend. Without a path the
/// platform is unsupported, whatever the handle; with one, the instance must
/// exist.
pub open spec fn surface_plan(
    instances: Seq<gfx_backend_empty::Instance>,
    instance_id: Id,
    has_path: bool,
) -> Result<(), Error> {
    if !has_path {
        Err(Error::UnsupportedPlatform)
    } else if lookup(instances, instance_id) is None {
        Err(Error::HandleNotFound)
    } else {
        Ok(())
    }
}

/// Decides whether `platform` has a way to make a surface for a window
/// described by `system`.
pub fn surface_path(platform: &Platform, system: WindowSystem) -> (has_path: bool)
    ensures
        has_path == has_surface_path(*platform, system),
{
    match system {
        WindowSystem::Winit => true,
        WindowSystem::Xlib => platform.unix && matches!(platform.backend, BackendKind::Vulkan),
        WindowSystem::MacosLayer => matches!(platform.backend, BackendKind::Metal),
        WindowSystem::WindowsHwnd => platform.windows && matches!(
            platform.backend,
            BackendKind::Dx11 | BackendKind::Dx12 | BackendKind::Vulkan
        ),
    }
}

/// Decides whether there is a way to make a surface for one window, of which
/// a handle was formed (`handle_formed`) or could not be.
pub fn window_path(platform: &Platform, system: WindowSystem, handle_formed: bool) -> (has_path:
    bool)
    ensures
        has_path == has_window_path(*platform, system, handle_formed),
{
    handle_formed && surface_path(platform, system)
}

/// Decides whether a surface can be asked of the backend for the instance
/// under `instance_id`, on a platform that has a path for the window
/// (`has_path`) or has none.
pub fn plan_surface(
    instances: &Registry<gfx_backend_empty::Instance>,
    instance_id: Id,
    has_path: bool,
) -> (planned: Result<(), Error>)
    ensures
        planned == surface_plan(instances@, instance_id, has_path),
{
    if !has_path {
        Err(Error::UnsupportedPlatform)
    } else if !instances.contains(instance_id) {
        Err(Error::HandleNotFound)
    } else {
        Ok(())
    }
}

} // verus!
