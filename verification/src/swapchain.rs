//! The presentation surface (swapchain): binds a surface to a window through
//! a non-owning reference, tracks the configured extent against the window's
//! live extent, and says when reconfiguration is due.
//!
//! Acquiring the next presentable image and presenting it back are per-frame
//! platform calls on the surface object; the engine sequences them through
//! its render plan and the frame outcome it is handed back (see
//! [`crate::engine`]), and a failed acquire or present is dropped at the
//! frame boundary, never retried blindly within the frame.

use vstd::prelude::*;

use crate::render_resource::{spec_add_srgb_suffix, Extent2d, TextureFormat};
use crate::window::{win_extent, win_live, WindowHandle, WindowHost, WindowSlot};

verus! {

/// How presented frames are paced: automatic vertical sync.
#[derive(Clone, Copy, Debug, PartialEq, Eq, Structural)]
pub enum PresentMode {
    AutoVsync,
}

/// How the surface is composited with the rest of the desktop: automatic.
#[derive(Clone, Copy, Debug, PartialEq, Eq, Structural)]
pub enum CompositeAlphaMode {
    Auto,
}

/// What the surface's textures are used for: as render attachments only.
#[derive(Clone, Copy, Debug, PartialEq, Eq, Structural)]
pub enum SurfaceUsage {
    RenderAttachment,
}

/// The full configuration a surface is (re)configured with. Every field but
/// the extent is fixed policy: render-attachment usage, the chosen format
/// with its sRGB alias as the one extra view format, automatic alpha
/// compositing, automatic vertical sync, and at most two in-flight frames.
#[derive(Clone, Copy, Debug, PartialEq, Eq, Structural)]
pub struct SurfaceConfiguration {
    pub usage: SurfaceUsage,
    pub format: TextureFormat,
    /// The one extra view format consumers may ask for: the sRGB alias of
    /// `format`, so a gamma-corrected view of the same physical format works.
    pub view_format: TextureFormat,
    pub alpha_mode: CompositeAlphaMode,
    pub width: u32,
    pub height: u32,
    pub desired_maximum_frame_latency: u32,
    pub present_mode: PresentMode,
}

/// A presentation surface bound to a window.
///
/// Owns the OS-level surface (by identifier) exclusively; holds the window
/// only as a non-owning handle and never keeps it alive. `size` is the extent
/// of the most recent successful configure call (initially, the window extent
/// recorded at creation); the format is chosen once at creation and never
/// changes.
#[derive(Clone, Copy, Debug, PartialEq, Eq, Structural)]
pub struct SwapChain {
    /// Identifier of the OS-level surface object this swapchain owns.
    pub surface: u64,
    /// The working color format, chosen once from the capability list.
    pub surface_format: TextureFormat,
    /// Non-owning reference to the window the surface is bound to.
    pub window: WindowHandle,
    /// The last-configured extent.
    pub size: Extent2d,
}

/// Whether the swapchain must be reconfigured before the next use: the window
/// still resolves and its live extent differs from the last-configured one.
///
/// A window that no longer resolves reports `false` here, a deliberate
/// degraded default: such a swapchain is not reconfigurable at all, which
/// [`spec_is_valid`] reports instead.
pub open spec fn spec_need_configuration(sc: SwapChain, ws: Seq<WindowSlot>) -> bool {
    win_live(ws, sc.window) && win_extent(ws, sc.window) != sc.size
}

/// Whether the swapchain is usable: the window still resolves and its live
/// extent matches the configured one. False, never a panic, once the window
/// is gone.
pub open spec fn spec_is_valid(sc: SwapChain, ws: Seq<WindowSlot>) -> bool {
    win_live(ws, sc.window) && win_extent(ws, sc.window) == sc.size
}

/// The configuration a surface of the given format is configured with for the
/// given extent: the fixed policy of [`SurfaceConfiguration`] around the two
/// variable inputs.
pub open spec fn spec_surface_config(format: TextureFormat, extent: Extent2d) -> SurfaceConfiguration {
    SurfaceConfiguration {
        usage: SurfaceUsage::RenderAttachment,
        format,
        view_format: spec_add_srgb_suffix(format),
        alpha_mode: CompositeAlphaMode::Auto,
        width: extent.width,
        height: extent.height,
        desired_maximum_frame_latency: 2,
        present_mode: PresentMode::AutoVsync,
    }
}

impl SwapChain {
    /// Binds a new swapchain to a live window, given the surface object (by
    /// identifier) and the surface's supported format list.
    ///
    /// The working color format is deterministically the first entry of the
    /// capability list: first-is-preferred, no fallback search. The window's
    /// current extent is recorded as the initial target size, but the surface
    /// is not configured yet: `configure_surface` must run before first use.
    pub fn new(
        surface: u64,
        formats: &Vec<TextureFormat>,
        window: WindowHandle,
        windows: &WindowHost,
    ) -> (r: SwapChain)
        requires
            formats@.len() > 0,
            windows.spec_live(window),
        ensures
            r == (SwapChain {
                surface,
                surface_format: formats@[0],
                window,
                size: windows.spec_extent(window),
            }),
    {
        let size = match windows.resolve_extent(window) {
            Some(e) => e,
            None => {
                proof {
                    assert(false);
                }
                Extent2d { width: 0, height: 0 }
            },
        };
        SwapChain { surface, surface_format: formats[0], window, size }
    }

    /// (Re)configures the surface for the given extent and records it as the
    /// last-configured extent.
    ///
    /// Returns the exact configuration to apply to the surface object, with
    /// the fixed policy fields of [`SurfaceConfiguration`] and a frame
    /// latency cap of two.
    pub fn configure_surface(&mut self, extent: Extent2d) -> (cfg: SurfaceConfiguration)
        ensures
            cfg == spec_surface_config(old(self).surface_format, extent),
            *final(self) == (SwapChain { size: extent, ..*old(self) }),
    {
        let cfg = SurfaceConfiguration {
            usage: SurfaceUsage::RenderAttachment,
            format: self.surface_format,
            view_format: self.surface_format.add_srgb_suffix(),
            alpha_mode: CompositeAlphaMode::Auto,
            width: extent.width,
            height: extent.height,
            desired_maximum_frame_latency: 2,
            present_mode: PresentMode::AutoVsync,
        };
        self.size = extent;
        cfg
    }

    /// The identifier of the surface object this swapchain owns.
    pub fn surface(&self) -> (r: u64)
        ensures
            r == self.surface,
    {
        self.surface
    }

    /// The working color format chosen at creation.
    pub fn surface_format(&self) -> (r: TextureFormat)
        ensures
            r == self.surface_format,
    {
        self.surface_format
    }

    /// The last-configured extent.
    pub fn configured_extent(&self) -> (r: Extent2d)
        ensures
            r == self.size,
    {
        self.size
    }

    /// Whether the window still resolves with an extent that differs from the
    /// last-configured one. See [`spec_need_configuration`] for the policy on
    /// an unresolvable window.
    pub fn need_configuration(&self, windows: &WindowHost) -> (r: bool)
        ensures
            r == spec_need_configuration(*self, windows.slots@),
    {
        match windows.resolve_extent(self.window) {
            Some(live_extent) => {
                live_extent.width != self.size.width || live_extent.height != self.size.height
            },
            None => false,
        }
    }

    /// Whether the swapchain is usable: the window resolves and its live
    /// extent matches the configured one. False, never a panic, once the
    /// window is gone.
    pub fn is_valid(&self, windows: &WindowHost) -> (r: bool)
        ensures
            r == spec_is_valid(*self, windows.slots@),
    {
        match windows.resolve_extent(self.window) {
            Some(live_extent) => {
                live_extent.width == self.size.width && live_extent.height == self.size.height
            },
            None => false,
        }
    }
}

/// After a configure to extent `e`, needs-configuration is false, and stays
/// false in every later window state, exactly until the window's live extent
/// changes away from `e`; once the window is unresolvable it is false as
/// well (the degraded default of [`spec_need_configuration`]).
pub proof fn lemma_needs_configuration_after_configure(
    before: SwapChain,
    after: SwapChain,
    e: Extent2d,
    ws: Seq<WindowSlot>,
)
    requires
        after == (SwapChain { size: e, ..before }),
    ensures
        spec_need_configuration(after, ws) <==> (win_live(ws, after.window)
            && win_extent(ws, after.window) != e),
        win_live(ws, after.window) && win_extent(ws, after.window) == e
            ==> !spec_need_configuration(after, ws),
        !win_live(ws, after.window) ==> !spec_need_configuration(after, ws),
{
}

} // verus!
