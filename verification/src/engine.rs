//! The engine: the event-driven state machine that sequences device
//! acquisition, window creation, swapchain binding with a bounded retry
//! budget, per-frame rendering, resize handling, and shutdown.
//!
//! The machine is passive: the surrounding program performs the platform work
//! (acquiring the device, creating the real window, binding and configuring
//! the real surface, submitting GPU commands) and feeds each outcome back as
//! an event. Every transition returns the one [`EngineAction`] the caller
//! must perform next. The transition functions `spec_*` say exactly what each
//! event does to the engine; the executable methods return precisely those
//! transitions.
//!
//! States run `Uninitialized -> DeviceReady -> WindowPending -> Renderable ->
//! ShuttingDown`. Acquisition-phase failures are fatal: device failure aborts
//! at once, surface binding aborts after three attempts. Per-frame failures
//! are not: a failed frame is dropped and the loop continues.

use vstd::prelude::*;

use crate::error::DeviceError;
use crate::render_device::RenderDevice;
use crate::render_resource::{spec_add_srgb_suffix, Extent2d, TextureFormat};
use crate::swapchain::{spec_need_configuration, spec_surface_config, SwapChain};
use crate::window::{win_extent, win_live, WindowHandle, WindowHost, WindowSlot};

verus! {

/// The lifecycle states of the engine.
#[derive(Clone, Copy, Debug, PartialEq, Eq, Structural)]
pub enum EngineState {
    /// Before device acquisition has completed.
    Uninitialized,
    /// The device is acquired; no window exists yet.
    DeviceReady,
    /// The window exists; swapchain binding is in progress.
    WindowPending,
    /// Window and configured swapchain exist; frames can be rendered.
    Renderable,
    /// Loop exit has been requested, or a fatal condition was reached; the
    /// machine ignores every further event.
    ShuttingDown,
}

/// A window signal, as the windowing toolkit delivers it.
#[derive(Clone, Copy, Debug, PartialEq, Eq, Structural)]
pub enum WindowEvent {
    CloseRequested,
    RedrawRequested,
    Resized(Extent2d),
    /// Any signal the engine does not react to.
    Other,
}

/// The color a frame is cleared to.
#[derive(Clone, Copy, Debug, PartialEq, Eq, Structural)]
pub enum ClearColor {
    Green,
}

/// What a frame submission must do: create the target view with the
/// gamma-corrected (sRGB-aliased) variant of the surface format, and clear it.
#[derive(Clone, Copy, Debug, PartialEq, Eq, Structural)]
pub struct RenderPlan {
    pub view_format: TextureFormat,
    pub clear_color: ClearColor,
}

/// What a successful surface binding produced: the surface object (by
/// identifier) and its supported format list, first entry preferred.
#[derive(Clone, Debug, PartialEq, Eq)]
pub struct SurfaceBinding {
    pub surface: u64,
    pub formats: Vec<TextureFormat>,
}

/// The one platform action the caller must perform after a transition.
#[derive(Clone, Copy, Debug, PartialEq, Eq, Structural)]
pub enum EngineAction {
    /// No action; the loop goes on.
    Nothing,
    /// Attempt to bind a surface to the engine's window and report the
    /// outcome through [`Engine::surface_bound`].
    BindSurface,
    /// Apply the given configuration to the surface; when `request_redraw`
    /// is set, also request a redraw from the toolkit.
    ConfigureSurface { config: crate::swapchain::SurfaceConfiguration, request_redraw: bool },
    /// Submit a frame as the plan says and report the outcome through
    /// [`Engine::frame_rendered`].
    Render(RenderPlan),
    /// Request the next redraw from the toolkit.
    RequestRedraw,
    /// Request termination of the event loop.
    ExitLoop,
    /// Terminate the process: an unrecoverable acquisition failure.
    FatalAbort,
}

/// The engine's mathematical state: every field of [`Engine`], with the
/// window table as a sequence.
pub struct EngineView {
    pub state: EngineState,
    pub render_device: Option<RenderDevice>,
    pub windows: Seq<WindowSlot>,
    pub window: Option<WindowHandle>,
    pub swapchain: Option<SwapChain>,
    pub bind_attempts_left: u8,
}

/// Well-formedness of an engine state: the state tag agrees with which parts
/// exist, the engine's window stays alive while the engine holds it (the
/// engine holds an owning reference), and the swapchain, if any, is bound to
/// the engine's window.
pub open spec fn engine_wf(v: EngineView) -> bool {
    &&& match v.window {
        Some(h) => win_live(v.windows, h),
        None => true,
    }
    &&& match v.swapchain {
        Some(sc) => v.window == Some(sc.window),
        None => true,
    }
    &&& (v.state == EngineState::WindowPending ==> v.window is Some)
    &&& (v.state == EngineState::Renderable ==> v.window is Some && v.swapchain is Some)
    &&& (v.state == EngineState::Uninitialized ==> v.render_device is None && v.window is None
        && v.swapchain is None)
    &&& (v.state == EngineState::DeviceReady || v.state == EngineState::WindowPending || v.state
        == EngineState::Renderable ==> v.render_device is Some)
    &&& (v.state == EngineState::DeviceReady ==> v.swapchain is None)
}

/// The engine before anything has happened.
pub open spec fn spec_uninitialized() -> EngineView {
    EngineView {
        state: EngineState::Uninitialized,
        render_device: None,
        windows: Seq::empty(),
        window: None,
        swapchain: None,
        bind_attempts_left: 0,
    }
}

/// Transition on the outcome of device acquisition: success reaches
/// `DeviceReady`; failure is fatal, there is no retry at this layer.
pub open spec fn spec_device_acquired(
    v: EngineView,
    outcome: Result<RenderDevice, DeviceError>,
) -> (EngineView, EngineAction) {
    if v.state != EngineState::Uninitialized {
        (v, EngineAction::Nothing)
    } else {
        match outcome {
            Ok(d) => (
                EngineView { state: EngineState::DeviceReady, render_device: Some(d), ..v },
                EngineAction::Nothing,
            ),
            Err(_) => (
                EngineView { state: EngineState::ShuttingDown, ..v },
                EngineAction::FatalAbort,
            ),
        }
    }
}

/// Transition on the toolkit's resumed/activated signal: in `DeviceReady`
/// the window is created with the extent the toolkit reports, the binding
/// budget is set to three attempts, and the first attempt is requested.
pub open spec fn spec_resumed(v: EngineView, extent: Extent2d) -> (EngineView, EngineAction) {
    if v.state == EngineState::DeviceReady {
        (
            EngineView {
                state: EngineState::WindowPending,
                windows: v.windows.push(WindowSlot { alive: true, extent }),
                window: Some(WindowHandle { index: v.windows.len() as usize }),
                bind_attempts_left: 3,
                ..v
            },
            EngineAction::BindSurface,
        )
    } else {
        (v, EngineAction::Nothing)
    }
}

/// Transition on the outcome of one surface-binding attempt.
///
/// Success creates the swapchain with the first supported format, configures
/// it at once to the window's live extent, reaches `Renderable`, and requests
/// a redraw. Failure retries while budget remains — each attempt independent,
/// with no delay between attempts — and is fatal once the budget is spent.
pub open spec fn spec_surface_bound(
    v: EngineView,
    outcome: Result<SurfaceBinding, DeviceError>,
) -> (EngineView, EngineAction) {
    match (v.state, v.window) {
        (EngineState::WindowPending, Some(h)) => match outcome {
            Ok(b) => {
                let format = b.formats@[0];
                let extent = win_extent(v.windows, h);
                (
                    EngineView {
                        state: EngineState::Renderable,
                        swapchain: Some(
                            SwapChain {
                                surface: b.surface,
                                surface_format: format,
                                window: h,
                                size: extent,
                            },
                        ),
                        ..v
                    },
                    EngineAction::ConfigureSurface {
                        config: spec_surface_config(format, extent),
                        request_redraw: true,
                    },
                )
            },
            Err(_) => {
                if v.bind_attempts_left > 1 {
                    (
                        EngineView { bind_attempts_left: (v.bind_attempts_left - 1) as u8, ..v },
                        EngineAction::BindSurface,
                    )
                } else {
                    (
                        EngineView {
                            state: EngineState::ShuttingDown,
                            bind_attempts_left: 0,
                            ..v
                        },
                        EngineAction::FatalAbort,
                    )
                }
            },
        },
        _ => (v, EngineAction::Nothing),
    }
}

/// Transition on a window signal.
///
/// Close requests shutdown and asks for loop exit exactly once. A redraw
/// request in `Renderable` asks for a frame. A resize records the new live
/// extent and reconfigures the swapchain without rendering (the toolkit
/// always follows a resize with a redraw request). In `ShuttingDown` every
/// signal is ignored.
pub open spec fn spec_window_event(v: EngineView, ev: WindowEvent) -> (EngineView, EngineAction) {
    if v.state == EngineState::ShuttingDown {
        (v, EngineAction::Nothing)
    } else {
        match ev {
            WindowEvent::CloseRequested => (
                EngineView { state: EngineState::ShuttingDown, ..v },
                EngineAction::ExitLoop,
            ),
            WindowEvent::RedrawRequested => match (v.state, v.swapchain) {
                (EngineState::Renderable, Some(sc)) => (
                    v,
                    EngineAction::Render(
                        RenderPlan {
                            view_format: spec_add_srgb_suffix(sc.surface_format),
                            clear_color: ClearColor::Green,
                        },
                    ),
                ),
                _ => (v, EngineAction::Nothing),
            },
            WindowEvent::Resized(e) => match v.window {
                Some(h) => {
                    if win_live(v.windows, h) {
                        let ws2 = v.windows.update(
                            h.index as int,
                            WindowSlot { alive: true, extent: e },
                        );
                        match v.swapchain {
                            Some(sc) => (
                                EngineView {
                                    windows: ws2,
                                    swapchain: Some(SwapChain { size: e, ..sc }),
                                    ..v
                                },
                                EngineAction::ConfigureSurface {
                                    config: spec_surface_config(sc.surface_format, e),
                                    request_redraw: false,
                                },
                            ),
                            None => (EngineView { windows: ws2, ..v }, EngineAction::Nothing),
                        }
                    } else {
                        (v, EngineAction::Nothing)
                    }
                },
                None => (v, EngineAction::Nothing),
            },
            WindowEvent::Other => (v, EngineAction::Nothing),
        }
    }
}

/// Transition on the outcome of a submitted frame: success asks for the next
/// redraw at once (the continuous render loop); failure drops the frame and
/// the loop continues, render failure is never fatal.
pub open spec fn spec_frame_rendered(
    v: EngineView,
    outcome: Result<(), DeviceError>,
) -> (EngineView, EngineAction) {
    if v.state == EngineState::Renderable && outcome is Ok {
        (v, EngineAction::RequestRedraw)
    } else {
        (v, EngineAction::Nothing)
    }
}

/// What rendering decides: with window and swapchain present, a plan that
/// targets the sRGB-aliased view of the surface format; otherwise the
/// unexpected-state error.
pub open spec fn spec_render(v: EngineView) -> Result<RenderPlan, DeviceError> {
    match (v.window, v.swapchain) {
        (Some(_), Some(sc)) => Ok(
            RenderPlan {
                view_format: spec_add_srgb_suffix(sc.surface_format),
                clear_color: ClearColor::Green,
            },
        ),
        _ => Err(DeviceError::Unexpected),
    }
}

/// The engine: device context, the window table it drives, its one window,
/// its swapchain, and the remaining surface-binding budget.
#[derive(Clone, Debug)]
pub struct Engine {
    pub state: EngineState,
    pub render_device: Option<RenderDevice>,
    pub windows: WindowHost,
    pub window: Option<WindowHandle>,
    pub swapchain: Option<SwapChain>,
    pub bind_attempts_left: u8,
}

impl View for Engine {
    type V = EngineView;

    open spec fn view(&self) -> EngineView {
        EngineView {
            state: self.state,
            render_device: self.render_device,
            windows: self.windows.slots@,
            window: self.window,
            swapchain: self.swapchain,
            bind_attempts_left: self.bind_attempts_left,
        }
    }
}

impl Engine {
    /// Well-formedness; see [`engine_wf`].
    pub open spec fn wf(&self) -> bool {
        engine_wf(self@)
    }

    /// An engine that has not acquired a device yet.
    pub fn uninitialized() -> (r: Engine)
        ensures
            r@ == spec_uninitialized(),
            r.wf(),
    {
        let e = Engine {
            state: EngineState::Uninitialized,
            render_device: None,
            windows: WindowHost::new(),
            window: None,
            swapchain: None,
            bind_attempts_left: 0,
        };
        proof {
            assert(e@.windows =~= Seq::<WindowSlot>::empty());
        }
        e
    }

    /// Builds the engine from the outcome of device acquisition: the one
    /// fatal-at-construction step. Succeeds exactly when acquisition did,
    /// reaching `DeviceReady`; passes the acquisition error through
    /// otherwise.
    pub fn new(acquired: Result<RenderDevice, DeviceError>) -> (r: Result<Engine, DeviceError>)
        ensures
            acquired matches Ok(d) ==> r matches Ok(e) && e@ == spec_device_acquired(
                spec_uninitialized(),
                Ok(d),
            ).0 && e.wf(),
            acquired matches Err(err) ==> r == Err::<Engine, DeviceError>(err),
    {
        match acquired {
            Ok(d) => {
                let mut e = Engine::uninitialized();
                let _ = e.device_acquired(Ok(d));
                Ok(e)
            },
            Err(err) => Err(err),
        }
    }

    /// Delivers the outcome of device acquisition; see
    /// [`spec_device_acquired`].
    pub fn device_acquired(&mut self, outcome: Result<RenderDevice, DeviceError>) -> (a:
        EngineAction)
        requires
            old(self).wf(),
        ensures
            final(self)@ == spec_device_acquired(old(self)@, outcome).0,
            a == spec_device_acquired(old(self)@, outcome).1,
            final(self).wf(),
    {
        if !(self.state == EngineState::Uninitialized) {
            return EngineAction::Nothing;
        }
        match outcome {
            Ok(d) => {
                self.render_device = Some(d);
                self.state = EngineState::DeviceReady;
                EngineAction::Nothing
            },
            Err(_) => {
                self.state = EngineState::ShuttingDown;
                EngineAction::FatalAbort
            },
        }
    }

    /// Delivers the toolkit's resumed/activated signal, with the live extent
    /// of the window the toolkit created; see [`spec_resumed`].
    pub fn resumed(&mut self, window_extent: Extent2d) -> (a: EngineAction)
        requires
            old(self).wf(),
            old(self)@.windows.len() < usize::MAX,
        ensures
            final(self)@ == spec_resumed(old(self)@, window_extent).0,
            a == spec_resumed(old(self)@, window_extent).1,
            final(self).wf(),
    {
        if !(self.state == EngineState::DeviceReady) {
            return EngineAction::Nothing;
        }
        let h = self.windows.create_window(window_extent);
        self.window = Some(h);
        self.bind_attempts_left = 3;
        self.state = EngineState::WindowPending;
        EngineAction::BindSurface
    }

    /// Delivers the outcome of one surface-binding attempt; see
    /// [`spec_surface_bound`]. A successful binding must report at least one
    /// supported format, as the platform guarantees for a supported surface.
    pub fn surface_bound(&mut self, outcome: Result<SurfaceBinding, DeviceError>) -> (a:
        EngineAction)
        requires
            old(self).wf(),
            outcome matches Ok(b) ==> b.formats@.len() > 0,
        ensures
            final(self)@ == spec_surface_bound(old(self)@, outcome).0,
            a == spec_surface_bound(old(self)@, outcome).1,
            final(self).wf(),
    {
        if !(self.state == EngineState::WindowPending) {
            return EngineAction::Nothing;
        }
        let h = match self.window {
            Some(h) => h,
            None => {
                return EngineAction::Nothing;
            },
        };
        match outcome {
            Ok(b) => {
                let extent = match self.windows.resolve_extent(h) {
                    Some(e) => e,
                    None => {
                        proof {
                            assert(false);
                        }
                        Extent2d { width: 0, height: 0 }
                    },
                };
                let mut sc = SwapChain::new(b.surface, &b.formats, h, &self.windows);
                let config = sc.configure_surface(extent);
                self.swapchain = Some(sc);
                self.state = EngineState::Renderable;
                EngineAction::ConfigureSurface { config, request_redraw: true }
            },
            Err(_) => {
                if self.bind_attempts_left > 1 {
                    self.bind_attempts_left = self.bind_attempts_left - 1;
                    EngineAction::BindSurface
                } else {
                    self.bind_attempts_left = 0;
                    self.state = EngineState::ShuttingDown;
                    EngineAction::FatalAbort
                }
            },
        }
    }

    /// Delivers a window signal; see [`spec_window_event`].
    pub fn window_event(&mut self, event: WindowEvent) -> (a: EngineAction)
        requires
            old(self).wf(),
        ensures
            final(self)@ == spec_window_event(old(self)@, event).0,
            a == spec_window_event(old(self)@, event).1,
            final(self).wf(),
    {
        if self.state == EngineState::ShuttingDown {
            return EngineAction::Nothing;
        }
        match event {
            WindowEvent::CloseRequested => {
                self.state = EngineState::ShuttingDown;
                EngineAction::ExitLoop
            },
            WindowEvent::RedrawRequested => {
                if self.state == EngineState::Renderable {
                    match &self.swapchain {
                        Some(sc) => EngineAction::Render(
                            RenderPlan {
                                view_format: sc.surface_format().add_srgb_suffix(),
                                clear_color: ClearColor::Green,
                            },
                        ),
                        None => EngineAction::Nothing,
                    }
                } else {
                    EngineAction::Nothing
                }
            },
            WindowEvent::Resized(e) => {
                let h = match self.window {
                    Some(h) => h,
                    None => {
                        return EngineAction::Nothing;
                    },
                };
                if self.windows.live(h) {
                    self.windows.set_extent(h, e);
                    match &mut self.swapchain {
                        Some(sc) => {
                            let config = sc.configure_surface(e);
                            EngineAction::ConfigureSurface { config, request_redraw: false }
                        },
                        None => EngineAction::Nothing,
                    }
                } else {
                    EngineAction::Nothing
                }
            },
            WindowEvent::Other => EngineAction::Nothing,
        }
    }

    /// Delivers the outcome of a submitted frame; see
    /// [`spec_frame_rendered`].
    pub fn frame_rendered(&mut self, outcome: Result<(), DeviceError>) -> (a: EngineAction)
        requires
            old(self).wf(),
        ensures
            final(self)@ == spec_frame_rendered(old(self)@, outcome).0,
            a == spec_frame_rendered(old(self)@, outcome).1,
            final(self).wf(),
    {
        if self.state == EngineState::Renderable && outcome.is_ok() {
            EngineAction::RequestRedraw
        } else {
            EngineAction::Nothing
        }
    }

    /// Decides a frame: the plan to submit, or the unexpected-state error
    /// when window or swapchain is missing; see [`spec_render`].
    pub fn render(&self) -> (r: Result<RenderPlan, DeviceError>)
        ensures
            r == spec_render(self@),
    {
        if self.window.is_some() {
            match &self.swapchain {
                Some(sc) => Ok(
                    RenderPlan {
                        view_format: sc.surface_format().add_srgb_suffix(),
                        clear_color: ClearColor::Green,
                    },
                ),
                None => Err(DeviceError::Unexpected),
            }
        } else {
            Err(DeviceError::Unexpected)
        }
    }

    /// The current lifecycle state.
    pub fn state(&self) -> (r: EngineState)
        ensures
            r == self@.state,
    {
        self.state
    }

    /// Whether the swapchain must be reconfigured before the next frame;
    /// false while no swapchain exists.
    pub fn needs_configuration(&self) -> (r: bool)
        ensures
            r == match self@.swapchain {
                Some(sc) => spec_need_configuration(sc, self@.windows),
                None => false,
            },
    {
        match &self.swapchain {
            Some(sc) => sc.need_configuration(&self.windows),
            None => false,
        }
    }

    /// The extent the swapchain was last configured for, while one exists.
    pub fn configured_extent(&self) -> (r: Option<Extent2d>)
        ensures
            r == match self@.swapchain {
                Some(sc) => Some(sc.size),
                None => None::<Extent2d>,
            },
    {
        match &self.swapchain {
            Some(sc) => Some(sc.configured_extent()),
            None => None,
        }
    }
}

/// Bounded retry, succeeding case: from `DeviceReady`, with a binding that
/// fails twice and then succeeds, the engine requests exactly three binding
/// attempts and reaches `Renderable`, with the swapchain configured to the
/// window's live extent (so nothing needs configuration).
pub proof fn lemma_retry_succeeds_on_third_attempt(
    v0: EngineView,
    extent: Extent2d,
    e1: DeviceError,
    e2: DeviceError,
    b: SurfaceBinding,
)
    requires
        engine_wf(v0),
        v0.state == EngineState::DeviceReady,
        v0.windows.len() < usize::MAX,
        b.formats@.len() > 0,
    ensures
        ({
            let (v1, a1) = spec_resumed(v0, extent);
            let (v2, a2) = spec_surface_bound(v1, Err(e1));
            let (v3, a3) = spec_surface_bound(v2, Err(e2));
            let (v4, a4) = spec_surface_bound(v3, Ok(b));
            &&& a1 == EngineAction::BindSurface
            &&& a2 == EngineAction::BindSurface
            &&& a3 == EngineAction::BindSurface
            &&& v1.state == EngineState::WindowPending
            &&& v2.state == EngineState::WindowPending
            &&& v3.state == EngineState::WindowPending
            &&& v4.state == EngineState::Renderable
            &&& a4 matches EngineAction::ConfigureSurface { config, request_redraw }
                && request_redraw && config.width == extent.width && config.height
                == extent.height
            &&& match v4.swapchain {
                Some(sc) => sc.size == extent && sc.surface_format == b.formats@[0]
                    && !spec_need_configuration(sc, v4.windows),
                None => false,
            }
        }),
{
}

/// Bounded retry, failing case: from `DeviceReady`, with a binding that
/// always fails, the engine requests exactly three binding attempts and then
/// aborts fatally — it never hangs and never continues in a non-renderable
/// state.
pub proof fn lemma_retry_aborts_after_three_attempts(
    v0: EngineView,
    extent: Extent2d,
    e1: DeviceError,
    e2: DeviceError,
    e3: DeviceError,
)
    requires
        engine_wf(v0),
        v0.state == EngineState::DeviceReady,
        v0.windows.len() < usize::MAX,
    ensures
        ({
            let (v1, a1) = spec_resumed(v0, extent);
            let (v2, a2) = spec_surface_bound(v1, Err(e1));
            let (v3, a3) = spec_surface_bound(v2, Err(e2));
            let (v4, a4) = spec_surface_bound(v3, Err(e3));
            &&& a1 == EngineAction::BindSurface
            &&& a2 == EngineAction::BindSurface
            &&& a3 == EngineAction::BindSurface
            &&& a4 == EngineAction::FatalAbort
            &&& v4.state == EngineState::ShuttingDown
            &&& v4.swapchain is None
        }),
{
}

/// Startup, end to end: from the uninitialized engine, successful device
/// acquisition, the resumed signal, and a first-attempt binding success lead
/// to `Renderable`, with the surface configured to the window's reported
/// extent and nothing needing configuration.
pub proof fn lemma_startup_reaches_renderable(
    d: RenderDevice,
    extent: Extent2d,
    b: SurfaceBinding,
)
    requires
        b.formats@.len() > 0,
    ensures
        ({
            let v0 = spec_uninitialized();
            let (v1, a1) = spec_device_acquired(v0, Ok(d));
            let (v2, a2) = spec_resumed(v1, extent);
            let (v3, a3) = spec_surface_bound(v2, Ok(b));
            &&& v1.state == EngineState::DeviceReady
            &&& a2 == EngineAction::BindSurface
            &&& v3.state == EngineState::Renderable
            &&& a3 matches EngineAction::ConfigureSurface { config, request_redraw }
                && request_redraw && config.width == extent.width && config.height
                == extent.height
            &&& match v3.swapchain {
                Some(sc) => sc.size == extent && sc.surface_format == b.formats@[0]
                    && !spec_need_configuration(sc, v3.windows),
                None => false,
            }
        }),
{
}

/// Resize, end to end: in `Renderable`, a resize signal makes the swapchain
/// need configuration at the moment the live extent diverges, reconfigures it
/// to the new extent in the same step without rendering, and afterwards
/// nothing needs configuration and the configured extent is the new one.
pub proof fn lemma_resize_reconfigures(v: EngineView, e: Extent2d)
    requires
        engine_wf(v),
        v.state == EngineState::Renderable,
    ensures
        ({
            let (v2, a) = spec_window_event(v, WindowEvent::Resized(e));
            &&& match (v.swapchain, v.window) {
                (Some(sc), Some(h)) => {
                    let ws2 = v.windows.update(
                        h.index as int,
                        WindowSlot { alive: true, extent: e },
                    );
                    &&& (e != sc.size ==> spec_need_configuration(sc, ws2))
                    &&& a == EngineAction::ConfigureSurface {
                        config: spec_surface_config(sc.surface_format, e),
                        request_redraw: false,
                    }
                },
                _ => false,
            }
            &&& v2.state == EngineState::Renderable
            &&& match v2.swapchain {
                Some(sc2) => sc2.size == e && !spec_need_configuration(sc2, v2.windows),
                None => false,
            }
        }),
{
}

/// Shutdown, end to end: the first close request asks for loop exit, exactly
/// once; from then on every signal and every outcome — a further close, a
/// redraw request, a resize, a binding or frame outcome — changes nothing and
/// asks for nothing, so no further redraw is ever requested.
pub proof fn lemma_close_exits_once(v: EngineView)
    requires
        v.state != EngineState::ShuttingDown,
    ensures
        ({
            let (v1, a1) = spec_window_event(v, WindowEvent::CloseRequested);
            &&& a1 == EngineAction::ExitLoop
            &&& v1.state == EngineState::ShuttingDown
            &&& forall|ev: WindowEvent| #[trigger] spec_window_event(v1, ev) == (
                v1,
                EngineAction::Nothing,
            )
            &&& forall|oc: Result<(), DeviceError>| #[trigger] spec_frame_rendered(v1, oc) == (
                v1,
                EngineAction::Nothing,
            )
            &&& forall|x: Extent2d| #[trigger] spec_resumed(v1, x) == (v1, EngineAction::Nothing)
            &&& forall|oc: Result<SurfaceBinding, DeviceError>| #[trigger] spec_surface_bound(
                v1,
                oc,
            ) == (v1, EngineAction::Nothing)
        }),
{
}

} // verus!
