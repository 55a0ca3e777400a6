use render_core::engine::{
    ClearColor, Engine, EngineAction, EngineState, RenderPlan, SurfaceBinding, WindowEvent,
};
use render_core::error::DeviceError;
use render_core::render_device::RenderDevice;
use render_core::render_resource::{Extent2d, TextureFormat};

fn extent(width: u32, height: u32) -> Extent2d {
    Extent2d { width, height }
}

fn device() -> RenderDevice {
    RenderDevice::new(1, 2, 3, 4)
}

fn binding() -> SurfaceBinding {
    SurfaceBinding { surface: 7, formats: vec![TextureFormat::Bgra8Unorm, TextureFormat::Rgba8Unorm] }
}

fn unavailable(reason: &str) -> DeviceError {
    DeviceError::Unavailable(String::from(reason))
}

/// Brings a fresh engine to `Renderable` with a first-attempt binding.
fn renderable_engine() -> Engine {
    let mut engine = Engine::new(Ok(device())).unwrap();
    assert_eq!(engine.resumed(extent(800, 600)), EngineAction::BindSurface);
    let action = engine.surface_bound(Ok(binding()));
    assert!(matches!(action, EngineAction::ConfigureSurface { request_redraw: true, .. }));
    engine
}

#[test]
fn new_succeeds_exactly_when_acquisition_did() {
    let engine = Engine::new(Ok(device())).unwrap();
    assert_eq!(engine.state(), EngineState::DeviceReady);

    let failed = Engine::new(Err(unavailable("no adapter")));
    assert_eq!(failed.unwrap_err(), unavailable("no adapter"));
}

#[test]
fn device_acquisition_success_reaches_device_ready() {
    let mut engine = Engine::uninitialized();
    assert_eq!(engine.state(), EngineState::Uninitialized);
    let action = engine.device_acquired(Ok(device()));
    assert_eq!(action, EngineAction::Nothing);
    assert_eq!(engine.state(), EngineState::DeviceReady);
}

#[test]
fn device_acquisition_failure_is_fatal() {
    let mut engine = Engine::uninitialized();
    assert_eq!(engine.state(), EngineState::Uninitialized);
    let action = engine.device_acquired(Err(unavailable("no adapter")));
    assert_eq!(action, EngineAction::FatalAbort);
    assert_eq!(engine.state(), EngineState::ShuttingDown);
}

#[test]
fn startup_reaches_renderable_configured_to_window_extent() {
    let mut engine = Engine::new(Ok(device())).unwrap();
    assert_eq!(engine.state(), EngineState::DeviceReady);

    assert_eq!(engine.resumed(extent(800, 600)), EngineAction::BindSurface);
    assert_eq!(engine.state(), EngineState::WindowPending);

    match engine.surface_bound(Ok(binding())) {
        EngineAction::ConfigureSurface { config, request_redraw } => {
            assert!(request_redraw);
            assert_eq!(config.format, TextureFormat::Bgra8Unorm);
            assert_eq!(config.view_format, TextureFormat::Bgra8UnormSrgb);
            assert_eq!(config.width, 800);
            assert_eq!(config.height, 600);
        }
        other => panic!("expected a configure action, got {:?}", other),
    }
    assert_eq!(engine.state(), EngineState::Renderable);
    assert!(!engine.needs_configuration());
    assert_eq!(engine.configured_extent(), Some(extent(800, 600)));
}

#[test]
fn binding_succeeds_on_third_attempt() {
    let mut engine = Engine::new(Ok(device())).unwrap();
    let mut attempts = 0;
    let mut action = engine.resumed(extent(800, 600));
    // A binding that fails twice, then succeeds: exactly three attempts.
    let mut outcomes = vec![
        Ok(binding()),
        Err(unavailable("transient")),
        Err(unavailable("transient")),
    ];
    while action == EngineAction::BindSurface {
        attempts += 1;
        action = engine.surface_bound(outcomes.pop().unwrap());
    }
    assert_eq!(attempts, 3);
    assert!(matches!(action, EngineAction::ConfigureSurface { request_redraw: true, .. }));
    assert_eq!(engine.state(), EngineState::Renderable);
    assert!(!engine.needs_configuration());
}

#[test]
fn binding_aborts_after_three_failed_attempts() {
    let mut engine = Engine::new(Ok(device())).unwrap();
    let mut attempts = 0;
    let mut action = engine.resumed(extent(800, 600));
    // A binding that always fails: exactly three attempts, then a fatal abort.
    while action == EngineAction::BindSurface {
        attempts += 1;
        action = engine.surface_bound(Err(unavailable("always")));
    }
    assert_eq!(attempts, 3);
    assert_eq!(action, EngineAction::FatalAbort);
    assert_eq!(engine.state(), EngineState::ShuttingDown);
}

#[test]
fn redraw_renders_with_srgb_view_and_requests_next_redraw() {
    let mut engine = renderable_engine();
    let action = engine.window_event(WindowEvent::RedrawRequested);
    assert_eq!(
        action,
        EngineAction::Render(RenderPlan {
            view_format: TextureFormat::Bgra8UnormSrgb,
            clear_color: ClearColor::Green,
        })
    );
    assert_eq!(engine.frame_rendered(Ok(())), EngineAction::RequestRedraw);
}

#[test]
fn render_failure_drops_frame_and_loop_continues() {
    let mut engine = renderable_engine();
    assert_eq!(engine.frame_rendered(Err(DeviceError::Lost)), EngineAction::Nothing);
    assert_eq!(engine.frame_rendered(Err(DeviceError::OutOfMemory)), EngineAction::Nothing);
    assert_eq!(engine.state(), EngineState::Renderable);
    // The next redraw request still renders.
    assert!(matches!(
        engine.window_event(WindowEvent::RedrawRequested),
        EngineAction::Render(_)
    ));
}

#[test]
fn render_without_window_is_unexpected() {
    let engine = Engine::new(Ok(device())).unwrap();
    assert_eq!(engine.render().unwrap_err(), DeviceError::Unexpected);
}

#[test]
fn redraw_outside_renderable_does_nothing() {
    let mut engine = Engine::new(Ok(device())).unwrap();
    assert_eq!(engine.window_event(WindowEvent::RedrawRequested), EngineAction::Nothing);
    assert_eq!(engine.resumed(extent(800, 600)), EngineAction::BindSurface);
    assert_eq!(engine.window_event(WindowEvent::RedrawRequested), EngineAction::Nothing);
}

#[test]
fn resumed_outside_device_ready_does_nothing() {
    let mut engine = renderable_engine();
    assert_eq!(engine.resumed(extent(100, 100)), EngineAction::Nothing);
    assert_eq!(engine.state(), EngineState::Renderable);
}

#[test]
fn resize_reconfigures_without_rendering() {
    let mut engine = renderable_engine();
    match engine.window_event(WindowEvent::Resized(extent(1024, 768))) {
        EngineAction::ConfigureSurface { config, request_redraw } => {
            assert!(!request_redraw);
            assert_eq!(config.width, 1024);
            assert_eq!(config.height, 768);
            assert_eq!(config.format, TextureFormat::Bgra8Unorm);
        }
        other => panic!("expected a configure action, got {:?}", other),
    }
    assert!(!engine.needs_configuration());
    assert_eq!(engine.configured_extent(), Some(extent(1024, 768)));
    assert_eq!(engine.state(), EngineState::Renderable);
}

#[test]
fn close_requests_exit_exactly_once() {
    let mut engine = renderable_engine();
    let mut exits = 0;
    if engine.window_event(WindowEvent::CloseRequested) == EngineAction::ExitLoop {
        exits += 1;
    }
    assert_eq!(engine.state(), EngineState::ShuttingDown);
    // No further signal asks for anything: no redraw, no second exit.
    assert_eq!(engine.window_event(WindowEvent::CloseRequested), EngineAction::Nothing);
    assert_eq!(engine.window_event(WindowEvent::RedrawRequested), EngineAction::Nothing);
    assert_eq!(engine.window_event(WindowEvent::Resized(extent(5, 5))), EngineAction::Nothing);
    assert_eq!(engine.frame_rendered(Ok(())), EngineAction::Nothing);
    assert_eq!(engine.resumed(extent(5, 5)), EngineAction::Nothing);
    assert_eq!(exits, 1);
}

#[test]
fn ignored_signals_do_nothing() {
    let mut engine = renderable_engine();
    assert_eq!(engine.window_event(WindowEvent::Other), EngineAction::Nothing);
    assert_eq!(engine.state(), EngineState::Renderable);
}
