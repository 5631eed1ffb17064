use layer_shika::builder::WindowingSystemBuilder;
use layer_shika::config::{Anchor, KeyboardInteractivity, Margin, WindowConfig};
use layer_shika::errors::{ConfigurationError, InputError, LayerShikaError};
use layer_shika::femtovg_window::{FemtoVGWindow, WindowEvent};
use layer_shika::geometry::{LogicalPosition, LogicalSize, PhysicalSize, ScaleFactor};
use layer_shika::state::{
    Effect, LayerSurfaceEvent, OutputEvent, PointerEvent, ProtocolEvent, SurfacePhase,
    SurfaceRequest, WindowState,
};
use layer_shika::state_builder::WindowStateBuilder;
use layer_shika::windowing::{configure_layer_surface, initial_state, initialize_window};

fn state_at(numerator: u32) -> WindowState {
    let s = ScaleFactor::from_numerator(numerator).unwrap();
    WindowStateBuilder::new()
        .with_scale_factor(s)
        .with_window(FemtoVGWindow::new())
        .build()
        .unwrap()
}

fn configure(serial: u32, width: u32, height: u32) -> ProtocolEvent {
    ProtocolEvent::LayerSurface(LayerSurfaceEvent::Configure { serial, width, height })
}

#[test]
fn pointer_enter_then_button_at_same_logical_position() {
    let mut st = state_at(240);
    let fx = |px: i32| px * 256;
    let moved = st.dispatch(ProtocolEvent::Pointer(PointerEvent::Enter {
        surface_x: fx(100),
        surface_y: fx(50),
    }));
    let expected = LogicalPosition::new(50 * 256, 25 * 256);
    assert_eq!(moved, vec![Effect::Window(WindowEvent::PointerMoved { position: expected })]);
    assert_eq!(st.current_pointer_position(), expected);
    let pressed = st.dispatch(ProtocolEvent::Pointer(PointerEvent::Button { pressed: true }));
    assert_eq!(pressed, vec![Effect::Window(WindowEvent::PointerPressed { position: expected })]);
    let released = st.dispatch(ProtocolEvent::Pointer(PointerEvent::Button { pressed: false }));
    assert_eq!(
        released,
        vec![Effect::Window(WindowEvent::PointerReleased { position: expected })]
    );
}

#[test]
fn pointer_motion_and_leave() {
    let mut st = state_at(120);
    let moved = st.dispatch(ProtocolEvent::Pointer(PointerEvent::Motion {
        surface_x: 10 * 256 + 128,
        surface_y: -256,
    }));
    let p = LogicalPosition::new(10 * 256 + 128, -256);
    assert_eq!(moved, vec![Effect::Window(WindowEvent::PointerMoved { position: p })]);
    let left = st.dispatch(ProtocolEvent::Pointer(PointerEvent::Leave));
    assert_eq!(left, vec![Effect::Window(WindowEvent::PointerExited)]);
    assert_eq!(st.current_pointer_position(), p);
    assert!(st.dispatch(ProtocolEvent::Pointer(PointerEvent::Other)).is_empty());
}

#[test]
fn configure_is_acked_and_applied() {
    let mut st = state_at(120);
    let effects = st.dispatch(configure(7, 300, 30));
    assert_eq!(
        effects,
        vec![
            Effect::Surface(SurfaceRequest::AckConfigure(7)),
            Effect::Window(WindowEvent::Resized {
                size: LogicalSize { width: 300 * 256, height: 30 * 256 }
            }),
            Effect::Window(WindowEvent::ScaleFactorChanged {
                scale_factor: ScaleFactor::identity()
            }),
            Effect::Surface(SurfaceRequest::SetSize { width: 300, height: 30 }),
            Effect::Surface(SurfaceRequest::SetExclusiveZone(-1)),
            Effect::Surface(SurfaceRequest::Commit),
        ]
    );
    assert_eq!(st.size(), PhysicalSize::new(300, 30));
    assert_eq!(st.window().size(), PhysicalSize::new(300, 30));
    assert_eq!(st.phase(), SurfacePhase::Configured);
}

#[test]
fn degenerate_configure_reapplies_current_size() {
    let mut st = state_at(120);
    st.dispatch(configure(1, 300, 30));
    st.dispatch(ProtocolEvent::Output(OutputEvent::Mode { width: 1920, height: 1080 }));
    for (w, h) in [(0, 30), (300, 0), (0, 0)] {
        let effects = st.dispatch(configure(2, w, h));
        assert_eq!(effects[0], Effect::Surface(SurfaceRequest::AckConfigure(2)));
        assert!(effects.contains(&Effect::Surface(SurfaceRequest::SetSize {
            width: 300,
            height: 30
        })));
        assert_eq!(st.size(), PhysicalSize::new(300, 30));
        assert_eq!(st.output_size(), PhysicalSize::new(1920, 1080));
        assert_eq!(st.window().size(), PhysicalSize::new(300, 30));
    }
}

#[test]
fn degenerate_first_configure_only_acks() {
    let mut st = state_at(120);
    let effects = st.dispatch(configure(3, 0, 0));
    assert_eq!(effects, vec![Effect::Surface(SurfaceRequest::AckConfigure(3))]);
    assert_eq!(st.size(), PhysicalSize::new(0, 0));
    assert_eq!(st.phase(), SurfacePhase::Configured);
}

#[test]
fn closed_surface_ignores_configure() {
    let mut st = state_at(120);
    assert!(st.dispatch(ProtocolEvent::LayerSurface(LayerSurfaceEvent::Closed)).is_empty());
    assert_eq!(st.phase(), SurfacePhase::Closed);
    assert!(st.dispatch(configure(4, 300, 30)).is_empty());
    assert!(st.update_size(10, 10).is_empty());
    assert_eq!(st.size(), PhysicalSize::new(0, 0));
}

#[test]
fn output_mode_sets_output_size_and_clamps_negative() {
    let mut st = state_at(120);
    assert!(st.dispatch(ProtocolEvent::Output(OutputEvent::Mode { width: 2560, height: -5 }))
        .is_empty());
    assert_eq!(st.output_size(), PhysicalSize::new(2560, 0));
    assert!(st.dispatch(ProtocolEvent::Output(OutputEvent::Informational)).is_empty());
    assert!(st.dispatch(ProtocolEvent::Other).is_empty());
    assert_eq!(st.output_size(), PhysicalSize::new(2560, 0));
}

#[test]
fn state_builder_requires_a_window() {
    let r = WindowStateBuilder::new().build();
    assert!(matches!(r, Err(LayerShikaError::InvalidInput(InputError::WindowRequired))));
}

#[test]
fn state_builder_rejects_zero_scale() {
    let r = WindowStateBuilder::new()
        .with_scale_factor(ScaleFactor { numerator: 0 })
        .with_window(FemtoVGWindow::new())
        .build();
    assert!(matches!(r, Err(LayerShikaError::InvalidInput(InputError::ScaleFactorNotPositive))));
}

#[test]
fn state_builder_carries_its_fields() {
    let st = WindowStateBuilder::new()
        .with_size(PhysicalSize::new(5, 6))
        .with_output_size(PhysicalSize::new(7, 8))
        .with_height(40)
        .with_exclusive_zone(12)
        .with_window(FemtoVGWindow::new())
        .build()
        .unwrap();
    assert_eq!(st.size(), PhysicalSize::new(5, 6));
    assert_eq!(st.output_size(), PhysicalSize::new(7, 8));
    assert_eq!(st.height(), 40);
    assert_eq!(st.current_pointer_position(), LogicalPosition::new(0, 0));
    assert_eq!(st.phase(), SurfacePhase::AwaitingConfigure);
}

#[test]
fn end_to_end_default_config_first_configure_renders_once() {
    let config = WindowConfig::default();
    assert_eq!(config.height, 30);
    assert_eq!(config.exclusive_zone, -1);
    assert_eq!(config.anchor.bits, 1 | 4 | 8);
    let setup = configure_layer_surface(&config);
    assert_eq!(setup[4], SurfaceRequest::SetSize { width: 1, height: 30 });
    let (window, events) = initialize_window(config.scale_factor);
    assert_eq!(events.len(), 2);
    let mut st = initial_state(&config, window).unwrap();
    // The initial sizing leaves a frame due; the loop renders it.
    assert!(st.render_frame_if_dirty());
    let effects = st.dispatch(configure(1, 300, 30));
    assert_eq!(effects[0], Effect::Surface(SurfaceRequest::AckConfigure(1)));
    assert_eq!(st.window().size(), PhysicalSize::new(300, 30));
    assert!(st.render_frame_if_dirty());
    assert!(!st.render_frame_if_dirty());
}

#[test]
fn layer_surface_setup_requests() {
    let mut config = WindowConfig::default();
    config.margin = Margin { top: 1, right: 2, bottom: 3, left: 4 };
    config.keyboard_interactivity = KeyboardInteractivity::Exclusive;
    config.anchor = Anchor::bottom().union(Anchor::left());
    config.exclusive_zone = 30;
    assert_eq!(
        configure_layer_surface(&config),
        vec![
            SurfaceRequest::SetAnchor(Anchor { bits: 2 | 4 }),
            SurfaceRequest::SetMargin(Margin { top: 1, right: 2, bottom: 3, left: 4 }),
            SurfaceRequest::SetExclusiveZone(30),
            SurfaceRequest::SetKeyboardInteractivity(KeyboardInteractivity::Exclusive),
            SurfaceRequest::SetSize { width: 1, height: 30 },
            SurfaceRequest::Commit,
        ]
    );
}

#[test]
fn builder_without_component_is_rejected() {
    let r = WindowingSystemBuilder::new().with_height(40).build();
    assert!(matches!(
        r,
        Err(LayerShikaError::WindowConfiguration(ConfigurationError::ComponentDefinitionRequired))
    ));
}

#[test]
fn default_config_namespace() {
    assert_eq!(WindowConfig::default().namespace, "layer-shika");
}

#[test]
fn update_size_requests_in_order() {
    let mut st = state_at(240);
    // The adapter still has scale 1 when it is resized; the state's scale
    // factor is applied to it right after.
    let effects = st.update_size(400, 50);
    assert_eq!(
        effects,
        vec![
            Effect::Window(WindowEvent::Resized {
                size: LogicalSize { width: 400 * 256, height: 50 * 256 }
            }),
            Effect::Window(WindowEvent::ScaleFactorChanged {
                scale_factor: ScaleFactor::from_numerator(240).unwrap()
            }),
            Effect::Surface(SurfaceRequest::SetSize { width: 400, height: 50 }),
            Effect::Surface(SurfaceRequest::SetExclusiveZone(-1)),
            Effect::Surface(SurfaceRequest::Commit),
        ]
    );
    assert_eq!(st.size(), PhysicalSize::new(400, 50));
    let again = st.update_size(400, 50);
    assert_eq!(
        again[0],
        Effect::Window(WindowEvent::Resized {
            size: LogicalSize { width: 200 * 256, height: 25 * 256 }
        })
    );
}

#[test]
fn window_redraw_and_resize_through_state() {
    let mut st = state_at(120);
    assert!(!st.render_frame_if_dirty());
    st.request_redraw();
    assert!(st.render_frame_if_dirty());
    let e = st.resize_window(layer_shika::geometry::WindowSize::Physical(PhysicalSize::new(8, 4)));
    assert_eq!(e, WindowEvent::Resized { size: LogicalSize { width: 8 * 256, height: 4 * 256 } });
    assert_eq!(st.window().size(), PhysicalSize::new(8, 4));
    assert_eq!(st.size(), PhysicalSize::new(0, 0));
    assert!(st.render_frame_if_dirty());
}

#[test]
fn closed_surface_still_tracks_pointer() {
    let mut st = state_at(120);
    st.dispatch(ProtocolEvent::LayerSurface(LayerSurfaceEvent::Closed));
    let effects = st.dispatch(ProtocolEvent::Pointer(PointerEvent::Enter {
        surface_x: 256,
        surface_y: 512,
    }));
    assert_eq!(
        effects,
        vec![Effect::Window(WindowEvent::PointerMoved { position: LogicalPosition::new(256, 512) })]
    );
}
