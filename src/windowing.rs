//! Setting up the layer surface and the state that tracks it.
use vstd::prelude::*;
use crate::config::WindowConfig;
use crate::errors::LayerShikaError;
use crate::femtovg_window::{FemtoVGWindow, RenderState, WindowEvent};
use crate::geometry::{PhysicalSize, ScaleFactor, WindowSize};
use crate::state::{SurfacePhase, SurfaceRequest, WindowState};
use crate::state_builder::WindowStateBuilder;

verus! {

/// The requests that apply the static configuration to a new layer surface:
/// anchor, margin, exclusive zone, keyboard interactivity, an initial size
/// of one pixel by the configured height (the compositor chooses the width),
/// and the commit that makes them take effect.
pub open spec fn layer_surface_setup(config: WindowConfig) -> Seq<SurfaceRequest> {
    seq![
        SurfaceRequest::SetAnchor(config.anchor),
        SurfaceRequest::SetMargin(config.margin),
        SurfaceRequest::SetExclusiveZone(config.exclusive_zone),
        SurfaceRequest::SetKeyboardInteractivity(config.keyboard_interactivity),
        SurfaceRequest::SetSize { width: 1, height: config.height },
        SurfaceRequest::Commit,
    ]
}

pub fn configure_layer_surface(config: &WindowConfig) -> (r: Vec<SurfaceRequest>)
    ensures
        r@ == layer_surface_setup(*config),
{
    let mut r: Vec<SurfaceRequest> = Vec::new();
    r.push(SurfaceRequest::SetAnchor(config.anchor));
    r.push(SurfaceRequest::SetMargin(config.margin));
    r.push(SurfaceRequest::SetExclusiveZone(config.exclusive_zone));
    r.push(SurfaceRequest::SetKeyboardInteractivity(config.keyboard_interactivity));
    r.push(SurfaceRequest::SetSize { width: 1, height: config.height });
    r.push(SurfaceRequest::Commit);
    assert(r@ =~= layer_surface_setup(*config));
    r
}

/// The size the rendering context and the window start with, before the
/// first Configure.
pub fn initial_size() -> (r: PhysicalSize)
    ensures
        r == (PhysicalSize { width: 1, height: 1 }),
{
    PhysicalSize::new(1, 1)
}

/// A render adapter one pixel square at `scale_factor`, with the events that
/// tell the UI framework so.
pub fn initialize_window(scale_factor: ScaleFactor) -> (r: (FemtoVGWindow, Vec<WindowEvent>))
    requires
        scale_factor.wf(),
    ensures
        r.0.wf(),
        r.0@.size == (PhysicalSize { width: 1, height: 1 }),
        r.0@.scale_factor == scale_factor,
        r.0@.render_state == RenderState::Dirty,
        r.1@ == seq![
            WindowEvent::Resized {
                size: WindowSize::Physical(PhysicalSize { width: 1, height: 1 }).logical_at(
                    ScaleFactor::spec_identity().numerator as nat,
                ),
            },
            WindowEvent::ScaleFactorChanged { scale_factor },
        ],
{
    let mut window = FemtoVGWindow::new();
    let mut events: Vec<WindowEvent> = Vec::new();
    events.push(window.set_size(WindowSize::Physical(initial_size())));
    events.push(window.set_scale_factor(scale_factor));
    assert(events@ =~= seq![
        WindowEvent::Resized {
            size: WindowSize::Physical(PhysicalSize { width: 1, height: 1 }).logical_at(
                ScaleFactor::spec_identity().numerator as nat,
            ),
        },
        WindowEvent::ScaleFactorChanged { scale_factor },
    ]);
    (window, events)
}

/// The surface state for `config` around `window`, awaiting the first
/// Configure.
pub fn initial_state(config: &WindowConfig, window: FemtoVGWindow) -> (r: Result<
    WindowState,
    LayerShikaError,
>)
    ensures
        r is Ok <==> (window.wf() && config.scale_factor.wf()),
        r matches Ok(s) ==> {
            &&& s.wf()
            &&& s@.window == window@
            &&& s@.size == (PhysicalSize { width: 0, height: 0 })
            &&& s@.output_size == (PhysicalSize { width: 0, height: 0 })
            &&& s@.scale_factor == config.scale_factor
            &&& s@.height == config.height
            &&& s@.exclusive_zone == config.exclusive_zone
            &&& s@.phase == SurfacePhase::AwaitingConfigure
        },
{
    WindowStateBuilder::new().with_scale_factor(config.scale_factor).with_height(
        config.height,
    ).with_exclusive_zone(config.exclusive_zone).with_window(window).build()
}

} // verus!
