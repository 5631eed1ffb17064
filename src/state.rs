//! Surface state and the protocol event dispatcher.
//!
//! [`WindowState`] holds the requested and output sizes, the pointer position
//! and the render adapter. Each protocol event is handled by
//! [`WindowState::dispatch`], which updates the state and returns, in order,
//! the requests the caller must send to the layer surface and the events it
//! must send to the UI framework.
use vstd::prelude::*;
use crate::config::{Anchor, KeyboardInteractivity, Margin};
use crate::errors::{InputError, LayerShikaError};
use crate::femtovg_window::{AdapterView, FemtoVGWindow, WindowEvent, rescaled, resized};
use crate::geometry::{
    LogicalPosition, PhysicalSize, ScaleFactor, WindowSize, logical_coordinate,
    to_logical_coordinate,
};
use crate::state_builder::WindowStateBuilder;

verus! {

/// A request to the layer surface or to its underlying surface.
#[derive(Clone, Copy, Debug, PartialEq, Eq, Structural)]
pub enum SurfaceRequest {
    SetAnchor(Anchor),
    SetMargin(Margin),
    SetExclusiveZone(i32),
    SetKeyboardInteractivity(KeyboardInteractivity),
    SetSize { width: u32, height: u32 },
    AckConfigure(u32),
    Commit,
}

/// One thing the caller must do, in the order given.
#[derive(Clone, Copy, Debug, PartialEq, Eq, Structural)]
pub enum Effect {
    Surface(SurfaceRequest),
    Window(WindowEvent),
}

/// Where the layer surface stands in its configure handshake.
#[derive(Clone, Copy, Debug, PartialEq, Eq, Structural)]
pub enum SurfacePhase {
    AwaitingConfigure,
    Configured,
    /// The compositor closed the surface: no request may be sent to it.
    Closed,
}

/// An event of the layer surface.
#[derive(Clone, Copy, Debug, PartialEq, Eq, Structural)]
pub enum LayerSurfaceEvent {
    Configure { serial: u32, width: u32, height: u32 },
    Closed,
}

/// An event of the output.
#[derive(Clone, Copy, Debug, PartialEq, Eq, Structural)]
pub enum OutputEvent {
    Mode { width: i32, height: i32 },
    /// Geometry, scale, name, description or done: only informational.
    Informational,
}

/// An event of the pointer; coordinates are in 1/256 of a device pixel.
#[derive(Clone, Copy, Debug, PartialEq, Eq, Structural)]
pub enum PointerEvent {
    Enter { surface_x: i32, surface_y: i32 },
    Leave,
    Motion { surface_x: i32, surface_y: i32 },
    Button { pressed: bool },
    /// Axis, frame and other events that the overlay ignores.
    Other,
}

/// A decoded protocol event, by the kind of object it came from.
#[derive(Clone, Copy, Debug, PartialEq, Eq, Structural)]
pub enum ProtocolEvent {
    LayerSurface(LayerSurfaceEvent),
    Output(OutputEvent),
    Pointer(PointerEvent),
    /// An event of any other bound object (registry, compositor, surface,
    /// layer shell, seat): nothing to do.
    Other,
}

/// The abstract state of a [`WindowState`].
pub struct StateView {
    pub window: AdapterView,
    pub size: PhysicalSize,
    pub output_size: PhysicalSize,
    pub pointer: LogicalPosition,
    pub scale_factor: ScaleFactor,
    pub height: u32,
    pub exclusive_zone: i32,
    pub phase: SurfacePhase,
}

impl StateView {
    pub open spec fn wf(self) -> bool {
        self.window.scale_factor.wf() && self.scale_factor.wf()
    }
}

/// The state once `size` has been applied to the window and the surface.
pub open spec fn size_applied(v: StateView, size: PhysicalSize) -> StateView {
    StateView {
        window: rescaled(resized(v.window, WindowSize::Physical(size)), v.scale_factor),
        size,
        ..v
    }
}

/// What applying `size` asks for: resize and rescale the window, then resize
/// the surface, restate its exclusive zone and commit.
pub open spec fn size_effects(v: StateView, size: PhysicalSize) -> Seq<Effect> {
    seq![
        Effect::Window(
            WindowEvent::Resized {
                size: WindowSize::Physical(size).logical_at(
                    v.window.scale_factor.numerator as nat,
                ),
            },
        ),
        Effect::Window(WindowEvent::ScaleFactorChanged { scale_factor: v.scale_factor }),
        Effect::Surface(SurfaceRequest::SetSize { width: size.width, height: size.height }),
        Effect::Surface(SurfaceRequest::SetExclusiveZone(v.exclusive_zone)),
        Effect::Surface(SurfaceRequest::Commit),
    ]
}

/// Applying a size to a closed surface does nothing.
pub open spec fn update_size_result(v: StateView, size: PhysicalSize) -> (StateView, Seq<Effect>) {
    if v.phase == SurfacePhase::Closed {
        (v, seq![])
    } else {
        (size_applied(v, size), size_effects(v, size))
    }
}

/// The size a Configure leads to: the proposed size when neither side is
/// zero, otherwise the current size again if it is non-degenerate.
pub open spec fn configure_target(v: StateView, width: u32, height: u32) -> Option<PhysicalSize> {
    if width > 0 && height > 0 {
        Some(PhysicalSize { width, height })
    } else if v.size.is_non_degenerate() {
        Some(v.size)
    } else {
        None
    }
}

/// A Configure is acknowledged with its own serial, then its target size is
/// applied; a closed surface ignores it.
pub open spec fn configure_result(v: StateView, serial: u32, width: u32, height: u32) -> (
    StateView,
    Seq<Effect>,
) {
    if v.phase == SurfacePhase::Closed {
        (v, seq![])
    } else {
        let acked = StateView { phase: SurfacePhase::Configured, ..v };
        let ack = seq![Effect::Surface(SurfaceRequest::AckConfigure(serial))];
        match configure_target(v, width, height) {
            Some(size) => (size_applied(acked, size), ack + size_effects(acked, size)),
            None => (acked, ack),
        }
    }
}

/// A dimension reported by the output; a negative one counts as zero.
pub open spec fn output_dimension(x: i32) -> u32 {
    if x < 0 {
        0
    } else {
        x as u32
    }
}

/// The logical pointer position for device coordinates `x`, `y`.
pub open spec fn pointer_at(v: StateView, x: i32, y: i32) -> LogicalPosition {
    LogicalPosition {
        x: logical_coordinate(x as int, v.scale_factor.numerator as nat) as i64,
        y: logical_coordinate(y as int, v.scale_factor.numerator as nat) as i64,
    }
}

pub open spec fn layer_surface_result(v: StateView, e: LayerSurfaceEvent) -> (StateView, Seq<Effect>) {
    match e {
        LayerSurfaceEvent::Configure { serial, width, height } => configure_result(
            v,
            serial,
            width,
            height,
        ),
        LayerSurfaceEvent::Closed => (StateView { phase: SurfacePhase::Closed, ..v }, seq![]),
    }
}

pub open spec fn output_result(v: StateView, e: OutputEvent) -> (StateView, Seq<Effect>) {
    match e {
        OutputEvent::Mode { width, height } => (
            StateView {
                output_size: PhysicalSize {
                    width: output_dimension(width),
                    height: output_dimension(height),
                },
                ..v
            },
            seq![],
        ),
        OutputEvent::Informational => (v, seq![]),
    }
}

pub open spec fn pointer_result(v: StateView, e: PointerEvent) -> (StateView, Seq<Effect>) {
    match e {
        PointerEvent::Enter { surface_x, surface_y } | PointerEvent::Motion {
            surface_x,
            surface_y,
        } => {
            let p = pointer_at(v, surface_x, surface_y);
            (
                StateView { pointer: p, ..v },
                seq![Effect::Window(WindowEvent::PointerMoved { position: p })],
            )
        },
        PointerEvent::Leave => (v, seq![Effect::Window(WindowEvent::PointerExited)]),
        PointerEvent::Button { pressed } => (
            v,
            seq![
                Effect::Window(
                    if pressed {
                        WindowEvent::PointerPressed { position: v.pointer }
                    } else {
                        WindowEvent::PointerReleased { position: v.pointer }
                    },
                ),
            ],
        ),
        PointerEvent::Other => (v, seq![]),
    }
}

/// The state and the effects after one protocol event.
pub open spec fn dispatch_result(v: StateView, e: ProtocolEvent) -> (StateView, Seq<Effect>) {
    match e {
        ProtocolEvent::LayerSurface(ev) => layer_surface_result(v, ev),
        ProtocolEvent::Output(ev) => output_result(v, ev),
        ProtocolEvent::Pointer(ev) => pointer_result(v, ev),
        ProtocolEvent::Other => (v, seq![]),
    }
}

/// `v` is the state that `b` describes: its window, its sizes (zero where
/// unset), the pointer at the origin and the surface awaiting its first
/// Configure.
pub open spec fn is_built_from(v: StateView, b: WindowStateBuilder) -> bool {
    &&& b.window matches Some(w) && v.window == w@
    &&& v.size == match b.size {
        Some(z) => z,
        None => PhysicalSize { width: 0, height: 0 },
    }
    &&& v.output_size == match b.output_size {
        Some(z) => z,
        None => PhysicalSize { width: 0, height: 0 },
    }
    &&& v.pointer == (LogicalPosition { x: 0, y: 0 })
    &&& v.scale_factor == b.scale_factor
    &&& v.height == b.height
    &&& v.exclusive_zone == b.exclusive_zone
    &&& v.phase == SurfacePhase::AwaitingConfigure
}

pub struct WindowState {
    window: FemtoVGWindow,
    size: PhysicalSize,
    output_size: PhysicalSize,
    current_pointer_position: LogicalPosition,
    scale_factor: ScaleFactor,
    height: u32,
    exclusive_zone: i32,
    phase: SurfacePhase,
}

impl View for WindowState {
    type V = StateView;

    closed spec fn view(&self) -> StateView {
        StateView {
            window: self.window@,
            size: self.size,
            output_size: self.output_size,
            pointer: self.current_pointer_position,
            scale_factor: self.scale_factor,
            height: self.height,
            exclusive_zone: self.exclusive_zone,
            phase: self.phase,
        }
    }
}

impl WindowState {
    pub open spec fn wf(&self) -> bool {
        self@.wf()
    }

    /// The state a builder describes, awaiting its first Configure, with the
    /// pointer at the origin and sizes defaulting to zero. A window is
    /// required, and both scale factors must be positive.
    pub fn new(builder: WindowStateBuilder) -> (r: Result<WindowState, LayerShikaError>)
        ensures
            builder.window.is_none() ==> r matches Err(
                LayerShikaError::InvalidInput(InputError::WindowRequired),
            ),
            builder.window matches Some(w) ==> (r is Ok <==> (w.wf()
                && builder.scale_factor.wf())),
            builder.window matches Some(w) && !(w.wf() && builder.scale_factor.wf()) ==> r matches Err(
                LayerShikaError::InvalidInput(InputError::ScaleFactorNotPositive),
            ),
            r matches Ok(s) ==> s.wf() && is_built_from(s@, builder),
    {
        let window = match builder.window {
            Some(w) => w,
            None => {
                return Err(LayerShikaError::InvalidInput(InputError::WindowRequired));
            },
        };
        if window.scale_factor().numerator == 0 || builder.scale_factor.numerator == 0 {
            return Err(LayerShikaError::InvalidInput(InputError::ScaleFactorNotPositive));
        }
        let size = match builder.size {
            Some(z) => z,
            None => PhysicalSize::default(),
        };
        let output_size = match builder.output_size {
            Some(z) => z,
            None => PhysicalSize::default(),
        };
        Ok(
            WindowState {
                window,
                size,
                output_size,
                current_pointer_position: LogicalPosition::default(),
                scale_factor: builder.scale_factor,
                height: builder.height,
                exclusive_zone: builder.exclusive_zone,
                phase: SurfacePhase::AwaitingConfigure,
            },
        )
    }

    /// Applies a size to the window and to the layer surface.
    pub fn update_size(&mut self, width: u32, height: u32) -> (effects: Vec<Effect>)
        requires
            old(self).wf(),
        ensures
            final(self).wf(),
            (final(self)@, effects@) == update_size_result(
                old(self)@,
                PhysicalSize { width, height },
            ),
    {
        let mut effects: Vec<Effect> = Vec::new();
        if self.phase == SurfacePhase::Closed {
            return effects;
        }
        let new_size = PhysicalSize::new(width, height);
        let resized_event = self.window.set_size(WindowSize::Physical(new_size));
        let rescaled_event = self.window.set_scale_factor(self.scale_factor);
        effects.push(Effect::Window(resized_event));
        effects.push(Effect::Window(rescaled_event));
        effects.push(Effect::Surface(SurfaceRequest::SetSize { width, height }));
        effects.push(Effect::Surface(SurfaceRequest::SetExclusiveZone(self.exclusive_zone)));
        effects.push(Effect::Surface(SurfaceRequest::Commit));
        self.size = new_size;
        assert(effects@ =~= size_effects(old(self)@, new_size));
        effects
    }

    /// Stores the logical position of the pointer at device coordinates
    /// `x`, `y` (in 1/256 of a device pixel).
    pub fn set_current_pointer_position(&mut self, x: i32, y: i32)
        requires
            old(self).wf(),
        ensures
            final(self)@ == (StateView { pointer: pointer_at(old(self)@, x, y), ..old(self)@ }),
    {
        let lx = to_logical_coordinate(x, self.scale_factor);
        let ly = to_logical_coordinate(y, self.scale_factor);
        self.current_pointer_position = LogicalPosition::new(lx, ly);
    }

    pub fn size(&self) -> (r: PhysicalSize)
        ensures
            r == self@.size,
    {
        self.size
    }

    pub fn output_size(&self) -> (r: PhysicalSize)
        ensures
            r == self@.output_size,
    {
        self.output_size
    }

    pub fn set_output_size(&mut self, output_size: PhysicalSize)
        ensures
            final(self)@ == (StateView { output_size, ..old(self)@ }),
    {
        self.output_size = output_size;
    }

    pub fn current_pointer_position(&self) -> (r: LogicalPosition)
        ensures
            r == self@.pointer,
    {
        self.current_pointer_position
    }

    pub fn height(&self) -> (r: u32)
        ensures
            r == self@.height,
    {
        self.height
    }

    pub fn phase(&self) -> (r: SurfacePhase)
        ensures
            r == self@.phase,
    {
        self.phase
    }

    pub fn window(&self) -> (r: &FemtoVGWindow)
        ensures
            r@ == self@.window,
    {
        &self.window
    }

    /// Sets the window's size at its current scale factor and returns the
    /// resize notification for the UI framework.
    pub fn resize_window(&mut self, size: WindowSize) -> (e: WindowEvent)
        requires
            old(self).wf(),
        ensures
            final(self).wf(),
            final(self)@ == (StateView { window: resized(old(self)@.window, size), ..old(self)@ }),
            e == (WindowEvent::Resized {
                size: size.logical_at(old(self)@.window.scale_factor.numerator as nat),
            }),
    {
        self.window.set_size(size)
    }

    /// Marks the window for redraw.
    pub fn request_redraw(&mut self)
        ensures
            final(self)@ == (StateView {
                window: crate::femtovg_window::redraw_requested(old(self)@.window),
                ..old(self)@
            }),
    {
        self.window.request_redraw();
    }

    /// Tests and clears the window's dirty flag; `true` means that one render
    /// pass and buffer swap are due now.
    pub fn render_frame_if_dirty(&mut self) -> (due: bool)
        ensures
            due == crate::femtovg_window::frame_due(old(self)@.window),
            final(self)@ == (StateView {
                window: crate::femtovg_window::frame_taken(old(self)@.window),
                ..old(self)@
            }),
    {
        self.window.render_frame_if_dirty()
    }

    pub fn handle_layer_surface_event(&mut self, event: LayerSurfaceEvent) -> (effects: Vec<
        Effect,
    >)
        requires
            old(self).wf(),
        ensures
            final(self).wf(),
            (final(self)@, effects@) == layer_surface_result(old(self)@, event),
    {
        match event {
            LayerSurfaceEvent::Configure { serial, width, height } => {
                let mut effects: Vec<Effect> = Vec::new();
                if self.phase == SurfacePhase::Closed {
                    return effects;
                }
                effects.push(Effect::Surface(SurfaceRequest::AckConfigure(serial)));
                self.phase = SurfacePhase::Configured;
                if width > 0 && height > 0 {
                    let mut rest = self.update_size(width, height);
                    effects.append(&mut rest);
                } else if self.size.width > 0 && self.size.height > 0 {
                    let current = self.size;
                    let mut rest = self.update_size(current.width, current.height);
                    effects.append(&mut rest);
                }
                effects
            },
            LayerSurfaceEvent::Closed => {
                self.phase = SurfacePhase::Closed;
                Vec::new()
            },
        }
    }

    pub fn handle_output_event(&mut self, event: OutputEvent) -> (effects: Vec<Effect>)
        ensures
            (final(self)@, effects@) == output_result(old(self)@, event),
    {
        match event {
            OutputEvent::Mode { width, height } => {
                let w: u32 = if width < 0 {
                    0
                } else {
                    width as u32
                };
                let h: u32 = if height < 0 {
                    0
                } else {
                    height as u32
                };
                self.set_output_size(PhysicalSize::new(w, h));
                Vec::new()
            },
            OutputEvent::Informational => Vec::new(),
        }
    }

    pub fn handle_pointer_event(&mut self, event: PointerEvent) -> (effects: Vec<Effect>)
        requires
            old(self).wf(),
        ensures
            (final(self)@, effects@) == pointer_result(old(self)@, event),
    {
        let mut effects: Vec<Effect> = Vec::new();
        match event {
            PointerEvent::Enter { surface_x, surface_y } | PointerEvent::Motion {
                surface_x,
                surface_y,
            } => {
                self.set_current_pointer_position(surface_x, surface_y);
                effects.push(
                    Effect::Window(
                        WindowEvent::PointerMoved { position: self.current_pointer_position },
                    ),
                );
            },
            PointerEvent::Leave => {
                effects.push(Effect::Window(WindowEvent::PointerExited));
            },
            PointerEvent::Button { pressed } => {
                let position = self.current_pointer_position;
                let event = if pressed {
                    WindowEvent::PointerPressed { position }
                } else {
                    WindowEvent::PointerReleased { position }
                };
                effects.push(Effect::Window(event));
            },
            PointerEvent::Other => {},
        }
        assert(effects@ =~= pointer_result(old(self)@, event).1);
        effects
    }

    /// Handles one protocol event.
    pub fn dispatch(&mut self, event: ProtocolEvent) -> (effects: Vec<Effect>)
        requires
            old(self).wf(),
        ensures
            final(self).wf(),
            (final(self)@, effects@) == dispatch_result(old(self)@, event),
    {
        match event {
            ProtocolEvent::LayerSurface(e) => self.handle_layer_surface_event(e),
            ProtocolEvent::Output(e) => self.handle_output_event(e),
            ProtocolEvent::Pointer(e) => self.handle_pointer_event(e),
            ProtocolEvent::Other => Vec::new(),
        }
    }
}

/// Every size request among `effects` asks for `size`.
pub open spec fn resizes_only_to(effects: Seq<Effect>, size: PhysicalSize) -> bool {
    forall|i: int|
        0 <= i < effects.len() ==> (#[trigger] effects[i] matches Effect::Surface(
            SurfaceRequest::SetSize { width: w, height: h },
        ) ==> w == size.width && h == size.height)
}

/// A Configure proposing a zero width or height changes neither the requested
/// size nor the output size: any size it sends to the surface is the current
/// one, and handling the same Configure again changes the sizes no further.
pub proof fn lemma_degenerate_configure_keeps_sizes(
    v: StateView,
    serial: u32,
    width: u32,
    height: u32,
)
    requires
        width == 0 || height == 0,
    ensures
        configure_result(v, serial, width, height).0.size == v.size,
        configure_result(v, serial, width, height).0.output_size == v.output_size,
        resizes_only_to(configure_result(v, serial, width, height).1, v.size),
        configure_result(configure_result(v, serial, width, height).0, serial, width, height).0.size
            == v.size,
        configure_result(
            configure_result(v, serial, width, height).0,
            serial,
            width,
            height,
        ).0.output_size == v.output_size,
{
}

/// Every Configure that the surface has not been closed for is acknowledged
/// first, with the serial of that very event.
pub proof fn lemma_configure_acknowledged_first(v: StateView, serial: u32, width: u32, height: u32)
    requires
        v.phase != SurfacePhase::Closed,
    ensures
        configure_result(v, serial, width, height).1.len() > 0,
        configure_result(v, serial, width, height).1[0] == Effect::Surface(
            SurfaceRequest::AckConfigure(serial),
        ),
        configure_result(v, serial, width, height).0.phase == SurfacePhase::Configured,
{
}

/// After the pointer enters (or moves) at device coordinates `x`, `y`, the UI
/// is sent a move to the logical position `pointer_at(v, x, y)`, and a button
/// event right after is sent as a press or release at that same position.
pub proof fn lemma_button_at_last_pointer_position(v: StateView, x: i32, y: i32, pressed: bool)
    ensures
        pointer_result(v, PointerEvent::Enter { surface_x: x, surface_y: y }).1 == seq![
            Effect::Window(WindowEvent::PointerMoved { position: pointer_at(v, x, y) }),
        ],
        pointer_result(
            pointer_result(v, PointerEvent::Enter { surface_x: x, surface_y: y }).0,
            PointerEvent::Button { pressed },
        ).1 == seq![
            Effect::Window(
                if pressed {
                    WindowEvent::PointerPressed { position: pointer_at(v, x, y) }
                } else {
                    WindowEvent::PointerReleased { position: pointer_at(v, x, y) }
                },
            ),
        ],
{
}

/// A Configure with a non-degenerate size on a surface that is not closed
/// gives the surface and the window exactly that size, and leaves exactly one
/// frame due: the first render pass after it renders, the next one does not.
pub proof fn lemma_configure_then_one_frame(v: StateView, serial: u32, width: u32, height: u32)
    requires
        v.phase != SurfacePhase::Closed,
        width > 0,
        height > 0,
    ensures
        configure_result(v, serial, width, height).0.size == (PhysicalSize { width, height }),
        configure_result(v, serial, width, height).0.window.size == (PhysicalSize {
            width,
            height,
        }),
        crate::femtovg_window::frame_due(configure_result(v, serial, width, height).0.window),
        !crate::femtovg_window::frame_due(
            crate::femtovg_window::frame_taken(configure_result(v, serial, width, height).0.window),
        ),
{
}

/// Once the compositor has closed the surface, no event leads to another
/// request to it, and the surface stays closed.
pub proof fn lemma_closed_surface_gets_no_requests(v: StateView, e: ProtocolEvent)
    requires
        v.phase == SurfacePhase::Closed,
    ensures
        dispatch_result(v, e).0.phase == SurfacePhase::Closed,
        forall|i: int|
            0 <= i < dispatch_result(v, e).1.len() ==> !(#[trigger] dispatch_result(v, e).1[i] is Surface),
{
}

} // verus!
