//! The render adapter: the window-adapter side of the UI framework, reduced to
//! the state it decides on (dirty flag, physical size, scale factor).
//!
//! Each method returns the event that the UI framework must be sent, and
//! [`FemtoVGWindow::render_frame_if_dirty`] returns whether a render pass and
//! buffer swap are due.
use vstd::prelude::*;
use crate::geometry::{LogicalPosition, LogicalSize, PhysicalSize, ScaleFactor, WindowSize};

verus! {

/// Whether the UI's visual output has changed since the last render pass.
#[derive(Clone, Copy, Debug, PartialEq, Eq, Structural)]
pub enum RenderState {
    Clean,
    Dirty,
}

/// An event for the UI framework.
#[derive(Clone, Copy, Debug, PartialEq, Eq, Structural)]
pub enum WindowEvent {
    Resized { size: LogicalSize },
    ScaleFactorChanged { scale_factor: ScaleFactor },
    PointerMoved { position: LogicalPosition },
    PointerExited,
    /// The (single, primary) pointer button went down.
    PointerPressed { position: LogicalPosition },
    /// The (single, primary) pointer button went up.
    PointerReleased { position: LogicalPosition },
}

/// The abstract state of a render adapter.
pub struct AdapterView {
    pub render_state: RenderState,
    pub size: PhysicalSize,
    pub scale_factor: ScaleFactor,
}

/// The state after a redraw request.
pub open spec fn redraw_requested(v: AdapterView) -> AdapterView {
    AdapterView { render_state: RenderState::Dirty, ..v }
}

/// Whether a render pass is due in state `v`.
pub open spec fn frame_due(v: AdapterView) -> bool {
    v.render_state == RenderState::Dirty
}

/// The state after a render pass has tested and cleared the dirty flag.
pub open spec fn frame_taken(v: AdapterView) -> AdapterView {
    AdapterView { render_state: RenderState::Clean, ..v }
}

/// The state after the window has been given size `ws`.
pub open spec fn resized(v: AdapterView, ws: WindowSize) -> AdapterView {
    AdapterView {
        render_state: RenderState::Dirty,
        size: ws.physical_at(v.scale_factor.numerator as nat),
        ..v
    }
}

/// The state after the scale factor has been set to `s`.
pub open spec fn rescaled(v: AdapterView, s: ScaleFactor) -> AdapterView {
    AdapterView { render_state: RenderState::Dirty, scale_factor: s, ..v }
}

pub struct FemtoVGWindow {
    render_state: RenderState,
    size: PhysicalSize,
    scale_factor: ScaleFactor,
}

impl View for FemtoVGWindow {
    type V = AdapterView;

    closed spec fn view(&self) -> AdapterView {
        AdapterView {
            render_state: self.render_state,
            size: self.size,
            scale_factor: self.scale_factor,
        }
    }
}

impl FemtoVGWindow {
    pub open spec fn wf(&self) -> bool {
        self@.scale_factor.wf()
    }

    /// A clean adapter of size zero at scale 1.
    pub fn new() -> (r: FemtoVGWindow)
        ensures
            r.wf(),
            r@.render_state == RenderState::Clean,
            r@.size == (PhysicalSize { width: 0, height: 0 }),
            r@.scale_factor == ScaleFactor::spec_identity(),
    {
        FemtoVGWindow {
            render_state: RenderState::Clean,
            size: PhysicalSize::default(),
            scale_factor: ScaleFactor::identity(),
        }
    }

    /// Tests and clears the dirty flag; `true` means that the caller must now
    /// run one render pass and swap the buffers.
    pub fn render_frame_if_dirty(&mut self) -> (due: bool)
        ensures
            due == frame_due(old(self)@),
            final(self)@ == frame_taken(old(self)@),
    {
        let was = self.render_state;
        self.render_state = RenderState::Clean;
        match was {
            RenderState::Dirty => true,
            RenderState::Clean => false,
        }
    }

    /// Stores the scale factor and returns the notification for the UI framework.
    pub fn set_scale_factor(&mut self, scale_factor: ScaleFactor) -> (e: WindowEvent)
        requires
            scale_factor.wf(),
        ensures
            final(self).wf(),
            final(self)@ == rescaled(old(self)@, scale_factor),
            e == (WindowEvent::ScaleFactorChanged { scale_factor }),
    {
        self.scale_factor = scale_factor;
        self.render_state = RenderState::Dirty;
        WindowEvent::ScaleFactorChanged { scale_factor }
    }

    pub fn scale_factor(&self) -> (r: ScaleFactor)
        ensures
            r == self@.scale_factor,
    {
        self.scale_factor
    }

    pub fn size(&self) -> (r: PhysicalSize)
        ensures
            r == self@.size,
    {
        self.size
    }

    pub fn render_state(&self) -> (r: RenderState)
        ensures
            r == self@.render_state,
    {
        self.render_state
    }

    /// Stores the size in physical pixels at the current scale factor and
    /// returns the resize notification, in logical units, for the UI framework.
    pub fn set_size(&mut self, size: WindowSize) -> (e: WindowEvent)
        requires
            old(self).wf(),
        ensures
            final(self).wf(),
            final(self)@ == resized(old(self)@, size),
            e == (WindowEvent::Resized {
                size: size.logical_at(old(self)@.scale_factor.numerator as nat),
            }),
    {
        self.size = size.to_physical(self.scale_factor);
        self.render_state = RenderState::Dirty;
        WindowEvent::Resized { size: size.to_logical(self.scale_factor) }
    }

    pub fn request_redraw(&mut self)
        ensures
            final(self)@ == redraw_requested(old(self)@),
    {
        self.render_state = RenderState::Dirty;
    }
}

/// After any `set_size`, `size()` is the requested size converted to physical
/// pixels at the scale factor last applied: the size itself when it was given
/// in physical pixels, and the logical size times the factor otherwise.
pub proof fn lemma_size_follows_last_scale(v: AdapterView, s: ScaleFactor, size: WindowSize)
    requires
        s.wf(),
    ensures
        resized(rescaled(v, s), size).size == size.physical_at(s.numerator as nat),
        resized(rescaled(v, s), size).scale_factor == s,
        size matches WindowSize::Physical(p) ==> resized(rescaled(v, s), size).size == p,
{
}

/// A redraw request followed by a render pass renders exactly once and leaves
/// the adapter clean; a second render pass with no request in between renders
/// nothing.
pub proof fn lemma_one_render_per_request(v: AdapterView)
    ensures
        frame_due(redraw_requested(v)),
        frame_taken(redraw_requested(v)).render_state == RenderState::Clean,
        !frame_due(frame_taken(redraw_requested(v))),
        frame_taken(frame_taken(redraw_requested(v))) == frame_taken(redraw_requested(v)),
{
}

} // verus!
