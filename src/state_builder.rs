//! Builder for [`WindowState`](crate::state::WindowState).
use vstd::prelude::*;
use crate::errors::LayerShikaError;
use crate::femtovg_window::FemtoVGWindow;
use crate::geometry::{PhysicalSize, ScaleFactor};
use crate::state::{WindowState, is_built_from};

verus! {

pub struct WindowStateBuilder {
    pub size: Option<PhysicalSize>,
    pub output_size: Option<PhysicalSize>,
    pub window: Option<FemtoVGWindow>,
    pub scale_factor: ScaleFactor,
    pub height: u32,
    pub exclusive_zone: i32,
}

impl WindowStateBuilder {
    /// No sizes and no window yet, scale 1, height 30, no exclusive zone.
    pub fn new() -> (r: WindowStateBuilder)
        ensures
            r.size.is_none(),
            r.output_size.is_none(),
            r.window.is_none(),
            r.scale_factor == ScaleFactor::spec_identity(),
            r.height == 30,
            r.exclusive_zone == -1,
    {
        WindowStateBuilder {
            size: None,
            output_size: None,
            window: None,
            scale_factor: ScaleFactor::identity(),
            height: 30,
            exclusive_zone: -1,
        }
    }

    pub fn with_size(self, size: PhysicalSize) -> (r: WindowStateBuilder)
        ensures
            r == (WindowStateBuilder { size: Some(size), ..self }),
    {
        WindowStateBuilder { size: Some(size), ..self }
    }

    pub fn with_output_size(self, output_size: PhysicalSize) -> (r: WindowStateBuilder)
        ensures
            r == (WindowStateBuilder { output_size: Some(output_size), ..self }),
    {
        WindowStateBuilder { output_size: Some(output_size), ..self }
    }

    pub fn with_window(self, window: FemtoVGWindow) -> (r: WindowStateBuilder)
        ensures
            r == (WindowStateBuilder { window: Some(window), ..self }),
    {
        WindowStateBuilder { window: Some(window), ..self }
    }

    pub fn with_scale_factor(self, scale_factor: ScaleFactor) -> (r: WindowStateBuilder)
        ensures
            r == (WindowStateBuilder { scale_factor, ..self }),
    {
        WindowStateBuilder { scale_factor, ..self }
    }

    pub fn with_height(self, height: u32) -> (r: WindowStateBuilder)
        ensures
            r == (WindowStateBuilder { height, ..self }),
    {
        WindowStateBuilder { height, ..self }
    }

    pub fn with_exclusive_zone(self, exclusive_zone: i32) -> (r: WindowStateBuilder)
        ensures
            r == (WindowStateBuilder { exclusive_zone, ..self }),
    {
        WindowStateBuilder { exclusive_zone, ..self }
    }

    /// The state this builder describes; see [`WindowState::new`].
    pub fn build(self) -> (r: Result<WindowState, LayerShikaError>)
        ensures
            self.window.is_none() ==> r is Err,
            self.window matches Some(w) ==> (r is Ok <==> (w.wf() && self.scale_factor.wf())),
            r matches Ok(s) ==> s.wf() && is_built_from(s@, self),
    {
        WindowState::new(self)
    }
}

impl Default for WindowStateBuilder {
    fn default() -> (r: WindowStateBuilder)
        ensures
            r.size.is_none(),
            r.output_size.is_none(),
            r.window.is_none(),
            r.scale_factor == ScaleFactor::spec_identity(),
            r.height == 30,
            r.exclusive_zone == -1,
    {
        WindowStateBuilder::new()
    }
}

} // verus!
