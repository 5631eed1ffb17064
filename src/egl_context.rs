//! The rendering-context bootstrap and the state of the GPU context.
//!
//! [`EGLContextBuilder::build`] validates what the bootstrap needs before any
//! driver call is made; the caller then drives the GPU driver step by step,
//! handing each outcome back to the library, which decides the error. An
//! [`EGLContext`] records whether the context is current and the size of its
//! drawable.
use vstd::prelude::*;
use crate::errors::{EglFailure, EglStage, InputError, LayerShikaError};
use crate::geometry::PhysicalSize;

verus! {

/// `glutin::config::ConfigTemplateBuilder`: pixel-format requirements for the
/// GPU configuration, opaque here and carried through unchanged.
#[verifier::external_type_specification]
#[verifier::external_body]
pub struct ExConfigTemplateBuilder(glutin::config::ConfigTemplateBuilder);

/// `glutin::context::ContextAttributesBuilder`: attributes of the GPU context,
/// opaque here and carried through unchanged.
#[verifier::external_type_specification]
#[verifier::external_body]
pub struct ExContextAttributesBuilder(glutin::context::ContextAttributesBuilder);

/// Relies on glutin's `ConfigTemplateBuilder::new`, which returns the default
/// template and cannot fail; nothing is assumed of the value.
pub assume_specification[ glutin::config::ConfigTemplateBuilder::new ]() -> glutin::config::ConfigTemplateBuilder;

/// Relies on glutin's `ContextAttributesBuilder::new`, which returns the
/// default attributes and cannot fail; nothing is assumed of the value.
pub assume_specification[ glutin::context::ContextAttributesBuilder::new ]() -> glutin::context::ContextAttributesBuilder;

/// What the bootstrap needs, validated: non-null native handles of the
/// display connection and of the surface, and a non-degenerate size.
pub struct ContextRequest {
    pub display_handle: usize,
    pub surface_handle: usize,
    pub size: PhysicalSize,
    pub config_template: glutin::config::ConfigTemplateBuilder,
    pub context_attributes: glutin::context::ContextAttributesBuilder,
}

pub struct EGLContextBuilder {
    display_id: Option<usize>,
    surface_id: Option<usize>,
    size: Option<PhysicalSize>,
    config_template: Option<glutin::config::ConfigTemplateBuilder>,
    context_attributes: Option<glutin::context::ContextAttributesBuilder>,
}

/// The input error of a bootstrap request, if any, in the order the inputs
/// are checked: presence of each input, non-null handles, then each side of
/// the size.
pub open spec fn request_error(
    display_id: Option<usize>,
    surface_id: Option<usize>,
    size: Option<PhysicalSize>,
) -> Option<InputError> {
    if display_id.is_none() {
        Some(InputError::DisplayIdRequired)
    } else if surface_id.is_none() {
        Some(InputError::SurfaceIdRequired)
    } else if size.is_none() {
        Some(InputError::SizeRequired)
    } else if display_id.unwrap() == 0 {
        Some(InputError::NullDisplayHandle)
    } else if surface_id.unwrap() == 0 {
        Some(InputError::NullSurfaceHandle)
    } else if size.unwrap().width == 0 {
        Some(InputError::ZeroWidth)
    } else if size.unwrap().height == 0 {
        Some(InputError::ZeroHeight)
    } else {
        None
    }
}

impl EGLContextBuilder {
    pub closed spec fn spec_display_id(&self) -> Option<usize> {
        self.display_id
    }

    pub closed spec fn spec_surface_id(&self) -> Option<usize> {
        self.surface_id
    }

    pub closed spec fn spec_size(&self) -> Option<PhysicalSize> {
        self.size
    }

    pub closed spec fn spec_config_template(&self) -> Option<glutin::config::ConfigTemplateBuilder> {
        self.config_template
    }

    pub closed spec fn spec_context_attributes(&self) -> Option<
        glutin::context::ContextAttributesBuilder,
    > {
        self.context_attributes
    }

    /// `q` carries exactly the inputs set on this builder (and defaults for
    /// the template and attributes where none were set).
    pub open spec fn is_fulfilled_by(&self, q: ContextRequest) -> bool {
        &&& Some(q.display_handle) == self.spec_display_id()
        &&& Some(q.surface_handle) == self.spec_surface_id()
        &&& Some(q.size) == self.spec_size()
        &&& (self.spec_config_template() matches Some(t) ==> q.config_template == t)
        &&& (self.spec_context_attributes() matches Some(a) ==> q.context_attributes == a)
    }

    pub fn new() -> (r: EGLContextBuilder)
        ensures
            r.spec_display_id().is_none(),
            r.spec_surface_id().is_none(),
            r.spec_size().is_none(),
            r.spec_config_template().is_none(),
            r.spec_context_attributes().is_none(),
    {
        EGLContextBuilder {
            display_id: None,
            surface_id: None,
            size: None,
            config_template: None,
            context_attributes: None,
        }
    }

    /// Sets the native handle (address) of the display connection.
    pub fn with_display_id(self, display_id: usize) -> (r: EGLContextBuilder)
        ensures
            r.spec_display_id() == Some(display_id),
            r.spec_surface_id() == self.spec_surface_id(),
            r.spec_size() == self.spec_size(),
            r.spec_config_template() == self.spec_config_template(),
            r.spec_context_attributes() == self.spec_context_attributes(),
    {
        EGLContextBuilder { display_id: Some(display_id), ..self }
    }

    /// Sets the native handle (address) of the target surface.
    pub fn with_surface_id(self, surface_id: usize) -> (r: EGLContextBuilder)
        ensures
            r.spec_display_id() == self.spec_display_id(),
            r.spec_surface_id() == Some(surface_id),
            r.spec_size() == self.spec_size(),
            r.spec_config_template() == self.spec_config_template(),
            r.spec_context_attributes() == self.spec_context_attributes(),
    {
        EGLContextBuilder { surface_id: Some(surface_id), ..self }
    }

    pub fn with_size(self, size: PhysicalSize) -> (r: EGLContextBuilder)
        ensures
            r.spec_display_id() == self.spec_display_id(),
            r.spec_surface_id() == self.spec_surface_id(),
            r.spec_size() == Some(size),
            r.spec_config_template() == self.spec_config_template(),
            r.spec_context_attributes() == self.spec_context_attributes(),
    {
        EGLContextBuilder { size: Some(size), ..self }
    }

    pub fn with_config_template(self, config_template: glutin::config::ConfigTemplateBuilder) -> (r:
        EGLContextBuilder)
        ensures
            r.spec_display_id() == self.spec_display_id(),
            r.spec_surface_id() == self.spec_surface_id(),
            r.spec_size() == self.spec_size(),
            r.spec_config_template() == Some(config_template),
            r.spec_context_attributes() == self.spec_context_attributes(),
    {
        EGLContextBuilder { config_template: Some(config_template), ..self }
    }

    pub fn with_context_attributes(
        self,
        context_attributes: glutin::context::ContextAttributesBuilder,
    ) -> (r: EGLContextBuilder)
        ensures
            r.spec_display_id() == self.spec_display_id(),
            r.spec_surface_id() == self.spec_surface_id(),
            r.spec_size() == self.spec_size(),
            r.spec_config_template() == self.spec_config_template(),
            r.spec_context_attributes() == Some(context_attributes),
    {
        EGLContextBuilder { context_attributes: Some(context_attributes), ..self }
    }

    /// The validated request; a missing template or attribute set is replaced
    /// by glutin's default.
    pub fn build(self) -> (r: Result<ContextRequest, LayerShikaError>)
        ensures
            request_error(self.spec_display_id(), self.spec_surface_id(), self.spec_size()) matches Some(
                e,
            ) ==> r matches Err(LayerShikaError::InvalidInput(x)) && x == e,
            request_error(self.spec_display_id(), self.spec_surface_id(), self.spec_size()).is_none()
                ==> (r matches Ok(q) && self.is_fulfilled_by(q)),
    {
        let display_handle = match self.display_id {
            Some(d) => d,
            None => {
                return Err(LayerShikaError::InvalidInput(InputError::DisplayIdRequired));
            },
        };
        let surface_handle = match self.surface_id {
            Some(s) => s,
            None => {
                return Err(LayerShikaError::InvalidInput(InputError::SurfaceIdRequired));
            },
        };
        let size = match self.size {
            Some(z) => z,
            None => {
                return Err(LayerShikaError::InvalidInput(InputError::SizeRequired));
            },
        };
        if display_handle == 0 {
            return Err(LayerShikaError::InvalidInput(InputError::NullDisplayHandle));
        }
        if surface_handle == 0 {
            return Err(LayerShikaError::InvalidInput(InputError::NullSurfaceHandle));
        }
        if size.width == 0 {
            return Err(LayerShikaError::InvalidInput(InputError::ZeroWidth));
        }
        if size.height == 0 {
            return Err(LayerShikaError::InvalidInput(InputError::ZeroHeight));
        }
        let config_template = match self.config_template {
            Some(t) => t,
            None => glutin::config::ConfigTemplateBuilder::new(),
        };
        let context_attributes = match self.context_attributes {
            Some(a) => a,
            None => glutin::context::ContextAttributesBuilder::new(),
        };
        Ok(
            ContextRequest {
                display_handle,
                surface_handle,
                size,
                config_template,
                context_attributes,
            },
        )
    }
}

impl Default for EGLContextBuilder {
    fn default() -> (r: EGLContextBuilder)
        ensures
            r.spec_display_id().is_none(),
            r.spec_surface_id().is_none(),
            r.spec_size().is_none(),
            r.spec_config_template().is_none(),
            r.spec_context_attributes().is_none(),
    {
        EGLContextBuilder::new()
    }
}

/// The error for a failed driver step, carrying the driver's message.
pub fn driver_error(stage: EglStage, message: String) -> (r: LayerShikaError)
    ensures
        r == LayerShikaError::EGLContextCreation(EglFailure::Driver(stage, message)),
{
    LayerShikaError::EGLContextCreation(EglFailure::Driver(stage, message))
}

/// The configuration the bootstrap uses: the first one the driver offers
/// for the template, if any.
pub fn select_config<C>(first: Option<C>) -> (r: Result<C, LayerShikaError>)
    ensures
        first matches Some(c) ==> r matches Ok(x) && x == c,
        first is None ==> r matches Err(
            LayerShikaError::EGLContextCreation(EglFailure::NoCompatibleConfig),
        ),
{
    match first {
        Some(c) => Ok(c),
        None => Err(LayerShikaError::EGLContextCreation(EglFailure::NoCompatibleConfig)),
    }
}

/// The abstract state of a GPU context.
pub struct ContextView {
    /// The context is current on the executing thread.
    pub current: bool,
    /// The size of the drawable surface.
    pub drawable: PhysicalSize,
}

/// The state of a GPU context and its drawable, as the bootstrap and the
/// render passes leave it.
pub struct EGLContext {
    current: bool,
    drawable: PhysicalSize,
}

impl View for EGLContext {
    type V = ContextView;

    closed spec fn view(&self) -> ContextView {
        ContextView { current: self.current, drawable: self.drawable }
    }
}

impl EGLContext {
    pub fn builder() -> (r: EGLContextBuilder)
        ensures
            r.spec_display_id().is_none(),
            r.spec_surface_id().is_none(),
            r.spec_size().is_none(),
            r.spec_config_template().is_none(),
            r.spec_context_attributes().is_none(),
    {
        EGLContextBuilder::new()
    }

    /// The context once the bootstrap's final activation against a drawable
    /// of the requested size has succeeded.
    pub fn activated(request: &ContextRequest) -> (r: EGLContext)
        ensures
            r@ == (ContextView { current: true, drawable: request.size }),
    {
        EGLContext { current: true, drawable: request.size }
    }

    /// Whether an activation must be attempted before the next GPU call.
    pub fn needs_activation(&self) -> (r: bool)
        ensures
            r == !self@.current,
    {
        !self.current
    }

    pub fn drawable_size(&self) -> (r: PhysicalSize)
        ensures
            r == self@.drawable,
    {
        self.drawable
    }

    /// Records that the context is no longer current on this thread.
    pub fn released(&mut self)
        ensures
            final(self)@ == (ContextView { current: false, ..old(self)@ }),
    {
        self.current = false;
    }

    /// Records the outcome of an activation attempt.
    pub fn ensure_current(&mut self, activation: Result<(), String>) -> (r: Result<
        (),
        LayerShikaError,
    >)
        ensures
            activation is Ok ==> r is Ok && final(self)@ == (ContextView {
                current: true,
                ..old(self)@
            }),
            activation matches Err(m) ==> r == Err::<(), LayerShikaError>(
                LayerShikaError::EGLContextCreation(EglFailure::Driver(EglStage::MakeCurrent, m)),
            ) && final(self)@ == old(self)@,
    {
        match activation {
            Ok(()) => {
                self.current = true;
                Ok(())
            },
            Err(m) => Err(driver_error(EglStage::MakeCurrent, m)),
        }
    }

    /// Resizes the drawable: neither side may be zero; the context is made
    /// current first, `activation` being the outcome of that attempt (`Ok`
    /// when [`EGLContext::needs_activation`] said none was needed).
    pub fn resize(&mut self, width: u32, height: u32, activation: Result<(), String>) -> (r: Result<
        (),
        LayerShikaError,
    >)
        ensures
            width == 0 ==> r == Err::<(), LayerShikaError>(
                LayerShikaError::InvalidInput(InputError::ZeroWidth),
            ) && final(self)@ == old(self)@,
            width > 0 && height == 0 ==> r == Err::<(), LayerShikaError>(
                LayerShikaError::InvalidInput(InputError::ZeroHeight),
            ) && final(self)@ == old(self)@,
            width > 0 && height > 0 ==> (activation matches Err(m) ==> r == Err::<
                (),
                LayerShikaError,
            >(LayerShikaError::EGLContextCreation(EglFailure::Driver(EglStage::MakeCurrent, m)))
                && final(self)@ == old(self)@),
            width > 0 && height > 0 && activation is Ok ==> r is Ok && final(self)@
                == context_resized(old(self)@, width, height),
    {
        if width == 0 {
            return Err(LayerShikaError::InvalidInput(InputError::ZeroWidth));
        }
        if height == 0 {
            return Err(LayerShikaError::InvalidInput(InputError::ZeroHeight));
        }
        match self.ensure_current(activation) {
            Ok(()) => {},
            Err(e) => {
                return Err(e);
            },
        }
        self.drawable = PhysicalSize::new(width, height);
        Ok(())
    }

    /// Maps the outcome of a buffer swap.
    pub fn swap_buffers(&self, outcome: Result<(), String>) -> (r: Result<(), LayerShikaError>)
        ensures
            outcome is Ok ==> r is Ok,
            outcome matches Err(m) ==> r == Err::<(), LayerShikaError>(
                LayerShikaError::EGLContextCreation(EglFailure::Driver(EglStage::SwapBuffers, m)),
            ),
    {
        match outcome {
            Ok(()) => Ok(()),
            Err(m) => Err(driver_error(EglStage::SwapBuffers, m)),
        }
    }
}

/// The context after a successful resize to `width` x `height`.
pub open spec fn context_resized(v: ContextView, width: u32, height: u32) -> ContextView {
    ContextView { current: true, drawable: PhysicalSize { width, height } }
}

/// A successful resize to a valid size leaves the context current, with a
/// drawable of exactly the size requested, whatever the state before it.
pub proof fn lemma_resize_current_and_sized(v: ContextView, width: u32, height: u32)
    requires
        width > 0,
        height > 0,
    ensures
        context_resized(v, width, height).current,
        context_resized(v, width, height).drawable == (PhysicalSize { width, height }),
{
}

} // verus!
