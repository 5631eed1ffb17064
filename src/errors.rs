//! The library's error taxonomy.
//!
//! Where the library itself decides an error, the cause is a closed enum that
//! contracts can name; where the cause comes from the display server, the GPU
//! driver or the UI framework, it is carried as that collaborator's message.
use vstd::prelude::*;

verus! {

/// An input that the library rejects.
#[derive(Clone, Copy, Debug, PartialEq, Eq, Structural)]
pub enum InputError {
    DisplayIdRequired,
    SurfaceIdRequired,
    SizeRequired,
    NullDisplayHandle,
    NullSurfaceHandle,
    ZeroWidth,
    ZeroHeight,
    WindowRequired,
    ScaleFactorNotPositive,
}

/// One of the protocol globals that a layer surface needs.
#[derive(Clone, Copy, Debug, PartialEq, Eq, Structural)]
pub enum GlobalKind {
    Compositor,
    Output,
    LayerShell,
    Seat,
}

/// Why a global could not be bound.
#[derive(Clone, Copy, Debug, PartialEq, Eq, Structural)]
pub enum BindFailure {
    /// The registry does not advertise the interface.
    NotPresent,
    /// The registry advertises the interface below the version required.
    UnsupportedVersion,
}

/// Why the protocol globals could not be resolved.
#[derive(Debug)]
pub enum GlobalFailure {
    /// The initial registry round trip failed.
    Registry(String),
    /// A required global could not be bound.
    Bind(GlobalKind, BindFailure),
}

/// The step of the rendering-context bootstrap that a driver error came from.
#[derive(Clone, Copy, Debug, PartialEq, Eq, Structural)]
pub enum EglStage {
    CreateDisplay,
    FindConfigs,
    CreateContext,
    CreateSurface,
    Activate,
    MakeCurrent,
    SwapBuffers,
}

/// Why the rendering context failed.
#[derive(Debug)]
pub enum EglFailure {
    /// The driver offered no configuration matching the template.
    NoCompatibleConfig,
    /// The driver failed a step, with its message.
    Driver(EglStage, String),
}

/// What is wrong with the window configuration.
#[derive(Debug)]
pub enum ConfigurationError {
    ComponentDefinitionRequired,
    Other(String),
}

#[derive(Debug)]
pub enum LayerShikaError {
    WaylandConnection(String),
    GlobalInitialization(GlobalFailure),
    WaylandDispatch(String),
    EGLContextCreation(EglFailure),
    FemtoVGRendererCreation(String),
    SlintComponentCreation(String),
    EventLoop(String),
    WindowConfiguration(ConfigurationError),
    Rendering(String),
    InvalidInput(InputError),
    WaylandProtocol(String),
    PlatformSetup(String),
    ConnectionFlush(String),
}

} // verus!
