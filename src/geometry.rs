//! Sizes, positions and scale factors in exact integer arithmetic.
//!
//! A scale factor is held as a numerator over [`SCALE_DENOMINATOR`] (the
//! convention of the fractional-scale protocol), and logical lengths and
//! coordinates are held in units of 1/[`SUBPIXELS`] of a logical pixel (the
//! convention of the protocol's fixed-point numbers).
use vstd::prelude::*;

verus! {

/// Denominator of a scale factor: a numerator of 120 is a factor of 1.
pub const SCALE_DENOMINATOR: u32 = 120;

/// Sub-pixel units in one pixel for logical lengths and fixed-point coordinates.
pub const SUBPIXELS: u32 = 256;

/// A size in physical (device) pixels.
#[derive(Clone, Copy, Debug, PartialEq, Eq, Structural)]
pub struct PhysicalSize {
    pub width: u32,
    pub height: u32,
}

impl PhysicalSize {
    pub fn new(width: u32, height: u32) -> (r: PhysicalSize)
        ensures
            r.width == width,
            r.height == height,
    {
        PhysicalSize { width, height }
    }

    /// Neither side is zero.
    pub open spec fn is_non_degenerate(self) -> bool {
        self.width > 0 && self.height > 0
    }

    pub fn is_valid(&self) -> (r: bool)
        ensures
            r == self.is_non_degenerate(),
    {
        self.width > 0 && self.height > 0
    }
}

impl Default for PhysicalSize {
    fn default() -> (r: PhysicalSize)
        ensures
            r.width == 0,
            r.height == 0,
    {
        PhysicalSize { width: 0, height: 0 }
    }
}

/// A size in logical pixels, each side in 1/`SUBPIXELS` units.
#[derive(Clone, Copy, Debug, PartialEq, Eq, Structural)]
pub struct LogicalSize {
    pub width: u64,
    pub height: u64,
}

/// A position in logical pixels, each coordinate in 1/`SUBPIXELS` units.
#[derive(Clone, Copy, Debug, PartialEq, Eq, Structural)]
pub struct LogicalPosition {
    pub x: i64,
    pub y: i64,
}

impl LogicalPosition {
    pub fn new(x: i64, y: i64) -> (r: LogicalPosition)
        ensures
            r.x == x,
            r.y == y,
    {
        LogicalPosition { x, y }
    }
}

impl Default for LogicalPosition {
    fn default() -> (r: LogicalPosition)
        ensures
            r.x == 0,
            r.y == 0,
    {
        LogicalPosition { x: 0, y: 0 }
    }
}

/// A scale factor `numerator / SCALE_DENOMINATOR`; only a positive numerator
/// is a valid factor.
#[derive(Clone, Copy, Debug, PartialEq, Eq, Structural)]
pub struct ScaleFactor {
    pub numerator: u32,
}

impl ScaleFactor {
    pub open spec fn wf(self) -> bool {
        self.numerator > 0
    }

    /// The factor `numerator / SCALE_DENOMINATOR`, or `None` for a zero numerator.
    pub fn from_numerator(numerator: u32) -> (r: Option<ScaleFactor>)
        ensures
            numerator == 0 ==> r.is_none(),
            numerator > 0 ==> r == Some(ScaleFactor { numerator }),
    {
        if numerator == 0 {
            None
        } else {
            Some(ScaleFactor { numerator })
        }
    }

    pub open spec fn spec_identity() -> ScaleFactor {
        ScaleFactor { numerator: SCALE_DENOMINATOR }
    }

    /// The factor 1.
    pub fn identity() -> (r: ScaleFactor)
        ensures
            r == ScaleFactor::spec_identity(),
            r.wf(),
    {
        ScaleFactor { numerator: SCALE_DENOMINATOR }
    }
}

impl Default for ScaleFactor {
    fn default() -> (r: ScaleFactor)
        ensures
            r.numerator == SCALE_DENOMINATOR,
    {
        ScaleFactor::identity()
    }
}

/// Logical length, in sub-pixel units, of `physical` device pixels at scale
/// `numerator / SCALE_DENOMINATOR`, rounded down.
pub open spec fn logical_length(physical: nat, numerator: nat) -> nat {
    physical * SUBPIXELS as nat * SCALE_DENOMINATOR as nat / numerator
}

/// Device pixels covered by a logical length of `logical` sub-pixel units at
/// scale `numerator / SCALE_DENOMINATOR`, rounded down and capped at `u32::MAX`.
pub open spec fn physical_length(logical: nat, numerator: nat) -> nat {
    let exact = logical * numerator / (SUBPIXELS as nat * SCALE_DENOMINATOR as nat);
    if exact > u32::MAX as nat {
        u32::MAX as nat
    } else {
        exact
    }
}

/// Logical coordinate, in sub-pixel units, of a device coordinate given in
/// sub-pixel units, divided by the scale and rounded toward zero.
pub open spec fn logical_coordinate(physical: int, numerator: nat) -> int {
    if physical >= 0 {
        physical * SCALE_DENOMINATOR as int / numerator as int
    } else {
        -((-physical) * SCALE_DENOMINATOR as int / numerator as int)
    }
}

pub fn to_logical_length(physical: u32, scale: ScaleFactor) -> (r: u64)
    requires
        scale.wf(),
    ensures
        r as nat == logical_length(physical as nat, scale.numerator as nat),
{
    let p: u64 = physical as u64;
    assert(p * 30720 <= 4294967295u64 * 30720) by (nonlinear_arith)
        requires
            p <= 4294967295u64,
    ;
    let scaled: u64 = p * 30720;
    assert(scaled / (scale.numerator as u64) <= scaled) by (nonlinear_arith)
        requires
            scale.numerator >= 1,
    ;
    scaled / (scale.numerator as u64)
}

pub fn to_physical_length(logical: u64, scale: ScaleFactor) -> (r: u32)
    requires
        scale.wf(),
    ensures
        r as nat == physical_length(logical as nat, scale.numerator as nat),
{
    let l: u128 = logical as u128;
    let n: u128 = scale.numerator as u128;
    assert(l * n <= 18446744073709551615u128 * 4294967295u128) by (nonlinear_arith)
        requires
            l <= 18446744073709551615u128,
            n <= 4294967295u128,
    ;
    let exact: u128 = l * n / 30720;
    if exact > 4294967295u128 {
        u32::MAX
    } else {
        exact as u32
    }
}

pub fn to_logical_coordinate(physical: i32, scale: ScaleFactor) -> (r: i64)
    requires
        scale.wf(),
    ensures
        r as int == logical_coordinate(physical as int, scale.numerator as nat),
{
    let n: u64 = scale.numerator as u64;
    if physical >= 0 {
        let p: u64 = physical as u64;
        assert(p * 120 <= 2147483647u64 * 120) by (nonlinear_arith)
            requires
                p <= 2147483647u64,
        ;
        let scaled: u64 = p * 120;
        assert(scaled / n <= scaled) by (nonlinear_arith)
            requires
                n >= 1,
        ;
        let q: u64 = scaled / n;
        q as i64
    } else {
        let p: u64 = (-(physical as i64)) as u64;
        assert(p * 120 <= 2147483648u64 * 120) by (nonlinear_arith)
            requires
                p <= 2147483648u64,
        ;
        let scaled: u64 = p * 120;
        assert(scaled / n <= scaled) by (nonlinear_arith)
            requires
                n >= 1,
        ;
        let q: u64 = scaled / n;
        -(q as i64)
    }
}

/// A requested window size, in either coordinate space.
#[derive(Clone, Copy, Debug, PartialEq, Eq, Structural)]
pub enum WindowSize {
    Physical(PhysicalSize),
    Logical(LogicalSize),
}

impl WindowSize {
    /// The size in device pixels at scale `numerator / SCALE_DENOMINATOR`.
    pub open spec fn physical_at(self, numerator: nat) -> PhysicalSize {
        match self {
            WindowSize::Physical(p) => p,
            WindowSize::Logical(l) => PhysicalSize {
                width: physical_length(l.width as nat, numerator) as u32,
                height: physical_length(l.height as nat, numerator) as u32,
            },
        }
    }

    /// The size in logical sub-pixel units at scale `numerator / SCALE_DENOMINATOR`.
    pub open spec fn logical_at(self, numerator: nat) -> LogicalSize {
        match self {
            WindowSize::Physical(p) => LogicalSize {
                width: logical_length(p.width as nat, numerator) as u64,
                height: logical_length(p.height as nat, numerator) as u64,
            },
            WindowSize::Logical(l) => l,
        }
    }

    pub fn to_physical(&self, scale: ScaleFactor) -> (r: PhysicalSize)
        requires
            scale.wf(),
        ensures
            r == self.physical_at(scale.numerator as nat),
    {
        match self {
            WindowSize::Physical(p) => *p,
            WindowSize::Logical(l) => PhysicalSize {
                width: to_physical_length(l.width, scale),
                height: to_physical_length(l.height, scale),
            },
        }
    }

    pub fn to_logical(&self, scale: ScaleFactor) -> (r: LogicalSize)
        requires
            scale.wf(),
        ensures
            r == self.logical_at(scale.numerator as nat),
    {
        match self {
            WindowSize::Physical(p) => LogicalSize {
                width: to_logical_length(p.width, scale),
                height: to_logical_length(p.height, scale),
            },
            WindowSize::Logical(l) => *l,
        }
    }
}

/// A size for the layer surface, in physical pixels.
#[derive(Clone, Copy, Debug, PartialEq, Eq, Structural)]
pub struct LayerSize {
    size: PhysicalSize,
}

impl LayerSize {
    pub closed spec fn spec_size(self) -> PhysicalSize {
        self.size
    }

    pub fn new(width: u32, height: u32) -> (r: LayerSize)
        ensures
            r.spec_size() == (PhysicalSize { width, height }),
    {
        LayerSize { size: PhysicalSize::new(width, height) }
    }

    pub fn physical_size(self) -> (r: PhysicalSize)
        ensures
            r == self.spec_size(),
    {
        self.size
    }
}

impl Default for LayerSize {
    fn default() -> (r: LayerSize)
        ensures
            r.spec_size() == (PhysicalSize { width: 1, height: 1 }),
    {
        LayerSize::new(1, 1)
    }
}

} // verus!
