//! Static configuration of the layer surface.
use vstd::prelude::*;
use crate::geometry::ScaleFactor;

verus! {

/// `slint_interpreter::ComponentDefinition`: the UI framework's compiled root
/// component, opaque here and carried through unchanged.
#[verifier::external_type_specification]
#[verifier::external_body]
pub struct ExComponentDefinition(slint_interpreter::ComponentDefinition);

/// Bit of an edge in an [`Anchor`] mask, as the layer-shell protocol numbers them.
pub const ANCHOR_TOP: u32 = 1;
pub const ANCHOR_BOTTOM: u32 = 2;
pub const ANCHOR_LEFT: u32 = 4;
pub const ANCHOR_RIGHT: u32 = 8;

/// The stacking layer of the surface.
#[derive(Clone, Copy, Debug, PartialEq, Eq, Structural)]
pub enum Layer {
    Background,
    Bottom,
    Top,
    Overlay,
}

/// How the surface takes keyboard focus.
#[derive(Clone, Copy, Debug, PartialEq, Eq, Structural)]
pub enum KeyboardInteractivity {
    /// The surface never takes keyboard focus.
    NoFocus,
    Exclusive,
    OnDemand,
}

/// The set of screen edges the surface is anchored to, as a bit mask.
#[derive(Clone, Copy, Debug, PartialEq, Eq, Structural)]
pub struct Anchor {
    pub bits: u32,
}

impl Anchor {
    pub fn top() -> (r: Anchor)
        ensures
            r.bits == ANCHOR_TOP,
    {
        Anchor { bits: ANCHOR_TOP }
    }

    pub fn bottom() -> (r: Anchor)
        ensures
            r.bits == ANCHOR_BOTTOM,
    {
        Anchor { bits: ANCHOR_BOTTOM }
    }

    pub fn left() -> (r: Anchor)
        ensures
            r.bits == ANCHOR_LEFT,
    {
        Anchor { bits: ANCHOR_LEFT }
    }

    pub fn right() -> (r: Anchor)
        ensures
            r.bits == ANCHOR_RIGHT,
    {
        Anchor { bits: ANCHOR_RIGHT }
    }

    /// The edges of both masks.
    pub fn union(self, other: Anchor) -> (r: Anchor)
        ensures
            r.bits == self.bits | other.bits,
    {
        Anchor { bits: self.bits | other.bits }
    }
}

/// Margins on the four sides: top, right, bottom, left.
#[derive(Clone, Copy, Debug, PartialEq, Eq, Structural)]
pub struct Margin {
    pub top: i32,
    pub right: i32,
    pub bottom: i32,
    pub left: i32,
}

pub struct WindowConfig {
    pub height: u32,
    pub layer: Layer,
    pub margin: Margin,
    pub anchor: Anchor,
    pub keyboard_interactivity: KeyboardInteractivity,
    /// Space reserved on the output; negative reserves none.
    pub exclusive_zone: i32,
    pub scale_factor: ScaleFactor,
    pub namespace: String,
    pub component_definition: Option<slint_interpreter::ComponentDefinition>,
}

/// Namespace given to the compositor when none is configured.
pub open spec fn default_namespace() -> Seq<char> {
    "layer-shika"@
}

/// The configuration of a panel: 30 pixels high on the top layer, anchored to
/// the top, left and right edges, no margins, keyboard focus on demand, no
/// exclusive zone, scale 1 and no component yet.
pub open spec fn is_default_config(c: WindowConfig) -> bool {
    &&& c.height == 30
    &&& c.layer == Layer::Top
    &&& c.margin == (Margin { top: 0, right: 0, bottom: 0, left: 0 })
    &&& c.anchor.bits == (ANCHOR_TOP | ANCHOR_LEFT | ANCHOR_RIGHT)
    &&& c.keyboard_interactivity == KeyboardInteractivity::OnDemand
    &&& c.exclusive_zone == -1
    &&& c.scale_factor == ScaleFactor::spec_identity()
    &&& c.namespace@ == default_namespace()
    &&& c.component_definition.is_none()
}

impl Default for WindowConfig {
    fn default() -> (r: WindowConfig)
        ensures
            is_default_config(r),
    {
        proof {
            reveal_strlit("layer-shika");
        }
        WindowConfig {
            height: 30,
            layer: Layer::Top,
            margin: Margin { top: 0, right: 0, bottom: 0, left: 0 },
            anchor: Anchor::top().union(Anchor::left()).union(Anchor::right()),
            keyboard_interactivity: KeyboardInteractivity::OnDemand,
            exclusive_zone: -1,
            scale_factor: ScaleFactor::identity(),
            namespace: "layer-shika".to_owned(),
            component_definition: None,
        }
    }
}

} // verus!
