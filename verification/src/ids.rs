//! Identifiers: widgets, surfaces (viewports) and rendering layers.

use vstd::prelude::*;

verus! {

/// Identity of a widget or of a viewport build descriptor.
#[derive(Clone, Copy, PartialEq, Eq, Structural, Debug)]
pub struct Id(pub u64);

/// Handle of one logical rendering surface.
///
/// The value `0` is reserved for the root ("main") surface; freshly
/// registered surfaces always receive a non-zero handle.
#[derive(Clone, Copy, PartialEq, Eq, Structural, Debug)]
pub struct ViewportId(pub u64);

impl ViewportId {
    /// The handle reserved for the root surface.
    pub open spec fn spec_main() -> ViewportId {
        ViewportId(0)
    }

    /// The handle reserved for the root surface.
    pub fn main_id() -> (r: ViewportId)
        ensures
            r == ViewportId::spec_main(),
    {
        ViewportId(0)
    }

    pub open spec fn is_main(self) -> bool {
        self.0 == 0
    }
}

/// A surface together with the surface that spawned it.
///
/// The root surface is its own parent.
#[derive(Clone, Copy, PartialEq, Eq, Structural, Debug)]
pub struct ViewportIdPair {
    pub this: ViewportId,
    pub parent: ViewportId,
}

impl ViewportIdPair {
    pub open spec fn spec_main_pair() -> ViewportIdPair {
        ViewportIdPair { this: ViewportId::spec_main(), parent: ViewportId::spec_main() }
    }

    /// The pair of the root surface.
    pub fn main_pair() -> (r: ViewportIdPair)
        ensures
            r == ViewportIdPair::spec_main_pair(),
    {
        ViewportIdPair { this: ViewportId::main_id(), parent: ViewportId::main_id() }
    }
}

/// Z-group of a rendering layer, back to front.
#[derive(Clone, Copy, PartialEq, Eq, Structural, Debug)]
pub enum Order {
    /// Painted and hit-tested below everything else.
    Background,
    /// Ordinary panels and windows.
    Middle,
    /// Always above the windows.
    Foreground,
    /// Tooltips; never interactable.
    Tooltip,
    /// Diagnostic overlays; never interactable.
    Debug,
}

impl Order {
    /// Whether widgets on a layer of this order may receive input.
    pub open spec fn spec_allow_interaction(self) -> bool {
        match self {
            Order::Background => true,
            Order::Middle => true,
            Order::Foreground => true,
            Order::Tooltip => false,
            Order::Debug => false,
        }
    }

    pub fn allow_interaction(self) -> (r: bool)
        ensures
            r == self.spec_allow_interaction(),
    {
        match self {
            Order::Background => true,
            Order::Middle => true,
            Order::Foreground => true,
            Order::Tooltip => false,
            Order::Debug => false,
        }
    }
}

/// One rendering layer: an order group plus an identity within it.
#[derive(Clone, Copy, PartialEq, Eq, Structural, Debug)]
pub struct LayerId {
    pub order: Order,
    pub id: Id,
}

impl LayerId {
    pub open spec fn spec_background() -> LayerId {
        LayerId { order: Order::Background, id: Id(0) }
    }

    /// The implicit background layer seeded at the start of every frame.
    pub fn background() -> (r: LayerId)
        ensures
            r == LayerId::spec_background(),
    {
        LayerId { order: Order::Background, id: Id(0) }
    }

    pub open spec fn spec_debug_layer() -> LayerId {
        LayerId { order: Order::Debug, id: Id(0) }
    }

    /// The layer on which diagnostic overlays are painted.
    pub fn debug_layer() -> (r: LayerId)
        ensures
            r == LayerId::spec_debug_layer(),
    {
        LayerId { order: Order::Debug, id: Id(0) }
    }

    /// Whether widgets on this layer may receive input.
    pub open spec fn spec_allow_interaction(self) -> bool {
        self.order.spec_allow_interaction()
    }

    pub fn allow_interaction(&self) -> (r: bool)
        ensures
            r == self.spec_allow_interaction(),
    {
        self.order.allow_interaction()
    }
}

} // verus!
