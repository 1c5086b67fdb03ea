//! What a widget asks of the arbiter (`Sense`) and what it receives back
//! (`Response`).

use crate::geom::Pos;
use crate::geom::Rect;
use crate::ids::Id;
use crate::ids::LayerId;
use crate::input::ButtonFlags;
use crate::input::PointerButton;
use vstd::prelude::*;

verus! {

/// The interaction capabilities a widget registers with.
#[derive(Clone, Copy, PartialEq, Eq, Structural, Debug)]
pub struct Sense {
    /// The widget reacts to clicks.
    pub click: bool,
    /// The widget reacts to drags.
    pub drag: bool,
    /// The widget can hold keyboard focus.
    pub focusable: bool,
}

impl Sense {
    /// The widget senses neither clicks nor drags.
    pub fn hover() -> (r: Sense)
        ensures
            r == (Sense { click: false, drag: false, focusable: false }),
    {
        Sense { click: false, drag: false, focusable: false }
    }

    /// A clickable widget.
    pub fn click_sense() -> (r: Sense)
        ensures
            r == (Sense { click: true, drag: false, focusable: true }),
    {
        Sense { click: true, drag: false, focusable: true }
    }

    /// A draggable widget.
    pub fn drag_sense() -> (r: Sense)
        ensures
            r == (Sense { click: false, drag: true, focusable: true }),
    {
        Sense { click: false, drag: true, focusable: true }
    }

    /// A widget that senses both clicks and drags.
    pub fn click_and_drag() -> (r: Sense)
        ensures
            r == (Sense { click: true, drag: true, focusable: true }),
    {
        Sense { click: true, drag: true, focusable: true }
    }

    /// Whether the widget takes part in hit testing at all.
    pub open spec fn spec_interactive(self) -> bool {
        self.click || self.drag
    }

    pub fn interactive(&self) -> (r: bool)
        ensures
            r == self.spec_interactive(),
    {
        self.click || self.drag
    }
}

/// The arbiter's answer for one widget in one frame.
#[derive(Clone, Copy, PartialEq, Eq, Debug)]
pub struct Response {
    /// The layer the widget was registered on.
    pub layer_id: LayerId,
    /// The widget's identity.
    pub id: Id,
    /// The widget's nominal rectangle.
    pub rect: Rect,
    /// The capabilities it registered with.
    pub sense: Sense,
    /// Echo of the enabled flag it was registered with.
    pub enabled: bool,
    /// The pointer is over this widget's interact rectangle, the widget's
    /// layer is topmost there, and nothing painted later covers it.
    pub hovered: bool,
    /// A highlight was requested for this widget last frame.
    pub highlighted: bool,
    /// A click was completed on this widget this frame, per button.
    pub clicked: ButtonFlags,
    /// The completed click was classified as a double click, per button.
    pub double_clicked: ButtonFlags,
    /// The completed click was classified as a triple click, per button.
    pub triple_clicked: ButtonFlags,
    /// The widget holds drag capture.
    pub dragged: bool,
    /// The widget was being dragged and the pointer was released this frame.
    pub drag_released: bool,
    /// A pointer button is down and this widget captured its press.
    pub is_pointer_button_down_on: bool,
    /// Where the interaction happened, when captured.
    pub interact_pointer_pos: Option<Pos>,
    /// Set by the widget itself when its value changed; never by the engine.
    pub changed: bool,
}

impl Response {
    /// A click on any button was completed this frame.
    pub open spec fn spec_clicked_any(self) -> bool {
        self.clicked.spec_any()
    }

    pub fn clicked_any(&self) -> (r: bool)
        ensures
            r == self.spec_clicked_any(),
    {
        self.clicked.any()
    }

    /// Whether the given button completed a click on this widget.
    pub fn clicked_by(&self, b: PointerButton) -> (r: bool)
        ensures
            r == self.clicked.spec_get(b),
    {
        self.clicked.get(b)
    }
}

} // verus!
