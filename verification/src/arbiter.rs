//! The interaction arbiter's core rules: interact-rectangle expansion,
//! previous-frame occlusion, and the per-widget click/drag/focus state
//! machine over one frame's pointer events.

use crate::geom::Pos;
use crate::ids::Id;
use crate::input::ButtonFlags;
use crate::input::ClickKind;
use crate::input::PointerEvent;
use crate::layers::WidgetRect;
use crate::response::Sense;
use vstd::prelude::*;

verus! {

/// Most a widget's hit area may grow on each side, in logical units.
pub const MAX_INTERACT_EXPANSION: i64 = 5;

/// How far the hit area of a widget grows on each side for an item
/// spacing `s`: a bit under half the spacing, so adjacent widgets never
/// share a hit point, clamped to a small maximum.
pub open spec fn spec_expansion_amount(s: i64) -> int {
    if s <= 0 {
        0
    } else if (s - 1) / 2 < MAX_INTERACT_EXPANSION {
        (s - 1) / 2
    } else {
        MAX_INTERACT_EXPANSION as int
    }
}

pub fn expansion_amount(s: i64) -> (r: i64)
    ensures
        r == spec_expansion_amount(s),
        0 <= r <= MAX_INTERACT_EXPANSION,
{
    if s <= 0 {
        0
    } else if (s - 1) / 2 < MAX_INTERACT_EXPANSION {
        (s - 1) / 2
    } else {
        MAX_INTERACT_EXPANSION
    }
}

/// Whether the widget `id` keeps its hover against the previous frame's
/// geometry list of its layer, scanned front to back (reverse of paint
/// order): the scan stops as soon as the widget's own entry is found, and
/// hover is revoked when an entry painted later covers the pointer first.
pub open spec fn spec_unoccluded(s: Seq<WidgetRect>, id: Id, pos: Pos) -> bool
    decreases s.len(),
{
    if s.len() == 0 {
        true
    } else if s.last().id == id {
        true
    } else if s.last().rect.spec_contains(pos) {
        false
    } else {
        spec_unoccluded(s.drop_last(), id, pos)
    }
}

/// Scan the previous frame's list for the widget's layer.
#[verifier::loop_isolation(false)]
pub fn unoccluded(s: &Vec<WidgetRect>, id: Id, pos: Pos) -> (r: bool)
    ensures
        r == spec_unoccluded(s@, id, pos),
{
    let mut i: usize = s.len();
    proof {
        assert(s@.subrange(0, s@.len() as int) =~= s@);
    }
    while i > 0
        invariant
            i <= s@.len(),
            spec_unoccluded(s@, id, pos) == spec_unoccluded(s@.subrange(0, i as int), id, pos),
        decreases i,
    {
        i -= 1;
        let e = s[i];
        proof {
            assert(s@.subrange(0, i as int + 1).last() == s@[i as int]);
            assert(s@.subrange(0, i as int + 1).drop_last() =~= s@.subrange(0, i as int));
        }
        if e.id == id {
            return true;
        }
        if e.rect.contains(pos) {
            return false;
        }
    }
    proof {
        assert(s@.subrange(0, 0) =~= Seq::<WidgetRect>::empty());
    }
    true
}

/// The capture and click state carried through one frame's pointer
/// events for one widget.
#[derive(Clone, Copy, PartialEq, Eq, Structural, Debug)]
pub struct InteractFold {
    /// The widget holding click capture.
    pub click_id: Option<Id>,
    /// The widget holding drag capture.
    pub drag_id: Option<Id>,
    /// The drag capture belongs to a surface-level holder.
    pub drag_is_window: bool,
    /// This widget holds drag capture.
    pub dragged: bool,
    /// This widget's drag ended at the latest release.
    pub drag_released: bool,
    /// A pointer button is down and this widget captured its press.
    pub is_down_on: bool,
    /// Completed clicks on this widget, per button.
    pub clicked: ButtonFlags,
    /// Clicks classified double, per button.
    pub double_clicked: ButtonFlags,
    /// Clicks classified triple, per button.
    pub triple_clicked: ButtonFlags,
}

/// How one pointer event advances the widget's interaction state.
///
/// A press while hovered acquires free click capture and acquires drag
/// capture that is free or held only at surface level (content widgets
/// steal drags from their window). A release ends this widget's drag
/// regardless of hover and, when this widget held the press under the
/// pointer, copies the release's click classification into the response.
pub open spec fn spec_interact_step(
    f: InteractFold,
    e: PointerEvent,
    hovered: bool,
    sense: Sense,
    id: Id,
) -> InteractFold {
    match e {
        PointerEvent::Moved(_) => f,
        PointerEvent::Pressed { .. } => {
            if hovered {
                let f1 = if sense.click && f.click_id is None {
                    InteractFold { click_id: Some(id), is_down_on: true, ..f }
                } else {
                    f
                };
                if sense.drag && (f1.drag_id is None || f1.drag_is_window) {
                    InteractFold {
                        drag_id: Some(id),
                        drag_is_window: false,
                        is_down_on: true,
                        dragged: true,
                        ..f1
                    }
                } else {
                    f1
                }
            } else {
                f
            }
        },
        PointerEvent::Released { button, click } => {
            let f1 = InteractFold { drag_released: f.dragged, dragged: false, ..f };
            if hovered && f.is_down_on {
                match click {
                    Some(kind) => InteractFold {
                        clicked: f1.clicked.spec_set(button, true),
                        double_clicked: f1.double_clicked.spec_set(
                            button,
                            kind == ClickKind::Double,
                        ),
                        triple_clicked: f1.triple_clicked.spec_set(
                            button,
                            kind == ClickKind::Triple,
                        ),
                        ..f1
                    },
                    None => f1,
                }
            } else {
                f1
            }
        },
    }
}

/// The interaction state after the first `i` pointer events.
pub open spec fn spec_interact_fold(
    init: InteractFold,
    events: Seq<PointerEvent>,
    i: int,
    hovered: bool,
    sense: Sense,
    id: Id,
) -> InteractFold
    decreases i,
{
    if i <= 0 {
        init
    } else {
        spec_interact_step(
            spec_interact_fold(init, events, i - 1, hovered, sense, id),
            events[i - 1],
            hovered,
            sense,
            id,
        )
    }
}

/// Run the widget's interaction state machine over the frame's events.
#[verifier::loop_isolation(false)]
#[verifier::rlimit(100)]
#[verifier::spinoff_prover]
pub fn run_interact_fold(
    init: InteractFold,
    events: &Vec<PointerEvent>,
    hovered: bool,
    sense: Sense,
    id: Id,
) -> (r: InteractFold)
    ensures
        r == spec_interact_fold(init, events@, events@.len() as int, hovered, sense, id),
{
    let mut f = init;
    let n = events.len();
    let mut i: usize = 0;
    while i < n
        invariant
            i <= n,
            f == spec_interact_fold(init, events@, i as int, hovered, sense, id),
        decreases n - i,
    {
        let ghost fprev = f;
        match events[i] {
            PointerEvent::Moved(_) => {},
            PointerEvent::Pressed { .. } => {
                if hovered {
                    if sense.click && f.click_id.is_none() {
                        f = InteractFold { click_id: Some(id), is_down_on: true, ..f };
                    }
                    if sense.drag && (f.drag_id.is_none() || f.drag_is_window) {
                        f = InteractFold {
                            drag_id: Some(id),
                            drag_is_window: false,
                            is_down_on: true,
                            dragged: true,
                            ..f
                        };
                    }
                }
            },
            PointerEvent::Released { button, click } => {
                let was_down = f.is_down_on;
                f = InteractFold { drag_released: f.dragged, dragged: false, ..f };
                if hovered && was_down {
                    match click {
                        Some(kind) => {
                            f = InteractFold {
                                clicked: f.clicked.with_flag(button, true),
                                double_clicked: f.double_clicked.with_flag(
                                    button,
                                    matches!(kind, ClickKind::Double),
                                ),
                                triple_clicked: f.triple_clicked.with_flag(
                                    button,
                                    matches!(kind, ClickKind::Triple),
                                ),
                                ..f
                            };
                        },
                        None => {},
                    }
                }
            },
        }
        proof {
            assert(f == spec_interact_step(fprev, events@[i as int], hovered, sense, id));
        }
        i += 1;
    }
    f
}

} // verus!
