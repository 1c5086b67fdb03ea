//! Raw platform input and the per-surface input model derived from it.
//!
//! One `RawInput` value is fed in per `begin_frame`; the engine folds its
//! event list into the surface's `InputState`, which the interaction
//! arbiter then reads. Click classification (single, double, triple) is
//! carried on the release event by the platform feeder, which has the
//! timing information this engine deliberately does not model.

use crate::geom::COORD_LIMIT;
use crate::geom::Pos;
use crate::geom::Rect;
use vstd::prelude::*;

verus! {

/// Largest pixel density, in thousandths of physical pixels per logical unit.
pub const PPP_LIMIT: u32 = 1_000_000;

/// Default width and height of the screen rectangle before the platform
/// reports one.
pub const DEFAULT_SCREEN_SIDE: i64 = 10_000;

/// Keyboard keys the engine itself interprets.
#[derive(Clone, Copy, PartialEq, Eq, Structural, Debug)]
pub enum Key {
    Space,
    Enter,
    Escape,
    Other,
}

/// Pointer buttons, in the order of their response slots.
#[derive(Clone, Copy, PartialEq, Eq, Structural, Debug)]
pub enum PointerButton {
    Primary,
    Secondary,
    Middle,
    Extra1,
    Extra2,
}

/// Click classification computed by the input feeder from timing/distance.
#[derive(Clone, Copy, PartialEq, Eq, Structural, Debug)]
pub enum ClickKind {
    Single,
    Double,
    Triple,
}

/// One flag per pointer button.
#[derive(Clone, Copy, PartialEq, Eq, Structural, Debug)]
pub struct ButtonFlags {
    pub primary: bool,
    pub secondary: bool,
    pub middle: bool,
    pub extra1: bool,
    pub extra2: bool,
}

impl ButtonFlags {
    pub open spec fn spec_get(self, b: PointerButton) -> bool {
        match b {
            PointerButton::Primary => self.primary,
            PointerButton::Secondary => self.secondary,
            PointerButton::Middle => self.middle,
            PointerButton::Extra1 => self.extra1,
            PointerButton::Extra2 => self.extra2,
        }
    }

    pub open spec fn spec_set(self, b: PointerButton, v: bool) -> ButtonFlags {
        match b {
            PointerButton::Primary => ButtonFlags { primary: v, ..self },
            PointerButton::Secondary => ButtonFlags { secondary: v, ..self },
            PointerButton::Middle => ButtonFlags { middle: v, ..self },
            PointerButton::Extra1 => ButtonFlags { extra1: v, ..self },
            PointerButton::Extra2 => ButtonFlags { extra2: v, ..self },
        }
    }

    pub open spec fn spec_any(self) -> bool {
        self.primary || self.secondary || self.middle || self.extra1 || self.extra2
    }

    pub fn none() -> (r: ButtonFlags)
        ensures
            r == ButtonFlags::spec_none(),
    {
        ButtonFlags { primary: false, secondary: false, middle: false, extra1: false, extra2: false }
    }

    pub open spec fn spec_none() -> ButtonFlags {
        ButtonFlags { primary: false, secondary: false, middle: false, extra1: false, extra2: false }
    }

    pub fn get(&self, b: PointerButton) -> (r: bool)
        ensures
            r == self.spec_get(b),
    {
        match b {
            PointerButton::Primary => self.primary,
            PointerButton::Secondary => self.secondary,
            PointerButton::Middle => self.middle,
            PointerButton::Extra1 => self.extra1,
            PointerButton::Extra2 => self.extra2,
        }
    }

    pub fn set(&mut self, b: PointerButton, v: bool)
        ensures
            *final(self) == old(self).spec_set(b, v),
    {
        match b {
            PointerButton::Primary => self.primary = v,
            PointerButton::Secondary => self.secondary = v,
            PointerButton::Middle => self.middle = v,
            PointerButton::Extra1 => self.extra1 = v,
            PointerButton::Extra2 => self.extra2 = v,
        }
    }

    /// A copy with one flag changed.
    pub fn with_flag(self, b: PointerButton, v: bool) -> (r: ButtonFlags)
        ensures
            r == self.spec_set(b, v),
    {
        match b {
            PointerButton::Primary => ButtonFlags { primary: v, ..self },
            PointerButton::Secondary => ButtonFlags { secondary: v, ..self },
            PointerButton::Middle => ButtonFlags { middle: v, ..self },
            PointerButton::Extra1 => ButtonFlags { extra1: v, ..self },
            PointerButton::Extra2 => ButtonFlags { extra2: v, ..self },
        }
    }

    pub fn any(&self) -> (r: bool)
        ensures
            r == self.spec_any(),
    {
        self.primary || self.secondary || self.middle || self.extra1 || self.extra2
    }
}

/// One raw platform event.
#[derive(Clone, Copy, PartialEq, Eq, Structural, Debug)]
pub enum Event {
    /// The pointer moved to a position.
    PointerMoved(Pos),
    /// A pointer button changed state at a position. On release, `click`
    /// carries the classification precomputed by the input feeder.
    PointerButton { pos: Pos, button: PointerButton, pressed: bool, click: Option<ClickKind> },
    /// The pointer left the surface.
    PointerGone,
    /// A key changed state.
    Key { key: Key, pressed: bool },
}

/// One pointer event as the interaction arbiter consumes it.
#[derive(Clone, Copy, PartialEq, Eq, Structural, Debug)]
pub enum PointerEvent {
    Moved(Pos),
    Pressed { pos: Pos, button: PointerButton },
    Released { button: PointerButton, click: Option<ClickKind> },
}

/// Per-surface pointer state for one frame.
#[derive(Clone, PartialEq, Eq, Debug)]
pub struct PointerState {
    /// Latest reported position; `None` after the pointer left.
    pub latest_pos: Option<Pos>,
    /// Latest position for interaction purposes; survives `PointerGone`.
    pub interact_pos: Option<Pos>,
    /// Which buttons are currently held down.
    pub down: ButtonFlags,
    /// The pointer events of this frame, in arrival order.
    pub events: Vec<PointerEvent>,
}

/// The fold state of processing raw events: buttons down, latest position,
/// interact position, pointer events so far.
pub struct PointerFold {
    pub down: ButtonFlags,
    pub latest: Option<Pos>,
    pub interact: Option<Pos>,
    pub events: Seq<PointerEvent>,
}

impl PointerState {
    pub fn empty() -> (r: PointerState)
        ensures
            r.latest_pos is None,
            r.interact_pos is None,
            r.down == ButtonFlags::spec_none(),
            r.events@ == Seq::<PointerEvent>::empty(),
    {
        PointerState {
            latest_pos: None,
            interact_pos: None,
            down: ButtonFlags::none(),
            events: Vec::new(),
        }
    }

    pub open spec fn spec_any_down(self) -> bool {
        self.down.spec_any()
    }

    /// Whether any button is currently held down.
    pub fn any_down(&self) -> (r: bool)
        ensures
            r == self.spec_any_down(),
    {
        self.down.any()
    }

    pub open spec fn spec_any_click(self) -> bool {
        exists|i: int|
            0 <= i < self.events@.len() && (#[trigger] self.events@[i]
                matches PointerEvent::Released { click: Some(_), .. })
    }

    /// Whether any release this frame was classified as a click.
    #[verifier::loop_isolation(false)]
    pub fn any_click(&self) -> (r: bool)
        ensures
            r == self.spec_any_click(),
    {
        let n = self.events.len();
        let mut i: usize = 0;
        while i < n
            invariant
                i <= n,
                forall|j: int|
                    0 <= j < i ==> !(#[trigger] self.events@[j]
                        matches PointerEvent::Released { click: Some(_), .. }),
            decreases n - i,
        {
            match self.events[i] {
                PointerEvent::Released { click: Some(_), .. } => {
                    return true;
                },
                _ => {},
            }
            i += 1;
        }
        false
    }
}

/// How one raw event advances the pointer fold.
pub open spec fn spec_apply_event(f: PointerFold, e: Event) -> PointerFold {
    match e {
        Event::PointerMoved(p) => PointerFold {
            latest: Some(p),
            interact: Some(p),
            events: f.events.push(PointerEvent::Moved(p)),
            ..f
        },
        Event::PointerButton { pos, button, pressed, click } => {
            if pressed {
                PointerFold {
                    latest: Some(pos),
                    interact: Some(pos),
                    down: f.down.spec_set(button, true),
                    events: f.events.push(PointerEvent::Pressed { pos, button }),
                }
            } else {
                PointerFold {
                    latest: Some(pos),
                    interact: Some(pos),
                    down: f.down.spec_set(button, false),
                    events: f.events.push(PointerEvent::Released { button, click }),
                }
            }
        },
        Event::PointerGone => PointerFold { latest: None, ..f },
        Event::Key { .. } => f,
    }
}

/// The pointer fold after the first `i` raw events.
pub open spec fn spec_fold_events(init: PointerFold, events: Seq<Event>, i: int) -> PointerFold
    decreases i,
{
    if i <= 0 {
        init
    } else {
        spec_apply_event(spec_fold_events(init, events, i - 1), events[i - 1])
    }
}

/// The keys reported pressed among the first `i` raw events.
pub open spec fn spec_keys_pressed(events: Seq<Event>, i: int) -> Seq<Key>
    decreases i,
{
    if i <= 0 {
        Seq::empty()
    } else {
        let prefix = spec_keys_pressed(events, i - 1);
        match events[i - 1] {
            Event::Key { key, pressed } => if pressed {
                prefix.push(key)
            } else {
                prefix
            },
            _ => prefix,
        }
    }
}

/// How one frame's input state follows from the previous frame's
/// carried-over parts and the (possibly adjusted) raw input components.
pub open spec fn spec_input_step_parts(
    prev_rect: Rect,
    prev_ppp: u32,
    prev_down: ButtonFlags,
    prev_latest: Option<Pos>,
    prev_interact: Option<Pos>,
    raw_rect: Option<Rect>,
    raw_ppp: Option<u32>,
    raw_max_texture_side: u64,
    raw_events: Seq<Event>,
    raw_focused: bool,
    r: InputState,
) -> bool {
    let f0 = PointerFold {
        down: prev_down,
        latest: prev_latest,
        interact: prev_interact,
        events: Seq::empty(),
    };
    let f = spec_fold_events(f0, raw_events, raw_events.len() as int);
    &&& r.screen_rect == (match raw_rect {
        Some(s) => s,
        None => prev_rect,
    })
    &&& r.pixels_per_point_milli == (match raw_ppp {
        Some(p) => p,
        None => prev_ppp,
    })
    &&& r.max_texture_side == raw_max_texture_side
    &&& r.focused == raw_focused
    &&& r.pointer.down == f.down
    &&& r.pointer.latest_pos == f.latest
    &&& r.pointer.interact_pos == f.interact
    &&& r.pointer.events@ == f.events
    &&& r.keys_pressed@ == spec_keys_pressed(raw_events, raw_events.len() as int)
}

/// The input step from a full previous state and unadjusted raw input.
pub open spec fn spec_input_step(prev: InputState, raw: RawInput, r: InputState) -> bool {
    spec_input_step_parts(
        prev.screen_rect,
        prev.pixels_per_point_milli,
        prev.pointer.down,
        prev.pointer.latest_pos,
        prev.pointer.interact_pos,
        raw.screen_rect,
        raw.pixels_per_point_milli,
        raw.max_texture_side,
        raw.events@,
        raw.focused,
        r,
    )
}

/// Raw input handed to `begin_frame` by the platform.
#[derive(Clone, PartialEq, Eq, Debug)]
pub struct RawInput {
    /// New position and size of the surface, if known.
    pub screen_rect: Option<Rect>,
    /// New pixel density in thousandths, if known.
    pub pixels_per_point_milli: Option<u32>,
    /// Largest texture side the backend supports.
    pub max_texture_side: u64,
    /// The events since the previous frame, in order.
    pub events: Vec<Event>,
    /// Whether the surface has keyboard focus.
    pub focused: bool,
}

impl RawInput {
    /// Bounds the engine requires of raw input.
    pub open spec fn wf(self) -> bool {
        &&& (self.screen_rect matches Some(r) ==> r.in_bounds())
        &&& (self.pixels_per_point_milli matches Some(p) ==> 1 <= p <= PPP_LIMIT)
    }

    /// Whether the raw input respects the engine's bounds.
    pub fn wf_check(&self) -> (r: bool)
        ensures
            r == self.wf(),
    {
        let rect_ok = match self.screen_rect {
            Some(s) => s.bounds_ok(),
            None => true,
        };
        let ppp_ok = match self.pixels_per_point_milli {
            Some(p) => 1 <= p && p <= PPP_LIMIT,
            None => true,
        };
        rect_ok && ppp_ok
    }

    /// Raw input carrying no news.
    pub fn empty() -> (r: RawInput)
        ensures
            r.screen_rect is None,
            r.pixels_per_point_milli is None,
            r.max_texture_side == 2048,
            r.events@ == Seq::<Event>::empty(),
            !r.focused,
            r.wf(),
    {
        RawInput {
            screen_rect: None,
            pixels_per_point_milli: None,
            max_texture_side: 2048,
            events: Vec::new(),
            focused: false,
        }
    }
}

/// The input model of one surface for one frame.
#[derive(Clone, PartialEq, Eq, Debug)]
pub struct InputState {
    /// Position and size of the surface in logical units.
    pub screen_rect: Rect,
    /// Pixel density in thousandths of physical pixels per logical unit.
    pub pixels_per_point_milli: u32,
    /// Largest texture side the backend supports.
    pub max_texture_side: u64,
    /// Pointer state derived from this frame's events.
    pub pointer: PointerState,
    /// Keys reported pressed this frame.
    pub keys_pressed: Vec<Key>,
    /// Whether the surface has keyboard focus.
    pub focused: bool,
}

impl InputState {
    /// Bounds every stored input state satisfies.
    pub open spec fn wf(self) -> bool {
        &&& self.screen_rect.in_bounds()
        &&& 1 <= self.pixels_per_point_milli <= PPP_LIMIT
    }

    pub open spec fn spec_default_rect() -> Rect {
        Rect {
            min: Pos { x: 0, y: 0 },
            max: Pos { x: DEFAULT_SCREEN_SIDE, y: DEFAULT_SCREEN_SIDE },
        }
    }

    /// The state of a surface that has never seen input.
    pub fn default_state() -> (r: InputState)
        ensures
            r.screen_rect == InputState::spec_default_rect(),
            r.pixels_per_point_milli == 1000,
            r.max_texture_side == 2048,
            r.pointer.latest_pos is None,
            r.pointer.interact_pos is None,
            r.pointer.down == ButtonFlags::spec_none(),
            r.pointer.events@ == Seq::<PointerEvent>::empty(),
            r.keys_pressed@ == Seq::<Key>::empty(),
            !r.focused,
            r.wf(),
    {
        InputState {
            screen_rect: Rect {
                min: Pos { x: 0, y: 0 },
                max: Pos { x: DEFAULT_SCREEN_SIDE, y: DEFAULT_SCREEN_SIDE },
            },
            pixels_per_point_milli: 1000,
            max_texture_side: 2048,
            pointer: PointerState::empty(),
            keys_pressed: Vec::new(),
            focused: false,
        }
    }

    /// Whether the given key was reported pressed this frame.
    #[verifier::loop_isolation(false)]
    pub fn key_pressed(&self, key: Key) -> (r: bool)
        ensures
            r == self.keys_pressed@.contains(key),
    {
        let n = self.keys_pressed.len();
        let mut i: usize = 0;
        while i < n
            invariant
                i <= n,
                forall|j: int| 0 <= j < i ==> self.keys_pressed@[j] != key,
            decreases n - i,
        {
            if self.keys_pressed[i] == key {
                return true;
            }
            i += 1;
        }
        false
    }

    /// Whether the events of this frame by themselves call for another
    /// frame right after (the immediate-mode analogue of "something moved").
    pub open spec fn spec_wants_repaint(self) -> bool {
        self.pointer.events@.len() > 0
    }

    pub fn wants_repaint(&self) -> (r: bool)
        ensures
            r == self.spec_wants_repaint(),
    {
        self.pointer.events.len() > 0
    }

    /// Fold this frame's raw input into the next input state.
    ///
    /// Carries over what raw input does not renew (screen rectangle, pixel
    /// density, button-down state), replaces the event-derived parts.
    #[verifier::loop_isolation(false)]
    pub fn begin_frame(self, raw: RawInput) -> (r: InputState)
        requires
            self.wf(),
            raw.wf(),
        ensures
            r.wf(),
            spec_input_step(*&self, raw, r),
    {
        let ghost f0 = PointerFold {
            down: self.pointer.down,
            latest: self.pointer.latest_pos,
            interact: self.pointer.interact_pos,
            events: Seq::empty(),
        };
        let mut down = self.pointer.down;
        let mut latest = self.pointer.latest_pos;
        let mut interact = self.pointer.interact_pos;
        let mut pevents: Vec<PointerEvent> = Vec::new();
        let mut keys: Vec<Key> = Vec::new();
        let n = raw.events.len();
        let mut i: usize = 0;
        while i < n
            invariant
                i <= n,
                ({
                    let f = spec_fold_events(f0, raw.events@, i as int);
                    &&& down == f.down
                    &&& latest == f.latest
                    &&& interact == f.interact
                    &&& pevents@ == f.events
                }),
                keys@ == spec_keys_pressed(raw.events@, i as int),
            decreases n - i,
        {
            match raw.events[i] {
                Event::PointerMoved(p) => {
                    latest = Some(p);
                    interact = Some(p);
                    pevents.push(PointerEvent::Moved(p));
                },
                Event::PointerButton { pos, button, pressed, click } => {
                    latest = Some(pos);
                    interact = Some(pos);
                    if pressed {
                        down.set(button, true);
                        pevents.push(PointerEvent::Pressed { pos, button });
                    } else {
                        down.set(button, false);
                        pevents.push(PointerEvent::Released { button, click });
                    }
                },
                Event::PointerGone => {
                    latest = None;
                },
                Event::Key { key, pressed } => {
                    if pressed {
                        keys.push(key);
                    }
                },
            }
            i += 1;
        }
        let screen_rect = match raw.screen_rect {
            Some(s) => s,
            None => self.screen_rect,
        };
        let ppp = match raw.pixels_per_point_milli {
            Some(p) => p,
            None => self.pixels_per_point_milli,
        };
        InputState {
            screen_rect,
            pixels_per_point_milli: ppp,
            max_texture_side: raw.max_texture_side,
            pointer: PointerState {
                latest_pos: latest,
                interact_pos: interact,
                down,
                events: pevents,
            },
            keys_pressed: keys,
            focused: raw.focused,
        }
    }
}

} // verus!
