//! Frame lifecycle, repaint scheduling, hit testing and interaction.

use uicore::geom::{Pos, Rect, Vec2};
use uicore::ids::{Id, LayerId, ViewportId, ViewportIdPair};
use uicore::ids::Order;
use uicore::input::{ClickKind, Event, PointerButton, RawInput};
use uicore::response::Sense;
use uicore::state::{ContextState, ViewportDecision};
use uicore::viewport::ViewportBuilder;

fn rect(x0: i64, y0: i64, x1: i64, y1: i64) -> Rect {
    Rect::new(Pos::new(x0, y0), Pos::new(x1, y1))
}

fn raw_with_events(events: Vec<Event>) -> RawInput {
    RawInput {
        screen_rect: Some(rect(0, 0, 800, 600)),
        pixels_per_point_milli: None,
        max_texture_side: 2048,
        events,
        focused: true,
    }
}

fn main_pair() -> ViewportIdPair {
    ViewportIdPair::main_pair()
}

fn child_pair(n: u64) -> ViewportIdPair {
    ViewportIdPair { this: ViewportId(n), parent: ViewportId(0) }
}

#[test]
fn frame_stack_balance_roundtrip() {
    let mut state = ContextState::new(true);
    assert_eq!(state.frame_stack.len(), 0);
    state.begin_frame_mut(raw_with_events(Vec::new()), main_pair());
    assert_eq!(state.frame_stack.len(), 1);
    state.begin_frame_mut(raw_with_events(Vec::new()), child_pair(1));
    assert_eq!(state.frame_stack.len(), 2);
    let _ = state.end_frame();
    assert_eq!(state.frame_stack.len(), 1);
    let _ = state.end_frame();
    assert_eq!(state.frame_stack.len(), 0);
    assert_eq!(state.viewport_id(), ViewportId(0));
}

#[test]
fn settle_decays_two_one_zero() {
    let mut state = ContextState::new(true);
    state.repaint.set_callback_registered();
    state.repaint.request_repaint_settle(7);
    // The settle request itself wakes the host at least once.
    let wakes = state.repaint.take_wakes();
    assert!(wakes.len() >= 1);
    assert_eq!(wakes[0].viewport_id, ViewportId(7));
    // First frame start: one additional request is re-issued.
    state.repaint.start_frame(7);
    assert!(state.repaint.requested_repaint_last_frame(7));
    let wakes = state.repaint.take_wakes();
    assert_eq!(wakes.len(), 1);
    assert!(state.repaint.requested_repaint(7));
    // Second frame start: the counter reaches zero, no further request.
    state.repaint.start_frame(7);
    let wakes = state.repaint.take_wakes();
    assert_eq!(wakes.len(), 0);
    assert!(!state.repaint.requested_repaint(7));
}

#[test]
fn missing_wake_callback_is_counted() {
    let mut state = ContextState::new(true);
    state.repaint.request_repaint(3);
    assert_eq!(state.repaint.take_wakes().len(), 0);
    assert_eq!(state.repaint.missed_wake_count(), 1);
}

#[test]
fn duplicate_id_flags() {
    let mut state = ContextState::new(true);
    state.begin_frame_mut(raw_with_events(Vec::new()), main_pair());
    // Materially different: centers forty units apart, no containment.
    state.check_for_id_clash(Id(9), rect(0, 0, 10, 10));
    state.check_for_id_clash(Id(9), rect(40, 40, 50, 50));
    let fs = state.frame_state.get(0).unwrap();
    assert_eq!(fs.clash_warnings.len(), 2);
    assert_eq!(fs.clash_warnings[0].rect, rect(0, 0, 10, 10));
    assert_eq!(fs.clash_warnings[1].rect, rect(40, 40, 50, 50));
    let _ = state.end_frame();

    // Within tolerance: centers two units apart.
    let mut state = ContextState::new(true);
    state.begin_frame_mut(raw_with_events(Vec::new()), main_pair());
    state.check_for_id_clash(Id(9), rect(0, 0, 10, 10));
    state.check_for_id_clash(Id(9), rect(1, 1, 11, 11));
    assert_eq!(state.frame_state.get(0).unwrap().clash_warnings.len(), 0);
    // Containment: a frame around the same widget.
    state.check_for_id_clash(Id(8), rect(0, 0, 100, 100));
    state.check_for_id_clash(Id(8), rect(40, 40, 50, 50));
    assert_eq!(state.frame_state.get(0).unwrap().clash_warnings.len(), 0);
    let _ = state.end_frame();
}

#[test]
fn unused_viewport_is_swept() {
    let mut state = ContextState::new(true);
    state.begin_frame_mut(raw_with_events(Vec::new()), main_pair());
    let builder = ViewportBuilder {
        id: Id(42),
        title: String::from("child"),
        inner_width: 100,
        inner_height: 100,
    };
    let decision = state.create_viewport(builder, Some(1));
    let pair = match decision {
        ViewportDecision::Registered(p) => p,
        ViewportDecision::Embedded => panic!("desktop context must register"),
    };
    assert_eq!(pair.parent, ViewportId(0));
    assert_ne!(pair.this, ViewportId(0));
    let out = state.end_frame();
    // The surviving record is reported to the host.
    assert_eq!(out.viewports.len(), 1);
    assert_eq!(out.viewports[0].pair, pair);
    assert_eq!(state.viewports.count(), 1);
    // Next frame does not re-request it: swept at that frame's end and
    // absent from the reported list.
    state.begin_frame_mut(raw_with_events(Vec::new()), main_pair());
    let out = state.end_frame();
    assert_eq!(out.viewports.len(), 0);
    assert_eq!(state.viewports.count(), 0);
}

#[test]
fn pause_resume_is_lossless() {
    let mut state = ContextState::new(true);
    let layer = LayerId::background();
    state.begin_frame_mut(raw_with_events(Vec::new()), main_pair());
    let _ = state.interact(
        rect(0, 0, 800, 600),
        Vec2::new(0, 0),
        layer,
        Id(1),
        rect(10, 10, 50, 30),
        Sense::click_sense(),
        true,
    );
    let before = state.layer_rects_this_frame.get_list(layer).unwrap().clone();
    assert_eq!(before.len(), 1);
    // Nested surface runs its own widgets.
    state.begin_frame_mut(raw_with_events(Vec::new()), child_pair(1));
    let _ = state.interact(
        rect(0, 0, 800, 600),
        Vec2::new(0, 0),
        layer,
        Id(2),
        rect(0, 0, 20, 20),
        Sense::click_sense(),
        true,
    );
    let _ = state.end_frame();
    // The outer surface's geometry is exactly what it was before the pause.
    let after = state.layer_rects_this_frame.get_list(layer).unwrap();
    assert_eq!(*after, before);
    let _ = state.end_frame();
}

#[test]
fn later_registration_wins_overlap() {
    let mut state = ContextState::new(true);
    let layer = LayerId::background();
    let clip = rect(0, 0, 800, 600);
    let spacing = Vec2::new(0, 0);
    let move_to = Event::PointerMoved(Pos::new(75, 75));
    // First frame records both widgets in call order.
    state.begin_frame_mut(raw_with_events(vec![move_to]), main_pair());
    let _ = state.interact(clip, spacing, layer, Id(1), rect(0, 0, 100, 100), Sense::click_sense(), true);
    let _ = state.interact(clip, spacing, layer, Id(2), rect(50, 50, 150, 150), Sense::click_sense(), true);
    let _ = state.end_frame();
    // Second frame: the pointer lies in the overlap; only the widget
    // registered later is hovered.
    state.begin_frame_mut(raw_with_events(vec![move_to]), main_pair());
    let r1 = state.interact(clip, spacing, layer, Id(1), rect(0, 0, 100, 100), Sense::click_sense(), true);
    let r2 = state.interact(clip, spacing, layer, Id(2), rect(50, 50, 150, 150), Sense::click_sense(), true);
    assert!(!r1.hovered);
    assert!(r2.hovered);
    let _ = state.end_frame();
}

#[test]
fn press_release_clicks_only_target() {
    let mut state = ContextState::new(true);
    let layer = LayerId::background();
    let clip = rect(0, 0, 800, 600);
    let spacing = Vec2::new(0, 0);
    let press = Event::PointerButton {
        pos: Pos::new(20, 20),
        button: PointerButton::Primary,
        pressed: true,
        click: None,
    };
    let release = Event::PointerButton {
        pos: Pos::new(20, 20),
        button: PointerButton::Primary,
        pressed: false,
        click: Some(ClickKind::Single),
    };
    state.begin_frame_mut(raw_with_events(vec![press, release]), main_pair());
    let rw = state.interact(clip, spacing, layer, Id(1), rect(10, 10, 50, 30), Sense::click_and_drag(), true);
    let rother = state.interact(clip, spacing, layer, Id(2), rect(300, 300, 400, 400), Sense::click_and_drag(), true);
    assert!(rw.clicked.primary);
    assert!(!rw.double_clicked.primary);
    assert!(rw.drag_released);
    assert!(!rother.clicked.primary);
    assert!(!rother.dragged);
    let _ = state.end_frame();
}

#[test]
fn end_to_end_two_frames() {
    let mut state = ContextState::new(true);
    let layer = LayerId::background();
    let clip = rect(0, 0, 800, 600);
    let spacing = Vec2::new(0, 0);
    let widget = rect(10, 10, 50, 30);
    // First frame: no events, pointer absent.
    state.begin_frame_mut(raw_with_events(Vec::new()), main_pair());
    let r = state.interact(clip, spacing, layer, Id(1), widget, Sense::click_sense(), true);
    assert!(!r.hovered);
    assert!(!r.clicked.primary);
    assert!(!r.dragged);
    let _ = state.end_frame();
    // Second frame: press and release at a point inside the widget.
    let press = Event::PointerButton {
        pos: Pos::new(20, 20),
        button: PointerButton::Primary,
        pressed: true,
        click: None,
    };
    let release = Event::PointerButton {
        pos: Pos::new(20, 20),
        button: PointerButton::Primary,
        pressed: false,
        click: Some(ClickKind::Single),
    };
    state.begin_frame_mut(raw_with_events(vec![press, release]), main_pair());
    let r = state.interact(clip, spacing, layer, Id(1), widget, Sense::click_sense(), true);
    assert!(r.clicked.primary);
    assert!(r.clicked_any());
    assert!(r.clicked_by(PointerButton::Primary));
    assert!(!r.clicked_by(PointerButton::Secondary));
    assert!(!r.dragged);
    assert!(r.is_pointer_button_down_on);
    let _ = state.end_frame();
}

#[test]
fn hover_only_widgets_do_not_register() {
    let mut state = ContextState::new(true);
    let layer = LayerId::background();
    state.begin_frame_mut(raw_with_events(vec![Event::PointerMoved(Pos::new(20, 20))]), main_pair());
    let r = state.interact(
        rect(0, 0, 800, 600),
        Vec2::new(0, 0),
        layer,
        Id(1),
        rect(10, 10, 50, 30),
        Sense::hover(),
        true,
    );
    // A hover-only widget is never appended to the hit-test geometry.
    assert!(state.layer_rects_this_frame.get_list(layer).is_none()
        || state.layer_rects_this_frame.get_list(layer).unwrap().is_empty());
    assert!(!r.is_pointer_button_down_on);
    let _ = state.end_frame();
}

#[test]
fn drag_is_acquired_on_press() {
    let mut state = ContextState::new(true);
    let layer = LayerId::background();
    let press = Event::PointerButton {
        pos: Pos::new(20, 20),
        button: PointerButton::Primary,
        pressed: true,
        click: None,
    };
    state.begin_frame_mut(raw_with_events(vec![press]), main_pair());
    let r = state.interact(
        rect(0, 0, 800, 600),
        Vec2::new(0, 0),
        layer,
        Id(1),
        rect(10, 10, 50, 30),
        Sense::drag_sense(),
        true,
    );
    assert!(r.dragged);
    assert!(!r.drag_released);
    assert_eq!(r.interact_pointer_pos, Some(Pos::new(20, 20)));
    let _ = state.end_frame();
}

#[test]
fn tooltip_layers_do_not_interact() {
    let mut state = ContextState::new(true);
    let layer = LayerId { order: Order::Tooltip, id: Id(9) };
    assert_eq!(layer, LayerId { order: Order::Tooltip, id: Id(9) });
    state.begin_frame_mut(raw_with_events(Vec::new()), main_pair());
    let r = state.interact(
        rect(0, 0, 800, 600),
        Vec2::new(0, 0),
        layer,
        Id(1),
        rect(10, 10, 50, 30),
        Sense::click_sense(),
        true,
    );
    assert!(!r.hovered && !r.clicked_any() && !r.dragged);
    let debug_overlay = LayerId::debug_layer();
    assert_eq!(debug_overlay.order, Order::Debug);
    let _ = state.end_frame();
}

#[test]
fn disabled_widget_interacts_with_nothing() {
    let mut state = ContextState::new(true);
    let layer = LayerId::background();
    state.begin_frame_mut(raw_with_events(Vec::new()), main_pair());
    let r = state.interact(
        rect(0, 0, 800, 600),
        Vec2::new(0, 0),
        layer,
        Id(1),
        rect(10, 10, 50, 30),
        Sense::click_sense(),
        false,
    );
    assert!(!r.hovered);
    assert!(!r.clicked.primary);
    assert!(!r.is_pointer_button_down_on);
    let _ = state.end_frame();
}

#[test]
fn pointer_area_queries() {
    let mut state = ContextState::new(true);
    state.begin_frame_mut(
        raw_with_events(vec![Event::PointerMoved(Pos::new(20, 20))]),
        main_pair(),
    );
    // The background area covers the screen, and panels claimed nothing,
    // so the pointer is over free background: not an engine area.
    assert!(!state.is_pointer_over_area());
    assert!(!state.wants_pointer_input());
    // Once panels claim the space under the pointer, the engine wants it.
    let key = state.viewport_id().0;
    let mut fs = state.frame_state.remove(key).unwrap();
    fs.unused_rect = rect(100, 100, 800, 600);
    state.frame_state.insert(key, fs);
    assert!(state.is_pointer_over_area());
    assert!(state.wants_pointer_input());
    assert!(!state.is_using_pointer());
    let _ = state.end_frame();
}

#[test]
fn texture_allocation_is_reported() {
    let mut state = ContextState::new(true);
    state.begin_frame_mut(raw_with_events(Vec::new()), main_pair());
    let t1 = state.load_texture(64, 64);
    let t2 = state.load_texture(128, 32);
    assert_ne!(t1.id, t2.id);
    let out = state.end_frame();
    assert_eq!(out.textures_delta.set.len(), 2);
    assert_eq!(out.textures_delta.set[0], t1);
    assert_eq!(out.textures_delta.set[1], t2);
    // The delta was drained; the next frame reports nothing new.
    state.begin_frame_mut(raw_with_events(Vec::new()), main_pair());
    let out = state.end_frame();
    assert_eq!(out.textures_delta.set.len(), 0);
    assert_eq!(state.textures.len(), 2);
}

#[test]
fn density_override_rescales_and_settles() {
    let mut state = ContextState::new(true);
    state.begin_frame_mut(raw_with_events(Vec::new()), main_pair());
    let _ = state.end_frame();
    assert_eq!(state.pixels_per_point_milli(), 1000);
    // Doubling the density owes the root surface two settle frames.
    state.set_pixels_per_point_milli(2000);
    assert!(state.requested_repaint_for(ViewportId(0)));
    state.begin_frame_mut(raw_with_events(Vec::new()), main_pair());
    assert_eq!(state.pixels_per_point_milli(), 2000);
    // The stored screen rectangle was rescaled by the density ratio.
    assert_eq!(state.screen_rect(), rect(0, 0, 400, 300));
    let _ = state.end_frame();
}
