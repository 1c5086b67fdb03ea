//! The shared context handle: transactions, refusals, wake delivery.

use uicore::Context;
use uicore::geom::{Pos, Rect};
use uicore::ids::ViewportIdPair;
use uicore::input::RawInput;

#[test]
fn handle_runs_a_frame() {
    let ctx = Context::new(true);
    let raw = RawInput {
        screen_rect: Some(Rect::new(Pos::new(0, 0), Pos::new(800, 600))),
        pixels_per_point_milli: None,
        max_texture_side: 2048,
        events: Vec::new(),
        focused: true,
    };
    let out = ctx.run(raw, ViewportIdPair::main_pair(), |c| {
        c.request_repaint();
        assert_eq!(c.screen_rect(), Rect::new(Pos::new(0, 0), Pos::new(800, 600)));
        assert_eq!(c.pixels_per_point_milli(), 1000);
    });
    assert!(out.is_some());
    // The handle is cheap to clone and clones share the state.
    let clone = ctx.clone();
    assert_eq!(clone.frame_nr_for(uicore::ids::ViewportId(0)), 1);
    assert!(clone.requested_repaint_for(uicore::ids::ViewportId(0)));
}

#[test]
fn context_impl_send_sync() {
    fn assert_send_sync<T: Send + Sync>() {}
    assert_send_sync::<Context>();
}

#[test]
fn handle_refuses_misuse() {
    let ctx = Context::new(true);
    // No frame is open: ending one is refused.
    assert!(ctx.end_frame().is_none());
    // Fonts are unavailable before the first frame.
    assert!(ctx.fonts().is_none());
    let raw = RawInput::empty();
    assert!(ctx.begin_frame(raw, ViewportIdPair::main_pair()));
    // The surface already has an open frame: re-entry is refused.
    assert!(!ctx.begin_frame(RawInput::empty(), ViewportIdPair::main_pair()));
    assert!(ctx.fonts().is_some());
    assert!(ctx.end_frame().is_some());
}

#[test]
fn handle_delivers_wakes() {
    let ctx = Context::new(true);
    ctx.set_request_repaint_callback_registered();
    ctx.request_repaint_after_for(16, uicore::ids::ViewportId(0));
    let wakes = ctx.take_pending_wakes();
    assert_eq!(wakes.len(), 1);
    assert_eq!(wakes[0].after_ms, 16);
}
