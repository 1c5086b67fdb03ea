//! The shared context handle: a reference-counted, reader/writer-locked
//! `ContextState`, with every entry point a single short transaction.
//!
//! Cloning the handle is cheap and every clone observes the same state.
//! The lock's invariant is `ContextState::wf`, so every transaction
//! receives and must leave a well-formed engine state. Re-entrant use —
//! calling back into the same context from inside a transaction or a
//! reader closure — deadlocks, exactly as a reader/writer lock must; keep
//! closures free of context calls.
//!
//! Because the state is shared, these methods cannot promise how it looks
//! after the lock is released again; the exact contracts live on
//! `ContextState`, which the transaction bodies call. Operations whose
//! `ContextState` counterpart has a state-dependent precondition check it
//! inside the transaction and report refusal through their result.

use crate::geom::Pos;
use crate::geom::Rect;
use crate::ids::Id;
use crate::ids::LayerId;
use crate::ids::ViewportId;
use crate::ids::ViewportIdPair;
use crate::input::InputState;
use crate::input::RawInput;
use crate::memory::Memory;
use crate::output::CursorIcon;
use crate::output::FullOutput;
use crate::output::OpenUrl;
use crate::output::PlatformOutput;
use crate::output::TextureRecord;
use crate::repaint::RequestRepaintInfo;
use crate::response::Response;
use crate::response::Sense;
use crate::state::ContextState;
use crate::state::FontsInfo;
use crate::state::OperatingSystem;
use crate::state::ViewportDecision;
use crate::viewport::ViewportBuilder;
use crate::viewport::ViewportCommand;
use std::sync::Arc;
use vstd::prelude::*;
use vstd::rwlock::RwLock;
use vstd::rwlock::RwLockPredicate;

verus! {

/// The lock invariant: the engine state is well formed.
pub struct WfPred;

impl RwLockPredicate<ContextState> for WfPred {
    open spec fn inv(self, v: ContextState) -> bool {
        v.wf()
    }
}

/// Handle to the shared engine state.
#[derive(Clone)]
pub struct Context {
    lock: Arc<RwLock<ContextState, WfPred>>,
}

impl Context {
    /// A fresh context; on a non-desktop host viewports are embedded.
    pub fn new(desktop: bool) -> Context {
        Context { lock: Arc::new(RwLock::new(ContextState::new(desktop), Ghost(WfPred))) }
    }

    /// Run a read transaction on the engine state.
    fn read_with<R>(&self, reader: impl FnOnce(&ContextState) -> R) -> R
        requires
            forall|s: &ContextState| #[trigger] call_requires(reader, (s,)),
    {
        let handle = (*self.lock).acquire_read();
        let r = reader(handle.borrow());
        handle.release_read();
        r
    }

    /// Begin a frame of surface `pair.this` with the given raw input.
    ///
    /// Refused (returning false, with nothing changed) when the raw input
    /// is out of bounds or the surface already has an open frame — the
    /// re-entrancy that the engine must not accept.
    #[verifier::loop_isolation(false)]
    pub fn begin_frame(&self, new_input: RawInput, pair: ViewportIdPair) -> bool {
        let (mut state, handle) = (*self.lock).acquire_write();
        let mut ok = new_input.wf_check();
        let mut i: usize = 0;
        let n = state.frame_stack.len();
        while i < n
            invariant
                n == state.frame_stack.len(),
                ok ==> new_input.wf(),
                ok ==> forall|j: int|
                    0 <= j < i ==> state.frame_stack@[j].this != pair.this,
            decreases n - i,
        {
            if state.frame_stack[i].this == pair.this {
                ok = false;
            }
            i += 1;
        }
        if ok {
            state.begin_frame_mut(new_input, pair);
        }
        handle.release_write(state);
        ok
    }

    /// End the current frame and collect its output; refused between
    /// frames.
    pub fn end_frame(&self) -> Option<FullOutput> {
        let (mut state, handle) = (*self.lock).acquire_write();
        let r = if state.frame_stack.len() > 0 {
            Some(state.end_frame())
        } else {
            None
        };
        handle.release_write(state);
        r
    }

    /// Run one frame: begin, hand the context to the widget code, end.
    ///
    /// Returns nothing when beginning the frame was refused.
    #[must_use]
    pub fn run(
        &self,
        new_input: RawInput,
        pair: ViewportIdPair,
        run_ui: impl FnOnce(&Context),
    ) -> Option<FullOutput>
        requires
            call_requires(run_ui, (&*self,)),
    {
        if !self.begin_frame(new_input, pair) {
            return None;
        }
        run_ui(self);
        self.end_frame()
    }

    /// Read the input model of the current surface.
    pub fn input<R>(&self, reader: impl FnOnce(&InputState) -> R) -> R
        requires
            forall|i: &InputState| #[trigger] call_requires(reader, (i,)),
    {
        let handle = (*self.lock).acquire_read();
        let state = handle.borrow();
        let id = state.viewport_id();
        let r = match state.input.get(id.0) {
            Some(i) => reader(i),
            None => reader(&InputState::default_state()),
        };
        handle.release_read();
        r
    }

    /// Read the input model of the given surface.
    pub fn input_for<R>(&self, id: ViewportId, reader: impl FnOnce(&InputState) -> R) -> R
        requires
            forall|i: &InputState| #[trigger] call_requires(reader, (i,)),
    {
        let handle = (*self.lock).acquire_read();
        let state = handle.borrow();
        let r = match state.input.get(id.0) {
            Some(i) => reader(i),
            None => reader(&InputState::default_state()),
        };
        handle.release_read();
        r
    }

    /// Read the cross-frame memory.
    pub fn memory<R>(&self, reader: impl FnOnce(&Memory) -> R) -> R
        requires
            forall|m: &Memory| #[trigger] call_requires(reader, (m,)),
    {
        let handle = (*self.lock).acquire_read();
        let r = reader(&handle.borrow().memory);
        handle.release_read();
        r
    }

    /// Read the host-facing output of the current surface.
    pub fn output<R>(&self, reader: impl FnOnce(&PlatformOutput) -> R) -> R
        requires
            forall|o: &PlatformOutput| #[trigger] call_requires(reader, (o,)),
    {
        let handle = (*self.lock).acquire_read();
        let state = handle.borrow();
        let id = state.viewport_id();
        let r = match state.output.get(id.0) {
            Some(o) => reader(o),
            None => reader(&PlatformOutput::empty()),
        };
        handle.release_read();
        r
    }

    /// The current surface.
    pub fn viewport_id(&self) -> ViewportId {
        let handle = (*self.lock).acquire_read();
        let r = handle.borrow().viewport_id();
        handle.release_read();
        r
    }

    /// The current surface's parent.
    pub fn parent_viewport_id(&self) -> ViewportId {
        let handle = (*self.lock).acquire_read();
        let r = handle.borrow().parent_viewport_id();
        handle.release_read();
        r
    }

    /// The pair registered under a viewport builder key.
    pub fn viewport_id_pair(&self, key: Id) -> Option<ViewportIdPair> {
        let handle = (*self.lock).acquire_read();
        let r = handle.borrow().viewport_id_pair(key);
        handle.release_read();
        r
    }

    /// Position and size of the current surface.
    pub fn screen_rect(&self) -> Rect {
        let handle = (*self.lock).acquire_read();
        let r = handle.borrow().screen_rect();
        handle.release_read();
        r
    }

    /// Pixel density of the current surface, in thousandths.
    pub fn pixels_per_point_milli(&self) -> u32 {
        let handle = (*self.lock).acquire_read();
        let r = handle.borrow().pixels_per_point_milli();
        handle.release_read();
        r
    }

    /// Override the pixel density of every surface, in thousandths;
    /// refused outside the accepted density range.
    pub fn set_pixels_per_point_milli(&self, ppp: u32) -> bool {
        if !(1 <= ppp && ppp <= crate::input::PPP_LIMIT) {
            return false;
        }
        let (mut state, handle) = (*self.lock).acquire_write();
        state.set_pixels_per_point_milli(ppp);
        handle.release_write(state);
        true
    }

    /// Latest reported pointer position of the current surface.
    pub fn pointer_latest_pos(&self) -> Option<Pos> {
        let handle = (*self.lock).acquire_read();
        let r = handle.borrow().pointer_latest_pos();
        handle.release_read();
        r
    }

    /// Pointer position for interaction purposes of the current surface.
    pub fn pointer_interact_pos(&self) -> Option<Pos> {
        let handle = (*self.lock).acquire_read();
        let r = handle.borrow().pointer_interact_pos();
        handle.release_read();
        r
    }

    /// Whether some widget currently owns the pointer.
    pub fn is_using_pointer(&self) -> bool {
        let handle = (*self.lock).acquire_read();
        let r = handle.borrow().is_using_pointer();
        handle.release_read();
        r
    }

    /// Whether the pointer is over any engine-owned area.
    pub fn is_pointer_over_area(&self) -> bool {
        let handle = (*self.lock).acquire_read();
        let r = handle.borrow().is_pointer_over_area();
        handle.release_read();
        r
    }

    /// Whether the engine is interested in the pointer.
    pub fn wants_pointer_input(&self) -> bool {
        let handle = (*self.lock).acquire_read();
        let r = handle.borrow().wants_pointer_input();
        handle.release_read();
        r
    }

    /// Whether the engine is listening for text input.
    pub fn wants_keyboard_input(&self) -> bool {
        let handle = (*self.lock).acquire_read();
        let r = handle.borrow().wants_keyboard_input();
        handle.release_read();
        r
    }

    /// Topmost layer at a position.
    pub fn layer_id_at(&self, pos: Pos) -> Option<LayerId> {
        let handle = (*self.lock).acquire_read();
        let r = handle.borrow().layer_id_at(pos);
        handle.release_read();
        r
    }

    /// Move a layer to the top of its z-order.
    pub fn move_to_top(&self, layer: LayerId) {
        let (mut state, handle) = (*self.lock).acquire_write();
        let ghost s0 = state;
        state.memory.areas.move_to_top(layer);
        proof {
            assert(state == (ContextState {
                memory: (Memory { areas: state.memory.areas, ..s0.memory }),
                ..s0
            }));
        }
        handle.release_write(state);
    }

    /// The host operating system.
    pub fn os(&self) -> OperatingSystem {
        self.read_with(|s: &ContextState| s.os)
    }

    pub fn set_os(&self, os: OperatingSystem) {
        let (mut state, handle) = (*self.lock).acquire_write();
        state.set_os(os);
        handle.release_write(state);
    }

    /// Whether native windows can be opened at all.
    pub fn is_desktop(&self) -> bool {
        self.read_with(|s: &ContextState| s.is_desktop)
    }

    /// Whether viewports are embedded instead of opening native windows.
    pub fn force_embedding(&self) -> bool {
        self.read_with(|s: &ContextState| s.force_embedding)
    }

    pub fn set_force_embedding(&self, value: bool) {
        let (mut state, handle) = (*self.lock).acquire_write();
        state.set_force_embedding(value);
        handle.release_write(state);
    }

    /// The text subsystem's configuration; nothing before the first frame,
    /// because the density is unknown until then.
    ///
    /// Reading fonts before any frame is a programmer error; since a
    /// precondition cannot see through the lock, the refusal is returned
    /// rather than raised, and the caller must treat it as fatal.
    pub fn fonts(&self) -> Option<FontsInfo> {
        self.read_with(|s: &ContextState| s.fonts)
    }

    /// Record that the host registered its repaint wake callback; the
    /// host drains the queued wake signals with `take_pending_wakes`
    /// after each call and feeds them to its callback.
    pub fn set_request_repaint_callback_registered(&self) {
        let (mut state, handle) = (*self.lock).acquire_write();
        state.set_repaint_callback_registered();
        handle.release_write(state);
    }

    /// Hand the queued wake signals to the host.
    pub fn take_pending_wakes(&self) -> Vec<RequestRepaintInfo> {
        let (mut state, handle) = (*self.lock).acquire_write();
        let r = state.take_pending_wakes();
        handle.release_write(state);
        r
    }

    /// Request an immediate repaint of the current surface.
    pub fn request_repaint(&self) {
        let (mut state, handle) = (*self.lock).acquire_write();
        state.request_repaint();
        handle.release_write(state);
    }

    /// Request an immediate repaint of the given surface.
    pub fn request_repaint_for(&self, id: ViewportId) {
        let (mut state, handle) = (*self.lock).acquire_write();
        state.request_repaint_for(id);
        handle.release_write(state);
    }

    /// Request a repaint of the current surface after at most `after_ms`.
    pub fn request_repaint_after(&self, after_ms: u64) {
        let (mut state, handle) = (*self.lock).acquire_write();
        let id = state.viewport_id();
        state.request_repaint_after_for(after_ms, id);
        handle.release_write(state);
    }

    /// Request a repaint of the given surface after at most `after_ms`.
    pub fn request_repaint_after_for(&self, after_ms: u64, id: ViewportId) {
        let (mut state, handle) = (*self.lock).acquire_write();
        state.request_repaint_after_for(after_ms, id);
        handle.release_write(state);
    }

    /// Whether more repaints are owed to the current surface.
    pub fn requested_repaint(&self) -> bool {
        let handle = (*self.lock).acquire_read();
        let state = handle.borrow();
        let id = state.viewport_id();
        let r = state.requested_repaint_for(id);
        handle.release_read();
        r
    }

    /// Whether more repaints are owed to the given surface.
    pub fn requested_repaint_for(&self, id: ViewportId) -> bool {
        let handle = (*self.lock).acquire_read();
        let r = handle.borrow().requested_repaint_for(id);
        handle.release_read();
        r
    }

    /// Whether a repaint had been pending when the current surface's last
    /// frame started.
    pub fn requested_repaint_last_frame(&self) -> bool {
        let handle = (*self.lock).acquire_read();
        let state = handle.borrow();
        let id = state.viewport_id();
        let r = state.requested_repaint_last_frame_for(id);
        handle.release_read();
        r
    }

    /// Whether a repaint had been pending when the given surface's last
    /// frame started.
    pub fn requested_repaint_last_frame_for(&self, id: ViewportId) -> bool {
        let handle = (*self.lock).acquire_read();
        let r = handle.borrow().requested_repaint_last_frame_for(id);
        handle.release_read();
        r
    }

    /// The frame number of the current surface.
    pub fn frame_nr(&self) -> u64 {
        let handle = (*self.lock).acquire_read();
        let state = handle.borrow();
        let id = state.viewport_id();
        let r = state.frame_nr_for(id);
        handle.release_read();
        r
    }

    /// The frame number of the given surface.
    pub fn frame_nr_for(&self, id: ViewportId) -> u64 {
        let handle = (*self.lock).acquire_read();
        let r = handle.borrow().frame_nr_for(id);
        handle.release_read();
        r
    }

    /// Queue a command for the current surface.
    pub fn viewport_command(&self, command: ViewportCommand) {
        let (mut state, handle) = (*self.lock).acquire_write();
        state.viewport_command(command);
        handle.release_write(state);
    }

    /// Queue a command for the given surface.
    pub fn viewport_command_for(&self, id: ViewportId, command: ViewportCommand) {
        let (mut state, handle) = (*self.lock).acquire_write();
        state.viewport_command_for(id, command);
        handle.release_write(state);
    }

    /// Register (or refresh) a nested surface spawned by the current one;
    /// with embedding forced, the caller must run it inline instead.
    pub fn create_viewport(&self, builder: ViewportBuilder, render: Option<u64>) -> ViewportDecision {
        let (mut state, handle) = (*self.lock).acquire_write();
        let r = state.create_viewport(builder, render);
        handle.release_write(state);
        r
    }

    /// Register (or refresh) a nested surface for synchronous rendering
    /// inside the current frame.
    pub fn create_viewport_sync(&self, builder: ViewportBuilder) -> ViewportDecision {
        let (mut state, handle) = (*self.lock).acquire_write();
        let r = state.create_viewport_sync(builder);
        handle.release_write(state);
        r
    }

    /// Set the cursor icon of the current surface's output.
    pub fn set_cursor_icon(&self, icon: CursorIcon) {
        let (mut state, handle) = (*self.lock).acquire_write();
        state.set_cursor_icon(icon);
        handle.release_write(state);
    }

    /// Ask the host to open a URL.
    pub fn open_url(&self, open_url: OpenUrl) {
        let (mut state, handle) = (*self.lock).acquire_write();
        state.open_url(open_url);
        handle.release_write(state);
    }

    /// Place text on the host clipboard.
    pub fn copy_text(&self, text: String) {
        let (mut state, handle) = (*self.lock).acquire_write();
        state.copy_text(text);
        handle.release_write(state);
    }

    /// Ask for a highlight of `id` in the next frame.
    pub fn highlight_widget(&self, id: Id) {
        let (mut state, handle) = (*self.lock).acquire_write();
        state.highlight_widget(id);
        handle.release_write(state);
    }

    /// Record a use of `id` at `rect` and flag a duplicate use at a
    /// materially different place; refused for out-of-bounds rectangles.
    pub fn check_for_id_clash(&self, id: Id, rect: Rect) -> bool {
        if !rect.bounds_ok() {
            return false;
        }
        let (mut state, handle) = (*self.lock).acquire_write();
        state.check_for_id_clash(id, rect);
        handle.release_write(state);
        true
    }

    /// Register one widget's hit area and resolve its interaction;
    /// nothing outside an open frame or for out-of-bounds rectangles.
    pub fn interact(
        &self,
        clip_rect: Rect,
        item_spacing: crate::geom::Vec2,
        layer_id: LayerId,
        id: Id,
        rect: Rect,
        sense: Sense,
        enabled: bool,
    ) -> Option<Response> {
        if !rect.bounds_ok() || !clip_rect.bounds_ok() {
            return None;
        }
        let (mut state, handle) = (*self.lock).acquire_write();
        let r = if state.frame_stack.len() > 0 {
            Some(state.interact(clip_rect, item_spacing, layer_id, id, rect, sense, enabled))
        } else {
            None
        };
        handle.release_write(state);
        r
    }

    /// Allocate a texture of the given size; refused beyond the backend's
    /// texture bound for the current surface.
    pub fn load_texture(&self, width: u64, height: u64) -> Option<TextureRecord> {
        let (mut state, handle) = (*self.lock).acquire_write();
        let id = state.viewport_id();
        let max_side = match state.input.get(id.0) {
            Some(i) => i.max_texture_side,
            None => 2048,
        };
        let r = if width <= max_side && height <= max_side {
            Some(state.load_texture(width, height))
        } else {
            None
        };
        handle.release_write(state);
        r
    }
}

impl Default for Context {
    /// A context for an embedded host: viewports render inline.
    fn default() -> Context {
        Context::new(false)
    }
}

} // verus!
