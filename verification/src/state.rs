//! The engine state itself: everything the shared context guards, and the
//! frame lifecycle, repaint and interaction operations on it.
//!
//! `ContextState` is single-threaded data; the `Context` handle wraps it
//! in a reader/writer lock whose invariant is `ContextState::wf`.

use crate::dict::Dict;
use crate::frame_state::ClashWarning;
use crate::frame_state::FrameState;
use crate::geom::COORD_LIMIT;
use crate::geom::Pos;
use crate::geom::Rect;
use crate::geom::Vec2;
use crate::ids::Id;
use crate::ids::LayerId;
use crate::ids::ViewportId;
use crate::ids::ViewportIdPair;
use crate::input::InputState;
use crate::input::RawInput;
use crate::layers::LayerStore;
use crate::layers::WidgetRect;
use crate::memory::Memory;
use crate::output::ClippedShape;
use crate::output::CursorIcon;
use crate::output::OpenUrl;
use crate::output::PlatformOutput;
use crate::output::TextureRecord;
use crate::repaint::Repaint;
use crate::response::Response;
use crate::response::Sense;
use crate::viewport::ViewportCommand;
use crate::viewport::ViewportRegistry;
use vstd::prelude::*;

verus! {

/// The host operating system, for platform-dependent conventions.
#[derive(Clone, Copy, PartialEq, Eq, Structural, Debug)]
pub enum OperatingSystem {
    Unknown,
    Windows,
    Mac,
    Linux,
    Android,
    Ios,
}

/// The text subsystem's configuration, fixed at the first frame.
///
/// Glyph data itself belongs to the text collaborator; the engine tracks
/// the density and texture bound the collaborator was configured with.
#[derive(Clone, Copy, PartialEq, Eq, Structural, Debug)]
pub struct FontsInfo {
    /// Pixel density the fonts were sized for, in thousandths.
    pub pixels_per_point_milli: u32,
    /// Largest texture side available to the font atlas.
    pub max_texture_side: u64,
}

/// The guarded mutable state of the engine.
pub struct ContextState {
    /// Text subsystem configuration; `None` until the first frame.
    pub fonts: Option<FontsInfo>,
    /// Cross-frame memory: captures, focus, areas, options.
    pub memory: Memory,
    /// Host operating system.
    pub os: OperatingSystem,
    /// Per-surface input models.
    pub input: Dict<InputState>,
    /// Per-surface frame scratch state.
    pub frame_state: Dict<FrameState>,
    /// Currently open frames, outermost first.
    pub frame_stack: Vec<ViewportIdPair>,
    /// Per-surface queued paint commands.
    pub graphics: Dict<LayerStore<ClippedShape>>,
    /// Per-surface host-facing output.
    pub output: Dict<PlatformOutput>,
    /// Repaint scheduling.
    pub repaint: Repaint,
    /// Registered viewports.
    pub viewports: ViewportRegistry,
    /// Queued cross-surface commands.
    pub viewport_commands: Vec<(ViewportId, ViewportCommand)>,
    /// Source of fresh surface handles.
    pub viewport_counter: u64,
    /// Whether native windows can be opened at all.
    pub is_desktop: bool,
    /// When set, viewports are embedded instead of opening native windows.
    pub force_embedding: bool,
    /// Hit-test geometry recorded during the current frame.
    pub layer_rects_this_frame: LayerStore<WidgetRect>,
    /// The previous frame's geometry, read for occlusion.
    pub layer_rects_prev_frame: LayerStore<WidgetRect>,
    /// Paused surfaces' in-progress geometry, by surface handle.
    pub stash_this: Dict<LayerStore<WidgetRect>>,
    /// Paused surfaces' previous-frame geometry, by surface handle.
    pub stash_prev: Dict<LayerStore<WidgetRect>>,
    /// Next fresh texture handle.
    pub next_texture_id: u64,
    /// All live texture allocations.
    pub textures: Vec<TextureRecord>,
    /// Texture allocations not yet reported to the host.
    pub pending_texture_set: Vec<TextureRecord>,
    /// Texture frees not yet reported to the host.
    pub pending_texture_free: Vec<u64>,
}

impl ContextState {
    /// Well-formedness of the whole state; the lock invariant of `Context`.
    pub open spec fn wf(self) -> bool {
        &&& self.memory.wf()
        &&& self.input.wf()
        &&& self.frame_state.wf()
        &&& self.graphics.wf()
        &&& self.output.wf()
        &&& self.repaint.wf()
        &&& self.viewports.wf()
        &&& self.layer_rects_this_frame.wf()
        &&& self.layer_rects_prev_frame.wf()
        &&& self.stash_this.wf()
        &&& self.stash_prev.wf()
        &&& forall|k: u64| #[trigger] self.input@.contains_key(k) ==> self.input@[k].wf()
        &&& forall|k: u64| #[trigger] self.frame_state@.contains_key(k)
            ==> self.frame_state@[k].wf()
        &&& forall|k: u64| #[trigger] self.graphics@.contains_key(k) ==> self.graphics@[k].wf()
        &&& forall|k: u64| #[trigger] self.stash_this@.contains_key(k)
            ==> self.stash_this@[k].wf()
        &&& forall|k: u64| #[trigger] self.stash_prev@.contains_key(k)
            ==> self.stash_prev@[k].wf()
        &&& forall|i: int, j: int|
            0 <= i < j < self.frame_stack@.len() ==> self.frame_stack@[i].this
                != self.frame_stack@[j].this
        &&& forall|i: int|
            0 <= i < self.frame_stack@.len() - 1 ==> #[trigger] self.stash_this@.contains_key(
                self.frame_stack@[i].this.0,
            ) && self.stash_prev@.contains_key(self.frame_stack@[i].this.0)
        &&& forall|i: int|
            0 <= i < self.frame_stack@.len() ==> #[trigger] self.input@.contains_key(
                self.frame_stack@[i].this.0,
            )
    }

    /// A fresh engine state.
    pub fn new(desktop: bool) -> (r: ContextState)
        ensures
            r.wf(),
            r.frame_stack@ == Seq::<ViewportIdPair>::empty(),
            r.fonts is None,
            r.is_desktop == desktop,
            r.force_embedding == !desktop,
            r.viewport_counter == 0,
            r.viewports.view_records() == Seq::<crate::viewport::Viewport>::empty(),
            r.input@ == Map::<u64, InputState>::empty(),
            r.viewport_commands@ == Seq::<(ViewportId, ViewportCommand)>::empty(),
            !r.repaint.spec_callback_registered(),
            r.repaint.spec_requests() == Map::<u64, u64>::empty(),
            r.repaint.spec_frame_nrs() == Map::<u64, u64>::empty(),
            r.repaint.spec_wakes() == Seq::<crate::repaint::RequestRepaintInfo>::empty(),
            forall|id: u64| !(#[trigger] r.repaint.spec_requested_last(id)),
            r.repaint.spec_missed_wakes() == 0,
            r.memory.options.warn_on_id_clash,
            r.memory.focus is None,
            r.memory.interaction == crate::memory::Interaction::spec_idle(),
            r.memory.override_pixels_per_point_milli is None,
            r.memory.areas.spec_order() == Seq::<LayerId>::empty(),
            forall|l: LayerId| r.memory.areas.spec_area(l) is None,
            r.frame_state@ == Map::<u64, FrameState>::empty(),
            r.output@ == Map::<u64, PlatformOutput>::empty(),
            r.graphics@ == Map::<u64, LayerStore<ClippedShape>>::empty(),
            r.stash_this@ == Map::<u64, LayerStore<WidgetRect>>::empty(),
            r.stash_prev@ == Map::<u64, LayerStore<WidgetRect>>::empty(),
            forall|l: LayerId| r.layer_rects_this_frame.list_of(l) == Seq::<WidgetRect>::empty(),
            forall|l: LayerId| r.layer_rects_prev_frame.list_of(l) == Seq::<WidgetRect>::empty(),
            r.os == OperatingSystem::Unknown,
            r.next_texture_id == 1,
            r.textures@ == Seq::<TextureRecord>::empty(),
            r.pending_texture_set@ == Seq::<TextureRecord>::empty(),
            r.pending_texture_free@ == Seq::<u64>::empty(),
    {
        ContextState {
            fonts: None,
            memory: Memory::new(),
            os: OperatingSystem::Unknown,
            input: Dict::new(),
            frame_state: Dict::new(),
            frame_stack: Vec::new(),
            graphics: Dict::new(),
            output: Dict::new(),
            repaint: Repaint::new(),
            viewports: ViewportRegistry::new(),
            viewport_commands: Vec::new(),
            viewport_counter: 0,
            is_desktop: desktop,
            force_embedding: !desktop,
            layer_rects_this_frame: LayerStore::new(),
            layer_rects_prev_frame: LayerStore::new(),
            stash_this: Dict::new(),
            stash_prev: Dict::new(),
            next_texture_id: 1,
            textures: Vec::new(),
            pending_texture_set: Vec::new(),
            pending_texture_free: Vec::new(),
        }
    }

    /// The surface whose frame is current: the top of the frame stack, or
    /// the root surface between frames.
    pub open spec fn spec_viewport_id(self) -> ViewportId {
        if self.frame_stack@.len() == 0 {
            ViewportId::spec_main()
        } else {
            self.frame_stack@.last().this
        }
    }

    /// The parent of the current surface.
    pub open spec fn spec_parent_viewport_id(self) -> ViewportId {
        if self.frame_stack@.len() == 0 {
            ViewportId::spec_main()
        } else {
            self.frame_stack@.last().parent
        }
    }

    pub fn viewport_id(&self) -> (r: ViewportId)
        ensures
            r == self.spec_viewport_id(),
    {
        if self.frame_stack.len() == 0 {
            ViewportId::main_id()
        } else {
            self.frame_stack[self.frame_stack.len() - 1].this
        }
    }

    pub fn parent_viewport_id(&self) -> (r: ViewportId)
        ensures
            r == self.spec_parent_viewport_id(),
    {
        if self.frame_stack.len() == 0 {
            ViewportId::main_id()
        } else {
            self.frame_stack[self.frame_stack.len() - 1].parent
        }
    }

    /// The screen rectangle of a surface; never-framed surfaces read the
    /// default.
    pub open spec fn spec_screen_rect_of(self, id: ViewportId) -> Rect {
        if self.input@.contains_key(id.0) {
            self.input@[id.0].screen_rect
        } else {
            InputState::spec_default_rect()
        }
    }

    /// The pixel density of a surface in thousandths; never-framed
    /// surfaces read the default.
    pub open spec fn spec_ppp_of(self, id: ViewportId) -> u32 {
        if self.input@.contains_key(id.0) {
            self.input@[id.0].pixels_per_point_milli
        } else {
            1000
        }
    }

    /// The texture bound of a surface; never-framed surfaces read the
    /// default.
    pub open spec fn spec_max_texture_side_of(self, id: ViewportId) -> u64 {
        if self.input@.contains_key(id.0) {
            self.input@[id.0].max_texture_side
        } else {
            2048
        }
    }

    /// The interaction pointer position of a surface, if any.
    pub open spec fn spec_interact_pos_of(self, id: ViewportId) -> Option<Pos> {
        if self.input@.contains_key(id.0) {
            self.input@[id.0].pointer.interact_pos
        } else {
            None
        }
    }

    /// Position and size of the current surface.
    pub fn screen_rect(&self) -> (r: Rect)
        requires
            self.wf(),
        ensures
            r == self.spec_screen_rect_of(self.spec_viewport_id()),
    {
        let id = self.viewport_id();
        match self.input.get(id.0) {
            Some(i) => i.screen_rect,
            None => InputState::default_state().screen_rect,
        }
    }

    /// The pixel density of the current surface, in thousandths.
    pub fn pixels_per_point_milli(&self) -> (r: u32)
        requires
            self.wf(),
        ensures
            r == self.spec_ppp_of(self.spec_viewport_id()),
    {
        let id = self.viewport_id();
        match self.input.get(id.0) {
            Some(i) => i.pixels_per_point_milli,
            None => InputState::default_state().pixels_per_point_milli,
        }
    }

    /// Latest reported pointer position of the current surface.
    pub fn pointer_latest_pos(&self) -> (r: Option<Pos>)
        requires
            self.wf(),
        ensures
            r == (if self.input@.contains_key(self.spec_viewport_id().0) {
                self.input@[self.spec_viewport_id().0].pointer.latest_pos
            } else {
                None
            }),
    {
        let id = self.viewport_id();
        match self.input.get(id.0) {
            Some(i) => i.pointer.latest_pos,
            None => None,
        }
    }

    /// Pointer position for interaction purposes of the current surface.
    pub fn pointer_interact_pos(&self) -> (r: Option<Pos>)
        requires
            self.wf(),
        ensures
            r == self.spec_interact_pos_of(self.spec_viewport_id()),
    {
        let id = self.viewport_id();
        match self.input.get(id.0) {
            Some(i) => i.pointer.interact_pos,
            None => None,
        }
    }

    /// Whether some widget currently owns the pointer.
    pub fn is_using_pointer(&self) -> (r: bool)
        ensures
            r == self.memory.interaction.spec_is_using_pointer(),
    {
        self.memory.interaction.is_using_pointer()
    }

    /// The space no widget covered in the current surface's last frame;
    /// the whole default screen before its first frame.
    pub open spec fn spec_unused_rect_of(self, id: ViewportId) -> Rect {
        if self.frame_state@.contains_key(id.0) {
            self.frame_state@[id.0].unused_rect
        } else {
            InputState::spec_default_rect()
        }
    }

    /// Whether the pointer is over any engine-owned area: some layer owns
    /// its position, and on the background layer only where panels left
    /// no free space.
    pub open spec fn spec_is_pointer_over_area(self) -> bool {
        let cur = self.spec_viewport_id();
        match self.spec_interact_pos_of(cur) {
            Some(p) => match self.memory.areas.spec_layer_at_upto(
                p,
                self.memory.areas.spec_order().len() as int,
            ) {
                Some(l) => l.order != crate::ids::Order::Background
                    || !self.spec_unused_rect_of(cur).spec_contains(p),
                None => false,
            },
            None => false,
        }
    }

    pub fn is_pointer_over_area(&self) -> (r: bool)
        requires
            self.wf(),
        ensures
            r == self.spec_is_pointer_over_area(),
    {
        let cur = self.viewport_id();
        match self.pointer_interact_pos() {
            Some(p) => match self.layer_id_at(p) {
                Some(l) => {
                    if matches!(l.order, crate::ids::Order::Background) {
                        let unused = match self.frame_state.get(cur.0) {
                            Some(fs) => fs.unused_rect,
                            None => InputState::default_state().screen_rect,
                        };
                        !unused.contains(p)
                    } else {
                        true
                    }
                },
                None => false,
            },
            None => false,
        }
    }

    /// Whether the engine is interested in the pointer: some widget owns
    /// it, or it hovers an engine-owned area with no button held (a drag
    /// that started elsewhere stays with its starter).
    pub fn wants_pointer_input(&self) -> (r: bool)
        requires
            self.wf(),
        ensures
            r == (self.memory.interaction.spec_is_using_pointer() || (
            self.spec_is_pointer_over_area() && !(self.input@.contains_key(
                self.spec_viewport_id().0,
            ) && self.input@[self.spec_viewport_id().0].pointer.down.spec_any()))),
    {
        if self.is_using_pointer() {
            return true;
        }
        let cur = self.viewport_id();
        let any_down = match self.input.get(cur.0) {
            Some(i) => i.pointer.any_down(),
            None => false,
        };
        self.is_pointer_over_area() && !any_down
    }

    /// Whether the engine is listening for text input.
    pub fn wants_keyboard_input(&self) -> (r: bool)
        ensures
            r == (self.memory.focus is Some),
    {
        self.memory.focus.is_some()
    }

    /// Queue a command for the current surface.
    pub fn viewport_command(&mut self, command: ViewportCommand)
        requires
            old(self).wf(),
        ensures
            final(self).wf(),
            *final(self) == (ContextState {
                viewport_commands: final(self).viewport_commands,
                ..*old(self)
            }),
            final(self).viewport_commands@ == old(self).viewport_commands@.push(
                (old(self).spec_viewport_id(), command),
            ),
    {
        let id = self.viewport_id();
        self.viewport_commands.push((id, command));
    }

    /// Queue a command for the given surface.
    pub fn viewport_command_for(&mut self, id: ViewportId, command: ViewportCommand)
        requires
            old(self).wf(),
        ensures
            final(self).wf(),
            *final(self) == (ContextState {
                viewport_commands: final(self).viewport_commands,
                ..*old(self)
            }),
            final(self).viewport_commands@ == old(self).viewport_commands@.push((id, command)),
    {
        self.viewport_commands.push((id, command));
    }

    /// Ask for a highlight of `id` in the next frame of the current
    /// surface.
    pub fn highlight_widget(&mut self, id: Id)
        requires
            old(self).wf(),
        ensures
            final(self).wf(),
            final(self).frame_state@.contains_key(old(self).spec_viewport_id().0),
            final(self).frame_state@[old(self).spec_viewport_id().0].highlight_next_frame@ == (
            if old(self).frame_state@.contains_key(old(self).spec_viewport_id().0) {
                old(self).frame_state@[old(self).spec_viewport_id().0].highlight_next_frame@
            } else {
                Seq::<Id>::empty()
            }).push(id),
            final(self).frame_state@ == old(self).frame_state@.insert(
                old(self).spec_viewport_id().0,
                final(self).frame_state@[old(self).spec_viewport_id().0],
            ),
            *final(self) == (ContextState { frame_state: final(self).frame_state, ..*old(self) }),
    {
        let key = self.viewport_id().0;
        let mut fs = match self.frame_state.remove(key) {
            Some(f) => f,
            None => FrameState::empty(),
        };
        fs.highlight_next_frame.push(id);
        self.frame_state.insert(key, fs);
    }

    /// Set the cursor icon of the current surface's output.
    pub fn set_cursor_icon(&mut self, icon: CursorIcon)
        requires
            old(self).wf(),
        ensures
            final(self).wf(),
            final(self).output@.contains_key(old(self).spec_viewport_id().0),
            final(self).output@[old(self).spec_viewport_id().0].cursor_icon == icon,
            final(self).output@ == old(self).output@.insert(
                old(self).spec_viewport_id().0,
                final(self).output@[old(self).spec_viewport_id().0],
            ),
            *final(self) == (ContextState { output: final(self).output, ..*old(self) }),
    {
        let key = self.viewport_id().0;
        let mut o = match self.output.remove(key) {
            Some(o) => o,
            None => PlatformOutput::empty(),
        };
        o.cursor_icon = icon;
        self.output.insert(key, o);
    }

    /// Ask the host to open a URL.
    pub fn open_url(&mut self, open_url: OpenUrl)
        requires
            old(self).wf(),
        ensures
            final(self).wf(),
            final(self).output@.contains_key(old(self).spec_viewport_id().0),
            final(self).output@[old(self).spec_viewport_id().0].open_url == Some(open_url),
            final(self).output@ == old(self).output@.insert(
                old(self).spec_viewport_id().0,
                final(self).output@[old(self).spec_viewport_id().0],
            ),
            *final(self) == (ContextState { output: final(self).output, ..*old(self) }),
    {
        let key = self.viewport_id().0;
        let mut o = match self.output.remove(key) {
            Some(o) => o,
            None => PlatformOutput::empty(),
        };
        o.open_url = Some(open_url);
        self.output.insert(key, o);
    }

    /// Place text on the host clipboard.
    pub fn copy_text(&mut self, text: String)
        requires
            old(self).wf(),
        ensures
            final(self).wf(),
            final(self).output@.contains_key(old(self).spec_viewport_id().0),
            final(self).output@[old(self).spec_viewport_id().0].copied_text == text,
            final(self).output@ == old(self).output@.insert(
                old(self).spec_viewport_id().0,
                final(self).output@[old(self).spec_viewport_id().0],
            ),
            *final(self) == (ContextState { output: final(self).output, ..*old(self) }),
    {
        let key = self.viewport_id().0;
        let mut o = match self.output.remove(key) {
            Some(o) => o,
            None => PlatformOutput::empty(),
        };
        o.copied_text = text;
        self.output.insert(key, o);
    }

    /// Allocate a texture of the given size.
    ///
    /// The size must respect the backend's texture bound for the current
    /// surface; the allocation is queued for the host in this frame's
    /// texture delta.
    pub fn load_texture(&mut self, width: u64, height: u64) -> (r: TextureRecord)
        requires
            old(self).wf(),
            width <= old(self).spec_max_texture_side_of(old(self).spec_viewport_id()),
            height <= old(self).spec_max_texture_side_of(old(self).spec_viewport_id()),
        ensures
            final(self).wf(),
            r.id == old(self).next_texture_id,
            r.width == width,
            r.height == height,
            final(self).textures@ == old(self).textures@.push(r),
            final(self).pending_texture_set@ == old(self).pending_texture_set@.push(r),
            final(self).next_texture_id == if old(self).next_texture_id < u64::MAX {
                old(self).next_texture_id + 1
            } else {
                u64::MAX as int
            },
            *final(self) == (ContextState {
                textures: final(self).textures,
                pending_texture_set: final(self).pending_texture_set,
                next_texture_id: final(self).next_texture_id,
                ..*old(self)
            }),
    {
        let rec = TextureRecord { id: self.next_texture_id, width, height };
        self.next_texture_id = if self.next_texture_id < u64::MAX {
            self.next_texture_id + 1
        } else {
            u64::MAX
        };
        self.textures.push(rec);
        self.pending_texture_set.push(rec);
        rec
    }
}

/// What `create_viewport` decided.
#[derive(Clone, Copy, PartialEq, Eq, Structural, Debug)]
pub enum ViewportDecision {
    /// Viewports are embedded: the caller must run the surface's widget
    /// code inline, in the current frame.
    Embedded,
    /// The surface was registered; the host realizes it after `end_frame`.
    Registered(ViewportIdPair),
}

/// Rescaling of one coordinate when the pixel density changes from
/// `old_ppp` to `new_ppp` (both in thousandths): the logical value scales
/// by their ratio and is clamped to the coordinate bounds.
pub open spec fn spec_rescale_coord(c: int, old_ppp: int, new_ppp: int) -> int {
    let m = if c >= 0 {
        c * old_ppp / new_ppp
    } else {
        -((-c) * old_ppp / new_ppp)
    };
    if m > COORD_LIMIT {
        COORD_LIMIT as int
    } else if m < -COORD_LIMIT {
        -(COORD_LIMIT as int)
    } else {
        m
    }
}

/// The rectangle with all four coordinates rescaled.
pub open spec fn spec_rescale_rect(r: Rect, old_ppp: int, new_ppp: int) -> Rect {
    Rect {
        min: Pos {
            x: spec_rescale_coord(r.min.x as int, old_ppp, new_ppp) as i64,
            y: spec_rescale_coord(r.min.y as int, old_ppp, new_ppp) as i64,
        },
        max: Pos {
            x: spec_rescale_coord(r.max.x as int, old_ppp, new_ppp) as i64,
            y: spec_rescale_coord(r.max.y as int, old_ppp, new_ppp) as i64,
        },
    }
}

/// Rescale one coordinate for a density change.
pub fn rescale_coord(c: i64, old_ppp: u32, new_ppp: u32) -> (r: i64)
    requires
        -COORD_LIMIT <= c <= COORD_LIMIT,
        1 <= old_ppp <= crate::input::PPP_LIMIT,
        1 <= new_ppp <= crate::input::PPP_LIMIT,
    ensures
        r == spec_rescale_coord(c as int, old_ppp as int, new_ppp as int),
        -COORD_LIMIT <= r <= COORD_LIMIT,
{
    let neg = c < 0;
    let mag: i64 = if neg {
        -c
    } else {
        c
    };
    proof {
        assert(mag as int * old_ppp as int <= COORD_LIMIT as int * crate::input::PPP_LIMIT as int)
            by (nonlinear_arith)
            requires
                0 <= mag as int <= COORD_LIMIT as int,
                0 <= old_ppp as int <= crate::input::PPP_LIMIT as int,
        ;
    }
    let scaled: i64 = mag * (old_ppp as i64) / (new_ppp as i64);
    let signed: i64 = if neg {
        -scaled
    } else {
        scaled
    };
    if signed > COORD_LIMIT {
        COORD_LIMIT
    } else if signed < -COORD_LIMIT {
        -COORD_LIMIT
    } else {
        signed
    }
}

/// Rescale a rectangle for a density change.
pub fn rescale_rect(r: Rect, old_ppp: u32, new_ppp: u32) -> (out: Rect)
    requires
        r.in_bounds(),
        1 <= old_ppp <= crate::input::PPP_LIMIT,
        1 <= new_ppp <= crate::input::PPP_LIMIT,
    ensures
        out == spec_rescale_rect(r, old_ppp as int, new_ppp as int),
        out.in_bounds(),
{
    Rect {
        min: Pos {
            x: rescale_coord(r.min.x, old_ppp, new_ppp),
            y: rescale_coord(r.min.y, old_ppp, new_ppp),
        },
        max: Pos {
            x: rescale_coord(r.max.x, old_ppp, new_ppp),
            y: rescale_coord(r.max.y, old_ppp, new_ppp),
        },
    }
}

impl ContextState {
    /// The host operating system.
    pub fn os(&self) -> (r: OperatingSystem)
        ensures
            r == self.os,
    {
        self.os
    }

    pub fn set_os(&mut self, os: OperatingSystem)
        requires
            old(self).wf(),
        ensures
            final(self).wf(),
            *final(self) == (ContextState { os, ..*old(self) }),
    {
        self.os = os;
    }

    pub fn is_desktop(&self) -> (r: bool)
        ensures
            r == self.is_desktop,
    {
        self.is_desktop
    }

    pub fn force_embedding(&self) -> (r: bool)
        ensures
            r == self.force_embedding,
    {
        self.force_embedding
    }

    /// Embedding can always be forced on; it can be turned off only on a
    /// desktop host.
    pub fn set_force_embedding(&mut self, value: bool)
        requires
            old(self).wf(),
        ensures
            final(self).wf(),
            *final(self) == (ContextState {
                force_embedding: value || !old(self).is_desktop,
                ..*old(self)
            }),
    {
        self.force_embedding = value || !self.is_desktop;
    }

    /// Record that the host registered its repaint wake callback.
    pub fn set_repaint_callback_registered(&mut self)
        requires
            old(self).wf(),
        ensures
            final(self).wf(),
            *final(self) == (ContextState { repaint: final(self).repaint, ..*old(self) }),
            final(self).repaint.spec_callback_registered(),
            final(self).repaint.spec_requests() == old(self).repaint.spec_requests(),
            final(self).repaint.spec_frame_nrs() == old(self).repaint.spec_frame_nrs(),
            final(self).repaint.spec_wakes() == old(self).repaint.spec_wakes(),
    {
        self.repaint.set_callback_registered();
    }

    /// Request a repaint of the given surface after at most `after_ms`.
    pub fn request_repaint_after_for(&mut self, after_ms: u64, id: ViewportId)
        requires
            old(self).wf(),
        ensures
            final(self).wf(),
            *final(self) == (ContextState { repaint: final(self).repaint, ..*old(self) }),
            final(self).repaint.spec_requests() == crate::repaint::spec_after_request(
                old(self).repaint.spec_requests(),
                id.0,
            ),
            final(self).repaint.spec_frame_nrs() == old(self).repaint.spec_frame_nrs(),
            final(self).repaint.spec_callback_registered() == old(self).repaint.spec_callback_registered(),
            old(self).repaint.spec_callback_registered() ==> final(self).repaint.spec_wakes().len()
                == old(self).repaint.spec_wakes().len() + 1,
    {
        self.repaint.request_repaint_after(after_ms, id.0);
    }

    /// Request an immediate repaint of the given surface.
    pub fn request_repaint_for(&mut self, id: ViewportId)
        requires
            old(self).wf(),
        ensures
            final(self).wf(),
            *final(self) == (ContextState { repaint: final(self).repaint, ..*old(self) }),
            final(self).repaint.spec_requests() == crate::repaint::spec_after_request(
                old(self).repaint.spec_requests(),
                id.0,
            ),
            final(self).repaint.spec_frame_nrs() == old(self).repaint.spec_frame_nrs(),
            final(self).repaint.spec_callback_registered() == old(self).repaint.spec_callback_registered(),
            old(self).repaint.spec_callback_registered() ==> final(self).repaint.spec_wakes().len()
                == old(self).repaint.spec_wakes().len() + 1,
    {
        self.repaint.request_repaint(id.0);
    }

    /// Request an immediate repaint of the current surface.
    pub fn request_repaint(&mut self)
        requires
            old(self).wf(),
        ensures
            final(self).wf(),
            *final(self) == (ContextState { repaint: final(self).repaint, ..*old(self) }),
            final(self).repaint.spec_requests() == crate::repaint::spec_after_request(
                old(self).repaint.spec_requests(),
                old(self).spec_viewport_id().0,
            ),
            final(self).repaint.spec_frame_nrs() == old(self).repaint.spec_frame_nrs(),
    {
        let id = self.viewport_id();
        self.repaint.request_repaint(id.0);
    }

    /// Whether more repaints are owed to the given surface.
    pub fn requested_repaint_for(&self, id: ViewportId) -> (r: bool)
        requires
            self.wf(),
        ensures
            r == (crate::repaint::spec_count(self.repaint.spec_requests(), id.0) > 0),
    {
        self.repaint.requested_repaint(id.0)
    }

    /// Whether a repaint had been pending when the given surface's last
    /// frame started.
    pub fn requested_repaint_last_frame_for(&self, id: ViewportId) -> (r: bool)
        requires
            self.wf(),
        ensures
            r == self.repaint.spec_requested_last(id.0),
    {
        self.repaint.requested_repaint_last_frame(id.0)
    }

    /// The frame number of the given surface.
    pub fn frame_nr_for(&self, id: ViewportId) -> (r: u64)
        requires
            self.wf(),
        ensures
            r == crate::repaint::spec_count(self.repaint.spec_frame_nrs(), id.0),
    {
        self.repaint.frame_nr_for(id.0)
    }

    /// Hand the queued wake signals to the host shell.
    pub fn take_pending_wakes(&mut self) -> (r: Vec<crate::repaint::RequestRepaintInfo>)
        requires
            old(self).wf(),
        ensures
            final(self).wf(),
            *final(self) == (ContextState { repaint: final(self).repaint, ..*old(self) }),
            r@ == old(self).repaint.spec_wakes(),
            final(self).repaint.spec_wakes() == Seq::<
                crate::repaint::RequestRepaintInfo,
            >::empty(),
            final(self).repaint.spec_requests() == old(self).repaint.spec_requests(),
            final(self).repaint.spec_frame_nrs() == old(self).repaint.spec_frame_nrs(),
    {
        self.repaint.take_wakes()
    }

    /// Override the pixel density of every surface, in thousandths.
    ///
    /// Takes effect at each surface's next `begin_frame`. Every registered
    /// surface and the root are owed two settle frames, so one settling
    /// frame precedes the visually corrected one.
    #[verifier::loop_isolation(false)]
    pub fn set_pixels_per_point_milli(&mut self, ppp: u32)
        requires
            old(self).wf(),
            1 <= ppp <= crate::input::PPP_LIMIT,
        ensures
            final(self).wf(),
            ppp == old(self).spec_ppp_of(old(self).spec_viewport_id()) ==> *final(self) == *old(self),
            ppp != old(self).spec_ppp_of(old(self).spec_viewport_id()) ==> {
                &&& *final(self) == (ContextState {
                    repaint: final(self).repaint,
                    memory: final(self).memory,
                    ..*old(self)
                })
                &&& final(self).memory == (Memory {
                    override_pixels_per_point_milli: Some(ppp),
                    ..old(self).memory
                })
                &&& crate::repaint::spec_count(final(self).repaint.spec_requests(), 0) == 2
                &&& forall|i: int|
                    0 <= i < old(self).viewports.view_records().len()
                        ==> crate::repaint::spec_count(
                        final(self).repaint.spec_requests(),
                        #[trigger] old(self).viewports.view_records()[i].pair.this.0,
                    ) == 2
            },
    {
        let cur = self.pixels_per_point_milli();
        if ppp == cur {
            return ;
        }
        let ids = self.viewports.surface_ids();
        let n = ids.len();
        let mut i: usize = 0;
        while i < n
            invariant
                i <= n,
                self.wf(),
                n == ids@.len(),
                *self == (ContextState { repaint: self.repaint, ..*old(self) }),
                self.repaint.spec_frame_nrs() == old(self).repaint.spec_frame_nrs(),
                forall|j: int|
                    0 <= j < i ==> crate::repaint::spec_count(
                        self.repaint.spec_requests(),
                        #[trigger] ids@[j],
                    ) == 2,
            decreases n - i,
        {
            self.repaint.request_repaint_settle(ids[i]);
            proof {
                assert forall|j: int|
                    0 <= j < i + 1 implies crate::repaint::spec_count(
                    self.repaint.spec_requests(),
                    #[trigger] ids@[j],
                ) == 2 by {
                    if ids@[j] == ids@[i as int] {
                    } else {
                    }
                };
            }
            i += 1;
        }
        self.repaint.request_repaint_settle(0);
        self.memory.override_pixels_per_point_milli = Some(ppp);
        proof {
            assert forall|j: int|
                0 <= j < old(self).viewports.view_records().len() implies crate::repaint::spec_count(
                self.repaint.spec_requests(),
                #[trigger] old(self).viewports.view_records()[j].pair.this.0,
            ) == 2 by {
                assert(ids@[j] == old(self).viewports.view_records()[j].pair.this.0);
                if ids@[j] == 0 {
                }
            };
        }
    }

    /// The pair registered under a viewport builder key.
    pub fn viewport_id_pair(&self, key: Id) -> (r: Option<ViewportIdPair>)
        requires
            self.wf(),
        ensures
            match r {
                Some(p) => exists|i: int|
                    0 <= i < self.viewports.view_records().len() && #[trigger] self.viewports.view_records()[i].builder.id == key
                        && self.viewports.view_records()[i].pair == p,
                None => forall|j: int|
                    0 <= j < self.viewports.view_records().len()
                        ==> #[trigger] self.viewports.view_records()[j].builder.id != key,
            },
    {
        self.viewports.pair_of(key)
    }

    /// Register (or refresh) a nested surface spawned by the current one.
    ///
    /// A new builder key receives a used record under a fresh handle and
    /// the counter advances; an existing key has its record refreshed in
    /// place (descriptor, parent and render replaced, marked used, its
    /// handle kept). With embedding forced, nothing is registered and the
    /// caller must run the surface's widget code inline; `render` is the
    /// host-side handle of the surface's render callback.
    pub fn create_viewport(&mut self, builder: crate::viewport::ViewportBuilder, render: Option<
        u64,
    >) -> (r: ViewportDecision)
        requires
            old(self).wf(),
        ensures
            final(self).wf(),
            old(self).force_embedding ==> r == ViewportDecision::Embedded && *final(self) == *old(self),
            !old(self).force_embedding ==> {
                &&& *final(self) == (ContextState {
                    viewports: final(self).viewports,
                    viewport_counter: final(self).viewport_counter,
                    ..*old(self)
                })
                &&& (r matches ViewportDecision::Registered(pair)
                    && crate::viewport::spec_ensure_effect(
                    old(self).viewports.view_records(),
                    old(self).viewport_counter,
                    builder,
                    old(self).spec_viewport_id(),
                    render,
                    final(self).viewports.view_records(),
                    final(self).viewport_counter,
                    pair,
                ))
            },
    {
        if self.force_embedding {
            return ViewportDecision::Embedded;
        }
        let parent = self.viewport_id();
        let pair = self.viewports.ensure(builder, parent, render, &mut self.viewport_counter);
        ViewportDecision::Registered(pair)
    }

    /// Register (or refresh) a nested surface to be rendered synchronously
    /// inside the current frame, exactly as `create_viewport` does; its
    /// render callback is host-driven, so none is stored.
    pub fn create_viewport_sync(&mut self, builder: crate::viewport::ViewportBuilder) -> (r:
        ViewportDecision)
        requires
            old(self).wf(),
        ensures
            final(self).wf(),
            old(self).force_embedding ==> r == ViewportDecision::Embedded && *final(self) == *old(self),
            !old(self).force_embedding ==> {
                &&& *final(self) == (ContextState {
                    viewports: final(self).viewports,
                    viewport_counter: final(self).viewport_counter,
                    ..*old(self)
                })
                &&& (r matches ViewportDecision::Registered(pair)
                    && crate::viewport::spec_ensure_effect(
                    old(self).viewports.view_records(),
                    old(self).viewport_counter,
                    builder,
                    old(self).spec_viewport_id(),
                    None,
                    final(self).viewports.view_records(),
                    final(self).viewport_counter,
                    pair,
                ))
            },
    {
        if self.force_embedding {
            return ViewportDecision::Embedded;
        }
        let parent = self.viewport_id();
        let pair = self.viewports.ensure(builder, parent, None, &mut self.viewport_counter);
        ViewportDecision::Registered(pair)
    }
}

impl ContextState {
    /// The effective raw density for a surface beginning a frame: a
    /// pending override that differs from the surface's last-known
    /// density replaces what the platform reported.
    pub open spec fn spec_effective_raw_ppp(self, key: u64, raw_ppp: Option<u32>) -> Option<u32> {
        match self.memory.override_pixels_per_point_milli {
            Some(o) => if !self.input@.contains_key(key) || self.input@[key].pixels_per_point_milli
                != o {
                Some(o)
            } else {
                raw_ppp
            },
            None => raw_ppp,
        }
    }

    /// The effective raw screen rectangle for a surface beginning a frame:
    /// when a differing density override is reconciled for an already-known
    /// surface, the stored rectangle is rescaled by the density ratio so
    /// the content does not visibly jump.
    pub open spec fn spec_effective_raw_rect(self, key: u64, raw_rect: Option<Rect>) -> Option<
        Rect,
    > {
        match self.memory.override_pixels_per_point_milli {
            Some(o) => if self.input@.contains_key(key) && self.input@[key].pixels_per_point_milli
                != o {
                Some(
                    spec_rescale_rect(
                        self.input@[key].screen_rect,
                        self.input@[key].pixels_per_point_milli as int,
                        o as int,
                    ),
                )
            } else {
                raw_rect
            },
            None => raw_rect,
        }
    }

    /// Begin a frame of the surface `pair.this`, pausing the surface whose
    /// frame was current.
    ///
    /// The paused surface's geometry is stashed; the beginning surface's
    /// previous-frame geometry is restored; one owed repaint is consumed;
    /// raw input (with any density override reconciled) is folded into the
    /// surface's input model; the frame scratch state is reset; the text
    /// subsystem is configured; and the background layer is seeded with
    /// the whole screen so empty areas stay clickable.
    #[verifier::rlimit(60)]
    pub fn begin_frame_mut(&mut self, raw: RawInput, pair: ViewportIdPair)
        requires
            old(self).wf(),
            raw.wf(),
            forall|i: int|
                0 <= i < old(self).frame_stack@.len() ==> old(self).frame_stack@[i].this
                    != pair.this,
        ensures
            final(self).wf(),
            final(self).frame_stack@ == old(self).frame_stack@.push(pair),
            // Pausing: the previous top's geometry is stashed under its handle.
            old(self).frame_stack@.len() > 0 ==> {
                let pt = old(self).frame_stack@.last().this.0;
                &&& final(self).stash_this@ == old(self).stash_this@.insert(
                    pt,
                    old(self).layer_rects_this_frame,
                )
                &&& final(self).stash_prev@ == old(self).stash_prev@.insert(
                    pt,
                    old(self).layer_rects_prev_frame,
                ).remove(pair.this.0)
            },
            old(self).frame_stack@.len() == 0 ==> {
                &&& final(self).stash_this@ == old(self).stash_this@
                &&& final(self).stash_prev@ == old(self).stash_prev@.remove(pair.this.0)
            },
            // The new frame starts with empty current geometry and the
            // surface's stashed previous-frame geometry, if any.
            forall|l: LayerId| final(self).layer_rects_this_frame.list_of(l) == Seq::<
                WidgetRect,
            >::empty(),
            ({
                let sp = if old(self).frame_stack@.len() > 0 {
                    old(self).stash_prev@.insert(
                        old(self).frame_stack@.last().this.0,
                        old(self).layer_rects_prev_frame,
                    )
                } else {
                    old(self).stash_prev@
                };
                if sp.contains_key(pair.this.0) {
                    final(self).layer_rects_prev_frame == sp[pair.this.0]
                } else {
                    forall|l: LayerId| final(self).layer_rects_prev_frame.list_of(l) == Seq::<
                        WidgetRect,
                    >::empty()
                }
            }),
            // Output exists for the surface; nothing else in it changed.
            final(self).output@.contains_key(pair.this.0),
            old(self).output@.contains_key(pair.this.0) ==> final(self).output@ == old(self).output@,
            !old(self).output@.contains_key(pair.this.0) ==> {
                &&& final(self).output@ == old(self).output@.insert(
                    pair.this.0,
                    final(self).output@[pair.this.0],
                )
                &&& final(self).output@[pair.this.0].copied_text@ == Seq::<char>::empty()
                &&& final(self).output@[pair.this.0].open_url is None
                &&& final(self).output@[pair.this.0].cursor_icon == CursorIcon::Default
            },
            // One owed repaint is consumed; a further owed one re-issues.
            final(self).repaint.spec_requests() == crate::repaint::spec_after_start(
                old(self).repaint.spec_requests(),
                pair.this.0,
            ),
            final(self).repaint.spec_frame_nrs() == old(self).repaint.spec_frame_nrs(),
            final(self).repaint.spec_requested_last(pair.this.0) == (crate::repaint::spec_count(
                old(self).repaint.spec_requests(),
                pair.this.0,
            ) > 0),
            final(self).repaint.spec_callback_registered() == old(self).repaint.spec_callback_registered(),
            // Raw input, with the density override reconciled, is folded
            // into the surface's input model.
            final(self).input@.contains_key(pair.this.0),
            final(self).input@ == old(self).input@.insert(
                pair.this.0,
                final(self).input@[pair.this.0],
            ),
            ({
                let key = pair.this.0;
                let eff_ppp = old(self).spec_effective_raw_ppp(key, raw.pixels_per_point_milli);
                let eff_rect = old(self).spec_effective_raw_rect(key, raw.screen_rect);
                let ni = final(self).input@[key];
                if old(self).input@.contains_key(key) {
                    crate::input::spec_input_step_parts(
                        old(self).input@[key].screen_rect,
                        old(self).input@[key].pixels_per_point_milli,
                        old(self).input@[key].pointer.down,
                        old(self).input@[key].pointer.latest_pos,
                        old(self).input@[key].pointer.interact_pos,
                        eff_rect,
                        eff_ppp,
                        raw.max_texture_side,
                        raw.events@,
                        raw.focused,
                        ni,
                    )
                } else {
                    crate::input::spec_input_step_parts(
                        InputState::spec_default_rect(),
                        1000,
                        crate::input::ButtonFlags::spec_none(),
                        None,
                        None,
                        eff_rect,
                        eff_ppp,
                        raw.max_texture_side,
                        raw.events@,
                        raw.focused,
                        ni,
                    )
                }
            }),
            // Capture bookkeeping for the new frame.
            final(self).memory.interaction.click_interest == false,
            final(self).memory.interaction.drag_interest == false,
            ({
                let prev_any_down = old(self).input@.contains_key(pair.this.0) && old(self).input@[pair.this.0].pointer.down.spec_any();
                &&& final(self).memory.interaction.click_id == if prev_any_down {
                    old(self).memory.interaction.click_id
                } else {
                    None
                }
                &&& final(self).memory.interaction.drag_id == if prev_any_down {
                    old(self).memory.interaction.drag_id
                } else {
                    None
                }
            }),
            final(self).memory.focus == old(self).memory.focus,
            final(self).memory.options == old(self).memory.options,
            final(self).memory.override_pixels_per_point_milli == old(self).memory.override_pixels_per_point_milli,
            // The frame scratch state is reset.
            final(self).frame_state@.contains_key(pair.this.0),
            final(self).frame_state@ == old(self).frame_state@.insert(
                pair.this.0,
                final(self).frame_state@[pair.this.0],
            ),
            crate::frame_state::spec_frame_reset(
                if old(self).frame_state@.contains_key(pair.this.0) {
                    old(self).frame_state@[pair.this.0].highlight_next_frame@
                } else {
                    Seq::empty()
                },
                final(self).input@[pair.this.0].screen_rect,
                final(self).frame_state@[pair.this.0],
            ),
            // The text subsystem is configured for the resolved density.
            final(self).fonts == Some(
                FontsInfo {
                    pixels_per_point_milli: final(self).input@[pair.this.0].pixels_per_point_milli,
                    max_texture_side: final(self).input@[pair.this.0].max_texture_side,
                },
            ),
            // The background layer covers the whole screen.
            final(self).memory.areas.spec_area(LayerId::spec_background()) == Some(
                crate::memory::AreaEntry {
                    layer: LayerId::spec_background(),
                    rect: final(self).input@[pair.this.0].screen_rect,
                    interactable: true,
                },
            ),
            forall|l2: LayerId|
                l2 != LayerId::spec_background() ==> final(self).memory.areas.spec_area(l2) == old(self).memory.areas.spec_area(l2),
            final(self).memory.areas.spec_order() == if old(self).memory.areas.spec_order().contains(LayerId::spec_background()) {
                old(self).memory.areas.spec_order()
            } else {
                old(self).memory.areas.spec_order().push(LayerId::spec_background())
            },
            // Untouched parts.
            final(self).os == old(self).os,
            final(self).graphics == old(self).graphics,
            final(self).viewports == old(self).viewports,
            final(self).viewport_commands == old(self).viewport_commands,
            final(self).viewport_counter == old(self).viewport_counter,
            final(self).is_desktop == old(self).is_desktop,
            final(self).force_embedding == old(self).force_embedding,
            final(self).next_texture_id == old(self).next_texture_id,
            final(self).textures == old(self).textures,
            final(self).pending_texture_set == old(self).pending_texture_set,
            final(self).pending_texture_free == old(self).pending_texture_free,
    {
        let key = pair.this.0;
        // Pause the surface whose frame was current.
        if self.frame_stack.len() > 0 {
            let pt = self.frame_stack[self.frame_stack.len() - 1].this.0;
            let t = self.layer_rects_this_frame.take();
            self.stash_this.insert(pt, t);
            let p = self.layer_rects_prev_frame.take();
            self.stash_prev.insert(pt, p);
        } else {
            self.layer_rects_this_frame = LayerStore::new();
        }
        self.frame_stack.push(pair);
        // Make sure the surface has an output slot.
        if !self.output.contains_key(key) {
            self.output.insert(key, PlatformOutput::empty());
        }
        // Consume one owed repaint.
        self.repaint.start_frame(key);
        // Reconcile a pending density override.
        let mut raw = raw;
        match self.memory.override_pixels_per_point_milli {
            Some(o) => {
                let differs = match self.input.get(key) {
                    Some(i) => i.pixels_per_point_milli != o,
                    None => true,
                };
                if differs {
                    raw.pixels_per_point_milli = Some(o);
                    match self.input.get(key) {
                        Some(i) => {
                            raw.screen_rect = Some(
                                rescale_rect(i.screen_rect, i.pixels_per_point_milli, o),
                            );
                        },
                        None => {},
                    }
                }
            },
            None => {},
        }
        // Restore this surface's previous-frame geometry.
        match self.stash_prev.remove(key) {
            Some(t) => {
                self.layer_rects_prev_frame = t;
            },
            None => {
                self.layer_rects_prev_frame = LayerStore::new();
            },
        }
        // Capture bookkeeping.
        let prev_any_down = match self.input.get(key) {
            Some(i) => i.pointer.any_down(),
            None => false,
        };
        self.memory.begin_frame(prev_any_down);
        // Fold the raw input into the surface's input model.
        let prev_input = match self.input.remove(key) {
            Some(i) => i,
            None => InputState::default_state(),
        };
        let ni = prev_input.begin_frame(raw);
        // Reset the frame scratch state.
        let mut fs = match self.frame_state.remove(key) {
            Some(f) => f,
            None => FrameState::empty(),
        };
        fs.begin_frame(&ni);
        self.frame_state.insert(key, fs);
        // Configure the text subsystem for the resolved density.
        self.fonts = Some(
            FontsInfo {
                pixels_per_point_milli: ni.pixels_per_point_milli,
                max_texture_side: ni.max_texture_side,
            },
        );
        // Seed the background layer with the whole screen.
        self.memory.areas.set_state(LayerId::background(), ni.screen_rect, true);
        self.input.insert(key, ni);
        proof {
            assert forall|i: int|
                0 <= i < self.frame_stack@.len() - 1 implies #[trigger] self.stash_this@.contains_key(
                self.frame_stack@[i].this.0,
            ) && self.stash_prev@.contains_key(self.frame_stack@[i].this.0) by {
                if i < old(self).frame_stack@.len() - 1 {
                    assert(old(self).frame_stack@[i].this.0 != pair.this.0);
                }
            };
            assert forall|i: int|
                0 <= i < self.frame_stack@.len() implies #[trigger] self.input@.contains_key(
                self.frame_stack@[i].this.0,
            ) by {
                if i < old(self).frame_stack@.len() {
                }
            };
        }
    }
}

impl ContextState {
    /// The surfaces reachable after this frame: the root plus every
    /// registered viewport record.
    pub open spec fn spec_reachable(self) -> Seq<u64> {
        seq![0u64] + Seq::new(
            self.viewports.view_records().len(),
            |i: int| self.viewports.view_records()[i].pair.this.0,
        )
    }

    /// The reachable surfaces as a vector: the root, then each registered
    /// record's handle in registration order.
    #[verifier::loop_isolation(false)]
    fn reachable_surfaces(&self) -> (r: Vec<u64>)
        requires
            self.wf(),
        ensures
            r@ == self.spec_reachable(),
            r@.contains(0u64),
    {
        let mut out: Vec<u64> = Vec::new();
        out.push(0);
        let mut ids = self.viewports.surface_ids();
        out.append(&mut ids);
        proof {
            assert(out@ =~= self.spec_reachable());
            assert(out@[0] == 0u64);
        }
        out
    }

    /// End the current frame and hand its results to the caller.
    ///
    /// The frame's geometry becomes the surface's previous-frame snapshot;
    /// input that wants another frame requests one; focus of unused
    /// widgets is dropped; texture and platform output are drained; paint
    /// commands are drained in layer z-order; the viewport registry is
    /// swept; the frame stack pops, either resuming the paused parent or,
    /// when the outermost frame ended, purging state of unreachable
    /// surfaces; and the repaint scheduler advances. Cross-surface
    /// commands are released only for the outermost frame.
    #[verifier::rlimit(100)]
    pub fn end_frame(&mut self) -> (out: crate::output::FullOutput)
        requires
            old(self).wf(),
            old(self).frame_stack@.len() > 0,
        ensures
            final(self).wf(),
            // The stack pops; matched begin/end pairs therefore restore it.
            final(self).frame_stack@ == old(self).frame_stack@.drop_last(),
            // This frame's geometry becomes the previous-frame snapshot.
            ({
                let cur = old(self).frame_stack@.last().this.0;
                let sp1 = old(self).stash_prev@.insert(cur, old(self).layer_rects_this_frame);
                if old(self).frame_stack@.len() > 1 {
                    let nt = old(self).frame_stack@[old(self).frame_stack@.len() - 2].this.0;
                    &&& final(self).layer_rects_this_frame == old(self).stash_this@[nt]
                    &&& final(self).layer_rects_prev_frame == sp1[nt]
                    &&& final(self).stash_this@ == old(self).stash_this@.remove(nt)
                    &&& final(self).stash_prev@ == sp1.remove(nt)
                } else {
                    &&& forall|k: u64| #[trigger]
                        final(self).stash_prev@.contains_key(k) <==> sp1.contains_key(k)
                            && old(self).spec_reachable().contains(k)
                    &&& forall|k: u64| #[trigger]
                        final(self).stash_prev@.contains_key(k) ==> final(self).stash_prev@[k]
                            == sp1[k]
                    &&& forall|k: u64| #[trigger]
                        final(self).stash_this@.contains_key(k) <==> old(self).stash_this@.contains_key(k) && old(self).spec_reachable().contains(k)
                    &&& forall|k: u64| #[trigger]
                        final(self).stash_this@.contains_key(k) ==> final(self).stash_this@[k]
                            == old(self).stash_this@[k]
                }
            }),
            // Input that wants another frame requests one before counters
            // advance.
            ({
                let cur = old(self).frame_stack@.last().this.0;
                let wants = old(self).input@.contains_key(cur)
                    && old(self).input@[cur].spec_wants_repaint();
                let mid = if wants {
                    crate::repaint::spec_after_request(old(self).repaint.spec_requests(), cur)
                } else {
                    old(self).repaint.spec_requests()
                };
                &&& forall|k: u64| #[trigger]
                    final(self).repaint.spec_requests().contains_key(k) <==> mid.contains_key(k)
                        && old(self).spec_reachable().contains(k)
                &&& forall|k: u64| #[trigger]
                    final(self).repaint.spec_requests().contains_key(k) ==> final(self).repaint.spec_requests()[k] == mid[k]
            }),
            // The ended surface's frame number advances (while it stays
            // reachable; an orphaned surface's counters are pruned).
            old(self).spec_reachable().contains(old(self).frame_stack@.last().this.0)
                ==> crate::repaint::spec_count(
                final(self).repaint.spec_frame_nrs(),
                old(self).frame_stack@.last().this.0,
            ) == (if crate::repaint::spec_count(
                old(self).repaint.spec_frame_nrs(),
                old(self).frame_stack@.last().this.0,
            ) < u64::MAX {
                crate::repaint::spec_count(
                    old(self).repaint.spec_frame_nrs(),
                    old(self).frame_stack@.last().this.0,
                ) + 1
            } else {
                0
            }),
            final(self).repaint.spec_callback_registered() == old(self).repaint.spec_callback_registered(),
            // Focus garbage collection: a focused widget not used this
            // frame loses focus.
            final(self).memory.focus == (match old(self).memory.focus {
                Some(f) => if old(self).frame_state@.contains_key(
                    old(self).frame_stack@.last().this.0,
                ) && old(self).frame_state@[old(self).frame_stack@.last().this.0].used_ids@.contains_key(
                    f.0,
                ) {
                    Some(f)
                } else {
                    None
                },
                None => None,
            }),
            final(self).memory.interaction == old(self).memory.interaction,
            final(self).memory.areas == old(self).memory.areas,
            final(self).memory.override_pixels_per_point_milli == old(self).memory.override_pixels_per_point_milli,
            final(self).memory.options == old(self).memory.options,
            // Texture changes are drained.
            out.textures_delta.set@ == old(self).pending_texture_set@,
            out.textures_delta.free@ == old(self).pending_texture_free@,
            final(self).pending_texture_set@ == Seq::<TextureRecord>::empty(),
            final(self).pending_texture_free@ == Seq::<u64>::empty(),
            final(self).textures == old(self).textures,
            final(self).next_texture_id == old(self).next_texture_id,
            // Platform output is drained.
            old(self).output@.contains_key(old(self).frame_stack@.last().this.0)
                ==> out.platform_output == old(self).output@[old(self).frame_stack@.last().this.0],
            // Paint commands are drained in layer z-order.
            out.shapes@ == (if old(self).graphics@.contains_key(
                old(self).frame_stack@.last().this.0,
            ) {
                old(self).graphics@[old(self).frame_stack@.last().this.0].drained_upto(
                    old(self).memory.areas.spec_order(),
                    old(self).memory.areas.spec_order().len() as int,
                )
            } else {
                Seq::<ClippedShape>::empty()
            }),
            // The registry is swept; exactly the surviving records are
            // reported to the host.
            final(self).viewports.view_records() == crate::viewport::spec_sweep_upto(
                old(self).viewports.view_records(),
                old(self).frame_stack@.last().this,
                old(self).spec_reachable(),
                old(self).viewports.view_records().len() as int,
            ),
            out.viewports@.len() == final(self).viewports.view_records().len(),
            forall|i: int|
                0 <= i < out.viewports@.len() ==> #[trigger] crate::viewport::spec_output_matches(
                    out.viewports@[i],
                    final(self).viewports.view_records()[i],
                ),
            // Cross-surface commands are released only for the outermost
            // frame.
            old(self).frame_stack@.len() > 1 ==> out.viewport_commands@ == Seq::<
                (ViewportId, ViewportCommand),
            >::empty() && final(self).viewport_commands == old(self).viewport_commands,
            old(self).frame_stack@.len() == 1 ==> out.viewport_commands@ == old(self).viewport_commands@ && final(self).viewport_commands@ == Seq::<
                (ViewportId, ViewportCommand),
            >::empty(),
            // Per-surface state of unreachable surfaces is purged only
            // when the outermost frame ends.
            old(self).frame_stack@.len() > 1 ==> final(self).input@ == old(self).input@,
            old(self).frame_stack@.len() == 1 ==> {
                &&& forall|k: u64| #[trigger]
                    final(self).input@.contains_key(k) <==> old(self).input@.contains_key(k)
                        && old(self).spec_reachable().contains(k)
                &&& forall|k: u64| #[trigger]
                    final(self).input@.contains_key(k) ==> final(self).input@[k] == old(
                        self,
                    ).input@[k]
                &&& forall|k: u64| #[trigger]
                    final(self).output@.contains_key(k) <==> (old(self).output@.contains_key(k)
                        && k != old(self).frame_stack@.last().this.0) && old(
                        self,
                    ).spec_reachable().contains(k)
                &&& forall|k: u64| #[trigger]
                    final(self).output@.contains_key(k) ==> final(self).output@[k] == old(
                        self,
                    ).output@[k]
                &&& forall|k: u64| #[trigger]
                    final(self).frame_state@.contains_key(k) <==> old(
                        self,
                    ).frame_state@.contains_key(k) && old(self).spec_reachable().contains(k)
                &&& forall|k: u64| #[trigger]
                    final(self).frame_state@.contains_key(k) ==> final(self).frame_state@[k]
                        == old(self).frame_state@[k]
                &&& forall|k: u64| #[trigger]
                    final(self).graphics@.contains_key(k) <==> old(self).graphics@.contains_key(
                        k,
                    ) && old(self).spec_reachable().contains(k)
                &&& forall|k: u64| #[trigger]
                    final(self).graphics@.contains_key(k) && k != old(
                        self,
                    ).frame_stack@.last().this.0 ==> final(self).graphics@[k] == old(
                        self,
                    ).graphics@[k]
            },
            // Untouched parts.
            final(self).fonts == old(self).fonts,
            final(self).os == old(self).os,
            final(self).is_desktop == old(self).is_desktop,
            final(self).force_embedding == old(self).force_embedding,
            final(self).viewport_counter == old(self).viewport_counter,
    {
        let cur = self.viewport_id();
        let key = cur.0;
        // This frame's geometry becomes the previous-frame snapshot.
        let t = self.layer_rects_this_frame.take();
        self.stash_prev.insert(key, t);
        // The surfaces that remain reachable.
        let reachable = self.reachable_surfaces();
        // Input that wants another frame requests one.
        let wants = match self.input.get(key) {
            Some(i) => i.wants_repaint(),
            None => false,
        };
        if wants {
            self.repaint.request_repaint(key);
        }
        // Focus garbage collection.
        let fs_for_focus = match self.frame_state.get(key) {
            Some(f) => Some(f),
            None => None,
        };
        match fs_for_focus {
            Some(f) => {
                let clear = match self.memory.focus {
                    Some(fo) => !f.used_ids.contains_key(fo.0),
                    None => false,
                };
                if clear {
                    self.memory.focus = None;
                }
            },
            None => {
                if self.memory.focus.is_some() {
                    self.memory.focus = None;
                }
            },
        }
        // Drain texture changes.
        let mut tex_set: Vec<TextureRecord> = Vec::new();
        core::mem::swap(&mut tex_set, &mut self.pending_texture_set);
        let mut tex_free: Vec<u64> = Vec::new();
        core::mem::swap(&mut tex_free, &mut self.pending_texture_free);
        let textures_delta = crate::output::TexturesDelta { set: tex_set, free: tex_free };
        // Drain platform output.
        let platform_output = match self.output.remove(key) {
            Some(o) => o,
            None => PlatformOutput::empty(),
        };
        // Drain paint commands in layer z-order.
        proof {
            crate::memory::lemma_areas_order_distinct(self.memory.areas);
        }
        let shapes = match self.graphics.remove(key) {
            Some(mut g) => {
                let s = g.drain_in_order(self.memory.areas.order());
                self.graphics.insert(key, g);
                s
            },
            None => Vec::new(),
        };
        // Sweep the viewport registry.
        let viewports_out = self.viewports.sweep(cur, &reachable);
        // Pop the stack; resume the parent or tear down.
        let _ = self.frame_stack.pop();
        let is_last = self.frame_stack.len() == 0;
        if !is_last {
            let nt = self.frame_stack[self.frame_stack.len() - 1].this.0;
            proof {
                assert(old(self).frame_stack@[old(self).frame_stack@.len() - 2].this.0 == nt);
                assert(old(self).frame_stack@[old(self).frame_stack@.len() - 2].this
                    != old(self).frame_stack@.last().this);
            }
            let rt = self.stash_this.remove(nt);
            match rt {
                Some(v) => {
                    self.layer_rects_this_frame = v;
                },
                None => {
                    proof {
                        assert(false);
                    }
                },
            }
            let rp = self.stash_prev.remove(nt);
            match rp {
                Some(v) => {
                    self.layer_rects_prev_frame = v;
                },
                None => {
                    proof {
                        assert(false);
                    }
                },
            }
            proof {
                assert forall|i: int|
                    0 <= i < self.frame_stack@.len() - 1 implies #[trigger] self.stash_this@.contains_key(
                    self.frame_stack@[i].this.0,
                ) && self.stash_prev@.contains_key(self.frame_stack@[i].this.0) by {
                    assert(self.frame_stack@[i] == old(self).frame_stack@[i]);
                    assert(old(self).stash_this@.contains_key(old(self).frame_stack@[i].this.0));
                    assert(old(self).stash_prev@.contains_key(old(self).frame_stack@[i].this.0));
                    assert(old(self).frame_stack@[i].this != old(self).frame_stack@[old(
                        self,
                    ).frame_stack@.len() - 2].this);
                    assert(old(self).frame_stack@[i].this != old(self).frame_stack@[old(
                        self,
                    ).frame_stack@.len() - 1].this);
                };
                assert forall|i: int|
                    0 <= i < self.frame_stack@.len() implies #[trigger] self.input@.contains_key(
                    self.frame_stack@[i].this.0,
                ) by {
                    assert(self.frame_stack@[i] == old(self).frame_stack@[i]);
                };
            }
        } else {
            self.input.retain_keys(&reachable);
            self.stash_this.retain_keys(&reachable);
            self.stash_prev.retain_keys(&reachable);
            self.output.retain_keys(&reachable);
            self.frame_state.retain_keys(&reachable);
            self.graphics.retain_keys(&reachable);
        }
        // Advance the repaint scheduler and prune stale counters.
        self.repaint.end_frame(key, &reachable);
        // Release cross-surface commands only for the outermost frame.
        let viewport_commands: Vec<(ViewportId, ViewportCommand)> = if is_last {
            let mut cmds: Vec<(ViewportId, ViewportCommand)> = Vec::new();
            core::mem::swap(&mut cmds, &mut self.viewport_commands);
            cmds
        } else {
            Vec::new()
        };
        proof {
            assert(final(self).frame_stack@ =~= old(self).frame_stack@.drop_last());
        }
        crate::output::FullOutput {
            platform_output,
            textures_delta,
            shapes,
            viewports: viewports_out,
            viewport_commands,
        }
    }
}

/// How far apart two uses of one widget id may lie before they are
/// flagged: squared distance of the doubled rectangle centers, so a
/// center distance of four logical units is the threshold.
pub const CLASH_CENTER_DIST2_X4: i64 = 64;

/// Extra growth applied before the containment tolerance check of the
/// duplicate-id rule.
pub const CLASH_EXPAND: i64 = 0;

/// One rectangle contains the other after the tolerance expansion, so a
/// second use of the id is considered benign (a frame around a widget,
/// or a second interaction check on the same widget).
pub open spec fn spec_clash_tolerated(prev: Rect, new_rect: Rect) -> bool {
    let c = CLASH_EXPAND as int;
    ||| (prev.min.x - c <= new_rect.min.x && new_rect.max.x <= prev.max.x + c && prev.min.y - c
        <= new_rect.min.y && new_rect.max.y <= prev.max.y + c)
    ||| (new_rect.min.x - c <= prev.min.x && prev.max.x <= new_rect.max.x + c && new_rect.min.y - c
        <= prev.min.y && prev.max.y <= new_rect.max.y + c)
}

/// The centers of the two rectangles lie within the flagging tolerance.
pub open spec fn spec_clash_centers_close(prev: Rect, new_rect: Rect) -> bool {
    let dx = (prev.min.x + prev.max.x) - (new_rect.min.x + new_rect.max.x);
    let dy = (prev.min.y + prev.max.y) - (new_rect.min.y + new_rect.max.y);
    dx * dx + dy * dy < CLASH_CENTER_DIST2_X4
}

/// Whether a second use of an id at `new_rect`, after a first use at
/// `prev`, is a usage error worth two diagnostic flags: the rectangles
/// neither contain one another (after the tolerance expansion) nor have
/// nearby centers.
pub open spec fn spec_clash_flagged(prev: Option<Rect>, new_rect: Rect, warn: bool) -> bool {
    match prev {
        Some(p) => warn && !spec_clash_tolerated(p, new_rect) && !spec_clash_centers_close(
            p,
            new_rect,
        ),
        None => false,
    }
}

impl ContextState {
    /// The topmost layer under a position, by the areas' z-order.
    pub fn layer_id_at(&self, pos: Pos) -> (r: Option<LayerId>)
        requires
            self.wf(),
        ensures
            r == self.memory.areas.spec_layer_at_upto(
                pos,
                self.memory.areas.spec_order().len() as int,
            ),
    {
        self.memory.areas.layer_id_at(pos)
    }

    /// Raw hover of a hit area: positive, under the pointer, and its layer
    /// topmost there.
    pub open spec fn spec_rect_contains_pointer(self, layer_id: LayerId, rect: Rect) -> bool {
        rect.spec_is_positive() && match self.spec_interact_pos_of(self.spec_viewport_id()) {
            Some(p) => rect.spec_contains(p) && self.memory.areas.spec_layer_at_upto(
                p,
                self.memory.areas.spec_order().len() as int,
            ) == Some(layer_id),
            None => false,
        }
    }

    pub fn rect_contains_pointer(&self, layer_id: LayerId, rect: Rect) -> (r: bool)
        requires
            self.wf(),
        ensures
            r == self.spec_rect_contains_pointer(layer_id, rect),
    {
        if !rect.is_positive() {
            return false;
        }
        match self.pointer_interact_pos() {
            Some(p) => rect.contains(p) && match self.layer_id_at(p) {
                Some(l) => l == layer_id,
                None => false,
            },
            None => false,
        }
    }

    /// Record a use of `id` at `new_rect` and flag a duplicate use at a
    /// materially different place.
    ///
    /// Both the first and the second use are flagged, so diagnostics can
    /// be painted at both places; within tolerance, or when one rectangle
    /// contains the other, nothing is flagged.
    pub fn check_for_id_clash(&mut self, id: Id, new_rect: Rect)
        requires
            old(self).wf(),
            new_rect.in_bounds(),
        ensures
            final(self).wf(),
            *final(self) == (ContextState { frame_state: final(self).frame_state, ..*old(self) }),
            final(self).frame_state@.contains_key(old(self).spec_viewport_id().0),
            final(self).frame_state@ == old(self).frame_state@.insert(
                old(self).spec_viewport_id().0,
                final(self).frame_state@[old(self).spec_viewport_id().0],
            ),
            ({
                let key = old(self).spec_viewport_id().0;
                let prev_ids = if old(self).frame_state@.contains_key(key) {
                    old(self).frame_state@[key].used_ids@
                } else {
                    Map::<u64, Rect>::empty()
                };
                let prev_warnings = if old(self).frame_state@.contains_key(key) {
                    old(self).frame_state@[key].clash_warnings@
                } else {
                    Seq::<ClashWarning>::empty()
                };
                let prev = if prev_ids.contains_key(id.0) {
                    Some(prev_ids[id.0])
                } else {
                    None
                };
                let v = final(self).frame_state@[key];
                &&& v.used_ids@ == prev_ids.insert(id.0, new_rect)
                &&& v.clash_warnings@ == if spec_clash_flagged(
                    prev,
                    new_rect,
                    old(self).memory.options.warn_on_id_clash,
                ) {
                    prev_warnings.push(ClashWarning { id, rect: prev_ids[id.0] }).push(
                        ClashWarning { id, rect: new_rect },
                    )
                } else {
                    prev_warnings
                }
                &&& (old(self).frame_state@.contains_key(key) ==> v.highlight_this_frame == old(
                    self,
                ).frame_state@[key].highlight_this_frame)
            }),
    {
        let key = self.viewport_id().0;
        let mut fs = match self.frame_state.remove(key) {
            Some(f) => f,
            None => FrameState::empty(),
        };
        let prev = fs.used_ids.remove(id.0);
        fs.used_ids.insert(id.0, new_rect);
        proof {
            assert(fs.used_ids@ =~= (if old(self).frame_state@.contains_key(key) {
                old(self).frame_state@[key].used_ids@
            } else {
                Map::<u64, Rect>::empty()
            }).insert(id.0, new_rect));
        }
        let warn = self.memory.options.warn_on_id_clash;
        match prev {
            Some(prev_rect) => {
                let pe = prev_rect.expand(CLASH_EXPAND);
                let ne = new_rect.expand(CLASH_EXPAND);
                let tolerated = pe.contains_rect(&new_rect) || ne.contains_rect(&prev_rect);
                let dx = (prev_rect.min.x + prev_rect.max.x) - (new_rect.min.x + new_rect.max.x);
                let dy = (prev_rect.min.y + prev_rect.max.y) - (new_rect.min.y + new_rect.max.y);
                proof {
                    assert((dx as int) * (dx as int) <= 18446744073709551616int && (dx as int) * (
                    dx as int) >= 0) by (nonlinear_arith)
                        requires
                            -4294967296 <= dx as int <= 4294967296,
                    ;
                    assert((dy as int) * (dy as int) <= 18446744073709551616int && (dy as int) * (
                    dy as int) >= 0) by (nonlinear_arith)
                        requires
                            -4294967296 <= dy as int <= 4294967296,
                    ;
                }
                let d2 = (dx as i128) * (dx as i128) + (dy as i128) * (dy as i128);
                let close = d2 < CLASH_CENTER_DIST2_X4 as i128;
                if warn && !tolerated && !close {
                    fs.clash_warnings.push(ClashWarning { id, rect: prev_rect });
                    fs.clash_warnings.push(ClashWarning { id, rect: new_rect });
                }
            },
            None => {},
        }
        self.frame_state.insert(key, fs);
    }
}

/// A release this frame completed a click whose interaction point lies
/// outside the widget's rectangle.
pub open spec fn spec_clicked_elsewhere(inp: InputState, rect: Rect) -> bool {
    inp.pointer.spec_any_click() && match inp.pointer.interact_pos {
        Some(p) => !rect.spec_contains(p),
        None => false,
    }
}

/// The interaction state the per-event machine starts from: the global
/// captures, drag/press ownership echoed for this widget (only when it
/// senses clicks or drags), and a keyboard activation pre-loaded as a
/// primary click.
pub open spec fn spec_interact_init(
    m: crate::memory::Interaction,
    sense: Sense,
    id: Id,
    keyboard_activate: bool,
) -> crate::arbiter::InteractFold {
    crate::arbiter::InteractFold {
        click_id: m.click_id,
        drag_id: m.drag_id,
        drag_is_window: m.drag_is_window,
        dragged: sense.spec_interactive() && m.drag_id == Some(id),
        drag_released: false,
        is_down_on: sense.spec_interactive() && (m.click_id == Some(id) || m.drag_id == Some(id)),
        clicked: crate::input::ButtonFlags::spec_none().spec_set(
            crate::input::PointerButton::Primary,
            keyboard_activate,
        ),
        double_clicked: crate::input::ButtonFlags::spec_none(),
        triple_clicked: crate::input::ButtonFlags::spec_none(),
    }
}

/// One widget's interaction resolution, given the hover verdict.
///
/// `pre` must hold an input model for its current surface; `hovered` is
/// the hover verdict before the enabled mask.
#[verifier::opaque]
pub open spec fn spec_interact_resolution(
    pre: ContextState,
    layer_id: LayerId,
    id: Id,
    rect: Rect,
    sense: Sense,
    enabled: bool,
    hovered: bool,
    post: ContextState,
    r: Response,
) -> bool {
    let key = pre.spec_viewport_id().0;
    let inp = pre.input@[key];
    let hov = hovered && enabled;
    let highlighted = pre.frame_state@.contains_key(key)
        && pre.frame_state@[key].highlight_this_frame@.contains(id);
    let base_echo = r.layer_id == layer_id && r.id == id && r.rect == rect && r.sense == sense
        && r.enabled == enabled && r.highlighted == highlighted && !r.changed;
    if !enabled || !sense.focusable || !layer_id.spec_allow_interaction() {
        // Not interested in or not allowed input: any focus is released
        // and the response reports no interaction at all.
        &&& base_echo
        &&& r.hovered == hov
        &&& r.clicked == crate::input::ButtonFlags::spec_none()
        &&& r.double_clicked == crate::input::ButtonFlags::spec_none()
        &&& r.triple_clicked == crate::input::ButtonFlags::spec_none()
        &&& !r.dragged
        &&& !r.drag_released
        &&& !r.is_pointer_button_down_on
        &&& r.interact_pointer_pos is None
        &&& post == (ContextState { memory: post.memory, ..pre })
        &&& post.memory == (Memory {
            focus: if pre.memory.focus == Some(id) {
                None
            } else {
                pre.memory.focus
            },
            ..pre.memory
        })
    } else {
        let keyboard_activate = sense.click && pre.memory.focus == Some(id)
            && (inp.keys_pressed@.contains(crate::input::Key::Space) || inp.keys_pressed@.contains(
            crate::input::Key::Enter,
        ));
        let f0 = spec_interact_init(pre.memory.interaction, sense, id, keyboard_activate);
        let f = if sense.spec_interactive() {
            crate::arbiter::spec_interact_fold(
                f0,
                inp.pointer.events@,
                inp.pointer.events@.len() as int,
                hov,
                sense,
                id,
            )
        } else {
            f0
        };
        let focus1 = if pre.memory.focus == Some(id) && spec_clicked_elsewhere(inp, rect) {
            None
        } else {
            pre.memory.focus
        };
        let focus2 = if f.dragged && focus1 != Some(id) {
            None
        } else {
            focus1
        };
        let prev_ids = if pre.frame_state@.contains_key(key) {
            pre.frame_state@[key].used_ids@
        } else {
            Map::<u64, Rect>::empty()
        };
        let prev_warnings = if pre.frame_state@.contains_key(key) {
            pre.frame_state@[key].clash_warnings@
        } else {
            Seq::<ClashWarning>::empty()
        };
        let prev = if prev_ids.contains_key(id.0) {
            Some(prev_ids[id.0])
        } else {
            None
        };
        &&& base_echo
        &&& r.hovered == if inp.pointer.down.spec_any() {
            hov && f.is_down_on
        } else {
            hov
        }
        &&& r.clicked == f.clicked
        &&& r.double_clicked == f.double_clicked
        &&& r.triple_clicked == f.triple_clicked
        &&& r.dragged == f.dragged
        &&& r.drag_released == f.drag_released
        &&& r.is_pointer_button_down_on == f.is_down_on
        &&& r.interact_pointer_pos == if f.is_down_on {
            inp.pointer.interact_pos
        } else {
            None
        }
        &&& post == (ContextState { memory: post.memory, frame_state: post.frame_state, ..pre })
        &&& post.memory == (Memory {
            interaction: post.memory.interaction,
            focus: focus2,
            ..pre.memory
        })
        &&& post.memory.interaction == (crate::memory::Interaction {
            click_id: f.click_id,
            drag_id: f.drag_id,
            drag_is_window: f.drag_is_window,
            click_interest: pre.memory.interaction.click_interest || (hov && sense.click),
            drag_interest: pre.memory.interaction.drag_interest || (hov && sense.drag),
        })
        &&& post.frame_state@.contains_key(key)
        &&& post.frame_state@ == pre.frame_state@.insert(key, post.frame_state@[key])
        &&& post.frame_state@[key].used_ids@ == prev_ids.insert(id.0, rect)
        &&& post.frame_state@[key].clash_warnings@ == if spec_clash_flagged(
            prev,
            rect,
            pre.memory.options.warn_on_id_clash,
        ) {
            prev_warnings.push(ClashWarning { id, rect: prev_ids[id.0] }).push(
                ClashWarning { id, rect },
            )
        } else {
            prev_warnings
        }
    }
}

/// Apply one widget's interaction to the global memory, given the input
/// model of the current surface: keyboard activation, the per-event
/// click/drag state machine, capture and interest updates, and the focus
/// rules.
#[verifier::rlimit(100)]
#[verifier::spinoff_prover]
fn apply_interaction(
    mem: &mut Memory,
    inp: &InputState,
    id: Id,
    rect: Rect,
    sense: Sense,
    hov: bool,
    response_in: Response,
) -> (r: Response)
    ensures
        ({
            let kb = sense.click && old(mem).focus == Some(id) && (inp.keys_pressed@.contains(
                crate::input::Key::Space,
            ) || inp.keys_pressed@.contains(crate::input::Key::Enter));
            let f0 = spec_interact_init(old(mem).interaction, sense, id, kb);
            let f = if sense.spec_interactive() {
                crate::arbiter::spec_interact_fold(
                    f0,
                    inp.pointer.events@,
                    inp.pointer.events@.len() as int,
                    hov,
                    sense,
                    id,
                )
            } else {
                f0
            };
            let focus1 = if old(mem).focus == Some(id) && spec_clicked_elsewhere(*inp, rect) {
                None
            } else {
                old(mem).focus
            };
            let focus2 = if f.dragged && focus1 != Some(id) {
                None
            } else {
                focus1
            };
            &&& r == (Response {
                clicked: f.clicked,
                double_clicked: f.double_clicked,
                triple_clicked: f.triple_clicked,
                dragged: f.dragged,
                drag_released: f.drag_released,
                is_pointer_button_down_on: f.is_down_on,
                interact_pointer_pos: if f.is_down_on {
                    inp.pointer.interact_pos
                } else {
                    None
                },
                hovered: if inp.pointer.down.spec_any() {
                    hov && f.is_down_on
                } else {
                    hov
                },
                ..response_in
            })
            &&& *final(mem) == (Memory {
                interaction: crate::memory::Interaction {
                    click_id: f.click_id,
                    drag_id: f.drag_id,
                    drag_is_window: f.drag_is_window,
                    click_interest: old(mem).interaction.click_interest || (hov && sense.click),
                    drag_interest: old(mem).interaction.drag_interest || (hov && sense.drag),
                },
                focus: focus2,
                ..*old(mem)
            })
        }),
{
    let keyboard_activate = sense.click && mem.has_focus(id) && (inp.key_pressed(
        crate::input::Key::Space,
    ) || inp.key_pressed(crate::input::Key::Enter));
    let init = crate::arbiter::InteractFold {
        click_id: mem.interaction.click_id,
        drag_id: mem.interaction.drag_id,
        drag_is_window: mem.interaction.drag_is_window,
        dragged: sense.interactive() && mem.interaction.drag_id == Some(id),
        drag_released: false,
        is_down_on: sense.interactive() && (mem.interaction.click_id == Some(id)
            || mem.interaction.drag_id == Some(id)),
        clicked: crate::input::ButtonFlags::none().with_flag(
            crate::input::PointerButton::Primary,
            keyboard_activate,
        ),
        double_clicked: crate::input::ButtonFlags::none(),
        triple_clicked: crate::input::ButtonFlags::none(),
    };
    let f = if sense.interactive() {
        crate::arbiter::run_interact_fold(init, &inp.pointer.events, hov, sense, id)
    } else {
        init
    };
    let clicked_elsewhere = inp.pointer.any_click() && (match inp.pointer.interact_pos {
        Some(p) => !rect.contains(p),
        None => false,
    });
    let any_down = inp.pointer.any_down();
    mem.interaction = crate::memory::Interaction {
        click_id: f.click_id,
        drag_id: f.drag_id,
        drag_is_window: f.drag_is_window,
        click_interest: mem.interaction.click_interest || (hov && sense.click),
        drag_interest: mem.interaction.drag_interest || (hov && sense.drag),
    };
    let response = Response {
        clicked: f.clicked,
        double_clicked: f.double_clicked,
        triple_clicked: f.triple_clicked,
        dragged: f.dragged,
        drag_released: f.drag_released,
        is_pointer_button_down_on: f.is_down_on,
        interact_pointer_pos: if f.is_down_on {
            inp.pointer.interact_pos
        } else {
            None
        },
        hovered: if any_down {
            hov && f.is_down_on
        } else {
            hov
        },
        ..response_in
    };
    if mem.has_focus(id) && clicked_elsewhere {
        mem.surrender_focus(id);
    }
    if response.dragged && !mem.has_focus(id) {
        mem.stop_text_input();
    }
    response
}

impl ContextState {
    /// Resolve one widget's interaction from a hover verdict decided by
    /// the caller.
    #[verifier::rlimit(100)]
    #[verifier::spinoff_prover]
    pub fn interact_with_hovered(
        &mut self,
        layer_id: LayerId,
        id: Id,
        rect: Rect,
        sense: Sense,
        enabled: bool,
        hovered: bool,
    ) -> (r: Response)
        requires
            old(self).wf(),
            old(self).frame_stack@.len() > 0,
            rect.in_bounds(),
        ensures
            final(self).wf(),
            spec_interact_resolution(
                *old(self),
                layer_id,
                id,
                rect,
                sense,
                enabled,
                hovered,
                *final(self),
                r,
            ),
    {
        let key = self.viewport_id().0;
        let hov = hovered && enabled;
        let highlighted = match self.frame_state.get(key) {
            Some(f) => f.is_highlighted(id),
            None => false,
        };
        let mut response = Response {
            layer_id,
            id,
            rect,
            sense,
            enabled,
            hovered: hov,
            highlighted,
            clicked: crate::input::ButtonFlags::none(),
            double_clicked: crate::input::ButtonFlags::none(),
            triple_clicked: crate::input::ButtonFlags::none(),
            dragged: false,
            drag_released: false,
            is_pointer_button_down_on: false,
            interact_pointer_pos: None,
            changed: false,
        };
        if !enabled || !sense.focusable || !layer_id.allow_interaction() {
            self.memory.surrender_focus(id);
            proof {
                assert(spec_interact_resolution(
                    *old(self),
                    layer_id,
                    id,
                    rect,
                    sense,
                    enabled,
                    hovered,
                    *self,
                    response,
                )) by {
                    reveal(spec_interact_resolution);
                };
            }
            return response;
        }
        self.interact_main(layer_id, id, rect, sense, enabled, hovered, response)
    }

    /// The interactable path of `interact_with_hovered`: duplicate-id
    /// bookkeeping, keyboard activation, the per-event state machine, and
    /// the capture/focus updates.
    #[verifier::rlimit(100)]
    #[verifier::spinoff_prover]
    fn interact_main(
        &mut self,
        layer_id: LayerId,
        id: Id,
        rect: Rect,
        sense: Sense,
        enabled: bool,
        hovered: bool,
        response_in: Response,
    ) -> (r: Response)
        requires
            old(self).wf(),
            old(self).frame_stack@.len() > 0,
            rect.in_bounds(),
            enabled && sense.focusable && layer_id.spec_allow_interaction(),
            response_in == (Response {
                layer_id,
                id,
                rect,
                sense,
                enabled,
                hovered: hovered && enabled,
                highlighted: old(self).frame_state@.contains_key(old(self).spec_viewport_id().0)
                    && old(self).frame_state@[old(self).spec_viewport_id().0].highlight_this_frame@.contains(
                    id,
                ),
                clicked: crate::input::ButtonFlags::spec_none(),
                double_clicked: crate::input::ButtonFlags::spec_none(),
                triple_clicked: crate::input::ButtonFlags::spec_none(),
                dragged: false,
                drag_released: false,
                is_pointer_button_down_on: false,
                interact_pointer_pos: None,
                changed: false,
            }),
        ensures
            final(self).wf(),
            spec_interact_resolution(
                *old(self),
                layer_id,
                id,
                rect,
                sense,
                enabled,
                hovered,
                *final(self),
                r,
            ),
    {
        let key = self.viewport_id().0;
        let hov = hovered && enabled;
        let mut response = response_in;
        self.check_for_id_clash(id, rect);
        // The input model of the current surface (present: a frame is open).
        proof {
            assert(self.input@.contains_key(key));
        }
        let ghost mid = *self;
        let response = match self.input.get(key) {
            Some(i) => apply_interaction(&mut self.memory, i, id, rect, sense, hov, response_in),
            None => response_in,
        };
        proof {
            let pre = *old(self);
            assert(self.memory.options == pre.memory.options);
            assert(*self == (ContextState {
                memory: self.memory,
                frame_state: self.frame_state,
                ..pre
            }));
            assert(spec_interact_resolution(
                pre,
                layer_id,
                id,
                rect,
                sense,
                enabled,
                hovered,
                *self,
                response,
            )) by {
                reveal(spec_interact_resolution);
            };
        }
        response
    }

    /// The hover verdict the arbiter reaches for a hit area: the raw hit
    /// test, refined by last frame's occlusion when the widget takes part
    /// in hit testing.
    pub open spec fn spec_effective_hover(
        self,
        layer_id: LayerId,
        id: Id,
        interact_rect: Rect,
        sense: Sense,
    ) -> bool {
        let raw = self.spec_rect_contains_pointer(layer_id, interact_rect);
        let registered = interact_rect.spec_is_positive() && sense.spec_interactive();
        raw && (registered ==> match self.spec_interact_pos_of(self.spec_viewport_id()) {
            Some(p) => crate::arbiter::spec_unoccluded(
                self.layer_rects_prev_frame.list_of(layer_id),
                id,
                p,
            ),
            None => true,
        })
    }

    /// Register one widget's hit area and resolve its interaction.
    ///
    /// The hit area is the nominal rectangle grown by a bit under half
    /// the item spacing (clamped), intersected with the clip rectangle.
    /// If positive and the widget senses input, it is appended to this
    /// frame's geometry of its layer — so within a layer, later
    /// registrations are on top — and hover is refined against the
    /// previous frame's geometry: a widget registered later last frame
    /// that covers the pointer revokes the hover.
    pub fn interact(
        &mut self,
        clip_rect: Rect,
        item_spacing: Vec2,
        layer_id: LayerId,
        id: Id,
        rect: Rect,
        sense: Sense,
        enabled: bool,
    ) -> (r: Response)
        requires
            old(self).wf(),
            old(self).frame_stack@.len() > 0,
            rect.in_bounds(),
            clip_rect.in_bounds(),
        ensures
            final(self).wf(),
            ({
                let ax = crate::arbiter::spec_expansion_amount(item_spacing.x);
                let ay = crate::arbiter::spec_expansion_amount(item_spacing.y);
                let expanded = Rect {
                    min: Pos { x: (rect.min.x - ax) as i64, y: (rect.min.y - ay) as i64 },
                    max: Pos { x: (rect.max.x + ax) as i64, y: (rect.max.y + ay) as i64 },
                };
                let interact_rect = Rect {
                    min: Pos {
                        x: if clip_rect.min.x >= expanded.min.x {
                            clip_rect.min.x
                        } else {
                            expanded.min.x
                        },
                        y: if clip_rect.min.y >= expanded.min.y {
                            clip_rect.min.y
                        } else {
                            expanded.min.y
                        },
                    },
                    max: Pos {
                        x: if clip_rect.max.x <= expanded.max.x {
                            clip_rect.max.x
                        } else {
                            expanded.max.x
                        },
                        y: if clip_rect.max.y <= expanded.max.y {
                            clip_rect.max.y
                        } else {
                            expanded.max.y
                        },
                    },
                };
                let registered = interact_rect.spec_is_positive() && sense.spec_interactive();
                let hovered = old(self).spec_effective_hover(layer_id, id, interact_rect, sense);
                let mid = ContextState {
                    layer_rects_this_frame: final(self).layer_rects_this_frame,
                    ..*old(self)
                };
                &&& (registered ==> final(self).layer_rects_this_frame.list_of(layer_id) == old(
                    self,
                ).layer_rects_this_frame.list_of(layer_id).push(
                    WidgetRect { id, rect: interact_rect },
                ))
                &&& (!registered ==> final(self).layer_rects_this_frame == old(
                    self,
                ).layer_rects_this_frame)
                &&& forall|l2: LayerId|
                    l2 != layer_id ==> final(self).layer_rects_this_frame.list_of(l2) == old(
                        self,
                    ).layer_rects_this_frame.list_of(l2)
                &&& spec_interact_resolution(
                    mid,
                    layer_id,
                    id,
                    rect,
                    sense,
                    enabled,
                    hovered,
                    *final(self),
                    r,
                )
            }),
    {
        let ax = crate::arbiter::expansion_amount(item_spacing.x);
        let ay = crate::arbiter::expansion_amount(item_spacing.y);
        let interact_rect = clip_rect.intersect(&rect.expand2(ax, ay));
        let raw_hover = self.rect_contains_pointer(layer_id, interact_rect);
        let registered = interact_rect.is_positive() && sense.interactive();
        let mut hovered = raw_hover;
        if registered {
            self.layer_rects_this_frame.push_item(
                layer_id,
                WidgetRect { id, rect: interact_rect },
            );
            if hovered {
                match self.pointer_interact_pos() {
                    Some(p) => {
                        match self.layer_rects_prev_frame.get_list(layer_id) {
                            Some(list) => {
                                hovered = crate::arbiter::unoccluded(list, id, p);
                            },
                            None => {},
                        }
                    },
                    None => {},
                }
            }
        }
        proof {
            assert(hovered == old(self).spec_effective_hover(layer_id, id, interact_rect, sense));
        }
        let ghost mid0 = *self;
        let r = self.interact_with_hovered(layer_id, id, rect, sense, enabled, hovered);
        proof {
            reveal(spec_interact_resolution);
            assert(self.layer_rects_this_frame == mid0.layer_rects_this_frame);
            assert(mid0 == (ContextState {
                layer_rects_this_frame: self.layer_rects_this_frame,
                ..*old(self)
            }));
        }
        r
    }
}

} // verus!
