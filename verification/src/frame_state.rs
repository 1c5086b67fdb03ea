//! Per-surface scratch state that lives for exactly one frame.

use crate::dict::Dict;
use crate::geom::Rect;
use crate::ids::Id;
use crate::input::InputState;
use vstd::prelude::*;

verus! {

/// A diagnostic flag raised when one widget identity is used twice in a
/// frame at materially different places.
#[derive(Clone, Copy, PartialEq, Eq, Structural, Debug)]
pub struct ClashWarning {
    /// The doubly used identity.
    pub id: Id,
    /// The rectangle of the flagged use.
    pub rect: Rect,
}

/// How the scratch state is reset at the start of a frame: per-frame
/// collections cleared, queued highlights promoted, space bookkeeping
/// reset to the screen rectangle.
pub open spec fn spec_frame_reset(prev_highlight_next: Seq<Id>, screen: Rect, r: FrameState) -> bool {
    &&& r.used_ids@ == Map::<u64, Rect>::empty()
    &&& r.highlight_this_frame@ == prev_highlight_next
    &&& r.highlight_next_frame@ == Seq::<Id>::empty()
    &&& r.clash_warnings@ == Seq::<ClashWarning>::empty()
    &&& r.available_rect == screen
    &&& r.used_by_panels == (Rect { min: screen.min, max: screen.min })
    &&& r.unused_rect == screen
}

/// State collected during one frame of one surface and reset at its start.
pub struct FrameState {
    /// Every widget id used this frame, with its rectangle, for duplicate
    /// detection.
    pub used_ids: Dict<Rect>,
    /// Ids to paint highlighted this frame.
    pub highlight_this_frame: Vec<Id>,
    /// Ids to paint highlighted next frame.
    pub highlight_next_frame: Vec<Id>,
    /// Duplicate-identity diagnostics raised this frame.
    pub clash_warnings: Vec<ClashWarning>,
    /// Space not yet claimed by panels.
    pub available_rect: Rect,
    /// Space panels have claimed.
    pub used_by_panels: Rect,
    /// Space no widget covered last frame.
    pub unused_rect: Rect,
}

impl FrameState {
    pub open spec fn wf(self) -> bool {
        &&& self.used_ids.wf()
        &&& forall|k: u64| #[trigger] self.used_ids@.contains_key(k) ==> self.used_ids@[k].in_bounds()
    }

    /// The scratch state of a surface that has not begun a frame.
    pub fn empty() -> (r: FrameState)
        ensures
            r.wf(),
            r.used_ids@ == Map::<u64, Rect>::empty(),
            r.highlight_this_frame@ == Seq::<Id>::empty(),
            r.highlight_next_frame@ == Seq::<Id>::empty(),
            r.clash_warnings@ == Seq::<ClashWarning>::empty(),
    {
        let zero = Rect::new(crate::geom::Pos::new(0, 0), crate::geom::Pos::new(0, 0));
        FrameState {
            used_ids: Dict::new(),
            highlight_this_frame: Vec::new(),
            highlight_next_frame: Vec::new(),
            clash_warnings: Vec::new(),
            available_rect: zero,
            used_by_panels: zero,
            unused_rect: zero,
        }
    }

    /// Reset for a new frame: clear the per-frame collections, promote the
    /// queued highlights, and reset the space bookkeeping to the screen.
    pub fn begin_frame(&mut self, input: &InputState)
        requires
            old(self).wf(),
        ensures
            final(self).wf(),
            spec_frame_reset(old(self).highlight_next_frame@, input.screen_rect, *final(self)),
    {
        self.used_ids = Dict::new();
        let mut promoted: Vec<Id> = Vec::new();
        core::mem::swap(&mut promoted, &mut self.highlight_next_frame);
        self.highlight_this_frame = promoted;
        self.clash_warnings = Vec::new();
        self.available_rect = input.screen_rect;
        self.used_by_panels = Rect::new(input.screen_rect.min, input.screen_rect.min);
        self.unused_rect = input.screen_rect;
    }

    /// Whether a highlight was requested for `id` this frame.
    #[verifier::loop_isolation(false)]
    pub fn is_highlighted(&self, id: Id) -> (r: bool)
        ensures
            r == self.highlight_this_frame@.contains(id),
    {
        let n = self.highlight_this_frame.len();
        let mut i: usize = 0;
        while i < n
            invariant
                i <= n,
                forall|j: int| 0 <= j < i ==> self.highlight_this_frame@[j] != id,
            decreases n - i,
        {
            if self.highlight_this_frame[i] == id {
                return true;
            }
            i += 1;
        }
        false
    }
}

} // verus!
