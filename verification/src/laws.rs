//! General properties of the engine, proved over the same spec functions
//! its contracts are stated with.

use crate::arbiter::spec_interact_fold;
use crate::arbiter::spec_unoccluded;
use crate::geom::Pos;
use crate::ids::Id;
use crate::ids::ViewportId;
use crate::ids::ViewportIdPair;
use crate::input::ClickKind;
use crate::input::PointerButton;
use crate::input::PointerEvent;
use crate::layers::LayerStore;
use crate::layers::WidgetRect;
use crate::memory::Interaction;
use crate::response::Sense;
use crate::state::spec_interact_init;
use crate::viewport::spec_keep;
use crate::viewport::spec_sweep_upto;
use crate::viewport::spec_swept;
use crate::viewport::Viewport;
use vstd::prelude::*;

verus! {

/// One frame-stack operation: a `begin_frame` pushes a surface pair, a
/// matching `end_frame` pops it.
pub enum FrameOp {
    Begin(ViewportIdPair),
    End,
}

/// The frame stack after the first `i` operations.
pub open spec fn spec_stack_after(stack: Seq<ViewportIdPair>, ops: Seq<FrameOp>, i: int) -> Seq<
    ViewportIdPair,
>
    decreases i,
{
    if i <= 0 {
        stack
    } else {
        let prev = spec_stack_after(stack, ops, i - 1);
        match ops[i - 1] {
            FrameOp::Begin(p) => prev.push(p),
            FrameOp::End => prev.drop_last(),
        }
    }
}

/// Nesting depth of the first `i` operations: begins minus ends.
pub open spec fn spec_depth(ops: Seq<FrameOp>, i: int) -> int
    decreases i,
{
    if i <= 0 {
        0
    } else {
        spec_depth(ops, i - 1) + (match ops[i - 1] {
            FrameOp::Begin(_) => 1int,
            FrameOp::End => -1int,
        })
    }
}

/// Stack balance: a sequence of operations in which every `end_frame`
/// matches an earlier `begin_frame` (no prefix has negative depth) never
/// disturbs the stack below its starting height, and a fully matched
/// sequence (depth zero overall) returns the stack to exactly its state
/// before the sequence.
///
/// This holds of every matched sequence; the executable `begin_frame`
/// additionally requires bounded raw input and refuses a surface that
/// already has an open frame, the re-entrancy the engine must not
/// accept.
pub proof fn lemma_frame_stack_balance(stack: Seq<ViewportIdPair>, ops: Seq<FrameOp>, n: int)
    requires
        0 <= n <= ops.len(),
        forall|i: int| 0 <= i <= n ==> spec_depth(ops, i) >= 0,
    ensures
        spec_stack_after(stack, ops, n).len() == stack.len() + spec_depth(ops, n),
        forall|j: int|
            0 <= j < stack.len() ==> #[trigger] spec_stack_after(stack, ops, n)[j] == stack[j],
        spec_depth(ops, n) == 0 ==> spec_stack_after(stack, ops, n) == stack,
    decreases n,
{
    if n > 0 {
        assert(spec_depth(ops, n - 1) >= 0) by {
            assert forall|i: int| 0 <= i <= n - 1 implies spec_depth(ops, i) >= 0 by {}
        }
        lemma_frame_stack_balance(stack, ops, n - 1);
        let prev = spec_stack_after(stack, ops, n - 1);
        match ops[n - 1] {
            FrameOp::Begin(_) => {},
            FrameOp::End => {
                assert(spec_depth(ops, n) >= 0);
                assert(spec_depth(ops, n) == spec_depth(ops, n - 1) - 1);
                assert(prev.len() > stack.len());
            },
        }
    }
    if spec_depth(ops, n) == 0 {
        assert(spec_stack_after(stack, ops, n) =~= stack);
    }
}

/// Last registration wins: when the pointer lies in the hit areas of two
/// widgets on one layer, and nothing registered after the later one
/// covers the pointer or reuses either identity, the widget registered
/// later keeps its hover and the earlier one has it revoked.
pub proof fn lemma_later_registration_wins(s: Seq<WidgetRect>, a: int, b: int, pos: Pos)
    requires
        0 <= a < b < s.len(),
        s[a].id != s[b].id,
        s[a].rect.spec_contains(pos),
        s[b].rect.spec_contains(pos),
        forall|j: int|
            b < j < s.len() ==> (#[trigger] s[j]).id != s[a].id && s[j].id != s[b].id
                && !s[j].rect.spec_contains(pos),
    ensures
        spec_unoccluded(s, s[b].id, pos),
        !spec_unoccluded(s, s[a].id, pos),
    decreases s.len(),
{
    if b == s.len() - 1 {
        assert(s.last() == s[b]);
    } else {
        let dl = s.drop_last();
        let last_idx = s.len() - 1;
        assert(b < last_idx);
        assert(s[last_idx].id != s[a].id);
        assert(!s[last_idx].rect.spec_contains(pos));
        assert(s.last() == s[last_idx]);
        assert forall|j: int|
            b < j < dl.len() implies (#[trigger] dl[j]).id != dl[a].id && dl[j].id != dl[b].id
                && !dl[j].rect.spec_contains(pos) by {
            assert(dl[j] == s[j]);
        }
        assert(dl[a] == s[a] && dl[b] == s[b]);
        lemma_later_registration_wins(dl, a, b, pos);
    }
}

/// Viewport garbage collection: a record that was not re-requested this
/// cycle and whose declared parent is the surface now ending is absent
/// from the swept registry.
pub proof fn lemma_sweep_drops_unused(
    s: Seq<Viewport>,
    cur: ViewportId,
    reachable: Seq<u64>,
    i: int,
)
    requires
        forall|x: int, y: int| 0 <= x < y < s.len() ==> s[x].builder.id != s[y].builder.id,
        0 <= i < s.len(),
        !s[i].used,
        s[i].pair.parent == cur,
    ensures
        forall|j: int|
            0 <= j < spec_sweep_upto(s, cur, reachable, s.len() as int).len()
                ==> (#[trigger] spec_sweep_upto(s, cur, reachable, s.len() as int)[j]).builder.id
                != s[i].builder.id,
{
    crate::viewport::ViewportRegistry::lemma_sweep_elements(s, cur, reachable, s.len() as int);
    let out = spec_sweep_upto(s, cur, reachable, s.len() as int);
    assert forall|j: int| 0 <= j < out.len() implies (#[trigger] out[j]).builder.id
        != s[i].builder.id by {
        let la = choose|la: int|
            0 <= la < s.len() && out[j] == spec_swept(s[la], cur) && spec_keep(
                s[la],
                cur,
                reachable,
            );
        assert(out[j].builder.id == s[la].builder.id);
        if la == i {
            assert(!spec_keep(s[i], cur, reachable));
        }
    }
}

/// Pause and resume are lossless: when surface `b` begins inside surface
/// `a`'s frame, `a`'s geometry is stashed under its handle; whatever the
/// nested frame does to the current geometry, ending it restores exactly
/// the stashed snapshots to `a`.
///
/// `stash_this`/`stash_prev` are the stash maps before the pause,
/// `a_this`/`a_prev` the paused surface's snapshots, and `b_this` the
/// nested frame's geometry at its end.
pub proof fn lemma_pause_resume_lossless(
    stash_this: Map<u64, LayerStore<WidgetRect>>,
    stash_prev: Map<u64, LayerStore<WidgetRect>>,
    a: u64,
    b: u64,
    a_this: LayerStore<WidgetRect>,
    a_prev: LayerStore<WidgetRect>,
    b_this: LayerStore<WidgetRect>,
)
    requires
        a != b,
    ensures
        stash_this.insert(a, a_this)[a] == a_this,
        stash_prev.insert(a, a_prev).remove(b).insert(b, b_this)[a] == a_prev,
        stash_this.insert(a, a_this).remove(a) == stash_this.remove(a),
{
    assert(stash_this.insert(a, a_this).remove(a) =~= stash_this.remove(a));
}

/// Press then release over a clickable widget completes a click: when no
/// widget holds click capture, the widget is hovered, and the frame's
/// events are a press followed by a release classified as a click, the
/// state machine reports the click on that button (and a double or
/// triple click exactly per its classification).
pub proof fn lemma_press_release_clicks(
    m: Interaction,
    sense: Sense,
    id: Id,
    pos: Pos,
    button: PointerButton,
    kind: ClickKind,
)
    requires
        sense.click,
        m.click_id is None,
    ensures
        ({
            let events = seq![
                PointerEvent::Pressed { pos, button },
                PointerEvent::Released { button, click: Some(kind) },
            ];
            let f = spec_interact_fold(
                spec_interact_init(m, sense, id, false),
                events,
                2,
                true,
                sense,
                id,
            );
            &&& f.clicked.spec_get(button)
            &&& f.double_clicked.spec_get(button) == (kind == ClickKind::Double)
            &&& f.triple_clicked.spec_get(button) == (kind == ClickKind::Triple)
            &&& f.click_id == Some(id)
            &&& f.is_down_on
        }),
{
    let events = seq![
        PointerEvent::Pressed { pos, button },
        PointerEvent::Released { button, click: Some(kind) },
    ];
    let f0 = spec_interact_init(m, sense, id, false);
    let f1 = spec_interact_fold(f0, events, 1, true, sense, id);
    let f2 = spec_interact_fold(f0, events, 2, true, sense, id);
    reveal_with_fuel(spec_interact_fold, 4);
    assert(events[0] == (PointerEvent::Pressed { pos, button }));
    assert(events[1] == (PointerEvent::Released { button, click: Some(kind) }));
    assert(f1.click_id == Some(id) && f1.is_down_on);
    assert(f2.clicked.spec_get(button));
}

/// A widget the pointer never hovers is never reported dragged: if it
/// does not hold drag capture when the frame starts, no sequence of
/// pointer events hands it a drag, and it completes no click either.
pub proof fn lemma_unhovered_never_drags(
    m: Interaction,
    sense: Sense,
    id: Id,
    events: Seq<PointerEvent>,
    i: int,
)
    requires
        m.drag_id != Some(id),
        0 <= i <= events.len(),
    ensures
        !spec_interact_fold(spec_interact_init(m, sense, id, false), events, i, false, sense, id)
            .dragged,
        spec_interact_fold(spec_interact_init(m, sense, id, false), events, i, false, sense, id)
            .clicked == crate::input::ButtonFlags::spec_none(),
    decreases i,
{
    if i > 0 {
        lemma_unhovered_never_drags(m, sense, id, events, i - 1);
    }
}

} // verus!
