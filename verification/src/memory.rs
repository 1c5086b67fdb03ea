//! State that survives across frames: capture ownership, keyboard focus,
//! area z-order and global options.
//!
//! Click capture, drag capture and focus are global across all surfaces by
//! design, so focus can follow the user into a nested surface.

use crate::dict::Dict;
use crate::geom::Pos;
use crate::geom::Rect;
use crate::ids::Id;
use crate::ids::LayerId;
use crate::input::PPP_LIMIT;
use vstd::prelude::*;

verus! {

/// Which widget owns the pointer, per capture kind. At most one widget per
/// kind, globally.
#[derive(Clone, Copy, PartialEq, Eq, Structural, Debug)]
pub struct Interaction {
    /// The widget that captured the press of the current click, if any.
    pub click_id: Option<Id>,
    /// The widget that captured the current drag, if any.
    pub drag_id: Option<Id>,
    /// The drag capture belongs to a surface-level holder (a window being
    /// moved), which content widgets may steal the drag from.
    pub drag_is_window: bool,
    /// Some widget wanted clicks this frame.
    pub click_interest: bool,
    /// Some widget wanted drags this frame.
    pub drag_interest: bool,
}

impl Interaction {
    pub fn idle() -> (r: Interaction)
        ensures
            r == Interaction::spec_idle(),
    {
        Interaction {
            click_id: None,
            drag_id: None,
            drag_is_window: false,
            click_interest: false,
            drag_interest: false,
        }
    }

    pub open spec fn spec_idle() -> Interaction {
        Interaction {
            click_id: None,
            drag_id: None,
            drag_is_window: false,
            click_interest: false,
            drag_interest: false,
        }
    }

    pub open spec fn spec_is_using_pointer(self) -> bool {
        self.click_id is Some || self.drag_id is Some
    }

    /// Whether some widget currently owns the pointer.
    pub fn is_using_pointer(&self) -> (r: bool)
        ensures
            r == self.spec_is_using_pointer(),
    {
        self.click_id.is_some() || self.drag_id.is_some()
    }
}

/// One registered area: a layer's interactable rectangle.
#[derive(Clone, Copy, PartialEq, Eq, Structural, Debug)]
pub struct AreaEntry {
    pub layer: LayerId,
    pub rect: Rect,
    pub interactable: bool,
}

/// The registered areas and their z-order, back to front.
pub struct Areas {
    order_list: Vec<LayerId>,
    states: Vec<AreaEntry>,
}

/// First entry for `layer` in `s`, if any.
pub open spec fn spec_find_area(s: Seq<AreaEntry>, layer: LayerId) -> Option<AreaEntry>
    decreases s.len(),
{
    if s.len() == 0 {
        None
    } else if s[0].layer == layer {
        Some(s[0])
    } else {
        spec_find_area(s.drop_first(), layer)
    }
}

impl Areas {
    /// The z-order, back to front.
    pub closed spec fn spec_order(self) -> Seq<LayerId> {
        self.order_list@
    }

    /// The registered state of a layer.
    pub closed spec fn spec_area(self, layer: LayerId) -> Option<AreaEntry> {
        spec_find_area(self.states@, layer)
    }

    /// The z-order holds no layer twice.
    pub closed spec fn wf(self) -> bool {
        forall|i: int, j: int|
            0 <= i < j < self.order_list@.len() ==> self.order_list@[i] != self.order_list@[j]
    }

    pub fn new() -> (r: Areas)
        ensures
            r.wf(),
            r.spec_order() == Seq::<LayerId>::empty(),
            forall|l: LayerId| r.spec_area(l) is None,
    {
        Areas { order_list: Vec::new(), states: Vec::new() }
    }

    /// The z-order, for iterating the layers back to front.
    pub fn order(&self) -> (r: &Vec<LayerId>)
        ensures
            r@ == self.spec_order(),
    {
        &self.order_list
    }

    #[verifier::loop_isolation(false)]
    fn find_order(&self, layer: LayerId) -> (r: bool)
        ensures
            r == self.spec_order().contains(layer),
    {
        let n = self.order_list.len();
        let mut i: usize = 0;
        while i < n
            invariant
                i <= n,
                forall|j: int| 0 <= j < i ==> self.order_list@[j] != layer,
            decreases n - i,
        {
            if self.order_list[i] == layer {
                return true;
            }
            i += 1;
        }
        false
    }

    /// First index holding `layer`, if any.
    #[verifier::loop_isolation(false)]
    fn find_state_index(&self, layer: LayerId) -> (r: Option<usize>)
        ensures
            match r {
                Some(i) => i < self.states@.len() && self.states@[i as int].layer == layer
                    && forall|j: int| 0 <= j < i ==> self.states@[j].layer != layer,
                None => forall|j: int| 0 <= j < self.states@.len() ==> self.states@[j].layer
                    != layer,
            },
    {
        let n = self.states.len();
        let mut i: usize = 0;
        while i < n
            invariant
                i <= n,
                n == self.states.len(),
                forall|j: int| 0 <= j < i ==> self.states@[j].layer != layer,
            decreases n - i,
        {
            if self.states[i].layer == layer {
                return Some(i);
            }
            i += 1;
        }
        None
    }

    /// Register or update a layer's area. A new layer enters the z-order
    /// at the top.
    pub fn set_state(&mut self, layer: LayerId, rect: Rect, interactable: bool)
        requires
            old(self).wf(),
        ensures
            final(self).wf(),
            final(self).spec_area(layer) == Some(
                AreaEntry { layer, rect, interactable },
            ),
            forall|l2: LayerId| l2 != layer ==> final(self).spec_area(l2) == old(self).spec_area(
                l2,
            ),
            final(self).spec_order() == if old(self).spec_order().contains(layer) {
                old(self).spec_order()
            } else {
                old(self).spec_order().push(layer)
            },
    {
        let entry = AreaEntry { layer, rect, interactable };
        match self.find_state_index(layer) {
            Some(i) => {
                self.states.remove(i);
                self.states.insert(i, entry);
                proof {
                    assert(self.states@ =~= old(self).states@.update(i as int, entry));
                    Areas::lemma_find_area_general(old(self).states@, self.states@, layer, i as int);
                }
            },
            None => {
                self.states.push(entry);
                proof {
                    Areas::lemma_find_area_push(old(self).states@, entry, layer);
                }
            },
        }
        if !self.find_order(layer) {
            self.order_list.push(layer);
        }
    }

    proof fn lemma_find_area_skip(s: Seq<AreaEntry>, layer: LayerId, i: int)
        requires
            0 <= i <= s.len(),
            forall|j: int| 0 <= j < i ==> s[j].layer != layer,
        ensures
            spec_find_area(s, layer) == spec_find_area(s.subrange(i, s.len() as int), layer),
        decreases i,
    {
        if i == 0 {
            assert(s.subrange(0, s.len() as int) =~= s);
        } else {
            assert(s.drop_first() =~= s.subrange(1, s.len() as int));
            Areas::lemma_find_area_skip(s.drop_first(), layer, i - 1);
            assert(s.drop_first().subrange(i - 1, s.drop_first().len() as int) =~= s.subrange(
                i,
                s.len() as int,
            ));
        }
    }

    proof fn lemma_find_area_general(s0: Seq<AreaEntry>, s1: Seq<AreaEntry>, layer: LayerId, i: int)
        requires
            0 <= i < s0.len(),
            s0[i].layer == layer,
            forall|j: int| 0 <= j < i ==> s0[j].layer != layer,
            s1.len() == s0.len(),
            s1[i].layer == layer,
            forall|j: int| 0 <= j < s0.len() && j != i ==> s1[j] == s0[j],
        ensures
            spec_find_area(s1, layer) == Some(s1[i]),
            forall|l2: LayerId| l2 != layer ==> spec_find_area(s1, l2) == spec_find_area(s0, l2),
        decreases i,
    {
        if i == 0 {
            assert forall|l2: LayerId| l2 != layer implies spec_find_area(s1, l2)
                == spec_find_area(s0, l2) by {
                assert(s0.drop_first() =~= s1.drop_first());
            };
        } else {
            assert(s0.drop_first()[i - 1].layer == layer);
            Areas::lemma_find_area_general(s0.drop_first(), s1.drop_first(), layer, i - 1);
            assert(s1.drop_first()[i - 1] == s1[i]);
            assert(s1[0] == s0[0]);
            assert(s1[0].layer != layer);
            assert(spec_find_area(s1, layer) == spec_find_area(s1.drop_first(), layer));
            assert forall|l2: LayerId| l2 != layer implies spec_find_area(s1, l2)
                == spec_find_area(s0, l2) by {
                if s1[0].layer == l2 {
                    assert(spec_find_area(s1, l2) == Some(s1[0]));
                    assert(spec_find_area(s0, l2) == Some(s0[0]));
                } else {
                    assert(spec_find_area(s1, l2) == spec_find_area(s1.drop_first(), l2));
                    assert(spec_find_area(s0, l2) == spec_find_area(s0.drop_first(), l2));
                }
            };
        }
    }

    proof fn lemma_find_area_push(s: Seq<AreaEntry>, entry: AreaEntry, layer: LayerId)
        requires
            entry.layer == layer,
            forall|j: int| 0 <= j < s.len() ==> s[j].layer != layer,
        ensures
            spec_find_area(s.push(entry), layer) == Some(entry),
            forall|l2: LayerId| l2 != layer ==> spec_find_area(s.push(entry), l2)
                == spec_find_area(s, l2),
        decreases s.len(),
    {
        if s.len() == 0 {
            assert forall|l2: LayerId| l2 != layer implies spec_find_area(s.push(entry), l2)
                == spec_find_area(s, l2) by {
                assert(s.push(entry)[0] == entry);
                assert(s.push(entry).drop_first() =~= Seq::<AreaEntry>::empty());
                assert(spec_find_area(s.push(entry), l2) == spec_find_area(
                    Seq::<AreaEntry>::empty(),
                    l2,
                ));
                assert(spec_find_area(Seq::<AreaEntry>::empty(), l2) is None);
                assert(spec_find_area(s, l2) is None);
            };
        } else {
            assert(s.push(entry).drop_first() =~= s.drop_first().push(entry));
            Areas::lemma_find_area_push(s.drop_first(), entry, layer);
            assert(s.push(entry)[0] == s[0]);
            assert(s[0].layer != layer);
            assert(spec_find_area(s.push(entry), layer) == spec_find_area(
                s.drop_first().push(entry),
                layer,
            ));
            assert forall|l2: LayerId| l2 != layer implies spec_find_area(s.push(entry), l2)
                == spec_find_area(s, l2) by {
                if s[0].layer == l2 {
                    assert(spec_find_area(s.push(entry), l2) == Some(s[0]));
                    assert(spec_find_area(s, l2) == Some(s[0]));
                } else {
                    assert(spec_find_area(s.push(entry), l2) == spec_find_area(
                        s.drop_first().push(entry),
                        l2,
                    ));
                    assert(spec_find_area(s, l2) == spec_find_area(s.drop_first(), l2));
                }
            };
        }
    }

    /// Look up a layer's registered area.
    #[verifier::loop_isolation(false)]
    pub fn get_area(&self, layer: LayerId) -> (r: Option<AreaEntry>)
        ensures
            r == self.spec_area(layer),
    {
        let n = self.states.len();
        let mut i: usize = 0;
        while i < n
            invariant
                i <= n,
                n == self.states.len(),
                forall|j: int| 0 <= j < i ==> self.states@[j].layer != layer,
            decreases n - i,
        {
            if self.states[i].layer == layer {
                proof {
                    Areas::lemma_find_area_skip(self.states@, layer, i as int);
                    assert(self.states@.subrange(i as int, self.states@.len() as int)[0]
                        == self.states@[i as int]);
                }
                return Some(self.states[i]);
            }
            i += 1;
        }
        proof {
            Areas::lemma_find_area_skip(self.states@, layer, n as int);
            assert(self.states@.subrange(n as int, self.states@.len() as int) =~= Seq::<
                AreaEntry,
            >::empty());
        }
        None
    }

    /// The layer that owns the pointer position: the topmost layer in the
    /// z-order whose registered area is interactable, permits interaction
    /// and contains the position.
    pub open spec fn spec_hit(self, layer: LayerId, pos: Pos) -> bool {
        match self.spec_area(layer) {
            Some(e) => e.interactable && layer.spec_allow_interaction() && e.rect.spec_contains(
                pos,
            ),
            None => false,
        }
    }

    /// The topmost hit among `spec_order()[0..k]`.
    pub open spec fn spec_layer_at_upto(self, pos: Pos, k: int) -> Option<LayerId>
        decreases k,
    {
        if k <= 0 {
            None
        } else if self.spec_hit(self.spec_order()[k - 1], pos) {
            Some(self.spec_order()[k - 1])
        } else {
            self.spec_layer_at_upto(pos, k - 1)
        }
    }

    /// Topmost layer at the given position, if any.
    #[verifier::loop_isolation(false)]
    pub fn layer_id_at(&self, pos: Pos) -> (r: Option<LayerId>)
        ensures
            r == self.spec_layer_at_upto(pos, self.spec_order().len() as int),
    {
        let n = self.order_list.len();
        let mut i: usize = n;
        while i > 0
            invariant
                i <= n,
                n == self.order_list@.len(),
                self.spec_layer_at_upto(pos, n as int) == self.spec_layer_at_upto(pos, i as int),
            decreases i,
        {
            i -= 1;
            let layer = self.order_list[i];
            let hit = match self.get_area(layer) {
                Some(e) => e.interactable && layer.allow_interaction() && e.rect.contains(pos),
                None => false,
            };
            if hit {
                return Some(layer);
            }
        }
        None
    }

    /// Move a layer to the top of its z-order.
    #[verifier::loop_isolation(false)]
    pub fn move_to_top(&mut self, layer: LayerId)
        requires
            old(self).wf(),
        ensures
            final(self).wf(),
            final(self).spec_order() == if old(self).spec_order().contains(layer) {
                old(self).spec_order().remove_value(layer).push(layer)
            } else {
                old(self).spec_order().push(layer)
            },
            forall|l2: LayerId| final(self).spec_area(l2) == old(self).spec_area(l2),
    {
        let n = self.order_list.len();
        let mut i: usize = 0;
        while i < n
            invariant
                i <= n,
                n == self.order_list.len(),
                self.order_list@ == old(self).order_list@,
                self.states@ == old(self).states@,
                forall|j: int| 0 <= j < i ==> self.order_list@[j] != layer,
            decreases n - i,
        {
            if self.order_list[i] == layer {
                proof {
                    let s0 = old(self).order_list@;
                    assert(s0[i as int] == layer);
                    s0.index_of_first_ensures(layer);
                    assert(s0.index_of_first(layer) == Some(i as int));
                }
                self.order_list.remove(i);
                self.order_list.push(layer);
                proof {
                    let s0 = old(self).order_list@;
                    assert(self.order_list@ == s0.remove(i as int).push(layer));
                    assert(s0.remove_value(layer) == s0.remove(i as int));
                    assert forall|a: int, b: int|
                        0 <= a < b < self.order_list@.len() implies self.order_list@[a]
                        != self.order_list@[b] by {
                        if b < self.order_list@.len() - 1 {
                        } else {
                            if a < i {
                                assert(self.order_list@[a] == s0[a]);
                            } else {
                                assert(self.order_list@[a] == s0[a + 1]);
                            }
                        }
                    };
                }
                return ;
            }
            i += 1;
        }
        self.order_list.push(layer);
    }
}

/// A well-formed area registry has a duplicate-free z-order.
pub proof fn lemma_areas_order_distinct(a: Areas)
    requires
        a.wf(),
    ensures
        forall|i: int, j: int|
            0 <= i < j < a.spec_order().len() ==> a.spec_order()[i] != a.spec_order()[j],
{
}

/// Options of the engine that widget code may consult.
#[derive(Clone, Copy, PartialEq, Eq, Structural, Debug)]
pub struct EngineOptions {
    /// Whether duplicate widget identities raise diagnostics.
    pub warn_on_id_clash: bool,
}

/// Cross-frame state: capture ownership, focus, areas, density override.
pub struct Memory {
    /// Capture ownership.
    pub interaction: Interaction,
    /// The widget holding keyboard focus, if any.
    pub focus: Option<Id>,
    /// Registered areas and their z-order.
    pub areas: Areas,
    /// A pixel density override to reconcile at the next `begin_frame`, in
    /// thousandths.
    pub override_pixels_per_point_milli: Option<u32>,
    /// Engine options.
    pub options: EngineOptions,
}

impl Memory {
    pub open spec fn wf(self) -> bool {
        &&& self.areas.wf()
        &&& (self.override_pixels_per_point_milli matches Some(o) ==> 1 <= o <= PPP_LIMIT)
    }

    pub fn new() -> (r: Memory)
        ensures
            r.wf(),
            r.interaction == Interaction::spec_idle(),
            r.focus is None,
            r.override_pixels_per_point_milli is None,
            r.options.warn_on_id_clash,
            r.areas.spec_order() == Seq::<LayerId>::empty(),
            forall|l: LayerId| r.areas.spec_area(l) is None,
    {
        Memory {
            interaction: Interaction::idle(),
            focus: None,
            areas: Areas::new(),
            override_pixels_per_point_milli: None,
            options: EngineOptions { warn_on_id_clash: true },
        }
    }

    pub open spec fn spec_has_focus(self, id: Id) -> bool {
        self.focus == Some(id)
    }

    /// Whether `id` holds keyboard focus.
    pub fn has_focus(&self, id: Id) -> (r: bool)
        ensures
            r == self.spec_has_focus(id),
    {
        match self.focus {
            Some(f) => f == id,
            None => false,
        }
    }

    /// Release focus if `id` holds it.
    pub fn surrender_focus(&mut self, id: Id)
        ensures
            final(self).focus == if old(self).focus == Some(id) {
                None::<Id>
            } else {
                old(self).focus
            },
            final(self).interaction == old(self).interaction,
            final(self).areas == old(self).areas,
            final(self).override_pixels_per_point_milli == old(
                self,
            ).override_pixels_per_point_milli,
            final(self).options == old(self).options,
    {
        let release = match self.focus {
            Some(f) => f == id,
            None => false,
        };
        if release {
            self.focus = None;
        }
    }

    /// Start-of-frame capture bookkeeping: interest flags reset; when no
    /// pointer button was down at the end of the previous frame, both
    /// captures are released.
    pub fn begin_frame(&mut self, prev_any_down: bool)
        ensures
            final(self).interaction.click_interest == false,
            final(self).interaction.drag_interest == false,
            final(self).interaction.click_id == if prev_any_down {
                old(self).interaction.click_id
            } else {
                None::<Id>
            },
            final(self).interaction.drag_id == if prev_any_down {
                old(self).interaction.drag_id
            } else {
                None::<Id>
            },
            final(self).interaction.drag_is_window == (prev_any_down
                && old(self).interaction.drag_is_window),
            final(self).focus == old(self).focus,
            final(self).areas == old(self).areas,
            final(self).override_pixels_per_point_milli == old(
                self,
            ).override_pixels_per_point_milli,
            final(self).options == old(self).options,
    {
        self.interaction.click_interest = false;
        self.interaction.drag_interest = false;
        if !prev_any_down {
            self.interaction.click_id = None;
            self.interaction.drag_id = None;
            self.interaction.drag_is_window = false;
        }
    }

    /// End-of-frame focus garbage collection: a focused widget that was
    /// not used this frame loses focus.
    pub fn end_frame(&mut self, used_ids: &Dict<Rect>)
        requires
            used_ids.wf(),
        ensures
            final(self).focus == (match old(self).focus {
                Some(f) => if used_ids@.contains_key(f.0) {
                    Some(f)
                } else {
                    None::<Id>
                },
                None => None::<Id>,
            }),
            final(self).interaction == old(self).interaction,
            final(self).areas == old(self).areas,
            final(self).override_pixels_per_point_milli == old(
                self,
            ).override_pixels_per_point_milli,
            final(self).options == old(self).options,
    {
        let clear = match self.focus {
            Some(f) => !used_ids.contains_key(f.0),
            None => false,
        };
        if clear {
            self.focus = None;
        }
    }

    /// Release focus entirely (for example when a drag starts elsewhere).
    pub fn stop_text_input(&mut self)
        ensures
            final(self).focus is None,
            final(self).interaction == old(self).interaction,
            final(self).areas == old(self).areas,
            final(self).override_pixels_per_point_milli == old(
                self,
            ).override_pixels_per_point_milli,
            final(self).options == old(self).options,
    {
        self.focus = None;
    }
}

} // verus!
