//! Per-layer append-only lists, used both for widget hit-test geometry and
//! for queued paint commands.
//!
//! A `LayerStore` maps every `LayerId` to a list of items; absent layers
//! are empty lists. Within one layer the list order is exactly call order,
//! which is what the occlusion rules of the interaction arbiter and the
//! painting order of the renderer rely on.

use crate::dict::Dict;
use crate::geom::Rect;
use crate::ids::Id;
use crate::ids::LayerId;
use crate::ids::Order;
use vstd::prelude::*;

verus! {

/// One widget's hit-test entry in a layer list.
#[derive(Clone, Copy, PartialEq, Eq, Structural, Debug)]
pub struct WidgetRect {
    pub id: Id,
    pub rect: Rect,
}

/// Lists of items grouped by rendering layer.
pub struct LayerStore<T> {
    background: Dict<Vec<T>>,
    middle: Dict<Vec<T>>,
    foreground: Dict<Vec<T>>,
    tooltip: Dict<Vec<T>>,
    debug_overlay: Dict<Vec<T>>,
}

impl<T> LayerStore<T> {
    pub closed spec fn dict_of(self, order: Order) -> Dict<Vec<T>> {
        match order {
            Order::Background => self.background,
            Order::Middle => self.middle,
            Order::Foreground => self.foreground,
            Order::Tooltip => self.tooltip,
            Order::Debug => self.debug_overlay,
        }
    }

    /// The list stored for a layer; absent layers read as the empty list.
    pub open spec fn list_of(self, layer: LayerId) -> Seq<T> {
        let d = self.dict_of(layer.order);
        if d@.contains_key(layer.id.0) {
            d@[layer.id.0]@
        } else {
            Seq::empty()
        }
    }

    /// Internal well-formedness of the per-order tables.
    pub closed spec fn wf(self) -> bool {
        self.background.wf() && self.middle.wf() && self.foreground.wf() && self.tooltip.wf()
            && self.debug_overlay.wf()
    }

    /// A store in which every layer is empty.
    pub fn new() -> (r: LayerStore<T>)
        ensures
            r.wf(),
            forall|l: LayerId| r.list_of(l) == Seq::<T>::empty(),
    {
        LayerStore {
            background: Dict::new(),
            middle: Dict::new(),
            foreground: Dict::new(),
            tooltip: Dict::new(),
            debug_overlay: Dict::new(),
        }
    }

    /// Move the whole store out, leaving an empty one behind.
    pub fn take(&mut self) -> (r: LayerStore<T>)
        ensures
            r == *old(self),
            final(self).wf(),
            forall|l: LayerId| final(self).list_of(l) == Seq::<T>::empty(),
    {
        let mut tmp = LayerStore::new();
        core::mem::swap(self, &mut tmp);
        tmp
    }

    /// Read a layer's list.
    pub fn get_list(&self, layer: LayerId) -> (r: Option<&Vec<T>>)
        requires
            self.wf(),
        ensures
            match r {
                Some(v) => self.list_of(layer) == v@,
                None => self.list_of(layer) == Seq::<T>::empty(),
            },
    {
        let d = match layer.order {
            Order::Background => &self.background,
            Order::Middle => &self.middle,
            Order::Foreground => &self.foreground,
            Order::Tooltip => &self.tooltip,
            Order::Debug => &self.debug_overlay,
        };
        d.get(layer.id.0)
    }

    /// Append one item to a layer's list.
    pub fn push_item(&mut self, layer: LayerId, item: T)
        requires
            old(self).wf(),
        ensures
            final(self).wf(),
            final(self).list_of(layer) == old(self).list_of(layer).push(item),
            forall|l2: LayerId| l2 != layer ==> final(self).list_of(l2) == old(self).list_of(l2),
    {
        let d = match layer.order {
            Order::Background => &mut self.background,
            Order::Middle => &mut self.middle,
            Order::Foreground => &mut self.foreground,
            Order::Tooltip => &mut self.tooltip,
            Order::Debug => &mut self.debug_overlay,
        };
        let mut list = match d.remove(layer.id.0) {
            Some(v) => v,
            None => Vec::new(),
        };
        list.push(item);
        d.insert(layer.id.0, list);
        proof {
            assert(final(self).list_of(layer) =~= old(self).list_of(layer).push(item));
            assert forall|l2: LayerId| l2 != layer implies final(self).list_of(l2) == old(
                self,
            ).list_of(l2) by {
                if l2.order == layer.order {
                    assert(l2.id.0 != layer.id.0);
                }
            };
        }
    }

    /// The concatenation of the lists of `order[0..k]`, in order.
    pub open spec fn drained_upto(self, order: Seq<LayerId>, k: int) -> Seq<T>
        decreases k,
    {
        if k <= 0 {
            Seq::empty()
        } else {
            self.drained_upto(order, k - 1) + self.list_of(order[k - 1])
        }
    }

    /// Remove and concatenate the lists of the given layers, in the given
    /// z-order (back to front). Layers not listed keep their contents.
    #[verifier::loop_isolation(false)]
    pub fn drain_in_order(&mut self, order: &Vec<LayerId>) -> (r: Vec<T>)
        requires
            old(self).wf(),
            forall|i: int, j: int| 0 <= i < j < order@.len() ==> order@[i] != order@[j],
        ensures
            final(self).wf(),
            r@ == old(self).drained_upto(order@, order@.len() as int),
            forall|l: LayerId|
                order@.contains(l) ==> final(self).list_of(l) == Seq::<T>::empty(),
            forall|l: LayerId| !order@.contains(l) ==> final(self).list_of(l) == old(
                self,
            ).list_of(l),
    {
        let mut res: Vec<T> = Vec::new();
        let n = order.len();
        let mut i: usize = 0;
        while i < n
            invariant
                self.wf(),
                i <= n,
                res@ == old(self).drained_upto(order@, i as int),
                forall|l: LayerId|
                    (exists|j: int| 0 <= j < i && order@[j] == l) ==> self.list_of(l) == Seq::<
                        T,
                    >::empty(),
                forall|l: LayerId|
                    !(exists|j: int| 0 <= j < i && order@[j] == l) ==> self.list_of(l) == old(
                        self,
                    ).list_of(l),
            decreases n - i,
        {
            let layer = order[i];
            proof {
                assert(!(exists|j: int| 0 <= j < i && order@[j] == layer));
                assert(self.list_of(layer) == old(self).list_of(layer));
            }
            let ghost before = *self;
            let d = match layer.order {
                Order::Background => &mut self.background,
                Order::Middle => &mut self.middle,
                Order::Foreground => &mut self.foreground,
                Order::Tooltip => &mut self.tooltip,
                Order::Debug => &mut self.debug_overlay,
            };
            match d.remove(layer.id.0) {
                Some(mut list) => {
                    res.append(&mut list);
                },
                None => {},
            }
            proof {
                assert(self.list_of(layer) =~= Seq::<T>::empty());
                assert forall|l2: LayerId| l2 != layer implies self.list_of(l2) == before.list_of(
                    l2,
                ) by {
                    if l2.order == layer.order {
                        assert(l2.id.0 != layer.id.0);
                    }
                };
                assert(res@ == old(self).drained_upto(order@, i as int + 1));
                assert forall|l: LayerId|
                    (exists|j: int| 0 <= j < i + 1 && order@[j] == l) implies self.list_of(l)
                    == Seq::<T>::empty() by {
                    let j = choose|j: int| 0 <= j < i + 1 && order@[j] == l;
                    if j < i {
                        assert(before.list_of(l) == Seq::<T>::empty());
                        if l != layer {
                        }
                    }
                };
            }
            i += 1;
        }
        res
    }
}

} // verus!
