//! The registry of logical rendering surfaces and its end-of-frame sweep.

use crate::ids::Id;
use crate::ids::ViewportId;
use crate::ids::ViewportIdPair;
use vstd::prelude::*;

verus! {

/// How to construct or update a native surface.
#[derive(PartialEq, Eq, Debug)]
pub struct ViewportBuilder {
    /// The logical key of the surface; one record per key.
    pub id: Id,
    /// Window title.
    pub title: String,
    /// Requested inner width in logical units.
    pub inner_width: u32,
    /// Requested inner height in logical units.
    pub inner_height: u32,
}

impl Clone for ViewportBuilder {
    /// A field-for-field copy; the title carries the same characters.
    fn clone(&self) -> (r: ViewportBuilder)
        ensures
            r.id == self.id,
            r.title@ == self.title@,
            r.inner_width == self.inner_width,
            r.inner_height == self.inner_height,
    {
        ViewportBuilder {
            id: self.id,
            title: self.title.clone(),
            inner_width: self.inner_width,
            inner_height: self.inner_height,
        }
    }
}

/// The output record matches a registry record field for field.
pub open spec fn spec_output_matches(o: ViewportOutput, v: Viewport) -> bool {
    &&& o.pair == v.pair
    &&& o.render == v.render
    &&& o.builder.id == v.builder.id
    &&& o.builder.title@ == v.builder.title@
    &&& o.builder.inner_width == v.builder.inner_width
    &&& o.builder.inner_height == v.builder.inner_height
}

/// A command addressed to one surface, executed by the host.
#[derive(PartialEq, Eq, Debug)]
pub enum ViewportCommand {
    Close,
    Focus,
    Title(String),
    InnerSize(u32, u32),
}

/// One registered surface.
#[derive(PartialEq, Eq, Debug)]
pub struct Viewport {
    /// Its build descriptor.
    pub builder: ViewportBuilder,
    /// Its handle and its parent's handle.
    pub pair: ViewportIdPair,
    /// Whether it was re-requested this cycle.
    pub used: bool,
    /// Handle of the host-side render callback, if one was registered.
    pub render: Option<u64>,
}

/// What the host receives for one registered surface after `end_frame`.
#[derive(PartialEq, Eq, Debug)]
pub struct ViewportOutput {
    pub builder: ViewportBuilder,
    pub pair: ViewportIdPair,
    pub render: Option<u64>,
}

/// Whether the sweep keeps a record when surface `cur` ends: it survives
/// if it was re-requested this cycle or belongs to another parent, and in
/// either case only if its parent is still reachable.
pub open spec fn spec_keep(v: Viewport, cur: ViewportId, reachable: Seq<u64>) -> bool {
    (v.used || v.pair.parent != cur) && reachable.contains(v.pair.parent.0)
}

/// The record as the sweep stores it: a surface whose parent is the ending
/// surface starts the next cycle not yet re-requested.
pub open spec fn spec_swept(v: Viewport, cur: ViewportId) -> Viewport {
    if v.pair.parent == cur {
        Viewport { used: false, ..v }
    } else {
        v
    }
}

/// The swept registry contents after processing the first `k` records.
pub open spec fn spec_sweep_upto(s: Seq<Viewport>, cur: ViewportId, reachable: Seq<u64>, k: int) -> Seq<
    Viewport,
>
    decreases k,
{
    if k <= 0 {
        Seq::empty()
    } else if spec_keep(s[k - 1], cur, reachable) {
        spec_sweep_upto(s, cur, reachable, k - 1).push(spec_swept(s[k - 1], cur))
    } else {
        spec_sweep_upto(s, cur, reachable, k - 1)
    }
}

/// How registering a surface under `builder.id` changes the registry
/// and the handle counter: an existing record is refreshed in place
/// (descriptor, parent and render replaced, marked used, its handle and
/// the counter kept); otherwise a new used record is appended under the
/// next fresh handle (saturating at the largest handle) and the counter
/// advances. `r` is the pair of the registered surface.
pub open spec fn spec_ensure_effect(
    s0: Seq<Viewport>,
    counter0: u64,
    builder: ViewportBuilder,
    parent: ViewportId,
    render: Option<u64>,
    s1: Seq<Viewport>,
    counter1: u64,
    r: ViewportIdPair,
) -> bool {
    if exists|i: int| 0 <= i < s0.len() && #[trigger] s0[i].builder.id == builder.id {
        let i = choose|i: int| 0 <= i < s0.len() && #[trigger] s0[i].builder.id == builder.id;
        &&& s1.len() == s0.len()
        &&& s1[i] == (Viewport {
            builder,
            pair: ViewportIdPair { this: s0[i].pair.this, parent },
            used: true,
            render,
        })
        &&& forall|j: int| 0 <= j < s0.len() && j != i ==> s1[j] == s0[j]
        &&& r == s1[i].pair
        &&& counter1 == counter0
    } else {
        let fresh = if counter0 < u64::MAX {
            (counter0 + 1) as u64
        } else {
            u64::MAX
        };
        &&& s1 == s0.push(
            Viewport {
                builder,
                pair: ViewportIdPair { this: ViewportId(fresh), parent },
                used: true,
                render,
            },
        )
        &&& r == (ViewportIdPair { this: ViewportId(fresh), parent })
        &&& counter1 == fresh
    }
}

/// Tracks the registered surfaces; the order is registration order.
pub struct ViewportRegistry {
    records: Vec<Viewport>,
}

impl ViewportRegistry {
    /// The registered records in registration order.
    pub closed spec fn view_records(self) -> Seq<Viewport> {
        self.records@
    }

    /// No two records share a builder key.
    pub closed spec fn wf(self) -> bool {
        forall|i: int, j: int|
            0 <= i < j < self.records@.len() ==> self.records@[i].builder.id != self.records@[j].builder.id
    }

    pub fn new() -> (r: ViewportRegistry)
        ensures
            r.wf(),
            r.view_records() == Seq::<Viewport>::empty(),
    {
        ViewportRegistry { records: Vec::new() }
    }

    /// How many surfaces are registered.
    pub fn count(&self) -> (r: usize)
        ensures
            r == self.view_records().len(),
    {
        self.records.len()
    }

    /// First index of the record with builder key `key`, if any.
    #[verifier::loop_isolation(false)]
    fn find_index(&self, key: Id) -> (r: Option<usize>)
        ensures
            match r {
                Some(i) => i < self.view_records().len() && self.view_records()[i as int].builder.id
                    == key && forall|j: int|
                    0 <= j < i ==> self.view_records()[j].builder.id != key,
                None => forall|j: int|
                    0 <= j < self.view_records().len() ==> self.view_records()[j].builder.id != key,
            },
    {
        let n = self.records.len();
        let mut i: usize = 0;
        while i < n
            invariant
                i <= n,
                n == self.records.len(),
                forall|j: int| 0 <= j < i ==> self.records@[j].builder.id != key,
            decreases n - i,
        {
            if self.records[i].builder.id == key {
                return Some(i);
            }
            i += 1;
        }
        None
    }

    /// The id pair registered under a builder key.
    pub fn pair_of(&self, key: Id) -> (r: Option<ViewportIdPair>)
        ensures
            match r {
                Some(p) => exists|i: int|
                    0 <= i < self.view_records().len() && #[trigger] self.view_records()[i].builder.id
                        == key && self.view_records()[i].pair == p,
                None => forall|j: int|
                    0 <= j < self.view_records().len() ==> #[trigger] self.view_records()[j].builder.id
                        != key,
            },
    {
        match self.find_index(key) {
            Some(i) => Some(self.records[i].pair),
            None => None,
        }
    }

    /// The surface handles of all registered records, in order.
    #[verifier::loop_isolation(false)]
    pub fn surface_ids(&self) -> (r: Vec<u64>)
        ensures
            r@.len() == self.view_records().len(),
            forall|i: int|
                0 <= i < r@.len() ==> r@[i] == self.view_records()[i].pair.this.0,
    {
        let n = self.records.len();
        let mut out: Vec<u64> = Vec::new();
        let mut i: usize = 0;
        while i < n
            invariant
                i <= n,
                n == self.records.len(),
                out@.len() == i,
                forall|j: int| 0 <= j < i ==> out@[j] == self.records@[j].pair.this.0,
            decreases n - i,
        {
            out.push(self.records[i].pair.this.0);
            i += 1;
        }
        out
    }

    /// Register a surface under `builder.id`, or refresh an existing
    /// record: its descriptor, parent and render handle are replaced and it
    /// is marked used. A new record receives the handle `counter + 1`
    /// (saturating at the largest handle) and the counter advances.
    /// Returns the pair of the surface.
    pub fn ensure(
        &mut self,
        builder: ViewportBuilder,
        parent: ViewportId,
        render: Option<u64>,
        counter: &mut u64,
    ) -> (r: ViewportIdPair)
        requires
            old(self).wf(),
        ensures
            final(self).wf(),
            spec_ensure_effect(
                old(self).view_records(),
                *old(counter),
                builder,
                parent,
                render,
                final(self).view_records(),
                *final(counter),
                r,
            ),
    {
        match self.find_index(builder.id) {
            Some(i) => {
                let this = self.records[i].pair.this;
                let rec = Viewport {
                    builder,
                    pair: ViewportIdPair { this, parent },
                    used: true,
                    render,
                };
                let pair = rec.pair;
                self.records.remove(i);
                self.records.insert(i, rec);
                proof {
                    let s0 = old(self).view_records();
                    assert(self.records@ =~= s0.update(
                        i as int,
                        Viewport {
                            builder,
                            pair: ViewportIdPair { this: s0[i as int].pair.this, parent },
                            used: true,
                            render,
                        },
                    ));
                    let iw = choose|iw: int|
                        0 <= iw < s0.len() && #[trigger] s0[iw].builder.id == builder.id;
                    assert(iw == i as int);
                }
                pair
            },
            None => {
                let fresh: u64 = if *counter < u64::MAX {
                    *counter + 1
                } else {
                    u64::MAX
                };
                *counter = fresh;
                let pair = ViewportIdPair { this: ViewportId(fresh), parent };
                let rec = Viewport { builder, pair, used: true, render };
                self.records.push(rec);
                pair
            },
        }
    }

    /// End-of-frame sweep for the ending surface `cur`.
    ///
    /// A record is kept only if it was used this cycle or was spawned by
    /// a surface other than `cur`, and its parent is still reachable;
    /// kept records whose parent is `cur` start the next cycle with
    /// `used` cleared. Exactly the surviving records are reported to the
    /// host, which realizes, resizes or destroys native surfaces from
    /// the list.
    #[verifier::loop_isolation(false)]
    pub fn sweep(&mut self, cur: ViewportId, reachable: &Vec<u64>) -> (outputs: Vec<
        ViewportOutput,
    >)
        requires
            old(self).wf(),
        ensures
            final(self).wf(),
            final(self).view_records() == spec_sweep_upto(
                old(self).view_records(),
                cur,
                reachable@,
                old(self).view_records().len() as int,
            ),
            outputs@.len() == final(self).view_records().len(),
            forall|i: int|
                0 <= i < outputs@.len() ==> #[trigger] spec_output_matches(
                    outputs@[i],
                    final(self).view_records()[i],
                ),
    {
        let ghost s0 = self.records@;
        let mut outputs: Vec<ViewportOutput> = Vec::new();
        let mut kept: Vec<Viewport> = Vec::new();
        let mut src: Vec<Viewport> = Vec::new();
        core::mem::swap(&mut src, &mut self.records);
        let mut done: usize = 0;
        let n = src.len();
        while done < n
            invariant
                n == s0.len(),
                done + src.len() == n,
                src@ == s0.subrange(done as int, n as int),
                kept@ == spec_sweep_upto(s0, cur, reachable@, done as int),
                outputs@.len() == kept@.len(),
                forall|i: int|
                    0 <= i < outputs@.len() ==> #[trigger] spec_output_matches(
                        outputs@[i],
                        kept@[i],
                    ),
            decreases n - done,
        {
            let v = src.remove(0);
            proof {
                assert(v == s0[done as int]);
                assert(src@ =~= s0.subrange(done as int + 1, n as int));
            }
            let out = v.used;
            let keep = (out || cur != v.pair.parent) && crate::dict::contains_u64(
                reachable,
                v.pair.parent.0,
            );
            if keep {
                outputs.push(ViewportOutput {
                    builder: v.builder.clone(),
                    pair: v.pair,
                    render: v.render,
                });
                let swept = if cur == v.pair.parent {
                    Viewport { used: false, ..v }
                } else {
                    v
                };
                kept.push(swept);
                proof {
                    assert(spec_output_matches(outputs@[kept@.len() - 1], kept@[kept@.len() - 1]));
                }
            }
            done += 1;
        }
        self.records = kept;
        proof {
            ViewportRegistry::lemma_sweep_elements(s0, cur, reachable@, n as int);
        }
        outputs
    }

    /// Every element of the swept registry is the swept image of a record
    /// that the sweep keeps, and distinct builder keys stay distinct.
    pub proof fn lemma_sweep_elements(
        s: Seq<Viewport>,
        cur: ViewportId,
        reachable: Seq<u64>,
        k: int,
    )
        requires
            k <= s.len(),
            forall|i: int, j: int|
                0 <= i < j < s.len() ==> s[i].builder.id != s[j].builder.id,
        ensures
            forall|a: int| #![trigger spec_sweep_upto(s, cur, reachable, k)[a]]
                0 <= a < spec_sweep_upto(s, cur, reachable, k).len() ==> exists|la: int|
                    0 <= la < k && spec_sweep_upto(s, cur, reachable, k)[a] == spec_swept(
                        s[la],
                        cur,
                    ) && spec_keep(s[la], cur, reachable),
            forall|a: int, b: int|
                0 <= a < b < spec_sweep_upto(s, cur, reachable, k).len()
                    ==> spec_sweep_upto(s, cur, reachable, k)[a].builder.id != spec_sweep_upto(
                    s,
                    cur,
                    reachable,
                    k,
                )[b].builder.id,
        decreases k,
    {
        if k <= 0 {
        } else {
            ViewportRegistry::lemma_sweep_elements(s, cur, reachable, k - 1);
            let prev = spec_sweep_upto(s, cur, reachable, k - 1);
            let here = spec_sweep_upto(s, cur, reachable, k);
            if spec_keep(s[k - 1], cur, reachable) {
                assert(here == prev.push(spec_swept(s[k - 1], cur)));
                assert forall|a: int| #![trigger here[a]]
                    0 <= a < here.len() implies exists|la: int|
                    0 <= la < k && here[a] == spec_swept(s[la], cur) && spec_keep(
                        s[la],
                        cur,
                        reachable,
                    ) by {
                    if a < prev.len() {
                        assert(here[a] == prev[a]);
                        let la = choose|la: int|
                            0 <= la < k - 1 && prev[a] == spec_swept(s[la], cur) && spec_keep(
                                s[la],
                                cur,
                                reachable,
                            );
                        assert(0 <= la < k && here[a] == spec_swept(s[la], cur));
                    } else {
                        assert(here[a] == spec_swept(s[k - 1], cur));
                    }
                };
                assert forall|a: int, b: int|
                    0 <= a < b < here.len() implies here[a].builder.id != here[b].builder.id by {
                    if b < here.len() - 1 {
                        assert(here[a] == prev[a] && here[b] == prev[b]);
                    } else {
                        assert(here[b] == spec_swept(s[k - 1], cur));
                        assert(here[a] == prev[a]);
                        let la = choose|la: int|
                            0 <= la < k - 1 && prev[a] == spec_swept(s[la], cur) && spec_keep(
                                s[la],
                                cur,
                                reachable,
                            );
                        assert(s[la].builder.id != s[k - 1].builder.id);
                    }
                };
            } else {
                assert(here == prev);
            }
        }
    }
}

} // verus!
