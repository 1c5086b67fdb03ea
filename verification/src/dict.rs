//! A small verified dictionary keyed by `u64`, used for every per-surface
//! table of the engine.
//!
//! The representation is an association vector with pairwise-distinct keys;
//! the abstraction is a `Map<u64, T>`. Insertion order is irrelevant to the
//! abstraction, which keeps the contracts of the engine independent of the
//! layout of the table.

use vstd::prelude::*;

verus! {

/// Dictionary from `u64` keys to values of type `T`.
pub struct Dict<T> {
    entries: Vec<(u64, T)>,
}

impl<T> View for Dict<T> {
    type V = Map<u64, T>;

    closed spec fn view(&self) -> Map<u64, T> {
        Dict::<T>::map_of(self.entries@)
    }
}

impl<T> Dict<T> {
    /// The map described by an association sequence; later entries win.
    pub closed spec fn map_of(s: Seq<(u64, T)>) -> Map<u64, T>
        decreases s.len(),
    {
        if s.len() == 0 {
            Map::empty()
        } else {
            Dict::<T>::map_of(s.drop_last()).insert(s.last().0, s.last().1)
        }
    }

    spec fn distinct_keys(s: Seq<(u64, T)>) -> bool {
        forall|i: int, j: int| 0 <= i < j < s.len() ==> s[i].0 != s[j].0
    }

    /// Internal well-formedness: keys are pairwise distinct.
    pub closed spec fn wf(self) -> bool {
        Dict::<T>::distinct_keys(self.entries@)
    }

    proof fn lemma_dom(s: Seq<(u64, T)>)
        ensures
            forall|k: u64| #[trigger]
                Dict::<T>::map_of(s).contains_key(k) <==> exists|i: int|
                    0 <= i < s.len() && s[i].0 == k,
        decreases s.len(),
    {
        if s.len() == 0 {
        } else {
            Dict::<T>::lemma_dom(s.drop_last());
            assert forall|k: u64| #[trigger]
                Dict::<T>::map_of(s).contains_key(k) implies exists|i: int|
                0 <= i < s.len() && s[i].0 == k by {
                if s.last().0 == k {
                    assert(s[s.len() - 1].0 == k);
                } else {
                    assert(Dict::<T>::map_of(s.drop_last()).contains_key(k));
                    let i = choose|i: int| 0 <= i < s.drop_last().len() && s.drop_last()[i].0 == k;
                    assert(s[i].0 == k);
                }
            };
            assert forall|k: u64|
                (exists|i: int| 0 <= i < s.len() && s[i].0 == k) implies #[trigger]
                Dict::<T>::map_of(s).contains_key(k) by {
                let i = choose|i: int| 0 <= i < s.len() && s[i].0 == k;
                if i == s.len() - 1 {
                } else {
                    assert(s.drop_last()[i].0 == k);
                    assert(Dict::<T>::map_of(s.drop_last()).contains_key(k));
                }
            };
        }
    }

    proof fn lemma_get(s: Seq<(u64, T)>, i: int)
        requires
            Dict::<T>::distinct_keys(s),
            0 <= i < s.len(),
        ensures
            Dict::<T>::map_of(s).contains_key(s[i].0),
            Dict::<T>::map_of(s)[s[i].0] == s[i].1,
        decreases s.len(),
    {
        if i == s.len() - 1 {
        } else {
            assert(s.drop_last()[i] == s[i]);
            Dict::<T>::lemma_get(s.drop_last(), i);
            assert(s.last().0 != s[i].0);
        }
    }

    proof fn lemma_remove_idx(s: Seq<(u64, T)>, i: int)
        requires
            Dict::<T>::distinct_keys(s),
            0 <= i < s.len(),
        ensures
            Dict::<T>::distinct_keys(s.remove(i)),
            Dict::<T>::map_of(s.remove(i)) == Dict::<T>::map_of(s).remove(s[i].0),
        decreases s.len(),
    {
        let r = s.remove(i);
        assert forall|a: int, b: int| 0 <= a < b < r.len() implies r[a].0 != r[b].0 by {
            if b < i {
                assert(r[a] == s[a] && r[b] == s[b]);
            } else if a < i {
                assert(r[a] == s[a] && r[b] == s[b + 1]);
            } else {
                assert(r[a] == s[a + 1] && r[b] == s[b + 1]);
            }
        };
        if i == s.len() - 1 {
            assert(s.remove(i) =~= s.drop_last());
            Dict::<T>::lemma_dom(s.drop_last());
            assert(!Dict::<T>::map_of(s.drop_last()).contains_key(s[i].0));
            assert(Dict::<T>::map_of(s.drop_last()) =~= Dict::<T>::map_of(s).remove(s[i].0));
        } else {
            assert(s.drop_last()[i] == s[i]);
            Dict::<T>::lemma_remove_idx(s.drop_last(), i);
            assert(s.remove(i).drop_last() =~= s.drop_last().remove(i));
            assert(s.remove(i).last() == s.last());
            assert(Dict::<T>::map_of(s.remove(i)) == Dict::<T>::map_of(
                s.drop_last().remove(i),
            ).insert(s.last().0, s.last().1));
            assert(s.last().0 != s[i].0);
            assert(Dict::<T>::map_of(s.drop_last()).remove(s[i].0).insert(s.last().0, s.last().1)
                =~= Dict::<T>::map_of(s).remove(s[i].0));
        }
    }

    /// The empty dictionary.
    pub fn new() -> (r: Dict<T>)
        ensures
            r@ == Map::<u64, T>::empty(),
            r.wf(),
    {
        Dict { entries: Vec::new() }
    }

    /// Whether `k` is present.
    #[verifier::loop_isolation(false)]
    pub fn contains_key(&self, k: u64) -> (r: bool)
        requires
            self.wf(),
        ensures
            r == self@.contains_key(k),
    {
        proof {
            Dict::<T>::lemma_dom(self.entries@);
        }
        let n = self.entries.len();
        let mut i: usize = 0;
        while i < n
            invariant
                n == self.entries.len(),
                forall|j: int| 0 <= j < i ==> self.entries@[j].0 != k,
            decreases n - i,
        {
            if self.entries[i].0 == k {
                return true;
            }
            i += 1;
        }
        false
    }

    /// Look `k` up.
    #[verifier::loop_isolation(false)]
    pub fn get(&self, k: u64) -> (r: Option<&T>)
        requires
            self.wf(),
        ensures
            match r {
                Some(v) => self@.contains_key(k) && *v == self@[k],
                None => !self@.contains_key(k),
            },
    {
        proof {
            Dict::<T>::lemma_dom(self.entries@);
        }
        let n = self.entries.len();
        let mut i: usize = 0;
        while i < n
            invariant
                self.wf(),
                n == self.entries.len(),
                forall|j: int| 0 <= j < i ==> self.entries@[j].0 != k,
            decreases n - i,
        {
            if self.entries[i].0 == k {
                proof {
                    Dict::<T>::lemma_get(self.entries@, i as int);
                }
                return Some(&self.entries[i].1);
            }
            i += 1;
        }
        None
    }

    /// Bind `k` to `v`, replacing any previous binding.
    #[verifier::loop_isolation(false)]
    pub fn insert(&mut self, k: u64, v: T)
        requires
            old(self).wf(),
        ensures
            final(self)@ == old(self)@.insert(k, v),
            final(self).wf(),
    {
        let ghost s0 = self.entries@;
        let n = self.entries.len();
        let mut i: usize = 0;
        while i < n
            invariant
                n == self.entries.len(),
                self.entries@ == s0,
                forall|j: int| 0 <= j < i ==> self.entries@[j].0 != k,
            decreases n - i,
        {
            if self.entries[i].0 == k {
                proof {
                    Dict::<T>::lemma_remove_idx(s0, i as int);
                }
                self.entries.remove(i);
                let ghost s1 = self.entries@;
                self.entries.push((k, v));
                proof {
                    assert(self.entries@.drop_last() =~= s1);
                    Dict::<T>::lemma_dom(s1);
                    assert(Dict::<T>::distinct_keys(self.entries@));
                    assert(Dict::<T>::map_of(self.entries@) =~= Dict::<T>::map_of(s0).insert(
                        k,
                        v,
                    ));
                }
                return ;
            }
            i += 1;
        }
        self.entries.push((k, v));
        proof {
            assert(self.entries@.drop_last() =~= s0);
            assert(Dict::<T>::distinct_keys(self.entries@));
            assert(Dict::<T>::map_of(self.entries@) =~= Dict::<T>::map_of(s0).insert(k, v));
        }
    }

    /// Remove the binding of `k`, returning its value if it was present.
    #[verifier::loop_isolation(false)]
    pub fn remove(&mut self, k: u64) -> (r: Option<T>)
        requires
            old(self).wf(),
        ensures
            final(self)@ == old(self)@.remove(k),
            final(self).wf(),
            match r {
                Some(v) => old(self)@.contains_key(k) && v == old(self)@[k],
                None => !old(self)@.contains_key(k),
            },
    {
        proof {
            Dict::<T>::lemma_dom(self.entries@);
        }
        let ghost s0 = self.entries@;
        let n = self.entries.len();
        let mut i: usize = 0;
        while i < n
            invariant
                self.wf(),
                n == self.entries.len(),
                self.entries@ == s0,
                forall|j: int| 0 <= j < i ==> self.entries@[j].0 != k,
            decreases n - i,
        {
            if self.entries[i].0 == k {
                proof {
                    Dict::<T>::lemma_get(s0, i as int);
                    Dict::<T>::lemma_remove_idx(s0, i as int);
                }
                let e = self.entries.remove(i);
                return Some(e.1);
            }
            i += 1;
        }
        proof {
            assert(!Dict::<T>::map_of(s0).contains_key(k));
            assert(Dict::<T>::map_of(s0) =~= Dict::<T>::map_of(s0).remove(k));
        }
        None
    }

    /// The subsequence of entries whose key occurs in `keys`.
    spec fn filter_keyset(s: Seq<(u64, T)>, keys: Seq<u64>) -> Seq<(u64, T)>
        decreases s.len(),
    {
        if s.len() == 0 {
            Seq::empty()
        } else if keys.contains(s.last().0) {
            Dict::<T>::filter_keyset(s.drop_last(), keys).push(s.last())
        } else {
            Dict::<T>::filter_keyset(s.drop_last(), keys)
        }
    }

    proof fn lemma_filter_keyset(s: Seq<(u64, T)>, keys: Seq<u64>)
        requires
            Dict::<T>::distinct_keys(s),
        ensures
            Dict::<T>::distinct_keys(Dict::<T>::filter_keyset(s, keys)),
            forall|k: u64| #[trigger]
                Dict::<T>::map_of(Dict::<T>::filter_keyset(s, keys)).contains_key(k)
                    <==> Dict::<T>::map_of(s).contains_key(k) && keys.contains(k),
            forall|k: u64| #[trigger]
                Dict::<T>::map_of(Dict::<T>::filter_keyset(s, keys)).contains_key(k)
                    ==> Dict::<T>::map_of(Dict::<T>::filter_keyset(s, keys))[k]
                    == Dict::<T>::map_of(s)[k],
        decreases s.len(),
    {
        if s.len() == 0 {
        } else {
            let dl = s.drop_last();
            let e = s.last();
            Dict::<T>::lemma_filter_keyset(dl, keys);
            let f = Dict::<T>::filter_keyset(s, keys);
            let fdl = Dict::<T>::filter_keyset(dl, keys);
            Dict::<T>::lemma_dom(dl);
            Dict::<T>::lemma_dom(fdl);
            if keys.contains(e.0) {
                assert(f == fdl.push(e));
                assert forall|a: int, b: int| 0 <= a < b < f.len() implies f[a].0 != f[b].0 by {
                    if b < f.len() - 1 {
                        assert(f[a] == fdl[a] && f[b] == fdl[b]);
                    } else {
                        assert(f[b] == e);
                        assert(fdl[a] == f[a]);
                        assert(Dict::<T>::map_of(fdl).contains_key(f[a].0));
                        assert(Dict::<T>::map_of(dl).contains_key(f[a].0));
                        let l = choose|l: int| 0 <= l < dl.len() && dl[l].0 == f[a].0;
                        assert(s[l] == dl[l]);
                        assert(s[l].0 != e.0);
                    }
                };
                assert(f.drop_last() =~= fdl);
                assert(Dict::<T>::map_of(f) == Dict::<T>::map_of(fdl).insert(e.0, e.1));
            } else {
                assert(f == fdl);
                assert forall|k: u64| #[trigger]
                    Dict::<T>::map_of(f).contains_key(k) implies Dict::<T>::map_of(
                    s,
                ).contains_key(k) && keys.contains(k) by {
                    assert(Dict::<T>::map_of(dl).contains_key(k));
                    let l = choose|l: int| 0 <= l < dl.len() && dl[l].0 == k;
                    assert(s[l].0 == k);
                    Dict::<T>::lemma_dom(s);
                };
            }
        }
    }

    /// Keep only the bindings whose key occurs in `keys`.
    #[verifier::loop_isolation(false)]
    #[verifier::rlimit(50)]
    pub fn retain_keys(&mut self, keys: &Vec<u64>)
        requires
            old(self).wf(),
        ensures
            final(self).wf(),
            forall|k: u64| #[trigger]
                final(self)@.contains_key(k) <==> old(self)@.contains_key(k) && keys@.contains(k),
            forall|k: u64| #[trigger]
                final(self)@.contains_key(k) ==> final(self)@[k] == old(self)@[k],
    {
        let ghost s0 = self.entries@;
        let mut kept: Vec<(u64, T)> = Vec::new();
        let mut src: Vec<(u64, T)> = Vec::new();
        core::mem::swap(&mut src, &mut self.entries);
        let mut done: usize = 0;
        let n = src.len();
        while done < n
            invariant
                n == s0.len(),
                done + src.len() == n,
                src@ == s0.subrange(done as int, n as int),
                kept@ == Dict::<T>::filter_keyset(s0.subrange(0, done as int), keys@),
            decreases n - done,
        {
            let e = src.remove(0);
            proof {
                assert(e == s0[done as int]);
                assert(src@ =~= s0.subrange(done as int + 1, n as int));
                assert(s0.subrange(0, done as int + 1).drop_last() =~= s0.subrange(
                    0,
                    done as int,
                ));
                assert(s0.subrange(0, done as int + 1).last() == e);
            }
            if contains_u64(keys, e.0) {
                kept.push(e);
            }
            done += 1;
        }
        self.entries = kept;
        proof {
            assert(s0.subrange(0, s0.len() as int) =~= s0);
            Dict::<T>::lemma_filter_keyset(s0, keys@);
        }
    }
}

/// Whether `v` holds the value `x`.
#[verifier::loop_isolation(false)]
pub fn contains_u64(v: &Vec<u64>, x: u64) -> (r: bool)
    ensures
        r == v@.contains(x),
{
    let n = v.len();
    let mut i: usize = 0;
    while i < n
        invariant
            n == v.len(),
            forall|j: int| 0 <= j < i ==> v@[j] != x,
        decreases n - i,
    {
        if v[i] == x {
            return true;
        }
        i += 1;
    }
    false
}

} // verus!
