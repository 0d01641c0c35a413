use std::collections::{HashMap, VecDeque};
use std::sync::Arc;
use vstd::prelude::*;

verus! {

broadcast use vstd::std_specs::hash::group_hash_axioms;

/// Number of distinct 32-bit handles.
pub const HANDLE_SPACE: u64 = 0x1_0000_0000;

/// Why a handle could not be allocated.
#[derive(Debug, Clone, Copy, PartialEq, Eq, Structural)]
pub enum RegistryError {
    /// Every 32-bit handle names a live entry.
    HandleSpaceExhausted,
    /// Every registration token was issued.
    RegistrationsExhausted,
}

/// Store that maps 32-bit handles to shared payloads.
///
/// Fresh handles come from a monotonic counter; once the counter has gone
/// through the whole 32-bit space, handles released by `del` are reused,
/// the longest released first.
pub struct Registry<T> {
    store: HashMap<u32, Arc<T>>,
    next: u64,
    released: VecDeque<u32>,
}

impl<T> View for Registry<T> {
    type V = Map<u32, Arc<T>>;

    open spec fn view(&self) -> Map<u32, Arc<T>> {
        self.entries()
    }
}

/// The registry is full: every handle is live.
pub open spec fn all_live<T>(m: Map<u32, Arc<T>>) -> bool {
    forall|h: u32| #[trigger] m.contains_key(h)
}

/// `after` is `before` with one new entry, under handle `h`, which was not live.
pub open spec fn alloc_step<T>(before: Map<u32, Arc<T>>, h: u32, after: Map<u32, Arc<T>>) -> bool {
    &&& !before.contains_key(h)
    &&& after == before.insert(h, after[h])
}

impl<T> Registry<T> {
    /// The live entries, by handle.
    pub closed spec fn entries(&self) -> Map<u32, Arc<T>> {
        self.store@
    }

    /// Everything that decides how the registry behaves next: the live
    /// entries, the counter and the list of released handles.
    pub closed spec fn model(&self) -> (Map<u32, Arc<T>>, u64, Seq<u32>) {
        (self.store@, self.next, self.released@)
    }

    /// Handle that the next allocation takes while the counter has not run
    /// through the whole 32-bit space.
    pub closed spec fn counter(&self) -> u64 {
        self.next
    }

    /// `after` is what `del(id)` leaves of `before`.
    pub open spec fn del_step(before: Self, id: u32, after: Self) -> bool {
        &&& after@ == before@.remove(id)
        &&& after.counter() == before.counter()
        &&& !before@.contains_key(id) ==> after.model() == before.model()
    }

    /// Internal consistency of the counter, the free list and the store.
    pub closed spec fn wf(&self) -> bool {
        &&& self.next <= HANDLE_SPACE
        &&& forall|h: u32| #[trigger] self.store@.contains_key(h) ==> h < self.next
        &&& self.released@.no_duplicates()
        &&& forall|i: int|
            0 <= i < self.released@.len() ==> {
                &&& (#[trigger] self.released@[i]) < self.next
                &&& !self.store@.contains_key(self.released@[i])
            }
        &&& forall|h: u32|
            h < self.next && !(#[trigger] self.store@.contains_key(h)) ==> self.released@.contains(
                h,
            )
    }

    /// An empty registry.
    pub fn new() -> (r: Self)
        ensures
            r.wf(),
            r@ == Map::<u32, Arc<T>>::empty(),
            r.counter() == 0,
    {
        Registry { store: HashMap::new(), next: 0, released: VecDeque::new() }
    }

    /// Number of live entries.
    pub fn len(&self) -> (r: usize)
        ensures
            r == self@.len(),
    {
        self.store.len()
    }

    /// A snapshot of the live entries: each live handle once, with its payload.
    pub fn iter(&self) -> (r: Vec<(u32, &Arc<T>)>)
        ensures
            r@.len() == self@.len(),
            forall|i: int, j: int| 0 <= i < j < r@.len() ==> r@[i].0 != r@[j].0,
            forall|i: int|
                0 <= i < r@.len() ==> self@.contains_key(#[trigger] r@[i].0) && *r@[i].1
                    == self@[r@[i].0],
            forall|h: u32| #[trigger] self@.contains_key(h) ==> exists|i: int| 0 <= i < r@.len() && r@[i].0 == h,
    {
        let mut out: Vec<(u32, &Arc<T>)> = Vec::new();
        for (k, v) in it: self.store.iter()
            invariant
                out@.len() == it.index(),
                forall|i: int| 0 <= i < out@.len() ==> out@[i].0 == *it.seq()[i].0 && out@[i].1 == it.seq()[i].1,
                forall|i: int, j: int| 0 <= i < j < out@.len() ==> out@[i].0 != out@[j].0,
                it.seq().no_duplicates(),
                forall|i: int| 0 <= i < it.seq().len() ==> self.store@.contains_key(*(#[trigger] it.seq()[i]).0) && self.store@[*it.seq()[i].0] == *it.seq()[i].1,
        {
            proof {
                let n = out@.len() as int;
                assert forall|i: int| 0 <= i < n implies out@[i].0 != *k by {
                    if out@[i].0 == *k {
                        assert(it.seq()[i] == it.seq()[n]);
                    }
                }
            }
            out.push((*k, v));
        }
        out
    }

    /// Looks up the entry for `id`; `None` if no live entry has that handle.
    pub fn get(&self, id: u32) -> (r: Option<&Arc<T>>)
        ensures
            match r {
                Some(a) => self@.contains_key(id) && *a == self@[id],
                None => !self@.contains_key(id),
            },
    {
        self.store.get(&id)
    }

    /// Reserves a handle that no live entry has, builds the payload for it
    /// with `cb` and stores it. Returns the handle with the stored entry.
    ///
    /// Fails with `HandleSpaceExhausted` exactly when every handle is live;
    /// the registry is then left as it was.
    pub fn add<F: FnOnce(u32) -> T>(&mut self, cb: F) -> (r: Result<(u32, &Arc<T>), RegistryError>)
        requires
            old(self).wf(),
            forall|h: u32| cb.requires((h,)),
        ensures
            final(self).wf(),
            r is Err <==> all_live(old(self)@),
            old(self).counter() < HANDLE_SPACE ==> r is Ok,
            match r {
                Ok((h, a)) => {
                    &&& *a == final(self)@[h]
                    &&& alloc_step(old(self)@, h, final(self)@)
                    &&& cb.ensures((h,), *final(self)@[h])
                    &&& old(self).counter() < HANDLE_SPACE ==> h == old(self).counter()
                        && final(self).counter() == old(self).counter() + 1
                    &&& old(self).counter() == HANDLE_SPACE ==> final(self).counter() == HANDLE_SPACE
                },
                Err(e) => {
                    &&& e == RegistryError::HandleSpaceExhausted
                    &&& final(self)@ == old(self)@
                    &&& final(self).model() == old(self).model()
                },
            },
    {
        let id: u32;
        if self.next < HANDLE_SPACE {
            id = self.next as u32;
            self.next = self.next + 1;
            proof {
                assert forall|h: u32|
                    h < self.next && !(#[trigger] self.store@.contains_key(h)) && h != id implies self.released@.contains(h) by {
                    assert(h < old(self).next);
                }
            }
        } else {
            match self.released.pop_front() {
                Some(h) => {
                    id = h;
                    proof {
                        let rel = old(self).released@;
                        assert(rel[0] == id);
                        assert(self.released@ == rel.subrange(1, rel.len() as int));
                        assert forall|i: int| 0 <= i < self.released@.len() implies #[trigger] self.released@[i] != id by {
                            assert(self.released@[i] == rel[i + 1]);
                        }
                        assert forall|i: int, j: int| 0 <= i < j < self.released@.len() implies self.released@[i] != self.released@[j] by {
                            assert(self.released@[i] == rel[i + 1]);
                            assert(self.released@[j] == rel[j + 1]);
                        }
                        assert forall|i: int| 0 <= i < self.released@.len() implies (#[trigger] self.released@[i]) < self.next && !self.store@.contains_key(self.released@[i]) by {
                            assert(self.released@[i] == rel[i + 1]);
                        }
                        assert forall|h: u32|
                            h < self.next && !(#[trigger] self.store@.contains_key(h)) && h != id implies self.released@.contains(h) by {
                            let i = choose|i: int| 0 <= i < rel.len() && rel[i] == h;
                            assert(i != 0);
                            assert(self.released@[i - 1] == h);
                        }
                    }
                },
                None => {
                    proof {
                        assert forall|h: u32| #[trigger] self.store@.contains_key(h) by {
                            assert(h < HANDLE_SPACE);
                            if !self.store@.contains_key(h) {
                                assert(self.released@.contains(h));
                            }
                        }
                    }
                    return Err(RegistryError::HandleSpaceExhausted);
                },
            }
        }
        assert(!self.store@.contains_key(id));
        let t = cb(id);
        self.store.insert(id, Arc::new(t));
        proof {
            assert(self.store@[id] == t);
        }
        match self.store.get(&id) {
            Some(a) => Ok((id, a)),
            None => {
                assert(false);
                Err(RegistryError::HandleSpaceExhausted)
            },
        }
    }

    /// Removes the entry for `id`, if any. Removing an absent handle changes nothing.
    pub fn del(&mut self, id: u32)
        requires
            old(self).wf(),
        ensures
            final(self).wf(),
            Self::del_step(*old(self), id, *final(self)),
    {
        let removed = self.store.remove(&id);
        if removed.is_none() {
            assert(self.store@ =~= old(self).store@);
        } else {
            assert(!self.released@.contains(id));
            self.released.push_back(id);
            proof {
                assert forall|h: u32|
                    h < self.next && !(#[trigger] self.store@.contains_key(h)) implies self.released@.contains(h) by {
                    if h != id {
                        assert(old(self).released@.contains(h));
                        let i = choose|i: int| 0 <= i < old(self).released@.len() && old(self).released@[i] == h;
                        assert(self.released@[i] == h);
                    } else {
                        assert(self.released@[self.released@.len() - 1] == h);
                    }
                }
            }
        }
    }
}

} // verus!
