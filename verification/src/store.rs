use crate::entity::Entity;
use crate::entity::EntityId;
use vstd::prelude::*;

verus! {

/// The view of an entity's identifier.
pub type Key<T> = <<T as Entity>::Id as View>::V;

/// A mapping from identifier to instance, such as a resource actor owns.
///
/// Its view is a map from the identifiers' views to the instances' views.
pub struct Store<K: EntityId, V: View> {
    ids: Vec<K>,
    items: Vec<V>,
}

impl<K: EntityId, V: View> Store<K, V> {
    /// Each identifier has its instance, and none is filed twice.
    pub closed spec fn wf(&self) -> bool {
        &&& self.ids.len() == self.items.len()
        &&& forall|i: int, j: int|
            0 <= i < j < self.ids.len() ==> (#[trigger] self.ids[i])@ != (#[trigger] self.ids[j])@
    }

    /// Whether slot `i` files the key `k`.
    pub closed spec fn files(&self, i: int, k: K::V) -> bool {
        0 <= i < self.ids.len() && self.ids[i]@ == k
    }

    /// The contents: which instance is filed under which identifier.
    pub closed spec fn view(&self) -> Map<K::V, V::V> {
        Map::new(
            |k: K::V| exists|i: int| self.files(i, k),
            |k: K::V| self.items[choose|i: int| self.files(i, k)]@,
        )
    }

    /// What place `i` files is what the store holds under that identifier.
    proof fn lemma_slot(&self, i: int)
        requires
            self.wf(),
            0 <= i < self.ids.len(),
        ensures
            self@.contains_key(self.ids[i]@),
            self@[self.ids[i]@] == self.items[i]@,
    {
        let k = self.ids[i]@;
        assert(self.files(i, k));
        let j = choose|j: int| self.files(j, k);
        if j < i {
            assert(self.ids[j]@ != self.ids[i]@);
        } else if i < j {
            assert(self.ids[i]@ != self.ids[j]@);
        }
    }

    /// An empty store.
    pub fn new() -> (r: Self)
        ensures
            r.wf(),
            r@ == Map::<K::V, V::V>::empty(),
    {
        let r = Store { ids: Vec::new(), items: Vec::new() };
        assert(r@ =~= Map::<K::V, V::V>::empty());
        r
    }

    /// The place that files `id`, if there is one.
    fn position(&self, id: &K) -> (r: Option<usize>)
        requires
            self.wf(),
        ensures
            match r {
                Some(i) => self.files(i as int, id@),
                None => !self@.contains_key(id@),
            },
    {
        let mut i: usize = 0;
        while i < self.ids.len()
            invariant
                i <= self.ids.len(),
                forall|j: int| 0 <= j < i ==> !self.files(j, id@),
            decreases self.ids.len() - i,
        {
            if self.ids[i].same(id) {
                return Some(i);
            }
            i += 1;
        }
        None
    }

    /// Whether an instance is filed under `id`.
    pub fn contains(&self, id: &K) -> (r: bool)
        requires
            self.wf(),
        ensures
            r == self@.contains_key(id@),
    {
        match self.position(id) {
            Some(i) => {
                proof {
                    self.lemma_slot(i as int);
                }
                true
            },
            None => false,
        }
    }

    /// The instance filed under `id`, if there is one.
    pub fn get(&self, id: &K) -> (r: Option<&V>)
        requires
            self.wf(),
        ensures
            match r {
                Some(item) => self@.contains_key(id@) && item@ == self@[id@],
                None => !self@.contains_key(id@),
            },
    {
        match self.position(id) {
            Some(i) => {
                proof {
                    self.lemma_slot(i as int);
                }
                Some(&self.items[i])
            },
            None => None,
        }
    }

    /// The instance filed under `id`, to be changed in place.
    pub fn get_mut(&mut self, id: &K) -> (r: Option<&mut V>)
        requires
            old(self).wf(),
        ensures
            final(self).wf(),
            match r {
                Some(item) => {
                    &&& old(self)@.contains_key(id@)
                    &&& item@ == old(self)@[id@]
                    &&& final(self)@ == old(self)@.insert(id@, final(item)@)
                },
                None => !old(self)@.contains_key(id@) && final(self)@ == old(self)@,
            },
    {
        match self.position(id) {
            Some(i) => {
                proof {
                    self.lemma_slot(i as int);
                    assert forall|post: Self|
                        post.ids == self.ids && post.items@ == self.items@.update(
                            i as int,
                            post.items[i as int],
                        ) implies #[trigger] post.wf() && post@ == self@.insert(
                        id@,
                        post.items[i as int]@,
                    ) by {
                        Self::lemma_replaced(*self, post, i as int);
                    }
                }
                Some(&mut self.items[i])
            },
            None => None,
        }
    }

    /// Files `item` under `id`, in place of what was filed there.
    pub fn insert(&mut self, id: K, item: V)
        requires
            old(self).wf(),
        ensures
            final(self).wf(),
            final(self)@ == old(self)@.insert(id@, item@),
    {
        match self.position(&id) {
            Some(i) => {
                self.items.set(i, item);
                proof {
                    Self::lemma_replaced(*old(self), *self, i as int);
                }
            },
            None => {
                self.ids.push(id);
                self.items.push(item);
                proof {
                    Self::lemma_appended(*old(self), *self);
                }
            },
        }
    }

    /// Takes out what is filed under `id`, if anything is.
    pub fn remove(&mut self, id: &K) -> (r: Option<V>)
        requires
            old(self).wf(),
        ensures
            final(self).wf(),
            final(self)@ == old(self)@.remove(id@),
            match r {
                Some(item) => old(self)@.contains_key(id@) && item@ == old(self)@[id@],
                None => !old(self)@.contains_key(id@),
            },
    {
        match self.position(id) {
            Some(i) => {
                proof {
                    self.lemma_slot(i as int);
                }
                let _ = self.ids.swap_remove(i);
                let item = self.items.swap_remove(i);
                proof {
                    Self::lemma_removed(*old(self), *self, i as int);
                }
                Some(item)
            },
            None => {
                assert(self@.remove(id@) =~= self@);
                None
            },
        }
    }

    /// How many instances are filed.
    pub fn len(&self) -> (n: usize)
        requires
            self.wf(),
        ensures
            self@.dom().finite(),
            n == self@.len(),
            n == self.keys().len(),
    {
        proof {
            self.lemma_len();
        }
        self.ids.len()
    }

    /// Whether nothing is filed.
    pub fn is_empty(&self) -> (r: bool)
        requires
            self.wf(),
        ensures
            r == (self@ == Map::<K::V, V::V>::empty()),
    {
        proof {
            self.lemma_len();
            if self.ids.len() == 0 {
                assert(self@ =~= Map::<K::V, V::V>::empty());
            } else {
                self.lemma_slot(0);
            }
        }
        self.ids.len() == 0
    }

    /// The identifiers in the order in which the store lists them.
    pub closed spec fn keys(&self) -> Seq<K::V> {
        self.ids@.map_values(|id: K| id@)
    }

    /// The listing names each identifier of the store once, and no other.
    pub proof fn lemma_keys(&self)
        requires
            self.wf(),
        ensures
            self.keys().no_duplicates(),
            self@.dom().finite(),
            self.keys().len() == self@.len(),
            forall|k: K::V| self@.contains_key(k) <==> self.keys().contains(k),
    {
        self.lemma_len();
        let keys = self.keys();
        assert forall|k: K::V| self@.contains_key(k) <==> keys.contains(k) by {
            if self@.contains_key(k) {
                let i = choose|i: int| self.files(i, k);
                assert(keys[i] == k);
            }
            if keys.contains(k) {
                let i = choose|i: int| 0 <= i < keys.len() && keys[i] == k;
                assert(self.files(i, k));
            }
        }
    }

    /// The identifier and the instance at place `i` of the listing.
    pub fn entry(&self, i: usize) -> (r: (&K, &V))
        requires
            self.wf(),
            i < self.keys().len(),
        ensures
            r.0@ == self.keys()[i as int],
            self@.contains_key(r.0@),
            r.1@ == self@[r.0@],
    {
        proof {
            self.lemma_slot(i as int);
        }
        (&self.ids[i], &self.items[i])
    }

    /// The store holds as many instances as it has places.
    proof fn lemma_len(&self)
        requires
            self.wf(),
        ensures
            self@.dom().finite(),
            self@.len() == self.ids.len(),
    {
        let keys = self.keys();
        assert(keys.no_duplicates());
        assert forall|k: K::V| self@.dom().contains(k) == keys.to_set().contains(k) by {
            if self@.dom().contains(k) {
                let i = choose|i: int| self.files(i, k);
                assert(keys[i] == k);
            }
            if keys.to_set().contains(k) {
                let i = choose|i: int| 0 <= i < keys.len() && keys[i] == k;
                assert(self.files(i, k));
            }
        }
        assert(self@.dom() =~= keys.to_set());
        keys.unique_seq_to_set();
    }

    /// A new place at the end, for an identifier that was not filed, is an
    /// insertion.
    proof fn lemma_appended(pre: Self, post: Self)
        requires
            pre.wf(),
            post.ids@.len() == pre.ids@.len() + 1,
            post.items@.len() == pre.items@.len() + 1,
            post.ids@.drop_last() =~= pre.ids@,
            post.items@.drop_last() =~= pre.items@,
            !pre@.contains_key(post.ids@.last()@),
        ensures
            post.wf(),
            post@ == pre@.insert(post.ids@.last()@, post.items@.last()@),
    {
        let n = pre.ids.len() as int;
        let k = post.ids[n]@;
        assert forall|i: int| 0 <= i < n implies post.ids[i] == pre.ids[i] && post.items[i]
            == pre.items[i] by {
            assert(post.ids@.drop_last()[i] == pre.ids@[i]);
            assert(post.items@.drop_last()[i] == pre.items@[i]);
        }
        assert forall|i: int, j: int| 0 <= i < j < post.ids.len() implies (#[trigger] post.ids[i])@
            != (#[trigger] post.ids[j])@ by {
            if j == n {
                assert(pre.files(i, post.ids[i]@));
            } else {
                assert(pre.ids[i]@ != pre.ids[j]@);
            }
        }
        let target = pre@.insert(k, post.items[n]@);
        assert forall|q: K::V| #[trigger] post@.contains_key(q) == target.contains_key(q) by {
            if pre@.contains_key(q) {
                let j = choose|j: int| pre.files(j, q);
                assert(post.files(j, q));
            }
            if post@.contains_key(q) {
                let j = choose|j: int| post.files(j, q);
                if j < n {
                    assert(pre.files(j, q));
                }
            }
            assert(post.files(n, k));
        }
        assert forall|q: K::V| #[trigger] post@.contains_key(q) implies post@[q] == target[q] by {
            let j = choose|j: int| post.files(j, q);
            post.lemma_slot(j);
            if j < n {
                pre.lemma_slot(j);
            }
        }
        assert(post@ =~= target);
    }

    /// Moving the last place into place `i` removes what place `i` filed and
    /// nothing else.
    proof fn lemma_removed(pre: Self, post: Self, i: int)
        requires
            pre.wf(),
            0 <= i < pre.ids.len(),
            post.ids@ == pre.ids@.update(i, pre.ids@.last()).drop_last(),
            post.items@ == pre.items@.update(i, pre.items@.last()).drop_last(),
        ensures
            post.wf(),
            post@ == pre@.remove(pre.ids[i]@),
    {
        let n = pre.ids.len() as int;
        let k = pre.ids[i]@;
        // Slot `j` of `post` holds what slot `from(j)` of `pre` held.
        let from = |j: int| if j == i { n - 1 } else { j };
        assert forall|j: int| 0 <= j < n - 1 implies post.ids[j] == pre.ids[from(j)]
            && post.items[j] == pre.items[from(j)] by {}
        assert forall|a: int, b: int| 0 <= a < b < post.ids.len() implies (#[trigger] post.ids[a])@
            != (#[trigger] post.ids[b])@ by {
            let fa = from(a);
            let fb = from(b);
            if fa < fb {
                assert(pre.ids[fa]@ != pre.ids[fb]@);
            } else {
                assert(pre.ids[fb]@ != pre.ids[fa]@);
            }
        }
        let target = pre@.remove(k);
        assert forall|q: K::V| #[trigger] post@.contains_key(q) == target.contains_key(q) by {
            if target.contains_key(q) {
                let j = choose|j: int| pre.files(j, q);
                if j == n - 1 {
                    assert(post.files(i, q));
                } else {
                    assert(post.files(j, q));
                }
            }
            if post@.contains_key(q) {
                let j = choose|j: int| post.files(j, q);
                assert(pre.files(from(j), q));
                if q == k {
                    if from(j) < i {
                        assert(pre.ids[from(j)]@ != pre.ids[i]@);
                    } else {
                        assert(pre.ids[i]@ != pre.ids[from(j)]@);
                    }
                }
            }
        }
        assert forall|q: K::V| #[trigger] post@.contains_key(q) implies post@[q] == target[q] by {
            let j = choose|j: int| post.files(j, q);
            post.lemma_slot(j);
            pre.lemma_slot(from(j));
        }
        assert(post@ =~= target);
    }

    /// A new instance in place `i` is an insertion under the identifier of
    /// that place.
    proof fn lemma_replaced(pre: Self, post: Self, i: int)
        requires
            pre.wf(),
            0 <= i < pre.ids.len(),
            post.ids == pre.ids,
            post.items@ == pre.items@.update(i, post.items[i]),
        ensures
            post.wf(),
            post@ == pre@.insert(pre.ids[i]@, post.items[i]@),
    {
        let k = pre.ids[i]@;
        assert forall|q: K::V| #[trigger] post@.contains_key(q) == pre@.insert(k, post.items[i]@).contains_key(q) by {
            if pre@.contains_key(q) {
                let j = choose|j: int| pre.files(j, q);
                assert(post.files(j, q));
            }
            if post@.contains_key(q) {
                let j = choose|j: int| post.files(j, q);
                assert(pre.files(j, q));
            }
            pre.lemma_slot(i);
        }
        assert forall|q: K::V| #[trigger] post@.contains_key(q) implies post@[q] == pre@.insert(k, post.items[i]@)[q] by {
            let j = choose|j: int| post.files(j, q);
            post.lemma_slot(j);
            pre.lemma_slot(j);
        }
        assert(post@ =~= pre@.insert(k, post.items[i]@));
    }
}

} // verus!
