//! The dispatch table: position-keyed storage of registered menu-item
//! handlers, viewed as a finite map.

use vstd::prelude::*;

use crate::handler::MenuItemHandler;

verus! {

/// Key identifying one registered menu item: the native handle of the menu
/// the item was inserted into, together with the item's position in it.
#[derive(Clone, Copy, Debug, PartialEq, Eq, Structural)]
pub struct ItemKey {
    /// Native handle of the menu that reported the item.
    pub handle: usize,
    /// Zero-based position of the item within that menu.
    pub position: usize,
}

/// Data associated with one registered menu item.
pub struct MenuItemData<H> {
    /// The handler invoked when the item is selected.
    handler: H,
    /// How many times the handler has been invoked (specification only).
    calls: Ghost<nat>,
}

/// Mathematical image of one dispatch entry: the stored handler value and the
/// number of times it has been invoked.
pub struct EntryModel<H> {
    pub handler: H,
    pub calls: nat,
}

impl<H> MenuItemData<H> {
    /// The entry as its mathematical image.
    pub closed spec fn model(self) -> EntryModel<H> {
        EntryModel { handler: self.handler, calls: self.calls@ }
    }
}

/// The table of registered menu-item handlers for one menu hierarchy.
///
/// Entries are keyed by `(menu handle, item position)`; the table is viewed
/// in specifications as the finite map from keys to [`EntryModel`]s.
pub struct DispatchMap<H> {
    entries: Vec<(ItemKey, MenuItemData<H>)>,
}

impl<H> DispatchMap<H> {
    /// The map described by a sequence of key/data pairs; later pairs win.
    pub closed spec fn map_of(s: Seq<(ItemKey, MenuItemData<H>)>) -> Map<ItemKey, EntryModel<H>>
        decreases s.len(),
    {
        if s.len() == 0 {
            Map::empty()
        } else {
            Self::map_of(s.drop_last()).insert(s.last().0, s.last().1.model())
        }
    }

    /// No key occurs twice in the sequence.
    pub closed spec fn unique_keys(s: Seq<(ItemKey, MenuItemData<H>)>) -> bool {
        forall|i: int, j: int| 0 <= i < j < s.len() ==> (#[trigger] s[i]).0 != (#[trigger] s[j]).0
    }

    /// Well-formedness: no duplicate keys, and no key with a null handle.
    pub closed spec fn wf(self) -> bool {
        &&& Self::unique_keys(self.entries@)
        &&& forall|i: int| 0 <= i < self.entries@.len() ==> (#[trigger] self.entries@[i]).0.handle != 0
    }

    /// A key is in the map exactly when some pair of the sequence carries it.
    proof fn lemma_map_of_contains(s: Seq<(ItemKey, MenuItemData<H>)>, k: ItemKey)
        ensures
            Self::map_of(s).contains_key(k) <==> (exists|i: int| 0 <= i < s.len() && (#[trigger] s[i]).0 == k),
        decreases s.len(),
    {
        if s.len() == 0 {
        } else {
            let dl = s.drop_last();
            Self::lemma_map_of_contains(dl, k);
            if k == s.last().0 {
                assert((s[s.len() - 1]).0 == k);
            } else {
                if Self::map_of(s).contains_key(k) {
                    let i = choose|i: int| 0 <= i < dl.len() && (#[trigger] dl[i]).0 == k;
                    assert((s[i]).0 == k);
                }
                if exists|i: int| 0 <= i < s.len() && (#[trigger] s[i]).0 == k {
                    let i = choose|i: int| 0 <= i < s.len() && (#[trigger] s[i]).0 == k;
                    assert((dl[i]).0 == k);
                }
            }
        }
    }

    /// With unique keys, each pair's key maps to that pair's data.
    proof fn lemma_map_of_index(s: Seq<(ItemKey, MenuItemData<H>)>, i: int)
        requires
            Self::unique_keys(s),
            0 <= i < s.len(),
        ensures
            Self::map_of(s).contains_key(s[i].0),
            Self::map_of(s)[s[i].0] == s[i].1.model(),
        decreases s.len(),
    {
        let dl = s.drop_last();
        if i == s.len() - 1 {
        } else {
            assert(Self::unique_keys(dl));
            Self::lemma_map_of_index(dl, i);
            assert(s[i].0 != s.last().0);
        }
    }

    /// The map of a concatenation is the union, preferring the second part.
    proof fn lemma_map_of_concat(s1: Seq<(ItemKey, MenuItemData<H>)>, s2: Seq<(ItemKey, MenuItemData<H>)>)
        ensures
            Self::map_of(s1 + s2) == Self::map_of(s1).union_prefer_right(Self::map_of(s2)),
        decreases s2.len(),
    {
        if s2.len() == 0 {
            assert(s1 + s2 =~= s1);
            assert(Self::map_of(s1).union_prefer_right(Self::map_of(s2)) =~= Self::map_of(s1));
        } else {
            let dl = s2.drop_last();
            Self::lemma_map_of_concat(s1, dl);
            assert((s1 + s2).drop_last() =~= s1 + dl);
            assert((s1 + s2).last() == s2.last());
            assert(Self::map_of(s1).union_prefer_right(Self::map_of(dl)).insert(s2.last().0, s2.last().1.model())
                =~= Self::map_of(s1).union_prefer_right(Self::map_of(dl).insert(s2.last().0, s2.last().1.model())));
        }
    }

    /// Replacing the pair at `i` by one with the same key updates the map at
    /// that key alone.
    proof fn lemma_map_of_update(s: Seq<(ItemKey, MenuItemData<H>)>, i: int, e: (ItemKey, MenuItemData<H>))
        requires
            Self::unique_keys(s),
            0 <= i < s.len(),
            e.0 == s[i].0,
        ensures
            Self::map_of(s.update(i, e)) == Self::map_of(s).insert(e.0, e.1.model()),
        decreases s.len(),
    {
        let dl = s.drop_last();
        if i == s.len() - 1 {
            assert(s.update(i, e).drop_last() =~= dl);
            assert(Self::map_of(dl).insert(e.0, e.1.model())
                =~= Self::map_of(dl).insert(s[i].0, s[i].1.model()).insert(e.0, e.1.model()));
        } else {
            assert(Self::unique_keys(dl));
            Self::lemma_map_of_update(dl, i, e);
            assert(s.update(i, e).drop_last() =~= dl.update(i, e));
            assert(s.update(i, e).last() == s.last());
            assert(s[i].0 != s.last().0);
            assert(Self::map_of(dl).insert(e.0, e.1.model()).insert(s.last().0, s.last().1.model())
                =~= Self::map_of(dl).insert(s.last().0, s.last().1.model()).insert(e.0, e.1.model()));
        }
    }

    /// Create an empty dispatch table.
    pub fn new() -> (r: Self)
        ensures
            r.wf(),
            r@ == Map::<ItemKey, EntryModel<H>>::empty(),
    {
        DispatchMap { entries: Vec::new() }
    }

    /// Whether a handler is registered under `key`.
    pub fn contains_key(&self, key: ItemKey) -> (r: bool)
        ensures
            r == self@.contains_key(key),
    {
        proof {
            Self::lemma_map_of_contains(self.entries@, key);
        }
        let n = self.entries.len();
        let mut i: usize = 0;
        while i < n
            invariant
                n == self.entries@.len(),
                0 <= i <= n,
                forall|j: int| 0 <= j < i ==> (#[trigger] self.entries@[j]).0 != key,
            decreases n - i,
        {
            if self.entries[i].0 == key {
                proof {
                    assert(self.entries@[i as int].0 == key);
                    assert(exists|j: int| 0 <= j < self.entries@.len() && (#[trigger] self.entries@[j]).0 == key);
                    Self::lemma_map_of_contains(self.entries@, key);
                    assert(self@.contains_key(key));
                }
                return true;
            }
            i = i + 1;
        }
        false
    }

    /// Register `handler` under the fresh key `key`.
    pub fn insert(&mut self, key: ItemKey, handler: H)
        requires
            old(self).wf(),
            key.handle != 0,
            !old(self)@.contains_key(key),
        ensures
            final(self).wf(),
            final(self)@ == old(self)@.insert(key, (EntryModel { handler, calls: 0 })),
    {
        proof {
            Self::lemma_map_of_contains(self.entries@, key);
        }
        let data = MenuItemData { handler, calls: Ghost(0) };
        self.entries.push((key, data));
        proof {
            assert(self.entries@.drop_last() =~= old(self).entries@);
        }
    }

    /// Take over all entries of `other`, whose keys are disjoint from ours.
    pub fn merge(&mut self, other: Self)
        requires
            old(self).wf(),
            other.wf(),
            old(self)@.dom().disjoint(other@.dom()),
        ensures
            final(self).wf(),
            final(self)@ == old(self)@.union_prefer_right(other@),
    {
        let mut moved = other;
        self.entries.append(&mut moved.entries);
        proof {
            let s1 = old(self).entries@;
            let s2 = other.entries@;
            assert(self.entries@ =~= s1 + s2);
            Self::lemma_map_of_concat(s1, s2);
            assert forall|i: int, j: int| 0 <= i < j < (s1 + s2).len() implies ((s1 + s2)[i]).0 != ((s1 + s2)[j]).0 by {
                if i < s1.len() && j >= s1.len() {
                    Self::lemma_map_of_index(s1, i);
                    Self::lemma_map_of_index(s2, j - s1.len());
                    assert(old(self)@.contains_key(s1[i].0));
                    assert(other@.contains_key(s2[j - s1.len()].0));
                }
            }
        }
    }
}

impl<H: MenuItemHandler> DispatchMap<H> {
    /// Invoke the handler registered under `key`, if any; reports whether one
    /// was found.  Exactly the found entry's handler is invoked, exactly once;
    /// every other entry is left unchanged.
    ///
    /// That the handler really ran is part of the contract: on success there
    /// is a completed `invoke` call whose receiver started as the stored
    /// handler and ended as the handler now stored under the key.
    pub fn invoke(&mut self, key: ItemKey) -> (r: bool)
        requires
            old(self).wf(),
        ensures
            final(self).wf(),
            r == old(self)@.contains_key(key),
            !r ==> *final(self) == *old(self),
            final(self)@.dom() == old(self)@.dom(),
            r ==> final(self)@[key].calls == old(self)@[key].calls + 1,
            r ==> (exists|x: &mut H|
                call_ensures(H::invoke, (x,), ())
                && mut_ref_current(x) == old(self)@[key].handler
                && mut_ref_future(x) == final(self)@[key].handler),
            forall|k: ItemKey| k != key && old(self)@.contains_key(k)
                ==> final(self)@[k] == old(self)@[k],
    {
        proof {
            Self::lemma_map_of_contains(self.entries@, key);
        }
        let n = self.entries.len();
        let mut i: usize = 0;
        while i < n
            invariant
                *self == *old(self),
                old(self).wf(),
                n == self.entries@.len(),
                0 <= i <= n,
                forall|j: int| 0 <= j < i ==> (#[trigger] self.entries@[j]).0 != key,
            decreases n - i,
        {
            if self.entries[i].0 == key {
                proof {
                    assert(self.entries@[i as int].0 == key);
                    Self::lemma_map_of_index(self.entries@, i as int);
                }
                let mut entry = self.entries.remove(i);
                entry.1.handler.invoke();
                entry.1.calls = Ghost(entry.1.calls@ + 1);
                let ghost new_entry = entry;
                self.entries.insert(i, entry);
                proof {
                    assert(self.entries@ =~= old(self).entries@.update(i as int, new_entry));
                    Self::lemma_map_of_update(old(self).entries@, i as int, new_entry);
                    assert(self@.dom() =~= old(self)@.dom());
                }
                return true;
            }
            i = i + 1;
        }
        false
    }
}

impl<H> View for DispatchMap<H> {
    type V = Map<ItemKey, EntryModel<H>>;

    closed spec fn view(&self) -> Map<ItemKey, EntryModel<H>> {
        Self::map_of(self.entries@)
    }
}

} // verus!
