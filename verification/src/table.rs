//! A table of rows keyed by id, each with a flag that says whether the row
//! has changed since it was last published.
use crate::entity::DefaultRow;
use std::collections::HashMap;
use std::collections::hash_map::Entry;
use vstd::prelude::*;
use vstd::std_specs::hash::*;
use vstd::std_specs::iter::IteratorSpec;

verus! {

broadcast use vstd::std_specs::hash::group_hash_axioms;

/// A row's wire form: what subscribers are sent for it.
pub trait ToProto: View {
    type Result: View;

    /// The wire form that belongs to a row's view.
    spec fn proto_of(row: Self::V) -> <Self::Result as View>::V;

    fn to_proto(&self) -> (proto: Self::Result)
        ensures
            proto@ == Self::proto_of(self@),
    ;
}

/// Rows by id. The flag beside a row is its dirty bit: set whenever the row
/// is stored or handed out for a change, cleared when the row is published.
pub struct IdData<T> {
    pub data: HashMap<u64, (T, bool)>,
}

impl<T: View> View for IdData<T> {
    type V = Map<u64, (T::V, bool)>;

    open spec fn view(&self) -> Map<u64, (T::V, bool)> {
        Map::new(
            |id: u64| self.data@.contains_key(id),
            |id: u64| (self.data@[id].0@, self.data@[id].1),
        )
    }
}

/// The ids whose rows are dirty.
pub open spec fn dirty_ids<V>(table: Map<u64, (V, bool)>) -> Set<u64> {
    Set::new(|id: u64| table.contains_key(id) && table[id].1)
}

/// The table with every dirty bit cleared.
pub open spec fn all_clean<V>(table: Map<u64, (V, bool)>) -> Map<u64, (V, bool)> {
    Map::new(|id: u64| table.contains_key(id), |id: u64| (table[id].0, false))
}

/// The rows of a table without their dirty bits: all of them, or only the
/// dirty ones.
pub open spec fn rows_of<V>(table: Map<u64, (V, bool)>, updated_only: bool) -> Map<u64, V> {
    Map::new(
        |id: u64| table.contains_key(id) && (table[id].1 || !updated_only),
        |id: u64| table[id].0,
    )
}

/// The views of the values of a map.
pub open spec fn proto_views<P: View>(protos: Map<u64, P>) -> Map<u64, P::V> {
    Map::new(|id: u64| protos.contains_key(id), |id: u64| protos[id]@)
}

/// The wire forms of rows, by id.
pub open spec fn protos_of<T: ToProto>(rows: Map<u64, T::V>) -> Map<u64, <T::Result as View>::V> {
    Map::new(|id: u64| rows.contains_key(id), |id: u64| T::proto_of(rows[id]))
}

/// The ids of a hash map, each once, in no particular order.
pub fn keys_of<T>(m: &HashMap<u64, T>) -> (ids: Vec<u64>)
    ensures
        ids@.no_duplicates(),
        ids@.to_set() == m@.dom(),
{
    let mut ids: Vec<u64> = Vec::new();
    for k in it: m.keys()
        invariant
            ids@ == it.seq().take(it.index()).unref(),
            it.seq() == m.keys().remaining(),
    {
        ids.push(*k);
    }
    assert(ids@ == m.keys().remaining().unref());
    ids
}

impl<T: View> IdData<T> {
    pub fn new() -> (table: IdData<T>)
        ensures
            table@ == Map::<u64, (T::V, bool)>::empty(),
    {
        let table = IdData { data: HashMap::new() };
        assert(table@ =~= Map::<u64, (T::V, bool)>::empty());
        table
    }

    /// Stores a row under `id`, replacing the row that was there, and marks
    /// it dirty.
    pub fn insert(&mut self, id: u64, data: T)
        ensures
            final(self)@ == old(self)@.insert(id, (data@, true)),
    {
        self.data.insert(id, (data, true));
        assert(self@ =~= old(self)@.insert(id, (data@, true)));
    }

    /// The row under `id`; its dirty bit stays as it is.
    pub fn get(&self, id: u64) -> (row: Option<&T>)
        ensures
            match row {
                Some(r) => self@.contains_key(id) && r@ == self@[id].0,
                None => !self@.contains_key(id),
            },
    {
        match self.data.get(&id) {
            Some(slot) => Some(&slot.0),
            None => None,
        }
    }

    pub fn contains(&self, id: u64) -> (found: bool)
        ensures
            found == self@.contains_key(id),
    {
        self.data.contains_key(&id)
    }

    pub fn is_dirty(&self, id: u64) -> (dirty: bool)
        ensures
            dirty == (self@.contains_key(id) && self@[id].1),
    {
        match self.data.get(&id) {
            Some(slot) => slot.1,
            None => false,
        }
    }

    pub fn len(&self) -> (n: usize)
        ensures
            n == self@.dom().len(),
    {
        assert(self@.dom() =~= self.data@.dom());
        self.data.len()
    }

    /// The row under `id` for a change. The row is marked dirty, and whatever
    /// the caller writes through the reference is what the table holds.
    pub fn update(&mut self, id: u64) -> (row: Option<&mut T>)
        ensures
            match row {
                Some(r) => {
                    &&& old(self)@.contains_key(id)
                    &&& (*r)@ == old(self)@[id].0
                    &&& final(self)@ == old(self)@.insert(id, ((*final(r))@, true))
                },
                None => !old(self)@.contains_key(id) && final(self)@ == old(self)@,
            },
    {
        match self.data.entry(id) {
            Entry::Occupied(e) => {
                let slot = e.into_mut();
                slot.1 = true;
                let r = &mut slot.0;
                proof {
                    let after = old(self).data@.insert(id, (*final(r), true));
                    assert(Map::new(
                        |k: u64| after.contains_key(k),
                        |k: u64| (after[k].0@, after[k].1),
                    ) =~= old(self)@.insert(id, ((*final(r))@, true)));
                }
                Some(r)
            },
            Entry::Vacant(_) => None,
        }
    }

    /// Removes the row under `id`, if there is one.
    pub fn remove(&mut self, id: u64)
        ensures
            final(self)@ == old(self)@.remove(id),
    {
        self.data.remove(&id);
        assert(self@ =~= old(self)@.remove(id));
    }

    /// Clears the dirty bit of the row under `id`, if there is one.
    fn clear_dirty(&mut self, id: u64)
        ensures
            final(self)@ == if old(self)@.contains_key(id) {
                old(self)@.insert(id, (old(self)@[id].0, false))
            } else {
                old(self)@
            },
    {
        match self.data.entry(id) {
            Entry::Occupied(e) => {
                let slot = e.into_mut();
                slot.1 = false;
            },
            Entry::Vacant(_) => {},
        }
        assert(self@ =~= if old(self)@.contains_key(id) {
            old(self)@.insert(id, (old(self)@[id].0, false))
        } else {
            old(self)@
        });
    }

    /// The ids of the rows that are dirty, each once, in no particular order.
    /// Their dirty bits are cleared: the table is clean afterwards.
    pub fn since_last_update(&mut self) -> (ids: Vec<u64>)
        ensures
            ids@.no_duplicates(),
            ids@.to_set() == dirty_ids(old(self)@),
            final(self)@ == all_clean(old(self)@),
    {
        let all = self.all();
        let mut ids: Vec<u64> = Vec::new();
        let mut i: usize = 0;
        while i < all.len()
            invariant
                i <= all.len(),
                all@.no_duplicates(),
                all@.to_set() == old(self)@.dom(),
                self@.dom() == old(self)@.dom(),
                forall|id: u64| #[trigger]
                    self@.contains_key(id) ==> self@[id].0 == old(self)@[id].0,
                forall|j: int| 0 <= j < i ==> !(#[trigger] self@[all@[j]]).1,
                forall|j: int|
                    i <= j < all.len() ==> (#[trigger] self@[all@[j]]).1 == old(self)@[all@[j]].1,
                ids@.no_duplicates(),
                forall|id: u64|
                    ids@.contains(id) <==> (exists|j: int|
                        0 <= j < i && all@[j] == id && old(self)@[id].1),
            decreases all.len() - i,
        {
            let id = all[i];
            assert(all@.to_set().contains(id));
            let ghost before = self@;
            if self.is_dirty(id) {
                self.clear_dirty(id);
                let ghost found = ids@;
                ids.push(id);
                assert forall|other: u64| ids@.contains(other) <==> (exists|j: int|
                    0 <= j < i + 1 && all@[j] == other && old(self)@[other].1) by {
                    if ids@.contains(other) {
                        let k = choose|k: int| 0 <= k < ids@.len() && ids@[k] == other;
                        if k < found.len() {
                            assert(found.contains(other));
                        } else {
                            assert(all@[i as int] == other);
                        }
                    }
                    if exists|j: int| 0 <= j < i + 1 && all@[j] == other && old(self)@[other].1 {
                        let j = choose|j: int|
                            0 <= j < i + 1 && all@[j] == other && old(self)@[other].1;
                        if j < i {
                            assert(found.contains(other));
                            let k = choose|k: int| 0 <= k < found.len() && found[k] == other;
                            assert(ids@[k] == other);
                        } else {
                            assert(ids@[found.len() as int] == other);
                        }
                    }
                }
                assert(ids@.no_duplicates()) by {
                    if found.contains(id) {
                        let j = choose|j: int| 0 <= j < i && all@[j] == id && old(self)@[id].1;
                        assert(all@[j] == all@[i as int]);
                    }
                }
            }
            assert forall|j: int| 0 <= j < i + 1 implies !(#[trigger] self@[all@[j]]).1 by {
                if j < i {
                    assert(!before[all@[j]].1);
                }
            }
            assert forall|j: int| i + 1 <= j < all.len() implies (#[trigger] self@[all@[j]]).1
                == old(self)@[all@[j]].1 by {
                assert(before[all@[j]].1 == old(self)@[all@[j]].1);
            }
            i = i + 1;
        }
        proof {
            assert forall|id: u64| self@.contains_key(id) implies !(#[trigger] self@[id]).1 by {
                assert(all@.to_set().contains(id));
                let j = choose|j: int| 0 <= j < all@.len() && all@[j] == id;
                assert(!self@[all@[j]].1);
            }
            assert(self@ =~= all_clean(old(self)@));
            assert forall|id: u64| ids@.to_set().contains(id) <==> dirty_ids(old(self)@).contains(
                id,
            ) by {
                if dirty_ids(old(self)@).contains(id) {
                    assert(all@.to_set().contains(id));
                    let j = choose|j: int| 0 <= j < all@.len() && all@[j] == id;
                    assert(0 <= j < i && all@[j] == id && old(self)@[id].1);
                }
                if ids@.contains(id) {
                    let j = choose|j: int| 0 <= j < i && all@[j] == id && old(self)@[id].1;
                    assert(all@.to_set().contains(all@[j]));
                }
            }
            assert(ids@.to_set() =~= dirty_ids(old(self)@));
        }
        ids
    }

    /// Clears every dirty bit.
    pub fn mark_all_clean(&mut self)
        ensures
            final(self)@ == all_clean(old(self)@),
    {
        let _ = self.since_last_update();
    }

    /// The wire forms of the rows by id: of the dirty rows, whose dirty bits
    /// are then cleared, or of all rows, which leaves the table as it is.
    pub fn as_proto(&mut self, updated_only: bool) -> (protos: HashMap<u64, T::Result>) where
        T: ToProto,

        ensures
            proto_views(protos@) == protos_of::<T>(rows_of(old(self)@, updated_only)),
            final(self)@ == if updated_only {
                all_clean(old(self)@)
            } else {
                old(self)@
            },
    {
        let ids = if updated_only {
            self.since_last_update()
        } else {
            self.all()
        };
        let mut protos: HashMap<u64, T::Result> = HashMap::new();
        let mut i: usize = 0;
        proof {
            assert(ids@.to_set() =~= rows_of(old(self)@, updated_only).dom());
            assert forall|j: int| 0 <= j < ids.len() implies self@.contains_key(
                #[trigger] ids@[j],
            ) by {
                assert(ids@.to_set().contains(ids@[j]));
            }
        }
        while i < ids.len()
            invariant
                i <= ids.len(),
                ids@.to_set() == rows_of(old(self)@, updated_only).dom(),
                self@ == if updated_only {
                    all_clean(old(self)@)
                } else {
                    old(self)@
                },
                forall|j: int| 0 <= j < ids.len() ==> self@.contains_key(#[trigger] ids@[j]),
                forall|id: u64| #[trigger]
                    protos@.contains_key(id) <==> (exists|j: int| 0 <= j < i && ids@[j] == id),
                forall|id: u64| #[trigger]
                    protos@.contains_key(id) ==> protos@[id]@ == T::proto_of(self@[id].0),
            decreases ids.len() - i,
        {
            let id = ids[i];
            assert(self@.contains_key(ids@[i as int]));
            let ghost before = protos@;
            match self.get(id) {
                Some(row) => {
                    protos.insert(id, row.to_proto());
                },
                None => {},
            }
            assert forall|other: u64| #[trigger]
                protos@.contains_key(other) <==> (exists|j: int|
                    0 <= j < i + 1 && ids@[j] == other) by {
                if before.contains_key(other) {
                    let j = choose|j: int| 0 <= j < i && ids@[j] == other;
                    assert(0 <= j < i + 1 && ids@[j] == other);
                }
                if other == id {
                    assert(ids@[i as int] == other);
                }
            }
            i = i + 1;
        }
        proof {
            assert forall|id: u64| #[trigger]
                protos@.contains_key(id) <==> rows_of(old(self)@, updated_only).contains_key(
                    id,
                ) by {
                if protos@.contains_key(id) {
                    let j = choose|j: int| 0 <= j < i && ids@[j] == id;
                    assert(ids@.to_set().contains(ids@[j]));
                }
                if rows_of(old(self)@, updated_only).contains_key(id) {
                    assert(ids@.to_set().contains(id));
                    let j = choose|j: int| 0 <= j < ids@.len() && ids@[j] == id;
                    assert(0 <= j < i && ids@[j] == id);
                }
            }
            assert(proto_views(protos@) =~= protos_of::<T>(rows_of(old(self)@, updated_only)));
        }
        protos
    }

    /// The ids of all rows, each once, in no particular order.
    pub fn all(&self) -> (ids: Vec<u64>)
        ensures
            ids@.no_duplicates(),
            ids@.to_set() == self@.dom(),
    {
        assert(self@.dom() =~= self.data@.dom());
        keys_of(&self.data)
    }
}

impl<T: DefaultRow> IdData<T> {
    /// The row under `id` for a change, after storing default statistics
    /// there if the table had none. The row is marked dirty.
    pub fn update_or_default(&mut self, id: u64) -> (row: &mut T)
        ensures
            (*row)@ == if old(self)@.contains_key(id) {
                old(self)@[id].0
            } else {
                T::default_view()
            },
            final(self)@ == old(self)@.insert(id, ((*final(row))@, true)),
    {
        let slot = self.data.entry(id).or_insert((T::default_row(), true));
        slot.1 = true;
        let r = &mut slot.0;
        proof {
            let after = old(self).data@.insert(id, (*final(r), true));
            assert(Map::new(|k: u64| after.contains_key(k), |k: u64| (after[k].0@, after[k].1))
                =~= old(self)@.insert(id, ((*final(r))@, true)));
        }
        r
    }
}

} // verus!
