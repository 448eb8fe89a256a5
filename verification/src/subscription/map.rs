//! The table that leads from a subscription's identifier back to what it was made for.

use crate::error::{SocketError, SocketErrorView};
use crate::model::SubscriptionId;
use vstd::prelude::*;

verus! {

/// The table that results from entering `entries` one after the other, a later entry
/// replacing an earlier one with the same identifier.
pub open spec fn collect<T>(entries: Seq<(Seq<char>, T)>) -> Map<Seq<char>, T>
    decreases entries.len(),
{
    if entries.len() == 0 {
        Map::empty()
    } else {
        collect(entries.drop_last()).insert(entries.last().0, entries.last().1)
    }
}

/// Whether no two of `entries` have the same identifier.
pub open spec fn distinct_ids<T>(entries: Seq<(Seq<char>, T)>) -> bool {
    forall|i: int, j: int|
        0 <= i < j < entries.len() ==> (#[trigger] entries[i]).0 != (#[trigger] entries[j]).0
}

/// Entries as pairs of an identifier's text and a value.
pub open spec fn pairs_of<T>(entries: Seq<(SubscriptionId, T)>) -> Seq<(Seq<char>, T)> {
    entries.map_values(|entry: (SubscriptionId, T)| (entry.0@, entry.1))
}

/// The identifiers of `entries`.
pub open spec fn ids<T>(entries: Seq<(Seq<char>, T)>) -> Set<Seq<char>> {
    Set::new(
        |id: Seq<char>| exists|i: int| 0 <= i < entries.len() && (#[trigger] entries[i]).0 == id,
    )
}

/// The table made of some entries holds their identifiers and no others.
pub proof fn lemma_collect_dom<T>(entries: Seq<(Seq<char>, T)>)
    ensures
        collect(entries).dom() == ids(entries),
    decreases entries.len(),
{
    if entries.len() == 0 {
        assert(collect(entries).dom() =~= ids(entries));
    } else {
        let rest = entries.drop_last();
        lemma_collect_dom(rest);
        assert forall|id: Seq<char>| ids(entries).contains(id) <==> ids(rest).insert(
            entries.last().0,
        ).contains(id) by {
            if ids(entries).contains(id) {
                let i = choose|i: int| 0 <= i < entries.len() && (#[trigger] entries[i]).0 == id;
                if i < rest.len() {
                    assert(rest[i].0 == id);
                }
            }
            if ids(rest).contains(id) {
                let i = choose|i: int| 0 <= i < rest.len() && (#[trigger] rest[i]).0 == id;
                assert(entries[i].0 == id);
            }
            if id == entries.last().0 {
                assert(entries[entries.len() - 1].0 == id);
            }
        }
        assert(collect(entries).dom() =~= ids(entries));
    }
}

/// A table made of entries with identifiers of their own gives back, under the identifier
/// of each entry, the very value that was entered with it.
pub proof fn lemma_collect_finds_each_entry<T>(entries: Seq<(Seq<char>, T)>, i: int)
    requires
        distinct_ids(entries),
        0 <= i < entries.len(),
    ensures
        collect(entries).contains_key(entries[i].0),
        collect(entries)[entries[i].0] == entries[i].1,
    decreases entries.len(),
{
    let rest = entries.drop_last();
    if i < entries.len() - 1 {
        assert(distinct_ids(rest)) by {
            assert forall|a: int, b: int| 0 <= a < b < rest.len() implies (#[trigger] rest[a]).0
                != (#[trigger] rest[b]).0 by {
                assert(entries[a].0 != entries[b].0);
            }
        }
        lemma_collect_finds_each_entry(rest, i);
        assert(entries[i].0 != entries[entries.len() - 1].0);
    }
}

/// Whether `entries[i]` is the first entry under `id`.
spec fn is_first<T>(entries: Seq<(Seq<char>, T)>, i: int, id: Seq<char>) -> bool {
    &&& 0 <= i < entries.len()
    &&& entries[i].0 == id
    &&& forall|j: int| 0 <= j < i ==> (#[trigger] entries[j]).0 != id
}

/// The table that reads, for each identifier, the first entry under it.
spec fn lookup<T>(entries: Seq<(Seq<char>, T)>) -> Map<Seq<char>, T> {
    Map::new(
        |id: Seq<char>| exists|i: int| is_first(entries, i, id),
        |id: Seq<char>| entries[choose|i: int| is_first(entries, i, id)].1,
    )
}

/// An identifier has one first entry at most.
proof fn lemma_first_is_unique<T>(entries: Seq<(Seq<char>, T)>, i: int, j: int, id: Seq<char>)
    requires
        is_first(entries, i, id),
        is_first(entries, j, id),
    ensures
        i == j,
{
    if i < j {
        assert(entries[i].0 != id);
    }
    if j < i {
        assert(entries[j].0 != id);
    }
}

/// What [`lookup`] reads under an identifier whose first entry is known.
proof fn lemma_lookup_at<T>(entries: Seq<(Seq<char>, T)>, i: int, id: Seq<char>)
    requires
        is_first(entries, i, id),
    ensures
        lookup(entries).contains_key(id),
        lookup(entries)[id] == entries[i].1,
{
    let j = choose|j: int| is_first(entries, j, id);
    lemma_first_is_unique(entries, i, j, id);
}

/// Maps each [`SubscriptionId`] of a connection to a value of type `T`, most often the
/// instrument that the subscription was made for.
#[derive(Debug)]
pub struct SubscriptionMap<T> {
    entries: Vec<(SubscriptionId, T)>,
}

impl<T> View for SubscriptionMap<T> {
    type V = Map<Seq<char>, T>;

    closed spec fn view(&self) -> Map<Seq<char>, T> {
        lookup(self.pairs())
    }
}

impl<T> SubscriptionMap<T> {
    /// The entries as pairs of an identifier's text and a value.
    closed spec fn pairs(self) -> Seq<(Seq<char>, T)> {
        pairs_of(self.entries@)
    }

    /// The table without entries.
    pub fn new() -> (map: Self)
        ensures
            map@ == Map::<Seq<char>, T>::empty(),
    {
        let map = SubscriptionMap { entries: Vec::new() };
        assert(map@ =~= Map::<Seq<char>, T>::empty());
        map
    }

    /// Where the first entry under `id` is, if there is one.
    fn position(&self, id: &SubscriptionId) -> (position: Option<usize>)
        ensures
            match position {
                Some(i) => is_first(self.pairs(), i as int, id@),
                None => !self@.contains_key(id@),
            },
    {
        let mut i: usize = 0;
        while i < self.entries.len()
            invariant
                i <= self.entries.len(),
                forall|j: int| 0 <= j < i ==> (#[trigger] self.pairs()[j]).0 != id@,
            decreases self.entries.len() - i,
        {
            if self.entries[i].0.matches(id) {
                return Some(i);
            }
            i += 1;
        }
        assert(!self@.contains_key(id@)) by {
            if self@.contains_key(id@) {
                let j = choose|j: int| is_first(self.pairs(), j, id@);
                assert(self.pairs()[j].0 == id@);
            }
        }
        None
    }

    /// Whether anything is entered under `id`.
    pub fn contains(&self, id: &SubscriptionId) -> (found: bool)
        ensures
            found == self@.contains_key(id@),
    {
        match self.position(id) {
            Some(i) => {
                proof {
                    lemma_lookup_at(self.pairs(), i as int, id@);
                }
                true
            },
            None => false,
        }
    }

    /// Enters `value` under `id` and hands back what was entered under it before.
    pub fn insert(&mut self, id: SubscriptionId, value: T) -> (previous: Option<T>)
        ensures
            final(self)@ == old(self)@.insert(id@, value),
            previous == if old(self)@.contains_key(id@) {
                Some(old(self)@[id@])
            } else {
                None::<T>
            },
    {
        let ghost before = self.pairs();
        match self.position(&id) {
            Some(i) => {
                proof {
                    lemma_lookup_at(before, i as int, id@);
                }
                let ghost entered = value;
                let mut value = value;
                std::mem::swap(&mut self.entries[i].1, &mut value);
                proof {
                    assert(self.pairs() =~= before.update(i as int, (id@, entered)));
                    lemma_update_first(before, i as int, id@, entered);
                }
                Some(value)
            },
            None => {
                self.entries.push((id, value));
                proof {
                    assert(self.pairs() =~= before.push((id@, value)));
                    lemma_push_new(before, id@, value);
                }
                None
            },
        }
    }

    /// The value entered under `id`.
    ///
    /// Fails with [`SocketError::Unidentifiable`] if nothing is entered under `id`.
    pub fn find(&self, id: &SubscriptionId) -> (result: Result<T, SocketError>)
        where
            T: Clone,
        ensures
            match result {
                Ok(value) => self@.contains_key(id@) && cloned(self@[id@], value),
                Err(error) => !self@.contains_key(id@) && error@ == SocketErrorView::Unidentifiable(
                    id@,
                ),
            },
    {
        match self.position(id) {
            Some(i) => {
                proof {
                    lemma_lookup_at(self.pairs(), i as int, id@);
                }
                Ok(self.entries[i].1.clone())
            },
            None => Err(SocketError::Unidentifiable(id.clone())),
        }
    }
}

impl<T> SubscriptionMap<T> {
    /// The value entered under `id`, to be read or changed in place.
    ///
    /// Fails with [`SocketError::Unidentifiable`] if nothing is entered under `id`; the
    /// table is then as it was.
    pub fn find_mut(&mut self, id: &SubscriptionId) -> (result: Result<&mut T, SocketError>)
        ensures
            match result {
                Ok(value) => {
                    &&& old(self)@.contains_key(id@)
                    &&& *value == old(self)@[id@]
                    &&& final(self)@ == old(self)@.insert(id@, *final(value))
                },
                Err(error) => {
                    &&& !old(self)@.contains_key(id@)
                    &&& error@ == SocketErrorView::Unidentifiable(id@)
                    &&& final(self)@ == old(self)@
                },
            },
    {
        match self.position(id) {
            Some(i) => {
                proof {
                    let before = self.entries@;
                    lemma_lookup_at(pairs_of(before), i as int, id@);
                    assert forall|after: Seq<(SubscriptionId, T)>|
                        after == before.update(i as int, (before[i as int].0, after[i as int].1))
                        implies lookup(#[trigger] pairs_of(after)) == lookup(
                        pairs_of(before),
                    ).insert(id@, after[i as int].1) by {
                        assert(pairs_of(after) =~= pairs_of(before).update(
                            i as int,
                            (id@, after[i as int].1),
                        ));
                        lemma_update_first(pairs_of(before), i as int, id@, after[i as int].1);
                    }
                }
                Ok(&mut self.entries[i].1)
            },
            None => Err(SocketError::Unidentifiable(id.clone())),
        }
    }

    /// The table that results from entering `entries` one after the other, a later entry
    /// replacing an earlier one with the same identifier.
    pub fn from_iter(entries: Vec<(SubscriptionId, T)>) -> (map: Self)
        ensures
            map@ == collect(pairs_of(entries@)),
    {
        let ghost source = entries@;
        let mut map = SubscriptionMap::new();
        for entry in it: entries
            invariant
                it.seq() == source,
                map@ == collect(pairs_of(source.take(it.index() as int))),
        {
            proof {
                let k = it.index() as int;
                let next = pairs_of(source.take(k + 1));
                assert(next.drop_last() =~= pairs_of(source.take(k)));
                assert(next.last() == (entry.0@, entry.1));
            }
            map.insert(entry.0, entry.1);
        }
        assert(source.take(source.len() as int) =~= source);
        map
    }
}

/// Replacing the value of an identifier's first entry replaces what is read under it.
proof fn lemma_update_first<T>(entries: Seq<(Seq<char>, T)>, i: int, id: Seq<char>, value: T)
    requires
        is_first(entries, i, id),
    ensures
        lookup(entries.update(i, (id, value))) == lookup(entries).insert(id, value),
{
    let after = entries.update(i, (id, value));
    assert forall|key: Seq<char>, j: int| is_first(after, j, key) <==> is_first(
        entries,
        j,
        key,
    ) by {
        if is_first(entries, j, key) {
            assert forall|k: int| 0 <= k < j implies (#[trigger] after[k]).0 != key by {
                assert(entries[k].0 != key);
            }
        }
        if is_first(after, j, key) {
            assert forall|k: int| 0 <= k < j implies (#[trigger] entries[k]).0 != key by {
                assert(after[k].0 != key);
            }
        }
    }
    lemma_lookup_at(entries, i, id);
    assert forall|key: Seq<char>| #[trigger]
        lookup(after).contains_key(key) implies lookup(after)[key] == lookup(entries).insert(
        id,
        value,
    )[key] by {
        let j = choose|j: int| is_first(after, j, key);
        lemma_lookup_at(entries, j, key);
        lemma_lookup_at(after, j, key);
        if key == id {
            lemma_first_is_unique(entries, i, j, key);
        }
    }
    assert(lookup(after) =~= lookup(entries).insert(id, value));
}

/// An entry under an identifier that has none yet adds to what is read, and changes
/// nothing of it.
proof fn lemma_push_new<T>(entries: Seq<(Seq<char>, T)>, id: Seq<char>, value: T)
    requires
        !lookup(entries).contains_key(id),
    ensures
        lookup(entries.push((id, value))) == lookup(entries).insert(id, value),
{
    let after = entries.push((id, value));
    assert(is_first(after, after.len() - 1, id)) by {
        assert forall|k: int| 0 <= k < after.len() - 1 implies (#[trigger] after[k]).0 != id by {
            if after[k].0 == id {
                lemma_has_first(entries, k, id);
            }
        }
    }
    lemma_lookup_at(after, after.len() - 1, id);
    assert forall|key: Seq<char>, j: int| key != id implies (is_first(after, j, key) <==> is_first(
        entries,
        j,
        key,
    )) by {
        if is_first(entries, j, key) {
            assert forall|k: int| 0 <= k < j implies (#[trigger] after[k]).0 != key by {
                assert(entries[k].0 != key);
            }
        }
        if is_first(after, j, key) {
            assert forall|k: int| 0 <= k < j implies (#[trigger] entries[k]).0 != key by {
                assert(after[k].0 != key);
            }
        }
    }
    assert forall|key: Seq<char>| #[trigger]
        lookup(after).contains_key(key) implies lookup(after)[key] == lookup(entries).insert(
        id,
        value,
    )[key] by {
        if key != id {
            let j = choose|j: int| is_first(after, j, key);
            lemma_lookup_at(entries, j, key);
            lemma_lookup_at(after, j, key);
        }
    }
    assert(lookup(after) =~= lookup(entries).insert(id, value));
}

/// An identifier that some entry has, has a first entry.
proof fn lemma_has_first<T>(entries: Seq<(Seq<char>, T)>, i: int, id: Seq<char>)
    requires
        0 <= i < entries.len(),
        entries[i].0 == id,
    ensures
        lookup(entries).contains_key(id),
    decreases i,
{
    if forall|j: int| 0 <= j < i ==> (#[trigger] entries[j]).0 != id {
        assert(is_first(entries, i, id));
    } else {
        let j = choose|j: int| 0 <= j < i && (#[trigger] entries[j]).0 == id;
        lemma_has_first(entries, j, id);
    }
}

} // verus!
