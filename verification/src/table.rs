//! A small map: at most one value for each key.
use vstd::prelude::*;

verus! {

/// A key of a [`Table`]: values that can be told apart by an identity.
pub trait TableKey: Sized {
    /// The identity of a key.
    type Id;

    /// The identity of this key.
    spec fn id(&self) -> Self::Id;

    /// Whether two keys have the same identity.
    fn same(&self, other: &Self) -> (r: bool)
        ensures
            r == (self.id() == other.id()),
    ;
}

/// A map from keys to values. Its view is a map from the identities of the keys.
pub struct Table<K, V> {
    entries: Vec<(K, V)>,
}

/// Whether no two entries have the same identity.
pub closed spec fn distinct<K: TableKey, V>(entries: Seq<(K, V)>) -> bool {
    forall|i: int, j: int|
        0 <= i < j < entries.len() ==> (#[trigger] entries[i]).0.id() != (
        #[trigger] entries[j]).0.id()
}

/// Whether the entries `kept` are those of `whole` from position `from` on that `keep` accepts.
closed spec fn sifted<K, V, F: Fn(&V) -> bool>(
    whole: Seq<(K, V)>,
    from: int,
    kept: Seq<(K, V)>,
    keep: F,
) -> bool {
    &&& forall|j: int| 0 <= j < kept.len() ==> came_from(whole, from, #[trigger] kept[j], keep)
    &&& forall|i: int|
        from <= i < whole.len() ==> kept.contains(#[trigger] whole[i]) || call_ensures(
            keep,
            (&whole[i].1,),
            false,
        )
}

/// Whether the entry is one of `whole` from position `from` on, and `keep` accepts it.
closed spec fn came_from<K, V, F: Fn(&V) -> bool>(
    whole: Seq<(K, V)>,
    from: int,
    entry: (K, V),
    keep: F,
) -> bool {
    call_ensures(keep, (&entry.1,), true) && exists|i: int|
        from <= i < whole.len() && #[trigger] whole[i] == entry
}

/// The position of the entry of identity `id`.
pub closed spec fn entry_at<K: TableKey, V>(entries: Seq<(K, V)>, id: K::Id, i: int) -> bool {
    0 <= i < entries.len() && entries[i].0.id() == id
}

/// The map that a sequence of entries stands for.
pub closed spec fn mapped<K: TableKey, V>(entries: Seq<(K, V)>) -> Map<K::Id, V> {
    Map::new(
        |id: K::Id| exists|i: int| entry_at(entries, id, i),
        |id: K::Id| entries[choose|i: int| entry_at(entries, id, i)].1,
    )
}

impl<K: TableKey, V> View for Table<K, V> {
    type V = Map<K::Id, V>;

    closed spec fn view(&self) -> Map<K::Id, V> {
        mapped(self.entries@)
    }
}

proof fn lemma_mapped_at<K: TableKey, V>(entries: Seq<(K, V)>, i: int)
    requires
        distinct(entries),
        0 <= i < entries.len(),
    ensures
        mapped(entries).contains_key(entries[i].0.id()),
        mapped(entries)[entries[i].0.id()] == entries[i].1,
{
    let id = entries[i].0.id();
    assert(entry_at(entries, id, i));
    let k = choose|k: int| entry_at(entries, id, k);
    assert(entry_at(entries, id, k));
    if k < i {
        assert(entries[k].0.id() != entries[i].0.id());
    } else if i < k {
        assert(entries[i].0.id() != entries[k].0.id());
    }
}

proof fn lemma_mapped_none<K: TableKey, V>(entries: Seq<(K, V)>, id: K::Id)
    requires
        forall|i: int| 0 <= i < entries.len() ==> (#[trigger] entries[i]).0.id() != id,
    ensures
        !mapped(entries).contains_key(id),
{
    if mapped(entries).contains_key(id) {
        let i = choose|i: int| entry_at(entries, id, i);
        assert(entry_at(entries, id, i));
    }
}

impl<K: TableKey, V> Table<K, V> {
    /// Whether the table holds at most one entry for each key.
    pub closed spec fn wf(&self) -> bool {
        distinct(self.entries@)
    }

    /// An empty table.
    pub fn new() -> (r: Self)
        ensures
            r.wf(),
            r@ == Map::<K::Id, V>::empty(),
    {
        let r = Table { entries: Vec::new() };
        assert(r@ =~= Map::<K::Id, V>::empty()) by {
            assert forall|id: K::Id| !r@.contains_key(id) by {
                lemma_mapped_none(r.entries@, id);
            }
        }
        r
    }

    /// The number of entries.
    pub fn len(&self) -> (n: usize)
        requires
            self.wf(),
        ensures
            self@.dom().finite(),
            n == self@.len(),
    {
        proof {
            lemma_mapped_len(self.entries@);
        }
        self.entries.len()
    }

    /// The position of the entry of a key.
    fn position(&self, key: &K) -> (r: Option<usize>)
        ensures
            match r {
                Some(i) => i < self.entries@.len() && self.entries@[i as int].0.id() == key.id(),
                None => forall|i: int|
                    0 <= i < self.entries@.len() ==> (#[trigger] self.entries@[i]).0.id()
                        != key.id(),
            },
    {
        let n: usize = self.entries.len();
        let mut i: usize = 0;
        while i < n
            invariant
                i <= n == self.entries@.len(),
                forall|j: int|
                    0 <= j < i ==> (#[trigger] self.entries@[j]).0.id() != key.id(),
            decreases n - i,
        {
            if self.entries[i].0.same(key) {
                return Some(i);
            }
            i += 1;
        }
        None
    }

    /// The value of a key.
    pub fn get(&self, key: &K) -> (r: Option<&V>)
        requires
            self.wf(),
        ensures
            match r {
                Some(v) => self@.contains_key(key.id()) && *v == self@[key.id()],
                None => !self@.contains_key(key.id()),
            },
    {
        match self.position(key) {
            Some(i) => {
                proof {
                    lemma_mapped_at(self.entries@, i as int);
                }
                Some(&self.entries[i].1)
            },
            None => {
                proof {
                    lemma_mapped_none(self.entries@, key.id());
                }
                None
            },
        }
    }

    /// Takes the entry of a key out of the table.
    pub fn remove(&mut self, key: &K) -> (r: Option<V>)
        requires
            old(self).wf(),
        ensures
            final(self).wf(),
            final(self)@ == old(self)@.remove(key.id()),
            match r {
                Some(v) => old(self)@.contains_key(key.id()) && v == old(self)@[key.id()],
                None => !old(self)@.contains_key(key.id()),
            },
    {
        let ghost before = self.entries@;
        match self.position(key) {
            Some(i) => {
                proof {
                    lemma_mapped_at(before, i as int);
                }
                let entry = self.entries.remove(i);
                proof {
                    let after = self.entries@;
                    assert(after =~= before.remove(i as int));
                    assert(distinct(after)) by {
                        assert forall|a: int, b: int| 0 <= a < b < after.len() implies (
                        #[trigger] after[a]).0.id() != (#[trigger] after[b]).0.id() by {
                            let x = if a < i {
                                a
                            } else {
                                a + 1
                            };
                            let y = if b < i {
                                b
                            } else {
                                b + 1
                            };
                            assert(after[a] == before[x] && after[b] == before[y]);
                        }
                    }
                    assert(mapped(after) =~= mapped(before).remove(key.id())) by {
                        assert forall|id: K::Id| true implies #[trigger] mapped(
                            after,
                        ).contains_key(id) == mapped(before).remove(key.id()).contains_key(id) && (
                        mapped(after).contains_key(id) ==> mapped(after)[id] == mapped(before)[id])
                            by {
                            lemma_remove_at(before, i as int, id);
                        }
                    }
                }
                Some(entry.1)
            },
            None => {
                proof {
                    lemma_mapped_none(before, key.id());
                    assert(mapped(before) =~= mapped(before).remove(key.id()));
                }
                None
            },
        }
    }

    /// Sets the value of a key, and returns the one that it replaces.
    pub fn insert(&mut self, key: K, value: V) -> (r: Option<V>)
        requires
            old(self).wf(),
        ensures
            final(self).wf(),
            final(self)@ == old(self)@.insert(key.id(), value),
            match r {
                Some(v) => old(self)@.contains_key(key.id()) && v == old(self)@[key.id()],
                None => !old(self)@.contains_key(key.id()),
            },
    {
        let r = self.remove(&key);
        let ghost before = self.entries@;
        let ghost id = key.id();
        self.entries.push((key, value));
        proof {
            let after = self.entries@;
            assert(!mapped(before).contains_key(id));
            assert forall|i: int| 0 <= i < before.len() implies (#[trigger] before[i]).0.id()
                != id by {
                lemma_mapped_at(before, i);
            }
            assert(distinct(after));
            assert(mapped(after) =~= mapped(before).insert(id, value)) by {
                lemma_mapped_at(after, before.len() as int);
                assert forall|k: K::Id| k != id implies #[trigger] mapped(after).contains_key(k)
                    == mapped(before).contains_key(k) && (mapped(before).contains_key(k)
                    ==> mapped(after)[k] == mapped(before)[k]) by {
                    lemma_push_other(before, after.last(), k);
                }
            }
            assert(self@ =~= old(self)@.insert(id, value));
        }
        r
    }
}

impl<K: TableKey, V> Table<K, V> {
    /// Takes the entries out of the table whose value `keep` does not accept.
    pub fn retain<F: Fn(&V) -> bool>(&mut self, keep: F)
        requires
            old(self).wf(),
            forall|v: &V| #[trigger] call_requires(keep, (v,)),
        ensures
            final(self).wf(),
            forall|id: K::Id| #[trigger]
                final(self)@.contains_key(id) ==> old(self)@.contains_key(id) && final(self)@[id]
                    == old(self)@[id] && call_ensures(keep, (&old(self)@[id],), true),
            forall|id: K::Id| #[trigger]
                old(self)@.contains_key(id) && !final(self)@.contains_key(id) ==> call_ensures(
                    keep,
                    (&old(self)@[id],),
                    false,
                ),
    {
        let ghost before = self.entries@;
        let mut rest: Vec<(K, V)> = Vec::new();
        core::mem::swap(&mut rest, &mut self.entries);
        let mut kept: Vec<(K, V)> = Vec::new();
        while rest.len() > 0
            invariant
                forall|v: &V| #[trigger] call_requires(keep, (v,)),
                distinct(before),
                rest@.len() <= before.len(),
                rest@ =~= before.take(rest@.len() as int),
                kept@.len() + rest@.len() <= before.len(),
                distinct(kept@),
                sifted(before, rest@.len() as int, kept@, keep),
            decreases rest@.len(),
        {
            let ghost n = rest@.len() - 1;
            let ghost had = kept@;
            match rest.pop() {
                Some(entry) => {
                    assert(entry == before[n]);
                    assert forall|j: int| 0 <= j < had.len() implies came_from(
                        before,
                        n,
                        #[trigger] had[j],
                        keep,
                    ) by {
                        assert(came_from(before, n + 1, had[j], keep));
                    }
                    if keep(&entry.1) {
                        kept.push(entry);
                        proof {
                            let now = kept@;
                            assert(now =~= had.push(before[n]));
                            assert(came_from(before, n, before[n], keep));
                            assert forall|j: int| 0 <= j < now.len() implies came_from(
                                before,
                                n,
                                #[trigger] now[j],
                                keep,
                            ) by {
                                if j < had.len() {
                                    assert(now[j] == had[j]);
                                }
                            }
                            assert forall|i: int| n <= i < before.len() implies now.contains(
                                #[trigger] before[i],
                            ) || call_ensures(keep, (&before[i].1,), false) by {
                                if i == n {
                                    assert(now[had.len() as int] == before[n]);
                                } else if had.contains(before[i]) {
                                    let j = choose|j: int|
                                        0 <= j < had.len() && had[j] == before[i];
                                    assert(now[j] == before[i]);
                                }
                            }
                            assert forall|a: int, b: int| 0 <= a < b < now.len() implies (
                            #[trigger] now[a]).0.id() != (#[trigger] now[b]).0.id() by {
                                assert(now[a] == had[a]);
                                if b < had.len() {
                                    assert(now[b] == had[b]);
                                } else {
                                    assert(came_from(before, n + 1, had[a], keep));
                                    let i = choose|i: int|
                                        n + 1 <= i < before.len() && #[trigger] before[i]
                                            == had[a];
                                    assert(before[n].0.id() != before[i].0.id());
                                }
                            }
                        }
                    }
                },
                None => {},
            }
        }
        self.entries = kept;
        proof {
            let after = self.entries@;
            assert forall|id: K::Id| #[trigger] mapped(after).contains_key(id) implies mapped(
                before,
            ).contains_key(id) && mapped(after)[id] == mapped(before)[id] && call_ensures(
                keep,
                (&mapped(before)[id],),
                true,
            ) by {
                let j = choose|j: int| entry_at(after, id, j);
                assert(entry_at(after, id, j));
                lemma_mapped_at(after, j);
                assert(came_from(before, 0, after[j], keep));
                let i = choose|i: int| 0 <= i < before.len() && #[trigger] before[i] == after[j];
                lemma_mapped_at(before, i);
            }
            assert forall|id: K::Id| #[trigger]
                mapped(before).contains_key(id) && !mapped(after).contains_key(
                    id,
                ) implies call_ensures(keep, (&mapped(before)[id],), false) by {
                let i = choose|i: int| entry_at(before, id, i);
                assert(entry_at(before, id, i));
                lemma_mapped_at(before, i);
                if after.contains(before[i]) {
                    let j = choose|j: int| 0 <= j < after.len() && after[j] == before[i];
                    lemma_mapped_at(after, j);
                }
            }
        }
    }
}

proof fn lemma_remove_at<K: TableKey, V>(before: Seq<(K, V)>, i: int, id: K::Id)
    requires
        distinct(before),
        distinct(before.remove(i)),
        0 <= i < before.len(),
    ensures
        mapped(before.remove(i)).contains_key(id) <==> mapped(before).contains_key(id) && id
            != before[i].0.id(),
        mapped(before.remove(i)).contains_key(id) ==> mapped(before.remove(i))[id] == mapped(
            before,
        )[id],
{
    let after = before.remove(i);
    if mapped(after).contains_key(id) {
        let a = choose|a: int| entry_at(after, id, a);
        assert(entry_at(after, id, a));
        let x = if a < i {
            a
        } else {
            a + 1
        };
        assert(after[a] == before[x]);
        lemma_mapped_at(before, x);
        lemma_mapped_at(after, a);
        if x < i {
            assert(before[x].0.id() != before[i].0.id());
        } else {
            assert(before[i].0.id() != before[x].0.id());
        }
    }
    if mapped(before).contains_key(id) && id != before[i].0.id() {
        let x = choose|x: int| entry_at(before, id, x);
        assert(entry_at(before, id, x));
        let a = if x < i {
            x
        } else {
            x - 1
        };
        assert(after[a] == before[x]);
        lemma_mapped_at(after, a);
    }
}

proof fn lemma_push_other<K: TableKey, V>(before: Seq<(K, V)>, entry: (K, V), id: K::Id)
    requires
        distinct(before),
        distinct(before.push(entry)),
        id != entry.0.id(),
    ensures
        mapped(before.push(entry)).contains_key(id) <==> mapped(before).contains_key(id),
        mapped(before).contains_key(id) ==> mapped(before.push(entry))[id] == mapped(before)[id],
{
    let after = before.push(entry);
    if mapped(after).contains_key(id) {
        let a = choose|a: int| entry_at(after, id, a);
        assert(entry_at(after, id, a));
        assert(after[a] == before[a]);
        lemma_mapped_at(before, a);
    }
    if mapped(before).contains_key(id) {
        let x = choose|x: int| entry_at(before, id, x);
        assert(entry_at(before, id, x));
        assert(after[x] == before[x]);
        lemma_mapped_at(after, x);
        lemma_mapped_at(before, x);
    }
}

/// A table has as many keys as entries.
proof fn lemma_mapped_len<K: TableKey, V>(entries: Seq<(K, V)>)
    requires
        distinct(entries),
    ensures
        mapped(entries).dom().finite(),
        mapped(entries).len() == entries.len(),
    decreases entries.len(),
{
    if entries.len() == 0 {
        assert forall|id: K::Id| !mapped(entries).contains_key(id) by {
            lemma_mapped_none(entries, id);
        }
        assert(mapped(entries).dom() =~= Set::<K::Id>::empty());
    } else {
        let before = entries.drop_last();
        let last = entries.last();
        assert(before.push(last) =~= entries);
        lemma_mapped_len(before);
        lemma_mapped_at(entries, entries.len() - 1);
        lemma_mapped_none(before, last.0.id());
        assert forall|id: K::Id| #[trigger]
            mapped(entries).contains_key(id) == mapped(before).dom().insert(
                last.0.id(),
            ).contains(id) by {
            if id != last.0.id() {
                lemma_push_other(before, last, id);
            }
        }
        assert(mapped(entries).dom() =~= mapped(before).dom().insert(last.0.id()));
    }
}

} // verus!
