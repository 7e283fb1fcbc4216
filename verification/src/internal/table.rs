//! A table from names to values that keeps its entries in the order in which
//! the names first came, one entry for each name.
use vstd::prelude::*;

verus! {

/// What a table holds: names with their values, in order.
pub type Entries<V> = Seq<(Seq<char>, V)>;

/// Whether some entry has the name.
pub open spec fn has_name<V>(es: Entries<V>, name: Seq<char>) -> bool {
    exists|i: int| 0 <= i < es.len() && (#[trigger] es[i]).0 == name
}

/// The place of an entry with the name, where there is one.
pub open spec fn slot_of<V>(es: Entries<V>, name: Seq<char>) -> int {
    choose|i: int| 0 <= i < es.len() && (#[trigger] es[i]).0 == name
}

/// The value under a name.
pub open spec fn lookup<V>(es: Entries<V>, name: Seq<char>) -> Option<V> {
    if has_name(es, name) {
        Some(es[slot_of(es, name)].1)
    } else {
        None
    }
}

/// Whether no name occurs twice.
pub open spec fn distinct_names<V>(es: Entries<V>) -> bool {
    forall|i: int, j: int|
        0 <= i < es.len() && 0 <= j < es.len() && (#[trigger] es[i]).0 == (#[trigger] es[j]).0
            ==> i == j
}

/// The entries after `name` is given the value `v`: an entry of that name is
/// replaced where it stands, a new name goes to the end.
pub open spec fn put<V>(es: Entries<V>, name: Seq<char>, v: V) -> Entries<V> {
    if has_name(es, name) {
        es.update(slot_of(es, name), (name, v))
    } else {
        es.push((name, v))
    }
}

/// The entries without the one of the given name.
pub open spec fn without<V>(es: Entries<V>, name: Seq<char>) -> Entries<V> {
    if has_name(es, name) {
        es.remove(slot_of(es, name))
    } else {
        es
    }
}

/// Among distinct names, the place of a name is the only place that holds it.
pub proof fn lemma_slot_unique<V>(es: Entries<V>, name: Seq<char>, i: int)
    requires
        distinct_names(es),
        0 <= i < es.len(),
        es[i].0 == name,
    ensures
        has_name(es, name),
        slot_of(es, name) == i,
        lookup(es, name) == Some(es[i].1),
{
}

/// What `put` does to a lookup: the name put is found with its new value,
/// every other name as before; and the names stay distinct.
pub proof fn lemma_put<V>(es: Entries<V>, name: Seq<char>, v: V, other: Seq<char>)
    requires
        distinct_names(es),
    ensures
        distinct_names(put(es, name, v)),
        lookup(put(es, name, v), name) == Some(v),
        other != name ==> lookup(put(es, name, v), other) == lookup(es, other),
        has_name(put(es, name, v), other) <==> (other == name || has_name(es, other)),
{
    let after = put(es, name, v);
    if has_name(es, name) {
        let k = slot_of(es, name);
        assert forall|i: int, j: int|
            0 <= i < after.len() && 0 <= j < after.len() && (#[trigger] after[i]).0 == (
            #[trigger] after[j]).0 implies i == j by {
            assert(es[i].0 == after[i].0 && es[j].0 == after[j].0);
        }
        assert(after[k].0 == name);
        lemma_slot_unique(after, name, k);
        if other != name {
            if has_name(es, other) {
                let m = slot_of(es, other);
                assert(after[m] == es[m]);
                lemma_slot_unique(after, other, m);
            } else if has_name(after, other) {
                let m = slot_of(after, other);
                assert(es[m].0 == other);
            }
        }
    } else {
        let k = es.len() as int;
        assert forall|i: int, j: int|
            0 <= i < after.len() && 0 <= j < after.len() && (#[trigger] after[i]).0 == (
            #[trigger] after[j]).0 implies i == j by {
            if i < k {
                assert(after[i] == es[i]);
            }
            if j < k {
                assert(after[j] == es[j]);
            }
        }
        assert(after[k].0 == name);
        lemma_slot_unique(after, name, k);
        if other != name {
            if has_name(es, other) {
                let m = slot_of(es, other);
                assert(after[m] == es[m]);
                lemma_slot_unique(after, other, m);
            } else if has_name(after, other) {
                let m = slot_of(after, other);
                assert(es[m].0 == other);
            }
        }
    }
}

/// What `without` does to a lookup: the name taken out is no longer found,
/// every other name as before; and the names stay distinct.
pub proof fn lemma_without<V>(es: Entries<V>, name: Seq<char>, other: Seq<char>)
    requires
        distinct_names(es),
    ensures
        distinct_names(without(es, name)),
        !has_name(without(es, name), name),
        lookup(without(es, name), name) is None,
        other != name ==> lookup(without(es, name), other) == lookup(es, other),
        !has_name(es, name) ==> without(es, name) == es,
{
    let after = without(es, name);
    if has_name(es, name) {
        let k = slot_of(es, name);
        assert forall|i: int| 0 <= i < after.len() implies #[trigger] after[i] == es[if i < k {
            i
        } else {
            i + 1
        }] by {}
        assert forall|i: int, j: int|
            0 <= i < after.len() && 0 <= j < after.len() && (#[trigger] after[i]).0 == (
            #[trigger] after[j]).0 implies i == j by {
            let i2 = if i < k { i } else { i + 1 };
            let j2 = if j < k { j } else { j + 1 };
            assert(es[i2].0 == es[j2].0);
        }
        if has_name(after, name) {
            let m = slot_of(after, name);
            let m2 = if m < k { m } else { m + 1 };
            assert(es[m2].0 == name && es[k].0 == name);
        }
        if other != name {
            if has_name(es, other) {
                let m = slot_of(es, other);
                let m1 = if m < k { m } else { m - 1 };
                assert(after[m1] == es[m]);
                lemma_slot_unique(after, other, m1);
            } else if has_name(after, other) {
                let m = slot_of(after, other);
                let m2 = if m < k { m } else { m + 1 };
                assert(es[m2].0 == other);
            }
        }
    }
}

/// One entry of a table.
#[derive(Debug)]
pub struct Entry<V: View> {
    /// The name.
    pub name: String,
    /// The value under that name.
    pub value: V,
}

/// A table from names to values.
#[derive(Debug)]
pub struct Table<V: View> {
    entries: Vec<Entry<V>>,
}

/// What a list of entries holds.
pub open spec fn entries_of<V: View>(v: Seq<Entry<V>>) -> Entries<V::V> {
    Seq::new(v.len(), |i: int| (v[i].name@, v[i].value@))
}

impl<V: View> Table<V> {
    /// What the table holds.
    pub closed spec fn entries(&self) -> Entries<V::V> {
        entries_of(self.entries@)
    }

    #[verifier::type_invariant]
    closed spec fn inv(&self) -> bool {
        distinct_names(self.entries())
    }

    /// The value under a name.
    pub open spec fn spec_get(&self, name: Seq<char>) -> Option<V::V> {
        lookup(self.entries(), name)
    }

    /// A table without entries.
    pub fn new() -> (r: Self)
        ensures
            r.entries() == Seq::<(Seq<char>, V::V)>::empty(),
    {
        let r = Table { entries: Vec::new() };
        assert(r.entries() =~= Seq::<(Seq<char>, V::V)>::empty());
        r
    }

    /// The number of entries; no name occurs twice among them.
    pub fn len(&self) -> (r: usize)
        ensures
            r == self.entries().len(),
            distinct_names(self.entries()),
    {
        proof {
            use_type_invariant(self);
        }
        self.entries.len()
    }

    /// The place of the entry of a name.
    pub fn find(&self, name: &str) -> (r: Option<usize>)
        ensures
            distinct_names(self.entries()),
            r is Some == has_name(self.entries(), name@),
            r matches Some(i) ==> i == slot_of(self.entries(), name@) && i < self.entries().len(),
    {
        proof {
            use_type_invariant(self);
        }
        let mut i: usize = 0;
        while i < self.entries.len()
            invariant
                i <= self.entries@.len(),
                self.entries().len() == self.entries@.len(),
                forall|j: int| 0 <= j < i ==> (#[trigger] self.entries()[j]).0 != name@,
                distinct_names(self.entries()),
            decreases self.entries@.len() - i,
        {
            if crate::internal::text::same_text(self.entries[i].name.as_str(), name) {
                proof {
                    assert(self.entries()[i as int].0 == name@);
                    lemma_slot_unique(self.entries(), name@, i as int);
                }
                return Some(i);
            }
            i = i + 1;
        }
        None
    }

    /// The name at a place.
    pub fn name_at(&self, i: usize) -> (r: &String)
        requires
            i < self.entries().len(),
        ensures
            r@ == self.entries()[i as int].0,
    {
        &self.entries[i].name
    }

    /// The value at a place.
    pub fn value_at(&self, i: usize) -> (r: &V)
        requires
            i < self.entries().len(),
        ensures
            r@ == self.entries()[i as int].1,
    {
        &self.entries[i].value
    }

    /// The value under a name.
    pub fn get(&self, name: &str) -> (r: Option<&V>)
        ensures
            distinct_names(self.entries()),
            match r {
                Some(v) => self.spec_get(name@) == Some(v@),
                None => self.spec_get(name@) is None,
            },
    {
        match self.find(name) {
            Some(i) => Some(&self.entries[i].value),
            None => None,
        }
    }

    /// Whether the table has an entry of the name.
    pub fn contains(&self, name: &str) -> (r: bool)
        ensures
            r == has_name(self.entries(), name@),
    {
        self.find(name).is_some()
    }

    /// Give `name` the value `value`.
    pub fn insert(&mut self, name: String, value: V)
        ensures
            final(self).entries() == put(old(self).entries(), name@, value@),
            distinct_names(final(self).entries()),
    {
        proof {
            use_type_invariant(&*self);
            lemma_put(self.entries(), name@, value@, name@);
        }
        let ghost before = self.entries();
        match self.find(name.as_str()) {
            Some(i) => {
                let mut entries = Vec::new();
                core::mem::swap(&mut entries, &mut self.entries);
                entries.set(i, Entry { name, value });
                assert(entries_of(entries@) =~= put(before, name@, value@));
                *self = Table { entries };
            },
            None => {
                let mut entries = Vec::new();
                core::mem::swap(&mut entries, &mut self.entries);
                entries.push(Entry { name, value });
                assert(entries_of(entries@) =~= put(before, name@, value@));
                *self = Table { entries };
            },
        }
    }

    /// Add an entry under a name that the table does not hold yet.
    pub fn append_new(&mut self, name: String, value: V)
        requires
            !has_name(old(self).entries(), name@),
        ensures
            final(self).entries() == old(self).entries().push((name@, value@)),
            distinct_names(final(self).entries()),
    {
        proof {
            use_type_invariant(&*self);
            lemma_put(self.entries(), name@, value@, name@);
        }
        let ghost before = self.entries();
        let mut entries = Vec::new();
        core::mem::swap(&mut entries, &mut self.entries);
        entries.push(Entry { name, value });
        assert(entries_of(entries@) =~= before.push((name@, value@)));
        *self = Table { entries };
    }

    /// Take the entry of `name` out, and hand back its value.
    pub fn remove(&mut self, name: &str) -> (r: Option<V>)
        ensures
            final(self).entries() == without(old(self).entries(), name@),
            distinct_names(final(self).entries()),
            match r {
                Some(v) => lookup(old(self).entries(), name@) == Some(v@),
                None => lookup(old(self).entries(), name@) is None,
            },
    {
        proof {
            use_type_invariant(&*self);
            lemma_without(self.entries(), name@, name@);
        }
        let ghost before = self.entries();
        match self.find(name) {
            Some(i) => {
                let mut entries = Vec::new();
                core::mem::swap(&mut entries, &mut self.entries);
                let e = entries.remove(i);
                assert(entries_of(entries@) =~= without(before, name@));
                *self = Table { entries };
                Some(e.value)
            },
            None => None,
        }
    }
}

/// The entries whose values `keep` accepts, in their order.
pub open spec fn kept<V>(es: Entries<V>, keep: spec_fn(V) -> bool) -> Entries<V>
    decreases es.len(),
{
    if es.len() == 0 {
        Seq::empty()
    } else if keep(es.last().1) {
        kept(es.drop_last(), keep).push(es.last())
    } else {
        kept(es.drop_last(), keep)
    }
}

/// What is kept was there before.
pub proof fn lemma_kept_names<V>(es: Entries<V>, keep: spec_fn(V) -> bool, name: Seq<char>)
    requires
        has_name(kept(es, keep), name),
    ensures
        has_name(es, name),
    decreases es.len(),
{
    if es.len() > 0 {
        let rest = kept(es.drop_last(), keep);
        let i = slot_of(kept(es, keep), name);
        if keep(es.last().1) && i == rest.len() {
            assert(es[es.len() - 1].0 == name);
        } else {
            assert(rest[i].0 == name);
            lemma_kept_names(es.drop_last(), keep, name);
            let j = slot_of(es.drop_last(), name);
            assert(es[j].0 == name);
        }
    }
}

/// Sweeping keeps the names distinct, and keeps under its name every value
/// that `keep` accepts.
pub proof fn lemma_kept<V>(es: Entries<V>, keep: spec_fn(V) -> bool, name: Seq<char>)
    requires
        distinct_names(es),
    ensures
        distinct_names(kept(es, keep)),
        lookup(es, name) is Some && keep(lookup(es, name).unwrap()) ==> lookup(
            kept(es, keep),
            name,
        ) == lookup(es, name),
        lookup(es, name) is None ==> lookup(kept(es, keep), name) is None,
    decreases es.len(),
{
    if es.len() > 0 {
        let front = es.drop_last();
        let rest = kept(front, keep);
        let out = kept(es, keep);
        assert forall|i: int, j: int|
            0 <= i < front.len() && 0 <= j < front.len() && (#[trigger] front[i]).0 == (
            #[trigger] front[j]).0 implies i == j by {
            assert(es[i].0 == es[j].0);
        }
        lemma_kept(front, keep, name);
        if has_name(rest, es.last().0) {
            lemma_kept_names(front, keep, es.last().0);
            let j = slot_of(front, es.last().0);
            assert(es[j].0 == es[es.len() - 1].0);
        }
        assert forall|i: int, j: int|
            0 <= i < out.len() && 0 <= j < out.len() && (#[trigger] out[i]).0 == (
            #[trigger] out[j]).0 implies i == j by {
            if i < rest.len() {
                assert(rest[i] == out[i]);
            }
            if j < rest.len() {
                assert(rest[j] == out[j]);
            }
        }
        if has_name(es, name) {
            let k = slot_of(es, name);
            if k == es.len() - 1 {
                if keep(es.last().1) {
                    lemma_slot_unique(out, name, rest.len() as int);
                }
            } else {
                assert(front[k].0 == name);
                lemma_slot_unique(front, name, k);
                if keep(front[k].1) {
                    let m = slot_of(rest, name);
                    assert(out[m] == rest[m]);
                    lemma_slot_unique(out, name, m);
                }
            }
        } else {
            if has_name(out, name) {
                lemma_kept_names(es, keep, name);
            }
        }
    }
}

} // verus!
