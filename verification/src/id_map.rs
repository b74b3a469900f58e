//! An insertion-ordered map from client identifiers to values.

use crate::keyed::{
    as_map, distinct, has_key, lemma_as_map, lemma_map_len, lemma_position, lemma_put,
    lemma_without, position, put, without,
};
use vstd::prelude::*;

verus! {

/// A map keyed by client identifier that remembers the order in which its
/// identifiers were first stored.  No identifier occurs twice.
pub struct IdMap<V> {
    items: Vec<(String, V)>,
}

impl<V: View> View for IdMap<V> {
    type V = Map<Seq<char>, V::V>;

    /// The map from identifier to the view of the value stored under it.
    open spec fn view(&self) -> Map<Seq<char>, V::V> {
        as_map(self.entries())
    }
}

impl<V> IdMap<V> {
    #[verifier::type_invariant]
    spec fn ids_distinct(&self) -> bool {
        forall|i: int, j: int|
            0 <= i < j < self.items.len() ==> (#[trigger] self.items[i]).0@ != (
            #[trigger] self.items[j]).0@
    }
}

impl<V: View> IdMap<V> {
    /// The entries in order, each as its identifier and the view of its value.
    pub closed spec fn entries(&self) -> Seq<(Seq<char>, V::V)> {
        Seq::new(self.items.len() as nat, |i: int| (self.items[i].0@, self.items[i].1@))
    }

    /// An empty map.
    pub fn new() -> (m: Self)
        ensures
            m.entries() == Seq::<(Seq<char>, V::V)>::empty(),
            m@ == Map::<Seq<char>, V::V>::empty(),
            distinct(m.entries()),
    {
        let m = IdMap { items: Vec::new() };
        assert(m.entries() =~= Seq::<(Seq<char>, V::V)>::empty());
        assert(m@ =~= Map::<Seq<char>, V::V>::empty());
        m
    }

    /// Does nothing when run; brings the distinctness of the identifiers to
    /// the verifier's notice.
    pub(crate) fn note_distinct(&self)
        ensures
            distinct(self.entries()),
    {
        proof {
            use_type_invariant(self);
            self.lemma_entries();
        }
    }

    /// The number of entries.
    pub fn len(&self) -> (n: usize)
        ensures
            n == self.entries().len(),
            n == self@.len(),
            distinct(self.entries()),
    {
        proof {
            use_type_invariant(self);
            self.lemma_entries();
            lemma_map_len(self.entries());
        }
        self.items.len()
    }

    /// Whether the map holds no entry.
    pub fn is_empty(&self) -> (b: bool)
        ensures
            b == (self.entries().len() == 0),
            b == (self@ == Map::<Seq<char>, V::V>::empty()),
    {
        proof {
            use_type_invariant(self);
            self.lemma_entries();
            lemma_map_len(self.entries());
            if self.entries().len() == 0 {
                assert(self@ =~= Map::<Seq<char>, V::V>::empty());
            }
        }
        self.items.len() == 0
    }

    proof fn lemma_entries(&self)
        requires
            self.ids_distinct(),
        ensures
            distinct(self.entries()),
            self.entries().len() == self.items.len(),
            forall|i: int|
                0 <= i < self.items.len() ==> #[trigger] self.entries()[i] == (
                    self.items[i].0@,
                    self.items[i].1@,
                ),
    {
        let e = self.entries();
        assert forall|i: int, j: int| 0 <= i < j < e.len() implies (#[trigger] e[i]).0 != (
        #[trigger] e[j]).0 by {
            assert(self.items[i].0@ != self.items[j].0@);
        }
    }

    /// The position of the entry under `id`, if there is one.
    fn find(&self, id: &String) -> (r: Option<usize>)
        ensures
            match r {
                Some(i) => has_key(self.entries(), id@) && i == position(self.entries(), id@) && i
                    < self.items.len() && self.items[i as int].0@ == id@,
                None => !has_key(self.entries(), id@),
            },
    {
        proof {
            use_type_invariant(self);
            self.lemma_entries();
        }
        let mut i: usize = 0;
        while i < self.items.len()
            invariant
                i <= self.items.len(),
                self.entries().len() == self.items.len(),
                distinct(self.entries()),
                forall|j: int|
                    0 <= j < self.items.len() ==> #[trigger] self.entries()[j] == (
                        self.items[j].0@,
                        self.items[j].1@,
                    ),
                forall|j: int| 0 <= j < i ==> (#[trigger] self.entries()[j]).0 != id@,
            decreases self.items.len() - i,
        {
            if self.items[i].0 == *id {
                proof {
                    assert(self.entries()[i as int].0 == id@);
                    lemma_position(self.entries(), i as int);
                }
                return Some(i);
            }
            i = i + 1;
        }
        None
    }

    /// Whether an entry is stored under `id`.
    pub fn contains_key(&self, id: &String) -> (b: bool)
        ensures
            b == self@.contains_key(id@),
            b == has_key(self.entries(), id@),
    {
        self.find(id).is_some()
    }

    /// The value stored under `id`, if there is one.
    pub fn get(&self, id: &String) -> (r: Option<&V>)
        ensures
            match r {
                Some(v) => self@.contains_key(id@) && v@ == self@[id@],
                None => !self@.contains_key(id@),
            },
    {
        proof {
            use_type_invariant(self);
            self.lemma_entries();
            lemma_as_map(self.entries());
        }
        match self.find(id) {
            Some(i) => {
                assert(self.entries()[i as int] == (self.items[i as int].0@, self.items[i as int].1@));
                Some(&self.items[i].1)
            },
            None => None,
        }
    }

    /// The entry at position `i` in insertion order, if `i` is in range.
    pub fn entry(&self, i: usize) -> (r: Option<(&String, &V)>)
        ensures
            match r {
                Some(e) => i < self.entries().len() && (e.0@, e.1@) == self.entries()[i as int],
                None => i >= self.entries().len(),
            },
    {
        proof {
            use_type_invariant(self);
            self.lemma_entries();
        }
        if i < self.items.len() {
            let e = &self.items[i];
            Some((&e.0, &e.1))
        } else {
            None
        }
    }

    /// The entries in insertion order, taken out of the map.
    pub fn into_entries(self) -> (r: Vec<(String, V)>)
        ensures
            r.len() == self.entries().len(),
            forall|i: int| 0 <= i < r.len() ==> (#[trigger] r[i]).0@ == self.entries()[i].0,
            forall|i: int| 0 <= i < r.len() ==> (#[trigger] r[i]).1@ == self.entries()[i].1,
            distinct(self.entries()),
    {
        proof {
            use_type_invariant(&self);
            self.lemma_entries();
        }
        self.items
    }

    /// Stores `value` under `id`.  An entry already stored under `id` is
    /// overwritten where it stands and handed back; a new identifier goes to
    /// the end.
    pub fn insert(&mut self, id: String, value: V) -> (prior: Option<V>)
        ensures
            final(self).entries() == put(old(self).entries(), id@, value@),
            final(self)@ == old(self)@.insert(id@, value@),
            distinct(final(self).entries()),
            match prior {
                Some(p) => old(self)@.contains_key(id@) && p@ == old(self)@[id@],
                None => !old(self)@.contains_key(id@),
            },
    {
        proof {
            use_type_invariant(&*self);
            self.lemma_entries();
            lemma_as_map(self.entries());
            lemma_put(self.entries(), id@, value@);
        }
        let ghost before = self.entries();
        let found = self.find(&id);
        let mut items: Vec<(String, V)> = Vec::new();
        std::mem::swap(&mut items, &mut self.items);
        let ghost old_items = items@;
        let prior = match found {
            Some(i) => {
                let (_, old_value) = items.remove(i);
                items.insert(i, (id, value));
                assert(items@ =~= old_items.update(i as int, (id, value)));
                Some(old_value)
            },
            None => {
                items.push((id, value));
                None
            },
        };
        assert forall|i: int, j: int| 0 <= i < j < items.len() implies (#[trigger] items[i]).0@ != (
        #[trigger] items[j]).0@ by {
            let t = put(before, id@, value@);
            assert(t[i].0 == items[i].0@);
            assert(t[j].0 == items[j].0@);
        }
        self.items = items;
        assert(self.entries() =~= put(before, id@, value@));
        prior
    }

    /// Takes out the entry under `id` and hands its value back; the other
    /// entries keep their order.
    pub fn remove(&mut self, id: &String) -> (prior: Option<V>)
        ensures
            final(self).entries() == without(old(self).entries(), id@),
            final(self)@ == old(self)@.remove(id@),
            distinct(final(self).entries()),
            match prior {
                Some(p) => old(self)@.contains_key(id@) && p@ == old(self)@[id@],
                None => !old(self)@.contains_key(id@),
            },
    {
        proof {
            use_type_invariant(&*self);
            self.lemma_entries();
            lemma_as_map(self.entries());
            lemma_without(self.entries(), id@);
        }
        let ghost before = self.entries();
        let found = self.find(id);
        match found {
            Some(i) => {
                let mut items: Vec<(String, V)> = Vec::new();
                std::mem::swap(&mut items, &mut self.items);
                let (_, old_value) = items.remove(i);
                assert forall|a: int, b: int| 0 <= a < b < items.len() implies (
                #[trigger] items[a]).0@ != (#[trigger] items[b]).0@ by {
                    let t = without(before, id@);
                    assert(t[a].0 == items[a].0@);
                    assert(t[b].0 == items[b].0@);
                }
                self.items = items;
                assert(self.entries() =~= without(before, id@));
                Some(old_value)
            },
            None => None,
        }
    }
}

} // verus!
