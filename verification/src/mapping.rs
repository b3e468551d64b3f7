//! A mapping from names to values that keeps the order in which the names
//! came.
use crate::entries::{
    distinct, has_key, lemma_member_absent, lemma_member_distinct, lemma_put, member, place, put,
};
use crate::text::same_text;
use vstd::prelude::*;

verus! {

/// A mapping from names to values. Each name stands once; the names keep the
/// order in which they were first put in.
#[derive(Debug, PartialEq, Eq)]
pub struct Mapping<V: DeepView> {
    entries: Vec<(String, V)>,
}

/// The models of a row of entries.
pub open spec fn entries_view<V: DeepView>(entries: Seq<(String, V)>) -> Seq<(Seq<char>, V::V)> {
    Seq::new(entries.len(), |i: int| (entries[i].0@, entries[i].1.deep_view()))
}

impl<V: DeepView> View for Mapping<V> {
    type V = Seq<(Seq<char>, V::V)>;

    closed spec fn view(&self) -> Seq<(Seq<char>, V::V)> {
        entries_view(self.entries@)
    }
}

impl<V: DeepView> Mapping<V> {
    /// What holds of every mapping: no two entries share a name.
    #[verifier::type_invariant]
    pub open spec fn names_stand_once(&self) -> bool {
        distinct(self@)
    }

    /// A mapping without entries.
    pub fn new() -> (r: Self)
        ensures
            r@ == Seq::<(Seq<char>, V::V)>::empty(),
    {
        Mapping { entries: Vec::new() }
    }

    /// The number of entries.
    pub fn len(&self) -> (n: usize)
        ensures
            n == self@.len(),
    {
        self.entries.len()
    }

    /// Whether there is no entry.
    pub fn is_empty(&self) -> (b: bool)
        ensures
            b == (self@.len() == 0),
    {
        self.entries.len() == 0
    }

    /// The name of the entry at place `i`.
    pub fn name_at(&self, i: usize) -> (name: &String)
        requires
            i < self@.len(),
        ensures
            name@ == self@[i as int].0,
    {
        &self.entries[i].0
    }

    /// The value of the entry at place `i`.
    pub fn value_at(&self, i: usize) -> (value: &V)
        requires
            i < self@.len(),
        ensures
            value.deep_view() == self@[i as int].1,
    {
        &self.entries[i].1
    }

    fn position(&self, key: &str) -> (r: Option<usize>)
        ensures
            match r {
                Some(i) => i < self@.len() && self@[i as int].0 == key@,
                None => !has_key(self@, key@),
            },
    {
        let mut i: usize = 0;
        while i < self.entries.len()
            invariant
                i <= self.entries@.len(),
                forall|k: int| 0 <= k < i ==> (#[trigger] self@[k]).0 != key@,
            decreases self.entries@.len() - i,
        {
            if same_text(self.entries[i].0.as_str(), key) {
                return Some(i);
            }
            i += 1;
        }
        None
    }

    /// The value that stands under `key`.
    pub fn get(&self, key: &str) -> (r: Option<&V>)
        ensures
            match r {
                Some(value) => member(self@, key@) == Some(value.deep_view()),
                None => member(self@, key@) is None,
            },
    {
        proof {
            use_type_invariant(self);
            lemma_member_absent(self@, key@);
        }
        match self.position(key) {
            Some(i) => {
                proof {
                    lemma_member_distinct(self@, i as int);
                }
                Some(&self.entries[i].1)
            },
            None => None,
        }
    }

    /// Whether a value stands under `key`.
    pub fn contains_key(&self, key: &str) -> (b: bool)
        ensures
            b == has_key(self@, key@),
    {
        self.position(key).is_some()
    }

    /// Puts `value` under `key` and hands back what stood there before. A new
    /// name goes to the end; a name that is there keeps its place.
    pub fn insert(&mut self, key: String, value: V) -> (before: Option<V>)
        ensures
            final(self)@ == put(old(self)@, key@, value.deep_view()),
            distinct(final(self)@),
            match before {
                Some(v) => member(old(self)@, key@) == Some(v.deep_view()),
                None => member(old(self)@, key@) is None,
            },
    {
        proof {
            use_type_invariant(&*self);
            lemma_member_absent(self@, key@);
            lemma_put(self@, key@, value.deep_view());
        }
        let ghost start = self@;
        let found = self.position(key.as_str());
        let mut entries: Vec<(String, V)> = Vec::new();
        core::mem::swap(&mut self.entries, &mut entries);
        let before = match found {
            Some(i) => {
                proof {
                    lemma_member_distinct(start, i as int);
                    assert(place(start, key@) == i) by {
                        let p = place(start, key@);
                        assert(start[p].0 == start[i as int].0);
                    }
                }
                let gone = entries.remove(i);
                entries.insert(i, (key, value));
                Some(gone.1)
            },
            None => {
                entries.push((key, value));
                None
            },
        };
        assert(entries_view(entries@) =~= put(start, key@, value.deep_view()));
        self.entries = entries;
        before
    }
}

impl Clone for Mapping<String> {
    fn clone(&self) -> (r: Self)
        ensures
            r@ == self@,
    {
        proof {
            use_type_invariant(self);
        }
        let mut entries: Vec<(String, String)> = Vec::new();
        let mut i: usize = 0;
        while i < self.entries.len()
            invariant
                i <= self.entries@.len(),
                entries@.len() == i,
                forall|k: int|
                    0 <= k < i ==> (#[trigger] entries@[k]).0@ == self.entries@[k].0@
                        && entries@[k].1.deep_view() == self.entries@[k].1.deep_view(),
            decreases self.entries@.len() - i,
        {
            entries.push((self.entries[i].0.clone(), self.entries[i].1.clone()));
            i += 1;
        }
        assert(entries_view(entries@) =~= entries_view(self.entries@));
        Mapping { entries }
    }
}

impl Clone for Mapping<Option<String>> {
    fn clone(&self) -> (r: Self)
        ensures
            r@ == self@,
    {
        proof {
            use_type_invariant(self);
        }
        let mut entries: Vec<(String, Option<String>)> = Vec::new();
        let mut i: usize = 0;
        while i < self.entries.len()
            invariant
                i <= self.entries@.len(),
                entries@.len() == i,
                forall|k: int|
                    0 <= k < i ==> (#[trigger] entries@[k]).0@ == self.entries@[k].0@
                        && entries@[k].1.deep_view() == self.entries@[k].1.deep_view(),
            decreases self.entries@.len() - i,
        {
            let value = match &self.entries[i].1 {
                Some(t) => Some(t.clone()),
                None => None,
            };
            entries.push((self.entries[i].0.clone(), value));
            i += 1;
        }
        assert(entries_view(entries@) =~= entries_view(self.entries@));
        Mapping { entries }
    }
}

} // verus!
