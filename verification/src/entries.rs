//! Named entries in a row: the model of a JSON object and of a parameter
//! mapping.
use vstd::prelude::*;

verus! {

/// The value of the last entry that is named `key`.
pub open spec fn member<X>(entries: Seq<(Seq<char>, X)>, key: Seq<char>) -> Option<X>
    decreases entries.len(),
{
    if entries.len() == 0 {
        None
    } else if entries.last().0 == key {
        Some(entries.last().1)
    } else {
        member(entries.drop_last(), key)
    }
}

/// Whether some entry has the name `key`.
pub open spec fn has_key<X>(entries: Seq<(Seq<char>, X)>, key: Seq<char>) -> bool {
    exists|i: int| 0 <= i < entries.len() && #[trigger] entries[i].0 == key
}

/// The place of an entry named `key`.
pub open spec fn place<X>(entries: Seq<(Seq<char>, X)>, key: Seq<char>) -> int {
    choose|i: int| 0 <= i < entries.len() && #[trigger] entries[i].0 == key
}

/// The entries after one more is put in: an entry of that name keeps its
/// place and takes the new value, a new name goes to the end.
pub open spec fn put<X>(entries: Seq<(Seq<char>, X)>, key: Seq<char>, value: X) -> Seq<
    (Seq<char>, X),
> {
    if has_key(entries, key) {
        entries.update(place(entries, key), (key, value))
    } else {
        entries.push((key, value))
    }
}

/// What is held after `entries` are put in one after the other: each name
/// stands once, where it first came, with the value that came last.
pub open spec fn settled<X>(entries: Seq<(Seq<char>, X)>) -> Seq<(Seq<char>, X)>
    decreases entries.len(),
{
    if entries.len() == 0 {
        Seq::empty()
    } else {
        put(settled(entries.drop_last()), entries.last().0, entries.last().1)
    }
}

/// No two entries share a name.
pub open spec fn distinct<X>(entries: Seq<(Seq<char>, X)>) -> bool {
    forall|i: int, j: int|
        0 <= i < j < entries.len() ==> (#[trigger] entries[i]).0 != (#[trigger] entries[j]).0
}

/// An entry that no later entry shares its name with is the one found under
/// that name.
pub proof fn lemma_member_at<X>(entries: Seq<(Seq<char>, X)>, i: int)
    requires
        0 <= i < entries.len(),
        forall|k: int| i < k < entries.len() ==> (#[trigger] entries[k]).0 != entries[i].0,
    ensures
        member(entries, entries[i].0) == Some(entries[i].1),
    decreases entries.len(),
{
    if i < entries.len() - 1 {
        lemma_member_at(entries.drop_last(), i);
    }
}

/// A name that no entry has finds nothing, and the converse.
pub proof fn lemma_member_absent<X>(entries: Seq<(Seq<char>, X)>, key: Seq<char>)
    ensures
        member(entries, key) is None <==> !has_key(entries, key),
    decreases entries.len(),
{
    if entries.len() > 0 {
        let front = entries.drop_last();
        lemma_member_absent(front, key);
        if entries.last().0 == key {
            assert(entries[entries.len() - 1].0 == key);
        } else if has_key(entries, key) {
            let i = place(entries, key);
            assert(front[i].0 == key);
        } else if has_key(front, key) {
            let i = place(front, key);
            assert(entries[i].0 == key);
        }
    }
}

/// Where the names are distinct the entry found under a name is the only one
/// of that name.
pub proof fn lemma_member_distinct<X>(entries: Seq<(Seq<char>, X)>, i: int)
    requires
        distinct(entries),
        0 <= i < entries.len(),
    ensures
        member(entries, entries[i].0) == Some(entries[i].1),
{
    lemma_member_at(entries, i);
}

/// Putting an entry in keeps the names distinct, and afterwards the name
/// finds the new value and every other name what it found before.
pub proof fn lemma_put<X>(entries: Seq<(Seq<char>, X)>, key: Seq<char>, value: X)
    requires
        distinct(entries),
    ensures
        distinct(put(entries, key, value)),
        member(put(entries, key, value), key) == Some(value),
        forall|other: Seq<char>|
            other != key ==> member(put(entries, key, value), other) == member(entries, other),
{
    let after = put(entries, key, value);
    if has_key(entries, key) {
        let p = place(entries, key);
        assert(after[p] == (key, value));
        lemma_member_distinct(after, p);
        assert forall|other: Seq<char>| other != key implies member(after, other) == member(
            entries,
            other,
        ) by {
            lemma_member_absent(entries, other);
            lemma_member_absent(after, other);
            if has_key(entries, other) {
                let q = place(entries, other);
                assert(after[q] == entries[q]);
                lemma_member_distinct(entries, q);
                lemma_member_distinct(after, q);
            } else if has_key(after, other) {
                let q = place(after, other);
                assert(entries[q].0 == other);
            }
        }
    } else {
        assert(after.drop_last() =~= entries);
        assert forall|i: int, j: int| 0 <= i < j < after.len() implies (#[trigger] after[i]).0 != (
        #[trigger] after[j]).0 by {
            if j == after.len() - 1 {
                assert(entries[i].0 != key);
            } else {
                assert(after[i] == entries[i] && after[j] == entries[j]);
            }
        }
    }
}

/// Entries with distinct names are settled as they stand.
pub proof fn lemma_settled_distinct<X>(entries: Seq<(Seq<char>, X)>)
    requires
        distinct(entries),
    ensures
        settled(entries) == entries,
    decreases entries.len(),
{
    if entries.len() > 0 {
        let front = entries.drop_last();
        assert forall|i: int, j: int| 0 <= i < j < front.len() implies (#[trigger] front[i]).0 != (
        #[trigger] front[j]).0 by {
            assert(front[i] == entries[i] && front[j] == entries[j]);
        }
        lemma_settled_distinct(front);
        if has_key(front, entries.last().0) {
            let i = place(front, entries.last().0);
            assert(entries[i].0 == entries[entries.len() - 1].0);
        }
        assert(front.push(entries.last()) =~= entries);
    } else {
        assert(entries =~= Seq::empty());
    }
}

/// What is settled has distinct names, and each name finds in it what it
/// finds in the entries as they came.
pub proof fn lemma_settled<X>(entries: Seq<(Seq<char>, X)>)
    ensures
        distinct(settled(entries)),
        forall|key: Seq<char>| member(settled(entries), key) == member(entries, key),
    decreases entries.len(),
{
    if entries.len() > 0 {
        let front = entries.drop_last();
        lemma_settled(front);
        lemma_put(settled(front), entries.last().0, entries.last().1);
        assert forall|key: Seq<char>| member(settled(entries), key) == member(entries, key) by {
            if key != entries.last().0 {
                assert(member(settled(entries), key) == member(settled(front), key));
                assert(member(settled(front), key) == member(front, key));
            }
        }
    }
}

} // verus!
