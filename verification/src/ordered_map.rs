//! A mapping from names to values that remembers the order in which the
//! names were first set.

use vstd::prelude::*;
use crate::text::same_text;

verus! {

/// The position of the first entry called `name`, or the length of
/// `entries` when there is none.
pub open spec fn index_of<T>(entries: Seq<(Seq<char>, T)>, name: Seq<char>) -> int
    decreases entries.len(),
{
    if entries.len() == 0 {
        0
    } else if entries[0].0 == name {
        0
    } else {
        1 + index_of(entries.skip(1), name)
    }
}

/// Whether some entry is called `name`.
pub open spec fn has_name<T>(entries: Seq<(Seq<char>, T)>, name: Seq<char>) -> bool {
    index_of(entries, name) < entries.len()
}

/// The value of the first entry called `name`.
pub open spec fn value_of<T>(entries: Seq<(Seq<char>, T)>, name: Seq<char>) -> T
    recommends
        has_name(entries, name),
{
    entries[index_of(entries, name)].1
}

/// `entries` after `name` is set to `value`: an entry of that name keeps its
/// place and takes the new value, a new name goes to the end.
pub open spec fn put<T>(entries: Seq<(Seq<char>, T)>, name: Seq<char>, value: T) -> Seq<
    (Seq<char>, T),
> {
    let i = index_of(entries, name);
    if i < entries.len() {
        entries.update(i, (name, value))
    } else {
        entries.push((name, value))
    }
}

/// No two entries share a name.
pub open spec fn distinct_names<T>(entries: Seq<(Seq<char>, T)>) -> bool {
    forall|i: int, j: int|
        0 <= i < j < entries.len() ==> (#[trigger] entries[i]).0 != (#[trigger] entries[j]).0
}

/// `index_of` is the least position that holds `name`.
pub proof fn lemma_index_of<T>(entries: Seq<(Seq<char>, T)>, name: Seq<char>)
    ensures
        0 <= index_of(entries, name) <= entries.len(),
        index_of(entries, name) < entries.len() ==> entries[index_of(entries, name)].0 == name,
        forall|j: int| 0 <= j < index_of(entries, name) ==> (#[trigger] entries[j]).0 != name,
    decreases entries.len(),
{
    if entries.len() != 0 && entries[0].0 != name {
        let rest = entries.skip(1);
        lemma_index_of(rest, name);
        assert forall|j: int| 0 <= j < index_of(entries, name) implies (#[trigger] entries[j]).0
            != name by {
            if j > 0 {
                assert(rest[j - 1] == entries[j]);
            }
        }
    }
}

/// A position that holds `name`, with no earlier one that does, is `index_of`.
pub proof fn lemma_index_of_is<T>(entries: Seq<(Seq<char>, T)>, name: Seq<char>, i: int)
    requires
        0 <= i <= entries.len(),
        i < entries.len() ==> entries[i].0 == name,
        forall|j: int| 0 <= j < i ==> (#[trigger] entries[j]).0 != name,
    ensures
        index_of(entries, name) == i,
{
    lemma_index_of(entries, name);
    let k = index_of(entries, name);
    if k < i {
        assert(entries[k].0 != name);
    }
}

/// After a name is set it is there, at the place it had or at the end,
/// with the value it was set to.
pub proof fn lemma_put_sets<T>(entries: Seq<(Seq<char>, T)>, name: Seq<char>, value: T)
    ensures
        has_name(put(entries, name, value), name),
        value_of(put(entries, name, value), name) == value,
        index_of(put(entries, name, value), name) == index_of(entries, name),
{
    lemma_index_of(entries, name);
    lemma_index_of_is(put(entries, name, value), name, index_of(entries, name));
}

/// Setting a name leaves every other name as it was: there or not, at its
/// place, with its value.
pub proof fn lemma_put_keeps_others<T>(
    entries: Seq<(Seq<char>, T)>,
    name: Seq<char>,
    value: T,
    other: Seq<char>,
)
    requires
        other != name,
    ensures
        has_name(put(entries, name, value), other) == has_name(entries, other),
        has_name(entries, other) ==> index_of(put(entries, name, value), other) == index_of(
            entries,
            other,
        ) && value_of(put(entries, name, value), other) == value_of(entries, other),
{
    lemma_index_of(entries, name);
    lemma_index_of(entries, other);
    let k = index_of(entries, name);
    let j = index_of(entries, other);
    let after = put(entries, name, value);
    assert forall|i: int| 0 <= i < j implies (#[trigger] after[i]).0 != other by {
        if i != k {
            assert(entries[i].0 != other);
        }
    }
    if j < entries.len() {
        lemma_index_of_is(after, other, j);
    } else {
        assert forall|i: int| 0 <= i < after.len() implies (#[trigger] after[i]).0 != other by {
            if i != k && i < entries.len() {
                assert(entries[i].0 != other);
            }
        }
        lemma_index_of_is(after, other, after.len() as int);
    }
}

/// Setting a name keeps the names distinct.
pub proof fn lemma_put_keeps_names_distinct<T>(
    entries: Seq<(Seq<char>, T)>,
    name: Seq<char>,
    value: T,
)
    requires
        distinct_names(entries),
    ensures
        distinct_names(put(entries, name, value)),
        has_name(put(entries, name, value), name),
        value_of(put(entries, name, value), name) == value,
        index_of(put(entries, name, value), name) == index_of(entries, name),
{
    lemma_index_of(entries, name);
    let k = index_of(entries, name);
    let after = put(entries, name, value);
    assert forall|i: int, j: int| 0 <= i < j < after.len() implies (#[trigger] after[i]).0 != (
    #[trigger] after[j]).0 by {
        if k < entries.len() {
            if i == k {
                assert(entries[k].0 != entries[j].0);
            } else if j == k {
                assert(entries[i].0 != entries[k].0);
            } else {
                assert(entries[i].0 != entries[j].0);
            }
        } else {
            if j < entries.len() {
                assert(entries[i].0 != entries[j].0);
            }
        }
    }
    lemma_index_of_is(after, name, k);
}

/// A name that no entry has goes to the end.
pub proof fn lemma_put_new_name<T>(entries: Seq<(Seq<char>, T)>, name: Seq<char>, value: T)
    requires
        forall|j: int| 0 <= j < entries.len() ==> (#[trigger] entries[j]).0 != name,
    ensures
        put(entries, name, value) == entries.push((name, value)),
{
    lemma_index_of_is(entries, name, entries.len() as int);
}

/// An insertion-ordered mapping from names to values.
#[derive(Debug, PartialEq, Eq)]
pub struct OrderedMap<V: View> {
    entries: Vec<(String, V)>,
}

impl<V: View> View for OrderedMap<V> {
    type V = Seq<(Seq<char>, V::V)>;

    closed spec fn view(&self) -> Self::V {
        Seq::new(self.entries@.len(), |i: int| (self.entries@[i].0@, self.entries@[i].1@))
    }
}

impl<V: View> OrderedMap<V> {
    #[verifier::type_invariant]
    spec fn names_are_distinct(&self) -> bool {
        distinct_names(self@)
    }

    /// The empty mapping.
    pub fn new() -> (r: Self)
        ensures
            r@ == Seq::<(Seq<char>, V::V)>::empty(),
    {
        let r = OrderedMap { entries: Vec::new() };
        assert(r@ =~= Seq::<(Seq<char>, V::V)>::empty());
        r
    }

    /// The number of names.
    pub fn len(&self) -> (r: usize)
        ensures
            r == self@.len(),
            distinct_names(self@),
    {
        proof {
            use_type_invariant(self);
        }
        self.entries.len()
    }

    /// The name and the value at position `i`.
    pub fn entry(&self, i: usize) -> (r: (&String, &V))
        requires
            i < self@.len(),
        ensures
            r.0@ == self@[i as int].0,
            r.1@ == self@[i as int].1,
            distinct_names(self@),
    {
        proof {
            use_type_invariant(self);
        }
        let e = &self.entries[i];
        (&e.0, &e.1)
    }

    fn position(&self, name: &str) -> (r: usize)
        ensures
            r == index_of(self@, name@),
            r <= self@.len(),
    {
        let n: usize = self.entries.len();
        let mut i: usize = 0;
        while i < n
            invariant
                i <= n,
                n == self.entries@.len(),
                n == self@.len(),
                forall|j: int| 0 <= j < i ==> (#[trigger] self@[j]).0 != name@,
            decreases n - i,
        {
            if same_text(self.entries[i].0.as_str(), name) {
                proof {
                    lemma_index_of_is(self@, name@, i as int);
                }
                return i;
            }
            i = i + 1;
        }
        proof {
            lemma_index_of_is(self@, name@, i as int);
        }
        i
    }

    /// The value set for `name`, if there is one.
    pub fn get(&self, name: &str) -> (r: Option<&V>)
        ensures
            r is Some == has_name(self@, name@),
            r matches Some(v) ==> v@ == value_of(self@, name@),
    {
        let i: usize = self.position(name);
        if i < self.entries.len() {
            Some(&self.entries[i].1)
        } else {
            None
        }
    }

    /// Sets `name` to `value`.
    pub fn set(&mut self, name: String, value: V)
        ensures
            final(self)@ == put(old(self)@, name@, value@),
            distinct_names(final(self)@),
    {
        proof {
            use_type_invariant(&*self);
            lemma_put_keeps_names_distinct(self@, name@, value@);
        }
        let i: usize = self.position(name.as_str());
        let mut entries: Vec<(String, V)> = Vec::new();
        core::mem::swap(&mut self.entries, &mut entries);
        if i < entries.len() {
            entries[i] = (name, value);
        } else {
            entries.push((name, value));
        }
        assert(Seq::new(entries@.len(), |k: int| (entries@[k].0@, entries@[k].1@)) =~= put(
            old(self)@,
            name@,
            value@,
        ));
        self.entries = entries;
    }
}

impl OrderedMap<String> {
    /// A copy that holds the same names and texts in the same order.
    pub fn duplicate(&self) -> (r: Self)
        ensures
            r@ == self@,
    {
        let n: usize = self.len();
        let mut r: OrderedMap<String> = OrderedMap::new();
        let mut i: usize = 0;
        while i < n
            invariant
                i <= n,
                n == self@.len(),
                distinct_names(self@),
                r@ == self@.take(i as int),
            decreases n - i,
        {
            let (name, value) = self.entry(i);
            proof {
                let done = self@.take(i as int);
                assert forall|j: int| 0 <= j < done.len() implies (#[trigger] done[j]).0 != name@ by {
                    assert(self@[j].0 != self@[i as int].0);
                }
                lemma_put_new_name(done, name@, value@);
                assert(self@.take(i + 1) =~= done.push(self@[i as int]));
            }
            r.set(name.clone(), value.clone());
            i = i + 1;
        }
        assert(self@.take(n as int) =~= self@);
        r
    }
}

} // verus!
