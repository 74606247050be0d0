//! A table from model names to handles where the first registration of a
//! name wins.
use vstd::prelude::*;

use crate::text::IntoText;

verus! {

/// The handle registered first under `name` among `entries`, if any.
pub open spec fn first_entry<T>(entries: Seq<(String, T)>, name: Seq<char>) -> Option<T>
    decreases entries.len(),
{
    if entries.len() == 0 {
        None
    } else if entries[0].0@ == name {
        Some(entries[0].1)
    } else {
        first_entry(entries.drop_first(), name)
    }
}

/// Model names and their handles, in registration order.
pub struct Registry<T> {
    entries: Vec<(String, T)>,
}

impl<T> View for Registry<T> {
    type V = Map<Seq<char>, T>;

    closed spec fn view(&self) -> Map<Seq<char>, T> {
        Map::new(
            |name: Seq<char>| first_entry(self.entries@, name) is Some,
            |name: Seq<char>| first_entry(self.entries@, name).unwrap(),
        )
    }
}

/// No name is registered twice among `entries`.
pub open spec fn distinct_names<T>(entries: Seq<(String, T)>) -> bool {
    forall|i: int, j: int|
        0 <= i < j < entries.len() ==> #[trigger] entries[i].0@ != #[trigger] entries[j].0@
}

impl<T> Registry<T> {
    /// Every name has one entry.
    #[verifier::type_invariant]
    spec fn names_are_distinct(&self) -> bool {
        distinct_names(self.entries@)
    }

    /// An empty table.
    pub fn new() -> (registry: Self)
        ensures
            registry@ == Map::<Seq<char>, T>::empty(),
    {
        let registry = Registry { entries: Vec::new() };
        assert(registry@ =~= Map::<Seq<char>, T>::empty());
        registry
    }

    /// The number of names registered.
    pub fn len(&self) -> (n: usize)
        ensures
            self@.dom().finite(),
            n == self@.len(),
    {
        proof {
            use_type_invariant(self);
            lemma_entries_len(self.entries@);
            assert(self@ =~= entries_map(self.entries@));
        }
        self.entries.len()
    }

    /// The position of the first entry under `name`.
    fn position(&self, name: &str) -> (found: Option<usize>)
        ensures
            match found {
                Some(i) => i < self.entries@.len() && self.entries@[i as int].0@ == name@
                    && first_entry(self.entries@, name@) == Some(self.entries@[i as int].1),
                None => first_entry(self.entries@, name@) is None,
            },
    {
        let key = name.to_owned();
        let mut i: usize = 0;
        assert(self.entries@.skip(0) =~= self.entries@);
        while i < self.entries.len()
            invariant
                i <= self.entries@.len(),
                key@ == name@,
                first_entry(self.entries@, name@) == first_entry(self.entries@.skip(i as int), name@),
            decreases self.entries.len() - i,
        {
            if self.entries[i].0 == key {
                return Some(i);
            }
            assert(self.entries@.skip(i as int).drop_first() =~= self.entries@.skip(i + 1));
            i = i + 1;
        }
        None
    }

    /// Whether a handle is registered under `name`.
    pub fn contains(&self, name: &str) -> (found: bool)
        ensures
            found == self@.contains_key(name@),
    {
        self.position(name).is_some()
    }

    /// The handle registered under `name`.
    pub fn get(&self, name: &str) -> (handle: Option<&T>)
        ensures
            match handle {
                Some(h) => self@.contains_key(name@) && *h == self@[name@],
                None => !self@.contains_key(name@),
            },
    {
        match self.position(name) {
            Some(i) => Some(&self.entries[i].1),
            None => None,
        }
    }

    /// Registers `handle` under `name`, unless a handle is already registered
    /// there: the first registration wins.
    pub fn insert<S: IntoText>(&mut self, name: S, handle: T)
        ensures
            final(self)@ == (if old(self)@.contains_key(name.text_view()) {
                old(self)@
            } else {
                old(self)@.insert(name.text_view(), handle)
            }),
    {
        proof {
            use_type_invariant(&*self);
        }
        let key = name.into_text();
        let ghost k = key@;
        if self.position(key.as_str()).is_some() {
            return;
        }
        let ghost before = self.entries@;
        let mut entries: Vec<(String, T)> = Vec::new();
        std::mem::swap(&mut entries, &mut self.entries);
        entries.push((key, handle));
        proof {
            assert forall|i: int, j: int| 0 <= i < j < entries@.len() implies #[trigger] entries@[i].0@
                != #[trigger] entries@[j].0@ by {
                if j == before.len() {
                    lemma_first_entry_none(before, k, i);
                }
            }
            assert forall|n: Seq<char>| #[trigger] first_entry(entries@, n) == (if n == k {
                Some(handle)
            } else {
                first_entry(before, n)
            }) by {
                lemma_first_entry_push(before, (entries@.last().0, handle), n);
            }
        }
        self.entries = entries;
        assert(self@ =~= old(self)@.insert(k, handle));
    }
}

impl<T: Clone> Clone for Registry<T> {
    /// The same names, each with a clone of its handle.
    fn clone(&self) -> (copy: Self)
        ensures
            copy@.dom() == self@.dom(),
            forall|n: Seq<char>| #[trigger] copy@.contains_key(n) ==> cloned(self@[n], copy@[n]),
    {
        proof {
            use_type_invariant(self);
        }
        let mut entries: Vec<(String, T)> = Vec::new();
        let mut i: usize = 0;
        while i < self.entries.len()
            invariant
                i <= self.entries@.len(),
                entries@.len() == i,
                forall|j: int|
                    0 <= j < i ==> #[trigger] entries@[j].0@ == self.entries@[j].0@ && cloned(
                        self.entries@[j].1,
                        entries@[j].1,
                    ),
            decreases self.entries.len() - i,
        {
            let name = self.entries[i].0.clone();
            let handle = self.entries[i].1.clone();
            entries.push((name, handle));
            i = i + 1;
        }
        proof {
            assert forall|a: int, b: int| 0 <= a < b < entries@.len() implies #[trigger] entries@[a].0@
                != #[trigger] entries@[b].0@ by {
                assert(self.entries@[a].0@ != self.entries@[b].0@);
            }
            assert forall|n: Seq<char>| true implies (first_entry(entries@, n) is Some) == (first_entry(
                self.entries@,
                n,
            ) is Some) && (first_entry(entries@, n) is Some ==> cloned(
                first_entry(self.entries@, n).unwrap(),
                first_entry(entries@, n).unwrap(),
            )) by {
                lemma_first_entry_pointwise(self.entries@, entries@, n);
            }
        }
        let copy = Registry { entries };
        assert(copy@.dom() =~= self@.dom());
        copy
    }
}

/// Entries with the same names, each handle a clone of the other's, find
/// the same names, with cloned handles.
proof fn lemma_first_entry_pointwise<T: Clone>(a: Seq<(String, T)>, b: Seq<(String, T)>, n: Seq<char>)
    requires
        a.len() == b.len(),
        forall|j: int| 0 <= j < a.len() ==> #[trigger] b[j].0@ == a[j].0@ && cloned(a[j].1, b[j].1),
    ensures
        (first_entry(b, n) is Some) == (first_entry(a, n) is Some),
        first_entry(b, n) is Some ==> cloned(first_entry(a, n).unwrap(), first_entry(b, n).unwrap()),
    decreases a.len(),
{
    if a.len() > 0 {
        assert(b[0].0@ == a[0].0@ && cloned(a[0].1, b[0].1));
        assert forall|j: int| 0 <= j < a.drop_first().len() implies #[trigger] b.drop_first()[j].0@
            == a.drop_first()[j].0@ && cloned(a.drop_first()[j].1, b.drop_first()[j].1) by {
            assert(b.drop_first()[j] == b[j + 1] && a.drop_first()[j] == a[j + 1]);
        }
        lemma_first_entry_pointwise(a.drop_first(), b.drop_first(), n);
    }
}

proof fn lemma_first_entry_push<T>(entries: Seq<(String, T)>, entry: (String, T), name: Seq<char>)
    requires
        first_entry(entries, entry.0@) is None,
    ensures
        first_entry(entries.push(entry), name) == (if name == entry.0@ {
            Some(entry.1)
        } else {
            first_entry(entries, name)
        }),
    decreases entries.len(),
{
    if entries.len() == 0 {
        let e = entries.push(entry);
        assert(e.drop_first() =~= Seq::<(String, T)>::empty());
        assert(first_entry(e.drop_first(), name) is None);
        assert(e[0] == entry);
    } else {
        assert(entries.push(entry).drop_first() =~= entries.drop_first().push(entry));
        if entries[0].0@ != entry.0@ {
            lemma_first_entry_push(entries.drop_first(), entry, name);
        }
    }
}

/// No entry has a name that `first_entry` does not find.
proof fn lemma_first_entry_none<T>(entries: Seq<(String, T)>, name: Seq<char>, i: int)
    requires
        first_entry(entries, name) is None,
        0 <= i < entries.len(),
    ensures
        entries[i].0@ != name,
    decreases entries.len(),
{
    if i > 0 {
        assert(entries.drop_first()[i - 1] == entries[i]);
        lemma_first_entry_none(entries.drop_first(), name, i - 1);
    }
}

/// The table that `entries` describe.
pub open spec fn entries_map<T>(entries: Seq<(String, T)>) -> Map<Seq<char>, T> {
    Map::new(
        |name: Seq<char>| first_entry(entries, name) is Some,
        |name: Seq<char>| first_entry(entries, name).unwrap(),
    )
}

/// With distinct names, the table has one name per entry.
proof fn lemma_entries_len<T>(entries: Seq<(String, T)>)
    requires
        distinct_names(entries),
    ensures
        entries_map(entries).dom().finite(),
        entries_map(entries).len() == entries.len(),
    decreases entries.len(),
{
    if entries.len() == 0 {
        assert(entries_map(entries).dom() =~= Set::<Seq<char>>::empty());
    } else {
        let prev = entries.drop_last();
        let last = entries.last();
        assert(entries == prev.push(last));
        lemma_entries_len(prev);
        if first_entry(prev, last.0@) is Some {
            lemma_first_entry_some(prev, last.0@);
            let i = choose|i: int| 0 <= i < prev.len() && prev[i].0@ == last.0@;
            assert(entries[i].0@ == entries[entries.len() - 1].0@);
        }
        assert forall|n: Seq<char>| #[trigger] first_entry(entries, n) == (if n == last.0@ {
            Some(last.1)
        } else {
            first_entry(prev, n)
        }) by {
            lemma_first_entry_push(prev, last, n);
        }
        assert(entries_map(entries).dom() =~= entries_map(prev).dom().insert(last.0@));
    }
}

/// A name that `first_entry` finds is the name of some entry.
proof fn lemma_first_entry_some<T>(entries: Seq<(String, T)>, name: Seq<char>)
    requires
        first_entry(entries, name) is Some,
    ensures
        exists|i: int| 0 <= i < entries.len() && entries[i].0@ == name,
    decreases entries.len(),
{
    if entries[0].0@ != name {
        lemma_first_entry_some(entries.drop_first(), name);
        let i = choose|i: int| 0 <= i < entries.drop_first().len() && entries.drop_first()[i].0@ == name;
        assert(entries[i + 1].0@ == name);
    }
}

} // verus!
