//! Short names, used to identify splits, games and categories, and maps keyed by them.
use vstd::prelude::*;

verus! {

/// A short name.
#[derive(Clone, Debug)]
pub struct Name(pub String);

impl View for Name {
    type V = Seq<char>;

    open spec fn view(&self) -> Seq<char> {
        self.0@
    }
}

impl Name {
    /// Makes a short name from a string.
    pub fn from_str(s: &str) -> (n: Self)
        ensures
            n@ == s@,
    {
        Name(s.to_owned())
    }

    /// Whether this name and `other` are the same name.
    pub fn same_as(&self, other: &Name) -> (b: bool)
        ensures
            b == (self@ == other@),
    {
        self.0 == other.0
    }

    /// A copy of this name.
    pub fn copy(&self) -> (n: Name)
        ensures
            n@ == self@,
    {
        Name(self.0.clone())
    }
}

/// The value that the first entry with key `key` holds, if any.
pub open spec fn lookup<V>(entries: Seq<(Name, V)>, key: Seq<char>) -> Option<V>
    decreases entries.len(),
{
    if entries.len() == 0 {
        None
    } else if entries[0].0@ == key {
        Some(entries[0].1)
    } else {
        lookup(entries.drop_first(), key)
    }
}

/// A map from short names to values, kept as a list of entries; the first entry for a name is
/// the one that counts.
#[derive(Clone, Debug)]
pub struct NameMap<V> {
    /// The entries, in insertion order.
    pub entries: Vec<(Name, V)>,
}

impl<V> NameMap<V> {
    /// The value held for `key`, if any.
    pub open spec fn spec_get(&self, key: Seq<char>) -> Option<V> {
        lookup(self.entries@, key)
    }

    /// An empty map.
    pub fn new() -> (m: Self)
        ensures
            m.entries@.len() == 0,
            forall|k: Seq<char>| m.spec_get(k) is None,
    {
        NameMap { entries: Vec::new() }
    }

    /// The number of entries.
    pub fn len(&self) -> (n: usize)
        ensures
            n == self.entries@.len(),
    {
        self.entries.len()
    }

    /// The value held for `key`, if any.
    pub fn get(&self, key: &Name) -> (r: Option<&V>)
        ensures
            match (r, self.spec_get(key@)) {
                (Some(v), Some(sv)) => *v == sv,
                (None, None) => true,
                _ => false,
            },
    {
        let mut i: usize = 0;
        assert(self.entries@.skip(0) =~= self.entries@);
        while i < self.entries.len()
            invariant
                i <= self.entries@.len(),
                lookup(self.entries@, key@) == lookup(self.entries@.skip(i as int), key@),
            decreases self.entries@.len() - i,
        {
            assert(self.entries@.skip(i as int).drop_first() =~= self.entries@.skip(i + 1));
            if self.entries[i].0.same_as(key) {
                return Some(&self.entries[i].1);
            }
            i = i + 1;
        }
        None
    }

    /// Adds an entry mapping `key` to `value`, which takes precedence over no earlier entry:
    /// an existing value for `key` is replaced.
    pub fn insert(&mut self, key: Name, value: V)
        ensures
            final(self).spec_get(key@) == Some(value),
            forall|k: Seq<char>| k != key@ ==> final(self).spec_get(k) == old(self).spec_get(k),
    {
        let mut i: usize = 0;
        while i < self.entries.len()
            invariant
                i <= self.entries@.len(),
                self.entries@ == old(self).entries@,
                forall|j: int| 0 <= j < i ==> self.entries@[j].0@ != key@,
            decreases self.entries@.len() - i,
        {
            if self.entries[i].0.same_as(&key) {
                let ghost before = self.entries@;
                self.entries.set(i, (key, value));
                proof {
                    lemma_lookup_update(before, i as int, self.entries@[i as int]);
                }
                return;
            }
            i = i + 1;
        }
        let ghost before = self.entries@;
        self.entries.push((key, value));
        proof {
            lemma_lookup_push(before, self.entries@.last());
        }
    }
}

impl<V: Copy> NameMap<V> {
    /// A copy of this map: the same entries, in the same order.
    pub fn copy(&self) -> (m: Self)
        ensures
            m.entries@.len() == self.entries@.len(),
            forall|i: int|
                0 <= i < self.entries@.len() ==> (#[trigger] m.entries@[i]).0@
                    == self.entries@[i].0@ && m.entries@[i].1 == self.entries@[i].1,
    {
        let mut entries: Vec<(Name, V)> = Vec::new();
        let mut i: usize = 0;
        while i < self.entries.len()
            invariant
                i <= self.entries@.len(),
                entries@.len() == i,
                forall|j: int|
                    0 <= j < i ==> (#[trigger] entries@[j]).0@ == self.entries@[j].0@
                        && entries@[j].1 == self.entries@[j].1,
            decreases self.entries@.len() - i,
        {
            let (k, v) = &self.entries[i];
            entries.push((k.copy(), *v));
            i = i + 1;
        }
        NameMap { entries }
    }
}

/// Replacing the first entry for a key, with one of the same key, replaces the looked-up value
/// for that key and changes no other.
proof fn lemma_lookup_update<V>(entries: Seq<(Name, V)>, i: int, e: (Name, V))
    requires
        0 <= i < entries.len(),
        entries[i].0@ == e.0@,
        forall|j: int| 0 <= j < i ==> entries[j].0@ != e.0@,
    ensures
        lookup(entries.update(i, e), e.0@) == Some(e.1),
        forall|k: Seq<char>| k != e.0@ ==> lookup(entries.update(i, e), k) == lookup(entries, k),
    decreases entries.len(),
{
    if i > 0 {
        lemma_lookup_update(entries.drop_first(), i - 1, e);
        assert(entries.update(i, e).drop_first() =~= entries.drop_first().update(i - 1, e));
        assert(entries.update(i, e)[0] == entries[0]);
        assert forall|k: Seq<char>| k != e.0@ implies lookup(entries.update(i, e), k) == lookup(
            entries,
            k,
        ) by {
            assert(entries.update(i, e)[0] == entries[0]);
            assert(lookup(entries.drop_first().update(i - 1, e), k) == lookup(entries.drop_first(), k));
            assert(lookup(entries.update(i, e).drop_first(), k) == lookup(entries.drop_first(), k));
        }
    } else {
        assert forall|k: Seq<char>| k != e.0@ implies lookup(entries.update(i, e), k) == lookup(
            entries,
            k,
        ) by {
            assert(entries.update(i, e).drop_first() =~= entries.drop_first());
        }
    }
}

/// Appending an entry with a new key makes it visible and changes no other lookup.
proof fn lemma_lookup_push<V>(entries: Seq<(Name, V)>, e: (Name, V))
    requires
        forall|j: int| 0 <= j < entries.len() ==> entries[j].0@ != e.0@,
    ensures
        lookup(entries.push(e), e.0@) == Some(e.1),
        forall|k: Seq<char>| k != e.0@ ==> lookup(entries.push(e), k) == lookup(entries, k),
    decreases entries.len(),
{
    if entries.len() > 0 {
        lemma_lookup_push(entries.drop_first(), e);
        assert(entries.push(e).drop_first() =~= entries.drop_first().push(e));
        assert(entries.push(e)[0] == entries[0]);
        assert forall|k: Seq<char>| k != e.0@ implies lookup(entries.push(e), k) == lookup(
            entries,
            k,
        ) by {
            assert(entries.push(e)[0] == entries[0]);
            assert(lookup(entries.drop_first().push(e), k) == lookup(entries.drop_first(), k));
            assert(lookup(entries.push(e).drop_first(), k) == lookup(entries.drop_first(), k));
        }
    } else {
        assert(entries.push(e).drop_first() =~= entries);
    }
}

} // verus!
