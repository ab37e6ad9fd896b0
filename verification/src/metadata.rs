//! Key/value metadata of fields and schemas.

use vstd::prelude::*;

verus! {

/// No key occurs at two positions.
pub open spec fn distinct_keys(entries: Seq<(String, String)>) -> bool {
    forall|i: int, j: int|
        0 <= i < j < entries.len() ==> #[trigger] entries[i].0@ != #[trigger] entries[j].0@
}

/// The map that a list of entries stands for; a later entry wins over an earlier one.
pub open spec fn entry_map(entries: Seq<(String, String)>) -> Map<Seq<char>, Seq<char>>
    decreases entries.len(),
{
    if entries.len() == 0 {
        Map::empty()
    } else {
        entry_map(entries.drop_last()).insert(entries.last().0@, entries.last().1@)
    }
}

/// A key that no entry has is not in the map.
proof fn lemma_absent(entries: Seq<(String, String)>, key: Seq<char>)
    requires
        forall|i: int| 0 <= i < entries.len() ==> #[trigger] entries[i].0@ != key,
    ensures
        !entry_map(entries).contains_key(key),
    decreases entries.len(),
{
    if entries.len() > 0 {
        let shorter = entries.drop_last();
        assert forall|i: int| 0 <= i < shorter.len() implies #[trigger] shorter[i].0@ != key by {
            assert(entries[i].0@ != key);
        }
        lemma_absent(shorter, key);
        assert(entries[entries.len() - 1].0@ != key);
    }
}

/// With distinct keys, every entry is found in the map under its key.
proof fn lemma_present(entries: Seq<(String, String)>, at: int)
    requires
        distinct_keys(entries),
        0 <= at < entries.len(),
    ensures
        entry_map(entries).contains_key(entries[at].0@),
        entry_map(entries)[entries[at].0@] == entries[at].1@,
    decreases entries.len(),
{
    if at < entries.len() - 1 {
        let shorter = entries.drop_last();
        assert forall|i: int, j: int| 0 <= i < j < shorter.len() implies #[trigger] shorter[i].0@
            != #[trigger] shorter[j].0@ by {
            assert(entries[i].0@ != entries[j].0@);
        }
        lemma_present(shorter, at);
        assert(shorter[at] == entries[at]);
        assert(entries[at].0@ != entries[entries.len() - 1].0@);
    }
}

/// Replacing an entry by one with the same key is an insertion into the map.
proof fn lemma_replace(entries: Seq<(String, String)>, at: int, entry: (String, String))
    requires
        distinct_keys(entries),
        0 <= at < entries.len(),
        entries[at].0@ == entry.0@,
    ensures
        distinct_keys(entries.update(at, entry)),
        entry_map(entries.update(at, entry)) == entry_map(entries).insert(entry.0@, entry.1@),
    decreases entries.len(),
{
    let updated = entries.update(at, entry);
    assert forall|i: int, j: int| 0 <= i < j < updated.len() implies #[trigger] updated[i].0@
        != #[trigger] updated[j].0@ by {
        assert(entries[i].0@ != entries[j].0@);
    }
    let shorter = entries.drop_last();
    if at == entries.len() - 1 {
        assert(updated.drop_last() =~= shorter);
        assert(entry_map(updated) =~= entry_map(entries).insert(entry.0@, entry.1@));
    } else {
        assert forall|i: int, j: int| 0 <= i < j < shorter.len() implies #[trigger] shorter[i].0@
            != #[trigger] shorter[j].0@ by {
            assert(entries[i].0@ != entries[j].0@);
        }
        lemma_replace(shorter, at, entry);
        assert(updated.drop_last() =~= shorter.update(at, entry));
        assert(entries[at].0@ != entries[entries.len() - 1].0@);
        assert(entry_map(updated) =~= entry_map(entries).insert(entry.0@, entry.1@));
    }
}

/// A map from text keys to text values.
///
/// The entries are kept in the order in which their keys first came in; no key occurs twice.
#[derive(Debug)]
pub struct Metadata {
    entries: Vec<(String, String)>,
}

impl View for Metadata {
    type V = Map<Seq<char>, Seq<char>>;

    closed spec fn view(&self) -> Map<Seq<char>, Seq<char>> {
        entry_map(self.entries@)
    }
}

impl Metadata {
    #[verifier::type_invariant]
    spec fn wf(self) -> bool {
        distinct_keys(self.entries@)
    }

    /// Metadata without entries.
    pub fn new() -> (result: Self)
        ensures
            result@ == Map::<Seq<char>, Seq<char>>::empty(),
    {
        Metadata { entries: Vec::new() }
    }

    /// The position of `key`, or the number of entries if no entry has it.
    fn position(&self, key: &String) -> (at: usize)
        ensures
            at <= self.entries@.len(),
            at < self.entries@.len() ==> self.entries@[at as int].0@ == key@,
            at == self.entries@.len() ==> forall|i: int|
                0 <= i < self.entries@.len() ==> #[trigger] self.entries@[i].0@ != key@,
    {
        let mut at: usize = 0;
        while at < self.entries.len()
            invariant
                at <= self.entries@.len(),
                forall|i: int| 0 <= i < at ==> #[trigger] self.entries@[i].0@ != key@,
            decreases self.entries@.len() - at,
        {
            if self.entries[at].0 == *key {
                return at;
            }
            at = at + 1;
        }
        at
    }

    /// The value stored under `key`, if there is one.
    pub fn get(&self, key: &str) -> (result: Option<&String>)
        ensures
            match result {
                Some(value) => self@.contains_key(key@) && self@[key@] == value@,
                None => !self@.contains_key(key@),
            },
    {
        proof {
            use_type_invariant(self);
        }
        let wanted = key.to_string();
        let at: usize = self.position(&wanted);
        if at < self.entries.len() {
            proof {
                lemma_present(self.entries@, at as int);
            }
            Some(&self.entries[at].1)
        } else {
            proof {
                lemma_absent(self.entries@, key@);
            }
            None
        }
    }

    /// Stores `value` under `key`, in place of what was there.
    pub fn insert(&mut self, key: String, value: String)
        ensures
            final(self)@ == old(self)@.insert(key@, value@),
    {
        proof {
            use_type_invariant(&*self);
        }
        let at: usize = self.position(&key);
        let mut entries: Vec<(String, String)> = Vec::new();
        std::mem::swap(&mut entries, &mut self.entries);
        let ghost before = entries@;
        if at < entries.len() {
            proof {
                lemma_replace(before, at as int, (key, value));
            }
            entries.set(at, (key, value));
        } else {
            entries.push((key, value));
            proof {
                assert(entries@.drop_last() =~= before);
            }
        }
        self.entries = entries;
    }

    /// All entries, each key once.
    pub fn entries(&self) -> (result: &Vec<(String, String)>)
        ensures
            distinct_keys(result@),
            entry_map(result@) == self@,
            forall|i: int, j: int|
                0 <= i < j < result@.len() ==> #[trigger] result@[i].0@ != #[trigger] result@[j].0@,
            forall|i: int|
                0 <= i < result@.len() ==> {
                    &&& self@.contains_key((#[trigger] result@[i]).0@)
                    &&& self@[result@[i].0@] == result@[i].1@
                },
            forall|key: Seq<char>| #[trigger]
                self@.contains_key(key) ==> exists|i: int|
                    0 <= i < result@.len() && (#[trigger] result@[i]).0@ == key,
    {
        proof {
            use_type_invariant(self);
            assert forall|i: int| 0 <= i < self.entries@.len() implies {
                &&& self@.contains_key((#[trigger] self.entries@[i]).0@)
                &&& self@[self.entries@[i].0@] == self.entries@[i].1@
            } by {
                lemma_present(self.entries@, i);
            }
            assert forall|key: Seq<char>| #[trigger] self@.contains_key(key) implies exists|i: int|
                0 <= i < self.entries@.len() && (#[trigger] self.entries@[i]).0@ == key by {
                if forall|i: int|
                    0 <= i < self.entries@.len() ==> #[trigger] self.entries@[i].0@ != key {
                    lemma_absent(self.entries@, key);
                }
            }
        }
        &self.entries
    }
}

impl Clone for Metadata {
    fn clone(&self) -> (result: Self)
        ensures
            result@ == self@,
    {
        proof {
            use_type_invariant(self);
        }
        let mut entries: Vec<(String, String)> = Vec::new();
        let mut i: usize = 0;
        while i < self.entries.len()
            invariant
                i <= self.entries@.len(),
                entries@ == self.entries@.take(i as int),
            decreases self.entries@.len() - i,
        {
            entries.push((self.entries[i].0.clone(), self.entries[i].1.clone()));
            i = i + 1;
            proof {
                assert(entries@ =~= self.entries@.take(i as int));
            }
        }
        proof {
            assert(entries@ =~= self.entries@);
        }
        Metadata { entries }
    }
}

} // verus!
