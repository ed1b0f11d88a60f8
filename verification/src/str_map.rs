//! A map with string keys, kept as a list of entries with distinct keys.
use vstd::prelude::*;

verus! {

/// Two entries of the list never have the same key.
pub open spec fn distinct_keys<V>(entries: Seq<(String, V)>) -> bool {
    forall|i: int, j: int|
        #![trigger entries[i], entries[j]]
        0 <= i < j < entries.len() ==> entries[i].0@ != entries[j].0@
}

/// The position of `key` in the list, if it is there.
pub open spec fn holds_key<V>(entries: Seq<(String, V)>, key: Seq<char>, i: int) -> bool {
    0 <= i < entries.len() && entries[i].0@ == key
}

/// The map that a list of entries stands for.
pub open spec fn entries_map<V>(entries: Seq<(String, V)>) -> Map<Seq<char>, V> {
    Map::new(
        |k: Seq<char>| exists|i: int| #[trigger] holds_key(entries, k, i),
        |k: Seq<char>| entries[choose|i: int| #[trigger] holds_key(entries, k, i)].1,
    )
}

/// A map from strings to values of type `V`.
pub struct StrMap<V> {
    entries: Vec<(String, V)>,
}

impl<V> View for StrMap<V> {
    type V = Map<Seq<char>, V>;

    closed spec fn view(&self) -> Map<Seq<char>, V> {
        entries_map(self.entries@)
    }
}

proof fn lemma_entry<V>(entries: Seq<(String, V)>, i: int)
    requires
        distinct_keys(entries),
        0 <= i < entries.len(),
    ensures
        entries_map(entries).contains_key(entries[i].0@),
        entries_map(entries)[entries[i].0@] == entries[i].1,
{
    let k = entries[i].0@;
    assert(holds_key(entries, k, i));
    let j = choose|j: int| #[trigger] holds_key(entries, k, j);
    assert(holds_key(entries, k, j));
    assert(i == j);
}

impl<V> StrMap<V> {
    #[verifier::type_invariant]
    spec fn well_formed(self) -> bool {
        distinct_keys(self.entries@)
    }

    pub fn new() -> (m: Self)
        ensures
            m@ == Map::<Seq<char>, V>::empty(),
    {
        let m = StrMap { entries: Vec::new() };
        assert(m@ =~= Map::<Seq<char>, V>::empty());
        m
    }

    /// The position of a key in the list.
    fn find(&self, key: &String) -> (r: Option<usize>)
        ensures
            match r {
                Some(i) => holds_key(self.entries@, key@, i as int),
                None => !self@.contains_key(key@),
            },
    {
        let mut i: usize = 0;
        while i < self.entries.len()
            invariant
                i <= self.entries@.len(),
                forall|j: int| 0 <= j < i ==> (#[trigger] self.entries@[j]).0@ != key@,
            decreases self.entries@.len() - i,
        {
            if self.entries[i].0 == *key {
                return Some(i);
            }
            i = i + 1;
        }
        None
    }

    pub fn contains_key(&self, key: &String) -> (b: bool)
        ensures
            b == self@.contains_key(key@),
    {
        match self.find(key) {
            Some(i) => {
                proof {
                    use_type_invariant(self);
                    lemma_entry(self.entries@, i as int);
                }
                true
            },
            None => false,
        }
    }

    pub fn get(&self, key: &String) -> (r: Option<&V>)
        ensures
            match r {
                Some(v) => self@.contains_key(key@) && *v == self@[key@],
                None => !self@.contains_key(key@),
            },
    {
        match self.find(key) {
            Some(i) => {
                proof {
                    use_type_invariant(self);
                    lemma_entry(self.entries@, i as int);
                }
                Some(&self.entries[i].1)
            },
            None => None,
        }
    }

    /// Takes the entry of `key` out of the map.
    pub fn remove(&mut self, key: &String) -> (r: Option<V>)
        ensures
            final(self)@ == old(self)@.remove(key@),
            match r {
                Some(v) => old(self)@.contains_key(key@) && v == old(self)@[key@],
                None => !old(self)@.contains_key(key@),
            },
    {
        proof {
            use_type_invariant(&*self);
        }
        let ghost before = self.entries@;
        match self.find(key) {
            Some(i) => {
                let mut entries: Vec<(String, V)> = Vec::new();
                std::mem::swap(&mut entries, &mut self.entries);
                let (_, v) = entries.swap_remove(i);
                proof {
                    lemma_entry(before, i as int);
                    lemma_swap_removed(before, entries@, i as int);
                }
                self.entries = entries;
                Some(v)
            },
            None => {
                assert(self@.remove(key@) =~= self@);
                None
            },
        }
    }

    /// Sets the value of `key`, replacing the one it had.
    pub fn insert(&mut self, key: String, value: V)
        ensures
            final(self)@ == old(self)@.insert(key@, value),
    {
        let _ = self.remove(&key);
        proof {
            use_type_invariant(&*self);
        }
        let ghost before = self.entries@;
        let mut entries: Vec<(String, V)> = Vec::new();
        std::mem::swap(&mut entries, &mut self.entries);
        let ghost k = key@;
        entries.push((key, value));
        proof {
            assert(entries@.drop_last() =~= before);
            lemma_pushed(before, entries@, k, value);
        }
        self.entries = entries;
    }

    /// The keys of the map, each once.
    pub fn keys(&self) -> (r: Vec<String>)
        ensures
            r@.len() == self@.len(),
            forall|i: int, j: int|
                #![trigger r@[i], r@[j]]
                0 <= i < j < r@.len() ==> r@[i]@ != r@[j]@,
            forall|k: Seq<char>|
                #[trigger] self@.contains_key(k) <==> exists|i: int|
                    0 <= i < r@.len() && (#[trigger] r@[i])@ == k,
    {
        let mut out: Vec<String> = Vec::new();
        let mut i: usize = 0;
        while i < self.entries.len()
            invariant
                i <= self.entries@.len(),
                out@.len() == i,
                forall|j: int| 0 <= j < i ==> #[trigger] out@[j] == self.entries@[j].0,
            decreases self.entries@.len() - i,
        {
            out.push(self.entries[i].0.clone());
            i = i + 1;
        }
        proof {
            use_type_invariant(self);
            lemma_map_len(self.entries@);
            assert forall|k: Seq<char>| #[trigger] self@.contains_key(k) <==> exists|i: int|
                0 <= i < out@.len() && (#[trigger] out@[i])@ == k by {
                if self@.contains_key(k) {
                    let j = choose|j: int| #[trigger] holds_key(self.entries@, k, j);
                    assert(out@[j]@ == k);
                }
                if exists|i: int| 0 <= i < out@.len() && (#[trigger] out@[i])@ == k {
                    let j = choose|j: int| 0 <= j < out@.len() && (#[trigger] out@[j])@ == k;
                    lemma_entry(self.entries@, j);
                }
            }
        }
        out
    }
}

proof fn lemma_pushed<V>(
    before: Seq<(String, V)>,
    after: Seq<(String, V)>,
    key: Seq<char>,
    value: V,
)
    requires
        distinct_keys(before),
        !entries_map(before).contains_key(key),
        after.len() == before.len() + 1,
        after.drop_last() == before,
        after.last().0@ == key,
        after.last().1 == value,
    ensures
        distinct_keys(after),
        entries_map(after) == entries_map(before).insert(key, value),
{
    assert forall|i: int| 0 <= i < before.len() implies #[trigger] after[i] == before[i] by {
        assert(after.drop_last()[i] == after[i]);
    }
    assert forall|i: int, j: int|
        #![trigger after[i], after[j]]
        0 <= i < j < after.len() implies after[i].0@ != after[j].0@ by {
        if j == after.len() - 1 {
            if after[i].0@ == key {
                assert(holds_key(before, key, i));
            }
        } else {
            assert(after[i] == before[i] && after[j] == before[j]);
        }
    }
    let m = entries_map(before).insert(key, value);
    assert forall|k: Seq<char>| #[trigger] entries_map(after).contains_key(k) <==> m.contains_key(
        k,
    ) by {
        if entries_map(after).contains_key(k) {
            let i = choose|i: int| #[trigger] holds_key(after, k, i);
            if i < before.len() {
                assert(after[i] == before[i]);
                assert(holds_key(before, k, i));
            }
        }
        if m.contains_key(k) {
            if k == key {
                assert(holds_key(after, k, before.len() as int));
            } else {
                let i = choose|i: int| #[trigger] holds_key(before, k, i);
                assert(after[i] == before[i]);
                assert(holds_key(after, k, i));
            }
        }
    }
    assert forall|k: Seq<char>| #[trigger] entries_map(after).contains_key(k) implies entries_map(
        after,
    )[k] == m[k] by {
        let i = choose|i: int| #[trigger] holds_key(after, k, i);
        lemma_entry(after, i);
        if i < before.len() {
            assert(after[i] == before[i]);
            lemma_entry(before, i);
        }
    }
    assert(entries_map(after) =~= m);
}

proof fn lemma_swap_removed<V>(before: Seq<(String, V)>, after: Seq<(String, V)>, i: int)
    requires
        distinct_keys(before),
        0 <= i < before.len(),
        after == before.update(i, before.last()).drop_last(),
    ensures
        distinct_keys(after),
        entries_map(after) == entries_map(before).remove(before[i].0@),
{
    let key = before[i].0@;
    let last = before.len() - 1;
    assert forall|j: int| 0 <= j < after.len() implies #[trigger] after[j] == (if j == i {
        before[last]
    } else {
        before[j]
    }) by {}
    assert forall|a: int, b: int|
        #![trigger after[a], after[b]]
        0 <= a < b < after.len() implies after[a].0@ != after[b].0@ by {
        let x = if a == i { last } else { a };
        let y = if b == i { last } else { b };
        assert(after[a] == before[x] && after[b] == before[y]);
        if x < y {
            assert(before[x].0@ != before[y].0@);
        } else {
            assert(before[y].0@ != before[x].0@);
        }
    }
    let m = entries_map(before).remove(key);
    assert forall|k: Seq<char>| #[trigger] entries_map(after).contains_key(k) <==> m.contains_key(
        k,
    ) by {
        if entries_map(after).contains_key(k) {
            let a = choose|a: int| #[trigger] holds_key(after, k, a);
            let x = if a == i { last } else { a };
            assert(after[a] == before[x]);
            assert(holds_key(before, k, x));
            assert(before[x].0@ != before[i].0@);
        }
        if m.contains_key(k) {
            let x = choose|x: int| #[trigger] holds_key(before, k, x);
            assert(x != i);
            let a = if x == last { i } else { x };
            assert(after[a] == before[x]);
            assert(holds_key(after, k, a));
        }
    }
    assert forall|k: Seq<char>| #[trigger] entries_map(after).contains_key(k) implies entries_map(
        after,
    )[k] == m[k] by {
        let a = choose|a: int| #[trigger] holds_key(after, k, a);
        lemma_entry(after, a);
        let x = if a == i { last } else { a };
        assert(after[a] == before[x]);
        lemma_entry(before, x);
    }
    assert(entries_map(after) =~= m);
}

/// The map has as many keys as the list has entries, and finitely many.
proof fn lemma_map_len<V>(entries: Seq<(String, V)>)
    requires
        distinct_keys(entries),
    ensures
        entries_map(entries).dom().finite(),
        entries_map(entries).len() == entries.len(),
    decreases entries.len(),
{
    if entries.len() == 0 {
        assert(entries_map(entries) =~= Map::<Seq<char>, V>::empty());
    } else {
        let before = entries.drop_last();
        let key = entries.last().0@;
        assert forall|i: int, j: int|
            #![trigger before[i], before[j]]
            0 <= i < j < before.len() implies before[i].0@ != before[j].0@ by {
            assert(before[i] == entries[i] && before[j] == entries[j]);
        }
        lemma_map_len(before);
        if entries_map(before).contains_key(key) {
            let i = choose|i: int| #[trigger] holds_key(before, key, i);
            assert(before[i] == entries[i]);
            assert(entries[i].0@ != entries[entries.len() - 1].0@);
        }
        lemma_pushed(before, entries, key, entries.last().1);
    }
}

} // verus!
