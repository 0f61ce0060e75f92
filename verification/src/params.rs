//! Named parameter values: a map from parameter keys to values with
//! insert-or-replace semantics.
use vstd::prelude::*;

verus! {

/// The map that inserting `entries` one after another into an empty map gives:
/// where a key occurs more than once, its last value wins.
pub open spec fn entries_map<V>(entries: Seq<(String, V)>) -> Map<Seq<char>, V>
    decreases entries.len(),
{
    if entries.len() == 0 {
        Map::empty()
    } else {
        entries_map(entries.drop_last()).insert(entries.last().0@, entries.last().1)
    }
}

/// No key occurs twice among `entries`.
pub open spec fn keys_distinct<V>(entries: Seq<(String, V)>) -> bool {
    forall|i: int, j: int|
        0 <= i < j < entries.len() ==> #[trigger] entries[i].0@ != #[trigger] entries[j].0@
}

/// The keys of `entries_map(entries)` are exactly the keys that occur in `entries`.
pub proof fn lemma_entries_map_dom<V>(entries: Seq<(String, V)>, k: Seq<char>)
    ensures
        entries_map(entries).dom().contains(k) <==> exists|i: int|
            0 <= i < entries.len() && #[trigger] entries[i].0@ == k,
    decreases entries.len(),
{
    if entries.len() > 0 {
        let prefix = entries.drop_last();
        lemma_entries_map_dom(prefix, k);
        if entries_map(entries).dom().contains(k) && entries.last().0@ != k {
            let i = choose|i: int| 0 <= i < prefix.len() && #[trigger] prefix[i].0@ == k;
            assert(entries[i].0@ == k);
        }
        if exists|i: int| 0 <= i < entries.len() && #[trigger] entries[i].0@ == k {
            let i = choose|i: int| 0 <= i < entries.len() && #[trigger] entries[i].0@ == k;
            if i < prefix.len() {
                assert(prefix[i].0@ == k);
            }
        }
    }
}

/// Where no key occurs twice, every entry's value is what the map holds for its key.
pub proof fn lemma_entries_map_value<V>(entries: Seq<(String, V)>, i: int)
    requires
        keys_distinct(entries),
        0 <= i < entries.len(),
    ensures
        entries_map(entries).dom().contains(entries[i].0@),
        entries_map(entries)[entries[i].0@] == entries[i].1,
    decreases entries.len(),
{
    let prefix = entries.drop_last();
    if i < entries.len() - 1 {
        assert(keys_distinct(prefix)) by {
            assert forall|a: int, b: int| 0 <= a < b < prefix.len() implies #[trigger] prefix[a].0@
                != #[trigger] prefix[b].0@ by {
                assert(entries[a].0@ != entries[b].0@);
            }
        }
        lemma_entries_map_value(prefix, i);
        assert(entries[i].0@ != entries[entries.len() - 1].0@);
    }
}

/// A map from parameter keys to values in which every key occurs once.
pub struct ParamMap<V> {
    entries: Vec<(String, V)>,
}

impl<V> View for ParamMap<V> {
    type V = Map<Seq<char>, V>;

    closed spec fn view(&self) -> Map<Seq<char>, V> {
        entries_map(self.entries@)
    }
}

impl<V> ParamMap<V> {
    #[verifier::type_invariant]
    closed spec fn inv(self) -> bool {
        keys_distinct(self.entries@)
    }

    /// The empty map.
    pub fn new() -> (res: Self)
        ensures
            res@ == Map::<Seq<char>, V>::empty(),
    {
        ParamMap { entries: Vec::new() }
    }

    /// Sets `key` to `value`, replacing the value that `key` had.
    pub fn insert(&mut self, key: String, value: V)
        ensures
            final(self)@ == old(self)@.insert(key@, value),
    {
        proof {
            use_type_invariant(&*self);
        }
        let n = self.entries.len();
        let mut i: usize = 0;
        while i < n
            invariant
                n == self.entries.len(),
                i <= n,
                keys_distinct(self.entries@),
                forall|j: int| 0 <= j < i ==> #[trigger] self.entries@[j].0@ != key@,
            ensures
                i <= n,
                i < n ==> self.entries@[i as int].0@ == key@,
                forall|j: int| 0 <= j < i ==> #[trigger] self.entries@[j].0@ != key@,
            decreases n - i,
        {
            if self.entries[i].0 == key {
                break;
            }
            i = i + 1;
        }
        let ghost before = self.entries@;
        if i < n {
            let mut entries: Vec<(String, V)> = Vec::new();
            std::mem::swap(&mut entries, &mut self.entries);
            entries.set(i, (key, value));
            let ghost after = entries@;
            proof {
                assert(before[i as int].0@ == key@);
                assert(keys_distinct(after)) by {
                    assert forall|a: int, b: int| 0 <= a < b < after.len() implies #[trigger] after[a].0@
                        != #[trigger] after[b].0@ by {
                        assert(before[a].0@ != before[b].0@);
                    }
                }
                assert(entries_map(after) =~= entries_map(before).insert(key@, value)) by {
                    assert forall|k: Seq<char>|
                        #![auto]
                        entries_map(after).dom().contains(k) <==> entries_map(before).insert(
                            key@,
                            value,
                        ).dom().contains(k) by {
                        lemma_entries_map_dom(after, k);
                        lemma_entries_map_dom(before, k);
                        if entries_map(before).dom().contains(k) {
                            let j = choose|j: int| 0 <= j < before.len() && #[trigger] before[j].0@ == k;
                            if j == i {
                                assert(after[i as int].0@ == k);
                            } else {
                                assert(after[j].0@ == k);
                            }
                        }
                        if entries_map(after).dom().contains(k) {
                            let j = choose|j: int| 0 <= j < after.len() && #[trigger] after[j].0@ == k;
                            if j != i {
                                assert(before[j].0@ == k);
                            }
                        }
                    }
                    assert forall|k: Seq<char>|
                        #![auto]
                        entries_map(after).dom().contains(k) implies entries_map(after)[k]
                        == entries_map(before).insert(key@, value)[k] by {
                        lemma_entries_map_dom(after, k);
                        let j = choose|j: int| 0 <= j < after.len() && #[trigger] after[j].0@ == k;
                        lemma_entries_map_value(after, j);
                        if j != i {
                            lemma_entries_map_value(before, j);
                        }
                    }
                }
            }
            self.entries = entries;
        } else {
            let mut entries: Vec<(String, V)> = Vec::new();
            std::mem::swap(&mut entries, &mut self.entries);
            entries.push((key, value));
            proof {
                let after = entries@;
                assert(after.drop_last() =~= before);
                assert(keys_distinct(after)) by {
                    assert forall|a: int, b: int| 0 <= a < b < after.len() implies #[trigger] after[a].0@
                        != #[trigger] after[b].0@ by {
                        if b < before.len() {
                            assert(before[a].0@ != before[b].0@);
                        } else {
                            assert(before[a].0@ != key@);
                        }
                    }
                }
            }
            self.entries = entries;
        }
    }
}

impl<V: Copy> ParamMap<V> {
    /// The value that `key` maps to, if any.
    pub fn get(&self, key: &str) -> (res: Option<V>)
        ensures
            res == (if self@.dom().contains(key@) {
                Some(self@[key@])
            } else {
                None
            }),
    {
        proof {
            use_type_invariant(self);
        }
        let wanted = String::from_str(key);
        let n = self.entries.len();
        for i in 0..n
            invariant
                n == self.entries@.len(),
                wanted@ == key@,
                keys_distinct(self.entries@),
                forall|j: int| 0 <= j < i ==> #[trigger] self.entries@[j].0@ != key@,
        {
            if self.entries[i].0 == wanted {
                proof {
                    lemma_entries_map_value(self.entries@, i as int);
                }
                return Some(self.entries[i].1);
            }
        }
        proof {
            lemma_entries_map_dom(self.entries@, key@);
        }
        None
    }

    /// The map that inserting `entries` one after another into an empty map gives.
    pub fn from_entries(entries: &Vec<(String, V)>) -> (res: Self)
        ensures
            res@ == entries_map(entries@),
    {
        let mut map = ParamMap::new();
        let n = entries.len();
        for i in 0..n
            invariant
                n == entries@.len(),
                map@ == entries_map(entries@.take(i as int)),
        {
            let key = entries[i].0.clone();
            map.insert(key, entries[i].1);
            assert(entries@.take(i + 1).drop_last() =~= entries@.take(i as int));
        }
        assert(entries@.take(n as int) =~= entries@);
        map
    }

    /// The entries of the map, each key once, in an unspecified order.
    pub fn entries(&self) -> (res: &Vec<(String, V)>)
        ensures
            entries_map(res@) == self@,
            keys_distinct(res@),
    {
        proof {
            use_type_invariant(self);
        }
        &self.entries
    }
}

} // verus!
