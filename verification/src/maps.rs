//! Maps from texts to values.
use vstd::prelude::*;

use crate::text;

verus! {

/// A map from texts to values, in the order in which the keys came.
#[derive(Debug)]
pub struct TextMap<V> {
    entries: Vec<(String, V)>,
}

/// No key occurs twice.
pub open spec fn keys_distinct<V>(entries: Seq<(String, V)>) -> bool {
    forall|i: int, j: int|
        #![trigger entries[i], entries[j]]
        0 <= i < j < entries.len() ==> entries[i].0@ != entries[j].0@
}

/// The map that a list of entries stands for: a later entry counts before an earlier one.
pub open spec fn entries_map<V>(entries: Seq<(String, V)>) -> Map<Seq<char>, V>
    decreases entries.len(),
{
    if entries.len() == 0 {
        Map::empty()
    } else {
        entries_map(entries.drop_last()).insert(entries.last().0@, entries.last().1)
    }
}

proof fn lemma_entries_map<V>(entries: Seq<(String, V)>, key: Seq<char>)
    requires
        keys_distinct(entries),
    ensures
        entries_map(entries).dom().contains(key) <==> exists|i: int|
            0 <= i < entries.len() && #[trigger] entries[i].0@ == key,
        forall|i: int|
            0 <= i < entries.len() && #[trigger] entries[i].0@ == key ==> entries_map(entries)[key]
                == entries[i].1,
    decreases entries.len(),
{
    if entries.len() > 0 {
        let before = entries.drop_last();
        assert(keys_distinct(before)) by {
            assert forall|i: int, j: int|
                #![trigger before[i], before[j]]
                0 <= i < j < before.len() implies before[i].0@ != before[j].0@ by {
                assert(entries[i].0@ != entries[j].0@);
            }
        }
        lemma_entries_map(before, key);
        assert forall|i: int| 0 <= i < entries.len() && #[trigger] entries[i].0@ == key implies
            entries_map(entries)[key] == entries[i].1 by {
            if i < before.len() {
                assert(before[i].0@ == key);
                assert(entries[i].0@ != entries[entries.len() - 1].0@);
            }
        }
        if entries_map(entries).dom().contains(key) {
            if key == entries.last().0@ {
                assert(entries[entries.len() - 1].0@ == key);
            } else {
                let i = choose|i: int| 0 <= i < before.len() && #[trigger] before[i].0@ == key;
                assert(entries[i].0@ == key);
            }
        }
        if exists|i: int| 0 <= i < entries.len() && #[trigger] entries[i].0@ == key {
            let i = choose|i: int| 0 <= i < entries.len() && #[trigger] entries[i].0@ == key;
            if i < before.len() {
                assert(before[i].0@ == key);
            }
        }
    }
}

impl<V> TextMap<V> {
    pub closed spec fn entries(self) -> Seq<(String, V)> {
        self.entries@
    }

    pub closed spec fn wf(self) -> bool {
        keys_distinct(self.entries@)
    }

    pub closed spec fn view(&self) -> Map<Seq<char>, V> {
        entries_map(self.entries@)
    }

    pub fn new() -> (r: TextMap<V>)
        ensures
            r.wf(),
            r@ == Map::<Seq<char>, V>::empty(),
    {
        TextMap { entries: Vec::new() }
    }

    fn position(&self, key: &str) -> (r: Option<usize>)
        requires
            self.wf(),
        ensures
            match r {
                Some(i) => i < self.entries@.len() && self.entries@[i as int].0@ == key@
                    && self@.dom().contains(key@) && self@[key@] == self.entries@[i as int].1,
                None => !self@.dom().contains(key@) && forall|i: int|
                    0 <= i < self.entries@.len() ==> #[trigger] self.entries@[i].0@ != key@,
            },
    {
        proof {
            lemma_entries_map(self.entries@, key@);
        }
        let mut i: usize = 0;
        while i < self.entries.len()
            invariant
                i <= self.entries@.len(),
                keys_distinct(self.entries@),
                forall|j: int| 0 <= j < i ==> #[trigger] self.entries@[j].0@ != key@,
            decreases self.entries@.len() - i,
        {
            if text::same(self.entries[i].0.as_str(), key) {
                proof {
                    lemma_entries_map(self.entries@, key@);
                }
                return Some(i);
            }
            i += 1;
        }
        None
    }

    /// The value under a key.
    pub fn get(&self, key: &str) -> (r: Option<&V>)
        requires
            self.wf(),
        ensures
            r is Some <==> self@.dom().contains(key@),
            r matches Some(v) ==> *v == self@[key@],
    {
        match self.position(key) {
            Some(i) => Some(&self.entries[i].1),
            None => None,
        }
    }

    /// Puts a value under a key, in place of the one that is there.
    pub fn insert(&mut self, key: String, value: V)
        requires
            old(self).wf(),
        ensures
            final(self).wf(),
            final(self)@ == old(self)@.insert(key@, value),
    {
        let ghost before = self.entries@;
        match self.position(key.as_str()) {
            Some(i) => {
                self.entries.set(i, (key, value));
                proof {
                    let after = self.entries@;
                    assert(keys_distinct(after)) by {
                        assert forall|a: int, b: int|
                            #![trigger after[a], after[b]]
                            0 <= a < b < after.len() implies after[a].0@ != after[b].0@ by {
                            assert(before[a].0@ != before[b].0@);
                        }
                    }
                    assert forall|k: Seq<char>|
                        #![trigger entries_map(after).dom().contains(k)]
                        entries_map(after).dom().contains(k) == entries_map(before).insert(
                            key@,
                            value,
                        ).dom().contains(k) && (entries_map(after).dom().contains(k)
                            ==> entries_map(after)[k] == entries_map(before).insert(
                            key@,
                            value,
                        )[k]) by {
                        lemma_replaced(before, after, i as int, key, value, k);
                    }
                    assert(entries_map(after) =~= entries_map(before).insert(key@, value));
                }
            },
            None => {
                self.entries.push((key, value));
                proof {
                    let after = self.entries@;
                    assert(keys_distinct(after)) by {
                        assert forall|a: int, b: int|
                            #![trigger after[a], after[b]]
                            0 <= a < b < after.len() implies after[a].0@ != after[b].0@ by {
                            if b < before.len() {
                                assert(before[a].0@ != before[b].0@);
                            } else {
                                assert(before[a].0@ != key@);
                            }
                        }
                    }
                    assert(after.drop_last() == before);
                }
            },
        }
    }

    /// Takes a key and its value out of the map.
    pub fn remove(&mut self, key: &str) -> (r: Option<V>)
        requires
            old(self).wf(),
        ensures
            final(self).wf(),
            final(self)@ == old(self)@.remove(key@),
            r is Some <==> old(self)@.dom().contains(key@),
            r matches Some(v) ==> v == old(self)@[key@],
    {
        let ghost before = self.entries@;
        match self.position(key) {
            Some(i) => {
                let (_, value) = self.entries.remove(i);
                proof {
                    let after = self.entries@;
                    assert(after == before.remove(i as int));
                    assert(keys_distinct(after)) by {
                        assert forall|a: int, b: int|
                            #![trigger after[a], after[b]]
                            0 <= a < b < after.len() implies after[a].0@ != after[b].0@ by {
                            let x = if a < i {
                                a
                            } else {
                                a + 1
                            };
                            let y = if b < i {
                                b
                            } else {
                                b + 1
                            };
                            assert(before[x].0@ != before[y].0@);
                        }
                    }
                    assert forall|k: Seq<char>|
                        #![trigger entries_map(after).dom().contains(k)]
                        entries_map(after).dom().contains(k) == entries_map(before).remove(
                            key@,
                        ).dom().contains(k) && (entries_map(after).dom().contains(k)
                            ==> entries_map(after)[k] == entries_map(before).remove(key@)[k]) by {
                        lemma_removed(before, after, i as int, key@, k);
                    }
                    assert(entries_map(after) =~= entries_map(before).remove(key@));
                }
                Some(value)
            },
            None => {
                assert(self@ =~= old(self)@.remove(key@));
                None
            },
        }
    }

    pub fn len(&self) -> (r: usize)
        ensures
            r == self.entries().len(),
    {
        self.entries.len()
    }

    /// The entry at a place.
    pub fn entry(&self, i: usize) -> (r: (&str, &V))
        requires
            self.wf(),
            i < self.entries().len(),
        ensures
            r.0@ == self.entries()[i as int].0@,
            *r.1 == self.entries()[i as int].1,
            self@.dom().contains(r.0@),
            self@[r.0@] == *r.1,
    {
        proof {
            lemma_entries_map(self.entries@, self.entries@[i as int].0@);
        }
        (self.entries[i].0.as_str(), &self.entries[i].1)
    }

    /// The keys of the map are those of its entries.
    pub proof fn lemma_keys(self, key: Seq<char>)
        requires
            self.wf(),
        ensures
            self@.dom().contains(key) <==> exists|i: int|
                0 <= i < self.entries().len() && #[trigger] self.entries()[i].0@ == key,
            forall|i: int|
                0 <= i < self.entries().len() && #[trigger] self.entries()[i].0@ == key
                    ==> self@[key] == self.entries()[i].1,
            keys_distinct(self.entries()),
    {
        lemma_entries_map(self.entries@, key);
        let e = self.entries();
        assert(e == self.entries@);
        if self@.dom().contains(key) {
            let i = choose|i: int| 0 <= i < self.entries@.len() && #[trigger] self.entries@[i].0@ == key;
            assert(e[i].0@ == key);
        }
        if exists|i: int| 0 <= i < e.len() && #[trigger] e[i].0@ == key {
            let i = choose|i: int| 0 <= i < e.len() && #[trigger] e[i].0@ == key;
            assert(self.entries@[i].0@ == key);
        }
    }

    /// The map that a list of entries stands for.
    pub fn from_entries(entries: Vec<(String, V)>) -> (r: TextMap<V>)
        ensures
            r.wf(),
            r@ == entries_map(entries@),
    {
        let mut map: TextMap<V> = TextMap::new();
        let ghost all = entries@;
        let mut rest = entries;
        let mut flipped: Vec<(String, V)> = Vec::new();
        while rest.len() > 0
            invariant
                rest@.len() + flipped@.len() == all.len(),
                rest@ == all.take(rest@.len() as int),
                flipped@ == all.skip(rest@.len() as int).reverse(),
            decreases rest@.len(),
        {
            let ghost n = rest@.len();
            if let Some(e) = rest.pop() {
                flipped.push(e);
                assert(all.take(n as int).drop_last() == all.take(n - 1));
                assert(all.skip(n - 1).reverse() =~= all.skip(n as int).reverse().push(
                    all[n - 1],
                ));
            }
        }
        assert(flipped@ =~= all.reverse());
        assert(all.take(0) == Seq::<(String, V)>::empty());
        while flipped.len() > 0
            invariant
                flipped@.len() <= all.len(),
                flipped@ == all.skip(all.len() - flipped@.len()).reverse(),
                map.wf(),
                map@ == entries_map(all.take(all.len() - flipped@.len())),
            decreases flipped@.len(),
        {
            let ghost n = all.len() - flipped@.len();
            let ghost old_flipped = flipped@;
            if let Some((key, value)) = flipped.pop() {
                assert(old_flipped.last() == all[n]);
                assert(all.take(n + 1).drop_last() == all.take(n));
                map.insert(key, value);
                assert(flipped@ =~= all.skip(n + 1).reverse());
            }
        }
        assert(all.take(all.len() as int) == all);
        map
    }
}

proof fn lemma_replaced<V>(
    before: Seq<(String, V)>,
    after: Seq<(String, V)>,
    i: int,
    key: String,
    value: V,
    k: Seq<char>,
)
    requires
        keys_distinct(before),
        keys_distinct(after),
        0 <= i < before.len(),
        before[i].0@ == key@,
        after == before.update(i, (key, value)),
    ensures
        entries_map(after).dom().contains(k) == entries_map(before).insert(
            key@,
            value,
        ).dom().contains(k),
        entries_map(after).dom().contains(k) ==> entries_map(after)[k] == entries_map(
            before,
        ).insert(key@, value)[k],
{
    lemma_entries_map(before, k);
    lemma_entries_map(after, k);
    if k == key@ {
        assert(after[i].0@ == k);
    } else {
        if exists|j: int| 0 <= j < before.len() && #[trigger] before[j].0@ == k {
            let j = choose|j: int| 0 <= j < before.len() && #[trigger] before[j].0@ == k;
            assert(j != i);
            assert(after[j].0@ == k);
        }
        if exists|j: int| 0 <= j < after.len() && #[trigger] after[j].0@ == k {
            let j = choose|j: int| 0 <= j < after.len() && #[trigger] after[j].0@ == k;
            assert(j != i);
            assert(before[j].0@ == k);
        }
    }
}

proof fn lemma_removed<V>(
    before: Seq<(String, V)>,
    after: Seq<(String, V)>,
    i: int,
    key: Seq<char>,
    k: Seq<char>,
)
    requires
        keys_distinct(before),
        keys_distinct(after),
        0 <= i < before.len(),
        before[i].0@ == key,
        after == before.remove(i),
    ensures
        entries_map(after).dom().contains(k) == entries_map(before).remove(key).dom().contains(k),
        entries_map(after).dom().contains(k) ==> entries_map(after)[k] == entries_map(
            before,
        ).remove(key)[k],
{
    lemma_entries_map(before, k);
    lemma_entries_map(after, k);
    if exists|j: int| 0 <= j < after.len() && #[trigger] after[j].0@ == k {
        let j = choose|j: int| 0 <= j < after.len() && #[trigger] after[j].0@ == k;
        let x = if j < i {
            j
        } else {
            j + 1
        };
        assert(before[x].0@ == k);
        if x < i {
            assert(before[x].0@ != before[i].0@);
        } else {
            assert(before[i].0@ != before[x].0@);
        }
    }
    if k != key && exists|j: int| 0 <= j < before.len() && #[trigger] before[j].0@ == k {
        let j = choose|j: int| 0 <= j < before.len() && #[trigger] before[j].0@ == k;
        let y = if j < i {
            j
        } else {
            j - 1
        };
        assert(after[y].0@ == k);
    }
}

/// The contents of a map from texts to texts.
pub open spec fn text_map(m: Map<Seq<char>, String>) -> Map<Seq<char>, Seq<char>> {
    m.map_values(|s: String| s@)
}

/// What a map of texts holds under a key.
pub open spec fn found(m: Map<Seq<char>, Seq<char>>, key: Seq<char>) -> Option<Seq<char>> {
    if m.dom().contains(key) {
        Some(m[key])
    } else {
        None
    }
}

/// The contents of a list of pairs of texts.
pub open spec fn pairs(v: Seq<(String, String)>) -> Seq<(Seq<char>, Seq<char>)> {
    v.map_values(|p: (String, String)| (p.0@, p.1@))
}

/// The map that a list of pairs stands for: a later pair counts before an earlier one.
pub open spec fn pairs_map(v: Seq<(Seq<char>, Seq<char>)>) -> Map<Seq<char>, Seq<char>>
    decreases v.len(),
{
    if v.len() == 0 {
        Map::empty()
    } else {
        pairs_map(v.drop_last()).insert(v.last().0, v.last().1)
    }
}

/// The two ways to read a list of pairs as a map agree.
pub proof fn lemma_pairs_map(v: Seq<(String, String)>)
    ensures
        text_map(entries_map(v)) == pairs_map(pairs(v)),
    decreases v.len(),
{
    if v.len() == 0 {
        assert(text_map(entries_map(v)) =~= pairs_map(pairs(v)));
    } else {
        lemma_pairs_map(v.drop_last());
        assert(pairs(v).drop_last() =~= pairs(v.drop_last()));
        assert(text_map(entries_map(v)) =~= pairs_map(pairs(v)));
    }
}

impl TextMap<String> {
    /// The entries of the map.
    pub fn to_pairs(&self) -> (r: Vec<(String, String)>)
        requires
            self.wf(),
        ensures
            pairs(r@) == pairs(self.entries()),
            pairs_map(pairs(r@)) == text_map(self@),
            forall|i: int, j: int|
                #![trigger pairs(r@)[i], pairs(r@)[j]]
                0 <= i < j < r@.len() ==> pairs(r@)[i].0 != pairs(r@)[j].0,
    {
        let mut out: Vec<(String, String)> = Vec::new();
        let mut i: usize = 0;
        while i < self.entries.len()
            invariant
                i <= self.entries@.len(),
                pairs(out@) == pairs(self.entries@).take(i as int),
            decreases self.entries@.len() - i,
        {
            let ghost before = pairs(out@);
            out.push((self.entries[i].0.clone(), self.entries[i].1.clone()));
            assert(pairs(out@) =~= before.push(pairs(self.entries@)[i as int]));
            assert(
                pairs(self.entries@).take(i + 1) =~= before.push(pairs(self.entries@)[i as int])
            );
            i += 1;
        }
        assert(pairs(self.entries@).take(i as int) =~= pairs(self.entries@));
        proof {
            lemma_pairs_map(self.entries@);
            assert(pairs(out@).len() == self.entries@.len());
            assert forall|i: int, j: int|
                #![trigger pairs(out@)[i], pairs(out@)[j]]
                0 <= i < j < out@.len() implies pairs(out@)[i].0 != pairs(out@)[j].0 by {
                assert(self.entries@[i].0@ != self.entries@[j].0@);
            }
        }
        out
    }
}

}
