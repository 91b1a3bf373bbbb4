//! A keyed table: at most one value for each key, compared by its view.

use vstd::prelude::*;

verus! {

/// A key that can be compared by the mathematical value it stands for.
pub trait TableKey: View + Sized {
    /// Whether both keys stand for the same value.
    fn same(&self, other: &Self) -> (same: bool)
        ensures
            same == (self@ == other@),
    ;
}

impl TableKey for String {
    fn same(&self, other: &Self) -> (same: bool) {
        *self == *other
    }
}

/// A list of entries without a repeated key.
pub struct Table<K: TableKey, V> {
    entries: Vec<(K, V)>,
}

spec fn distinct<K: View, V>(entries: Seq<(K, V)>) -> bool {
    forall|i: int, j: int|
        0 <= i < j < entries.len() ==> (#[trigger] entries[i]).0@ != (#[trigger] entries[j]).0@
}

spec fn holds<K: View, V>(entries: Seq<(K, V)>, key: K::V) -> bool {
    exists|i: int| 0 <= i < entries.len() && (#[trigger] entries[i]).0@ == key
}

spec fn position<K: View, V>(entries: Seq<(K, V)>, key: K::V) -> int {
    choose|i: int| 0 <= i < entries.len() && (#[trigger] entries[i]).0@ == key
}

spec fn map_of<K: View, V>(entries: Seq<(K, V)>) -> Map<K::V, V> {
    Map::new(|key: K::V| holds(entries, key), |key: K::V| entries[position(entries, key)].1)
}

/// The part of a map whose entries do not satisfy a condition.
pub open spec fn without<K, V>(map: Map<K, V>, gone: spec_fn(K, V) -> bool) -> Map<K, V> {
    Map::new(|key: K| map.contains_key(key) && !gone(key, map[key]), |key: K| map[key])
}

/// Whether a list holds exactly the entries of a map, once each and in some order.
pub open spec fn are_entries_of<K: View, V>(list: Seq<(K, V)>, map: Map<K::V, V>) -> bool {
    &&& forall|i: int|
        0 <= i < list.len() ==> map.contains_key((#[trigger] list[i]).0@) && map[list[i].0@]
            == list[i].1
    &&& forall|key: K::V| #[trigger]
        map.contains_key(key) ==> exists|i: int|
            0 <= i < list.len() && (#[trigger] list[i]).0@ == key
    &&& forall|i: int, j: int|
        0 <= i < j < list.len() ==> (#[trigger] list[i]).0@ != (#[trigger] list[j]).0@
}

/// Whether the keys name, once each, exactly the entries of a map that satisfy a
/// condition.
pub open spec fn names_entries<K, V>(
    keys: Seq<K>,
    map: Map<K, V>,
    chosen: spec_fn(K, V) -> bool,
) -> bool {
    &&& keys.no_duplicates()
    &&& forall|i: int|
        0 <= i < keys.len() ==> map.contains_key(#[trigger] keys[i]) && chosen(
            keys[i],
            map[keys[i]],
        )
    &&& forall|key: K| #[trigger]
        map.contains_key(key) && chosen(key, map[key]) ==> keys.contains(key)
}

/// Whether a list holds, in some order and once for each entry, the values of the
/// entries of a map that satisfy a condition.
pub open spec fn are_values_of<K, V>(
    values: Seq<V>,
    map: Map<K, V>,
    chosen: spec_fn(K, V) -> bool,
) -> bool {
    exists|keys: Seq<K>| #[trigger]
        names_entries(keys, map, chosen) && values.len() == keys.len() && forall|i: int|
            0 <= i < keys.len() ==> #[trigger] values[i] == map[keys[i]]
}

/// Whether a list holds, once each and in some order, exactly the entries of a
/// map that satisfy a condition.
spec fn lists<K: View, V>(
    list: Seq<(K, V)>,
    map: Map<K::V, V>,
    chosen: spec_fn(K::V, V) -> bool,
) -> bool {
    &&& forall|i: int|
        0 <= i < list.len() ==> map.contains_key((#[trigger] list[i]).0@) && map[list[i].0@]
            == list[i].1 && chosen(list[i].0@, list[i].1)
    &&& forall|key: K::V| #[trigger]
        map.contains_key(key) && chosen(key, map[key]) ==> exists|i: int|
            0 <= i < list.len() && (#[trigger] list[i]).0@ == key
    &&& forall|i: int, j: int|
        0 <= i < j < list.len() ==> (#[trigger] list[i]).0@ != (#[trigger] list[j]).0@
}

proof fn lemma_entry<K: View, V>(entries: Seq<(K, V)>, i: int)
    requires
        distinct(entries),
        0 <= i < entries.len(),
    ensures
        map_of(entries).contains_key(entries[i].0@),
        map_of(entries)[entries[i].0@] == entries[i].1,
{
    let key = entries[i].0@;
    assert(holds(entries, key));
    let p = position(entries, key);
    assert(0 <= p < entries.len() && entries[p].0@ == key);
    if p < i {
        assert(entries[p].0@ != entries[i].0@);
    } else if i < p {
        assert(entries[i].0@ != entries[p].0@);
    }
}

proof fn lemma_push<K: View, V>(entries: Seq<(K, V)>, key: K, value: V)
    requires
        distinct(entries),
        !holds(entries, key@),
    ensures
        distinct(entries.push((key, value))),
        map_of(entries.push((key, value))) == map_of(entries).insert(key@, value),
{
    let more = entries.push((key, value));
    assert forall|i: int, j: int| 0 <= i < j < more.len() implies (#[trigger] more[i]).0@ != (
    #[trigger] more[j]).0@ by {
        if j == entries.len() {
            assert(entries[i].0@ != key@);
        } else {
            assert(entries[i].0@ != entries[j].0@);
        }
    }
    let left = map_of(more);
    let right = map_of(entries).insert(key@, value);
    assert forall|k: K::V| left.contains_key(k) == right.contains_key(k) by {
        if holds(entries, k) {
            let i = position(entries, k);
            assert(more[i].0@ == k);
        }
        if k == key@ {
            assert(more[entries.len() as int].0@ == k);
        }
        if holds(more, k) {
            let i = position(more, k);
            if i < entries.len() {
                assert(entries[i].0@ == k);
            }
        }
    }
    assert forall|k: K::V| left.contains_key(k) implies left[k] == right[k] by {
        let i = position(more, k);
        lemma_entry(more, i);
        if i < entries.len() {
            lemma_entry(entries, i);
            assert(entries[i].0@ == k);
            assert(k != key@);
        }
    }
    assert(left =~= right);
}

proof fn lemma_remove<K: View, V>(entries: Seq<(K, V)>, at: int)
    requires
        distinct(entries),
        0 <= at < entries.len(),
    ensures
        distinct(entries.remove(at)),
        map_of(entries.remove(at)) == map_of(entries).remove(entries[at].0@),
        !holds(entries.remove(at), entries[at].0@),
{
    let less = entries.remove(at);
    let gone = entries[at].0@;
    assert forall|i: int, j: int| 0 <= i < j < less.len() implies (#[trigger] less[i]).0@ != (
    #[trigger] less[j]).0@ by {
        let a = if i < at { i } else { i + 1 };
        let b = if j < at { j } else { j + 1 };
        assert(entries[a].0@ != entries[b].0@);
    }
    assert forall|i: int| 0 <= i < less.len() implies (#[trigger] less[i]).0@ != gone by {
        if i < at {
            assert(entries[i].0@ != entries[at].0@);
        } else {
            assert(entries[at].0@ != entries[i + 1].0@);
        }
    }
    let left = map_of(less);
    let right = map_of(entries).remove(gone);
    assert forall|k: K::V| left.contains_key(k) == right.contains_key(k) by {
        if holds(less, k) {
            let i = position(less, k);
            let a = if i < at { i } else { i + 1 };
            assert(entries[a].0@ == k);
        }
        if holds(entries, k) && k != gone {
            let i = position(entries, k);
            let a = if i < at { i } else { i - 1 };
            assert(less[a].0@ == k);
        }
    }
    assert forall|k: K::V| left.contains_key(k) implies left[k] == right[k] by {
        let i = position(less, k);
        let a = if i < at { i } else { i + 1 };
        lemma_entry(less, i);
        lemma_entry(entries, a);
    }
    assert(left =~= right);
}

impl<K: TableKey, V> View for Table<K, V> {
    type V = Map<K::V, V>;

    closed spec fn view(&self) -> Map<K::V, V> {
        map_of(self.entries@)
    }
}

impl<K: TableKey, V> Table<K, V> {
    #[verifier::type_invariant]
    spec fn keys_are_distinct(self) -> bool {
        distinct(self.entries@)
    }

    /// A table without entries.
    pub(crate) fn new() -> (table: Self)
        ensures
            table@ == Map::<K::V, V>::empty(),
    {
        let table = Table { entries: Vec::new() };
        assert(table@ =~= Map::<K::V, V>::empty());
        table
    }

    fn index_of(&self, key: &K) -> (index: Option<usize>)
        ensures
            index is Some <==> holds(self.entries@, key@),
            index matches Some(i) ==> i < self.entries@.len() && self.entries@[i as int].0@ == key@,
    {
        let mut i: usize = 0;
        while i < self.entries.len()
            invariant
                i <= self.entries@.len(),
                forall|j: int| 0 <= j < i ==> (#[trigger] self.entries@[j]).0@ != key@,
            decreases self.entries@.len() - i,
        {
            if self.entries[i].0.same(key) {
                return Some(i);
            }
            i = i + 1;
        }
        None
    }

    /// Whether the table has a value for the key.
    pub(crate) fn contains_key(&self, key: &K) -> (found: bool)
        ensures
            found == self@.contains_key(key@),
    {
        self.index_of(key).is_some()
    }

    /// The value for the key.
    pub(crate) fn get(&self, key: &K) -> (value: Option<&V>)
        ensures
            value is Some <==> self@.contains_key(key@),
            value matches Some(v) ==> *v == self@[key@],
    {
        proof {
            use_type_invariant(self);
        }
        match self.index_of(key) {
            Some(i) => {
                proof {
                    lemma_entry(self.entries@, i as int);
                }
                Some(&self.entries[i].1)
            },
            None => None,
        }
    }

    /// Takes the value for the key out of the table.
    pub(crate) fn remove(&mut self, key: &K) -> (value: Option<V>)
        ensures
            final(self)@ == old(self)@.remove(key@),
            value is Some <==> old(self)@.contains_key(key@),
            value matches Some(v) ==> v == old(self)@[key@],
    {
        proof {
            use_type_invariant(&*self);
        }
        match self.index_of(key) {
            Some(i) => {
                let mut entries: Vec<(K, V)> = Vec::new();
                std::mem::swap(&mut entries, &mut self.entries);
                proof {
                    lemma_entry(entries@, i as int);
                    lemma_remove(entries@, i as int);
                }
                let (_, value) = entries.remove(i);
                self.entries = entries;
                Some(value)
            },
            None => {
                assert(self@.remove(key@) =~= self@);
                None
            },
        }
    }

    /// Sets the value for the key and returns the value it replaces.
    pub(crate) fn insert(&mut self, key: K, value: V) -> (replaced: Option<V>)
        ensures
            final(self)@ == old(self)@.insert(key@, value),
            replaced is Some <==> old(self)@.contains_key(key@),
            replaced matches Some(v) ==> v == old(self)@[key@],
    {
        let replaced = self.remove(&key);
        proof {
            use_type_invariant(&*self);
        }
        let mut entries: Vec<(K, V)> = Vec::new();
        std::mem::swap(&mut entries, &mut self.entries);
        proof {
            assert(!map_of(entries@).contains_key(key@));
            lemma_push(entries@, key, value);
        }
        entries.push((key, value));
        self.entries = entries;
        assert(self@ =~= old(self)@.insert(key@, value));
        replaced
    }

    /// The entries of the table, in some order.
    pub(crate) fn into_entries(self) -> (entries: Vec<(K, V)>)
        ensures
            are_entries_of(entries@, self@),
    {
        proof {
            use_type_invariant(&self);
            assert forall|i: int| 0 <= i < self.entries@.len() implies self@.contains_key(
                (#[trigger] self.entries@[i]).0@,
            ) && self@[self.entries@[i].0@] == self.entries@[i].1 by {
                lemma_entry(self.entries@, i);
            }
        }
        self.entries
    }

    /// A key whose entry satisfies the condition.
    pub(crate) fn find_key<F: Fn(&K, &V) -> bool>(
        &self,
        test: F,
        Ghost(chosen): Ghost<spec_fn(K::V, V) -> bool>,
    ) -> (key: Option<&K>)
        requires
            forall|k: &K, v: &V| #[trigger] call_requires(test, (k, v)),
            forall|k: &K, v: &V, b: bool| #[trigger]
                call_ensures(test, (k, v), b) ==> b == chosen(k@, *v),
        ensures
            key matches Some(k) ==> self@.contains_key(k@) && chosen(k@, self@[k@]),
            key is None ==> forall|k: K::V| #[trigger]
                self@.contains_key(k) ==> !chosen(k, self@[k]),
    {
        proof {
            use_type_invariant(self);
        }
        let mut i: usize = 0;
        while i < self.entries.len()
            invariant
                i <= self.entries@.len(),
                distinct(self.entries@),
                forall|k: &K, v: &V| #[trigger] call_requires(test, (k, v)),
                forall|k: &K, v: &V, b: bool| #[trigger]
                    call_ensures(test, (k, v), b) ==> b == chosen(k@, *v),
                forall|j: int|
                    0 <= j < i ==> !chosen(
                        (#[trigger] self.entries@[j]).0@,
                        self.entries@[j].1,
                    ),
            decreases self.entries@.len() - i,
        {
            proof {
                lemma_entry(self.entries@, i as int);
            }
            let entry = &self.entries[i];
            if test(&entry.0, &entry.1) {
                return Some(&entry.0);
            }
            i = i + 1;
        }
        assert forall|k: K::V| #[trigger] self@.contains_key(k) implies !chosen(k, self@[k]) by {
            let p = position(self.entries@, k);
            assert(self.entries@[p].0@ == k);
            lemma_entry(self.entries@, p);
        }
        None
    }

    /// Takes every entry that satisfies the condition out of the table.
    fn extract_if<F: Fn(&K, &V) -> bool>(
        &mut self,
        test: F,
        Ghost(chosen): Ghost<spec_fn(K::V, V) -> bool>,
    ) -> (taken: Vec<(K, V)>)
        requires
            forall|k: &K, v: &V| #[trigger] call_requires(test, (k, v)),
            forall|k: &K, v: &V, b: bool| #[trigger]
                call_ensures(test, (k, v), b) ==> b == chosen(k@, *v),
        ensures
            final(self)@ == without(old(self)@, chosen),
            lists(taken@, old(self)@, chosen),
    {
        proof {
            use_type_invariant(&*self);
        }
        let ghost whole = self.entries@;
        let mut source: Vec<(K, V)> = Vec::new();
        std::mem::swap(&mut source, &mut self.entries);
        let mut kept: Vec<(K, V)> = Vec::new();
        let mut taken: Vec<(K, V)> = Vec::new();
        while source.len() > 0
            invariant
                distinct(whole),
                source@ == whole.take(source@.len() as int),
                source@.len() <= whole.len(),
                forall|k: &K, v: &V| #[trigger] call_requires(test, (k, v)),
                forall|k: &K, v: &V, b: bool| #[trigger]
                    call_ensures(test, (k, v), b) ==> b == chosen(k@, *v),
                splits(whole, source@.len() as int, kept@, taken@, chosen),
            decreases source@.len(),
        {
            let ghost before = source@.len() as int;
            let ghost old_kept = kept@;
            let ghost old_taken = taken@;
            match source.pop() {
                Some(entry) => {
                    assert(entry == whole[before - 1]);
                    if test(&entry.0, &entry.1) {
                        taken.push(entry);
                    } else {
                        kept.push(entry);
                    }
                    proof {
                        lemma_split_step(
                            whole,
                            before,
                            old_kept,
                            old_taken,
                            kept@,
                            taken@,
                            chosen,
                        );
                        assert(source@ =~= whole.take(before - 1));
                    }
                },
                None => {},
            }
        }
        proof {
            lemma_split_done(whole, kept@, taken@, chosen);
        }
        self.entries = kept;
        taken
    }

    /// Takes the value of every entry that satisfies the condition out of the
    /// table.
    pub(crate) fn take_values<F: Fn(&K, &V) -> bool>(
        &mut self,
        test: F,
        Ghost(chosen): Ghost<spec_fn(K::V, V) -> bool>,
    ) -> (values: Vec<V>)
        requires
            forall|k: &K, v: &V| #[trigger] call_requires(test, (k, v)),
            forall|k: &K, v: &V, b: bool| #[trigger]
                call_ensures(test, (k, v), b) ==> b == chosen(k@, *v),
        ensures
            final(self)@ == without(old(self)@, chosen),
            are_values_of(values@, old(self)@, chosen),
    {
        let mut taken = self.extract_if(test, Ghost(chosen));
        let ghost list = taken@;
        let ghost map = old(self)@;
        let ghost keys = list.map_values(|entry: (K, V)| entry.0@).reverse();
        let mut values: Vec<V> = Vec::new();
        while taken.len() > 0
            invariant
                taken@ == list.take(taken@.len() as int),
                taken@.len() <= list.len(),
                values@.len() == list.len() - taken@.len(),
                forall|i: int|
                    0 <= i < values@.len() ==> #[trigger] values@[i] == list[list.len() - 1 - i].1,
            decreases taken@.len(),
        {
            match taken.pop() {
                Some((_, value)) => values.push(value),
                None => {},
            }
        }
        proof {
            assert(keys.no_duplicates()) by {
                assert forall|i: int, j: int| 0 <= i < j < keys.len() implies keys[i] != keys[j] by {
                    assert(list[keys.len() - 1 - j].0@ != list[keys.len() - 1 - i].0@);
                }
            }
            assert forall|i: int| 0 <= i < keys.len() implies map.contains_key(#[trigger] keys[i])
                && chosen(keys[i], map[keys[i]]) && values@[i] == map[keys[i]] by {
                let entry = list[keys.len() - 1 - i];
                assert(map.contains_key(entry.0@));
            }
            assert forall|key: K::V| #[trigger] map.contains_key(key) && chosen(
                key,
                map[key],
            ) implies keys.contains(key) by {
                let i = choose|i: int| 0 <= i < list.len() && (#[trigger] list[i]).0@ == key;
                assert(keys[keys.len() - 1 - i] == key);
            }
            assert(names_entries(keys, map, chosen));
        }
        values
    }
}

/// Whether the entries from `from` on are divided into those kept and those taken.
spec fn splits<K: View, V>(
    whole: Seq<(K, V)>,
    from: int,
    kept: Seq<(K, V)>,
    taken: Seq<(K, V)>,
    chosen: spec_fn(K::V, V) -> bool,
) -> bool {
    &&& distinct(kept)
    &&& distinct(taken)
    &&& forall|i: int|
        0 <= i < kept.len() ==> in_tail(whole, from, #[trigger] kept[i]) && !chosen(
            kept[i].0@,
            kept[i].1,
        )
    &&& forall|i: int|
        0 <= i < taken.len() ==> in_tail(whole, from, #[trigger] taken[i]) && chosen(
            taken[i].0@,
            taken[i].1,
        )
    &&& forall|i: int|
        from <= i < whole.len() ==> if chosen((#[trigger] whole[i]).0@, whole[i].1) {
            taken.contains(whole[i])
        } else {
            kept.contains(whole[i])
        }
}

spec fn in_tail<K: View, V>(whole: Seq<(K, V)>, from: int, entry: (K, V)) -> bool {
    exists|i: int| from <= i < whole.len() && #[trigger] whole[i] == entry
}

proof fn lemma_split_step<K: View, V>(
    whole: Seq<(K, V)>,
    from: int,
    old_kept: Seq<(K, V)>,
    old_taken: Seq<(K, V)>,
    kept: Seq<(K, V)>,
    taken: Seq<(K, V)>,
    chosen: spec_fn(K::V, V) -> bool,
)
    requires
        0 < from <= whole.len(),
        distinct(whole),
        splits(whole, from, old_kept, old_taken, chosen),
        ({
            let entry = whole[from - 1];
            if chosen(entry.0@, entry.1) {
                kept == old_kept && taken == old_taken.push(entry)
            } else {
                kept == old_kept.push(entry) && taken == old_taken
            }
        }),
    ensures
        splits(whole, from - 1, kept, taken, chosen),
{
    let entry = whole[from - 1];
    let to_taken = chosen(entry.0@, entry.1);
    assert forall|e: (K, V)| in_tail(whole, from, e) implies in_tail(whole, from - 1, e) && e.0@
        != entry.0@ by {
        let i = choose|i: int| from <= i < whole.len() && #[trigger] whole[i] == e;
        assert(whole[from - 1].0@ != whole[i].0@);
    }
    assert(in_tail(whole, from - 1, entry));
    let grown_old = if to_taken { old_taken } else { old_kept };
    let grown = grown_old.push(entry);
    assert(distinct(grown)) by {
        assert forall|i: int, j: int| 0 <= i < j < grown.len() implies (#[trigger] grown[i]).0@ != (
        #[trigger] grown[j]).0@ by {
            if j == grown_old.len() {
                assert(in_tail(whole, from, grown_old[i]));
            } else {
                assert(grown_old[i].0@ != grown_old[j].0@);
            }
        }
    }
    assert forall|i: int| 0 <= i < kept.len() implies in_tail(whole, from - 1, #[trigger] kept[i])
        && !chosen(kept[i].0@, kept[i].1) by {
        if i < old_kept.len() {
            assert(in_tail(whole, from, old_kept[i]));
        }
    }
    assert forall|i: int| 0 <= i < taken.len() implies in_tail(whole, from - 1, #[trigger] taken[i])
        && chosen(taken[i].0@, taken[i].1) by {
        if i < old_taken.len() {
            assert(in_tail(whole, from, old_taken[i]));
        }
    }
    assert forall|i: int| from - 1 <= i < whole.len() implies if chosen(
        (#[trigger] whole[i]).0@,
        whole[i].1,
    ) {
        taken.contains(whole[i])
    } else {
        kept.contains(whole[i])
    } by {
        if i == from - 1 {
            assert(grown[grown_old.len() as int] == entry);
        } else if chosen(whole[i].0@, whole[i].1) {
            let p = old_taken.index_of(whole[i]);
            assert(old_taken.contains(whole[i]));
            assert(taken[p] == whole[i]);
        } else {
            let p = old_kept.index_of(whole[i]);
            assert(old_kept.contains(whole[i]));
            assert(kept[p] == whole[i]);
        }
    }
}

proof fn lemma_split_done<K: View, V>(
    whole: Seq<(K, V)>,
    kept: Seq<(K, V)>,
    taken: Seq<(K, V)>,
    chosen: spec_fn(K::V, V) -> bool,
)
    requires
        distinct(whole),
        splits(whole, 0, kept, taken, chosen),
    ensures
        map_of(kept) == without(map_of(whole), chosen),
        lists(taken, map_of(whole), chosen),
{
    let map = map_of(whole);
    assert forall|e: (K, V)| in_tail(whole, 0, e) implies map.contains_key(e.0@) && map[e.0@]
        == e.1 by {
        let i = choose|i: int| 0 <= i < whole.len() && #[trigger] whole[i] == e;
        lemma_entry(whole, i);
    }
    let left = map_of(kept);
    let right = without(map, chosen);
    assert forall|k: K::V| left.contains_key(k) implies right.contains_key(k) && left[k]
        == right[k] by {
        let p = position(kept, k);
        lemma_entry(kept, p);
        assert(in_tail(whole, 0, kept[p]));
    }
    assert forall|k: K::V| right.contains_key(k) implies left.contains_key(k) by {
        let p = position(whole, k);
        lemma_entry(whole, p);
        assert(whole[p].0@ == k);
        assert(kept.contains(whole[p]));
        let q = kept.index_of(whole[p]);
        assert(kept[q].0@ == k);
    }
    assert(left =~= right);
    assert forall|i: int| 0 <= i < taken.len() implies map.contains_key((#[trigger] taken[i]).0@)
        && map[taken[i].0@] == taken[i].1 && chosen(taken[i].0@, taken[i].1) by {
        assert(in_tail(whole, 0, taken[i]));
    }
    assert forall|key: K::V| #[trigger] map.contains_key(key) && chosen(
        key,
        map[key],
    ) implies exists|i: int| 0 <= i < taken.len() && (#[trigger] taken[i]).0@ == key by {
        let p = position(whole, key);
        lemma_entry(whole, p);
        assert(whole[p].0@ == key);
        assert(taken.contains(whole[p]));
        let q = taken.index_of(whole[p]);
        assert(taken[q].0@ == key);
    }
}

/// What is left of a map is exactly its entries that do not satisfy the condition,
/// each with its value.
pub proof fn law_what_is_left_does_not_satisfy_the_condition<K, V>(
    map: Map<K, V>,
    gone: spec_fn(K, V) -> bool,
    key: K,
)
    ensures
        without(map, gone).contains_key(key) <==> map.contains_key(key) && !gone(key, map[key]),
        without(map, gone).contains_key(key) ==> without(map, gone)[key] == map[key],
{
}

/// Whether a value belongs to an entry of a map that satisfies a condition.
pub open spec fn is_chosen_value<K, V>(
    value: V,
    map: Map<K, V>,
    chosen: spec_fn(K, V) -> bool,
) -> bool {
    exists|key: K| #[trigger]
        map.contains_key(key) && chosen(key, map[key]) && map[key] == value
}

/// The values that are taken out of a map are those of the entries that satisfy the
/// condition: each such entry's value is there, and each value there belongs to
/// such an entry.
pub proof fn law_taken_values_are_those_of_the_condition<K, V>(
    values: Seq<V>,
    map: Map<K, V>,
    chosen: spec_fn(K, V) -> bool,
)
    requires
        are_values_of(values, map, chosen),
    ensures
        forall|key: K| #[trigger]
            map.contains_key(key) && chosen(key, map[key]) ==> values.contains(map[key]),
        forall|i: int|
            0 <= i < values.len() ==> is_chosen_value(#[trigger] values[i], map, chosen),
{
    let keys = choose|keys: Seq<K>| #[trigger]
        names_entries(keys, map, chosen) && values.len() == keys.len() && forall|i: int|
            0 <= i < keys.len() ==> #[trigger] values[i] == map[keys[i]];
    assert forall|key: K| #[trigger] map.contains_key(key) && chosen(
        key,
        map[key],
    ) implies values.contains(map[key]) by {
        let i = keys.index_of(key);
        assert(keys.contains(key));
        assert(values[i] == map[key]);
    }
    assert forall|i: int| 0 <= i < values.len() implies is_chosen_value(
        #[trigger] values[i],
        map,
        chosen,
    ) by {
        assert(map.contains_key(keys[i]) && chosen(keys[i], map[keys[i]]));
    }
}

/// No entry of a map is taken out twice, and none is missed: where exactly one
/// entry satisfies the condition, exactly its value is taken.
pub proof fn law_each_entry_is_taken_once<K, V>(
    values: Seq<V>,
    map: Map<K, V>,
    chosen: spec_fn(K, V) -> bool,
    only: K,
)
    requires
        are_values_of(values, map, chosen),
        map.contains_key(only),
        chosen(only, map[only]),
        forall|key: K| #[trigger] map.contains_key(key) && chosen(key, map[key]) ==> key == only,
    ensures
        values == seq![map[only]],
{
    let keys = choose|keys: Seq<K>| #[trigger]
        names_entries(keys, map, chosen) && values.len() == keys.len() && forall|i: int|
            0 <= i < keys.len() ==> #[trigger] values[i] == map[keys[i]];
    assert(keys.contains(only));
    let at = keys.index_of(only);
    if keys.len() > 1 {
        assert(map.contains_key(keys[0]) && map.contains_key(keys[1]));
        assert(keys[0] != keys[1]);
    }
    assert(map.contains_key(keys[0]));
    assert(values =~= seq![map[only]]);
}

} // verus!
