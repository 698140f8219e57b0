use vstd::prelude::*;

verus! {

/// The order of keys: lexicographic over characters, a proper prefix first.
/// On strings this is the byte order of their UTF-8 encodings.
pub open spec fn key_lt(a: Seq<char>, b: Seq<char>) -> bool
    decreases a.len(),
{
    if a.len() == 0 {
        b.len() > 0
    } else if b.len() == 0 {
        false
    } else if a[0] != b[0] {
        a[0] < b[0]
    } else {
        key_lt(a.drop_first(), b.drop_first())
    }
}

/// Of two different keys, one comes first.
pub proof fn lemma_key_lt_total(a: Seq<char>, b: Seq<char>)
    requires
        a != b,
    ensures
        key_lt(a, b) || key_lt(b, a),
    decreases a.len(),
{
    if a.len() > 0 && b.len() > 0 && a[0] == b[0] {
        if a.drop_first() == b.drop_first() {
            assert(a =~= seq![a[0]] + a.drop_first());
            assert(b =~= seq![b[0]] + b.drop_first());
        }
        lemma_key_lt_total(a.drop_first(), b.drop_first());
    } else if a.len() == 0 && b.len() == 0 {
        assert(a =~= b);
    }
}

/// Whether `a` comes before `b` in the order of keys.
pub fn key_less(a: &str, b: &str) -> (r: bool)
    ensures
        r == key_lt(a@, b@),
{
    let a_len = a.unicode_len();
    let b_len = b.unicode_len();
    let mut i: usize = 0;
    assert(a@.skip(0) =~= a@);
    assert(b@.skip(0) =~= b@);
    loop
        invariant
            a_len == a@.len(),
            b_len == b@.len(),
            i <= a_len,
            i <= b_len,
            key_lt(a@, b@) == key_lt(a@.skip(i as int), b@.skip(i as int)),
        decreases a_len - i,
    {
        if i == a_len {
            return i < b_len;
        }
        if i == b_len {
            return false;
        }
        let ca = a.get_char(i);
        let cb = b.get_char(i);
        if ca != cb {
            return ca < cb;
        }
        assert(a@.skip(i as int).drop_first() =~= a@.skip(i + 1));
        assert(b@.skip(i as int).drop_first() =~= b@.skip(i + 1));
        i = i + 1;
    }
}

/// What a list of `(key, value)` entries binds `key` to: the value of the
/// last entry with that key.
pub open spec fn entry_lookup<K, V>(entries: Seq<(K, V)>, key: K) -> Option<V>
    decreases entries.len(),
{
    if entries.len() == 0 {
        None
    } else if entries.last().0 == key {
        Some(entries.last().1)
    } else {
        entry_lookup(entries.drop_last(), key)
    }
}

/// The map that a list of entries gives.
pub open spec fn entries_map<K, V>(entries: Seq<(K, V)>) -> Map<K, V> {
    Map::new(|k: K| entry_lookup(entries, k) is Some, |k: K| entry_lookup(entries, k)->Some_0)
}

/// Keys strictly increasing, hence each key at most once.
pub open spec fn strictly_sorted<V>(entries: Seq<(Seq<char>, V)>) -> bool {
    forall|i: int| 0 <= i < entries.len() - 1 ==> key_lt(#[trigger] entries[i].0, entries[i + 1].0)
}

pub open spec fn unique_keys<K, V>(entries: Seq<(K, V)>) -> bool {
    forall|i: int, j: int|
        0 <= i < entries.len() && 0 <= j < entries.len() && i != j ==> #[trigger] entries[i].0
            != #[trigger] entries[j].0
}

proof fn lemma_lookup_found<K, V>(entries: Seq<(K, V)>, j: int)
    requires
        unique_keys(entries),
        0 <= j < entries.len(),
    ensures
        entry_lookup(entries, entries[j].0) == Some(entries[j].1),
    decreases entries.len(),
{
    if j < entries.len() - 1 {
        assert(entries[entries.len() - 1].0 != entries[j].0);
        let rest = entries.drop_last();
        assert(unique_keys(rest)) by {
            assert forall|a: int, b: int|
                0 <= a < rest.len() && 0 <= b < rest.len() && a != b implies #[trigger] rest[a].0
                != #[trigger] rest[b].0 by {
                assert(rest[a] == entries[a] && rest[b] == entries[b]);
            }
        }
        lemma_lookup_found(rest, j);
    }
}

proof fn lemma_lookup_absent<K, V>(entries: Seq<(K, V)>, key: K)
    requires
        forall|m: int| 0 <= m < entries.len() ==> #[trigger] entries[m].0 != key,
    ensures
        entry_lookup(entries, key) is None,
    decreases entries.len(),
{
    if entries.len() > 0 {
        let rest = entries.drop_last();
        assert forall|m: int| 0 <= m < rest.len() implies #[trigger] rest[m].0 != key by {
            assert(rest[m] == entries[m]);
        }
        lemma_lookup_absent(rest, key);
    }
}

pub open spec fn entry_view<V>(e: (String, V)) -> (Seq<char>, V) {
    (e.0@, e.1)
}

pub open spec fn view_entries<V>(entries: Seq<(String, V)>) -> Seq<(Seq<char>, V)> {
    entries.map_values(|e: (String, V)| entry_view(e))
}

/// A map to strings, with each value seen as its characters.
pub open spec fn text_map(m: Map<Seq<char>, String>) -> Map<Seq<char>, Seq<char>> {
    m.map_values(|s: String| s@)
}

/// Keys strictly increasing and each key at most once.
pub open spec fn wf_entries<V>(entries: Seq<(Seq<char>, V)>) -> bool {
    strictly_sorted(entries) && unique_keys(entries)
}

/// Binds `key` to `value`: a new key adds an entry in its place in the
/// order; a key already there keeps its place and takes the new value.
fn insert_entry<V>(entries: &mut Vec<(String, V)>, key: String, value: V)
    requires
        wf_entries(view_entries(old(entries)@)),
    ensures
        wf_entries(view_entries(final(entries)@)),
        entries_map(view_entries(final(entries)@)) == entries_map(view_entries(old(entries)@)).insert(key@, value),
        view_entries(final(entries)@).len() == view_entries(old(entries)@).len() + (if entries_map(view_entries(old(entries)@)).contains_key(key@) {
            0int
        } else {
            1int
        }),
{
    let ghost old_entries = view_entries(entries@);
    let n = entries.len();
    let mut j: usize = 0;
    while j < n
        invariant
            n == entries.len(),
            old_entries == view_entries(old(entries)@),
            view_entries(entries@) == old_entries,
            wf_entries(view_entries(entries@)),
            j <= n,
            forall|m: int| 0 <= m < j ==> #[trigger] old_entries[m].0 != key@,
        decreases n - j,
    {
        if entries[j].0 == key {
            assert(old_entries[j as int].0 == key@);
            set_entry(entries, j, key, value);
            return ;
        }
        j = j + 1;
    }
    proof {
        lemma_lookup_absent(old_entries, key@);
    }
    let mut i: usize = 0;
    loop
        invariant
            n == entries.len(),
            old_entries == view_entries(old(entries)@),
            view_entries(entries@) == old_entries,
            wf_entries(view_entries(entries@)),
            i <= n,
            forall|m: int| 0 <= m < n ==> #[trigger] old_entries[m].0 != key@,
            forall|m: int| 0 <= m < i ==> !key_lt(key@, #[trigger] old_entries[m].0),
        ensures
            i <= n,
            i < n ==> key_lt(key@, old_entries[i as int].0),
            forall|m: int| 0 <= m < i ==> !key_lt(key@, #[trigger] old_entries[m].0),
        decreases n - i,
    {
        if i == n {
            break;
        }
        assert(entry_view(entries@[i as int]) == old_entries[i as int]);
        if key_less(key.as_str(), entries[i].0.as_str()) {
            break;
        }
        i = i + 1;
    }
    insert_new_entry(entries, i, key, value);
}

/// Puts `(key, value)` in place of the entry at `j`, which has that key.
fn set_entry<V>(entries: &mut Vec<(String, V)>, j: usize, key: String, value: V)
    requires
        wf_entries(view_entries(old(entries)@)),
        j < view_entries(old(entries)@).len(),
        view_entries(old(entries)@)[j as int].0 == key@,
    ensures
        wf_entries(view_entries(final(entries)@)),
        entries_map(view_entries(final(entries)@)) == entries_map(view_entries(old(entries)@)).insert(key@, value),
        view_entries(final(entries)@).len() == view_entries(old(entries)@).len(),
        entries_map(view_entries(old(entries)@)).contains_key(key@),
{
    let ghost before = view_entries(entries@);
    proof {
        lemma_lookup_found(before, j as int);
    }
    entries.remove(j);
    entries.insert(j, (key, value));
    let ghost after = view_entries(entries@);
    assert(after =~= before.update(j as int, (key@, value)));
    assert(strictly_sorted(after)) by {
        assert forall|i: int| 0 <= i < after.len() - 1 implies key_lt(
            #[trigger] after[i].0,
            after[i + 1].0,
        ) by {
            assert(before[i].0 == after[i].0 && before[i + 1].0 == after[i + 1].0);
        }
    }
    assert(unique_keys(after)) by {
        assert forall|a: int, b: int|
            0 <= a < after.len() && 0 <= b < after.len() && a != b implies #[trigger] after[a].0
            != #[trigger] after[b].0 by {
            assert(before[a].0 == after[a].0 && before[b].0 == after[b].0);
        }
    }
    assert(entries_map(view_entries(entries@)) =~= entries_map(view_entries(old(entries)@)).insert(key@, value)) by {
        assert forall|k: Seq<char>| #[trigger] entry_lookup(after, k) == (if k == key@ {
            Some(value)
        } else {
            entry_lookup(before, k)
        }) by {
            if k == key@ {
                lemma_lookup_found(after, j as int);
            } else if exists|m: int| 0 <= m < before.len() && before[m].0 == k {
                let m = choose|m: int| 0 <= m < before.len() && before[m].0 == k;
                lemma_lookup_found(before, m);
                lemma_lookup_found(after, m);
            } else {
                lemma_lookup_absent(before, k);
                assert forall|m: int| 0 <= m < after.len() implies #[trigger] after[m].0 != k by {
                    if m != j {
                        assert(after[m] == before[m]);
                    }
                }
                lemma_lookup_absent(after, k);
            }
        }
    }
}

/// Puts `(key, value)` at `i`, where it belongs in the order of keys; the
/// key is not there yet.
fn insert_new_entry<V>(entries: &mut Vec<(String, V)>, i: usize, key: String, value: V)
    requires
        wf_entries(view_entries(old(entries)@)),
        i <= view_entries(old(entries)@).len(),
        forall|m: int| 0 <= m < view_entries(old(entries)@).len() ==> #[trigger] view_entries(old(entries)@)[m].0 != key@,
        forall|m: int| 0 <= m < i ==> !key_lt(key@, #[trigger] view_entries(old(entries)@)[m].0),
        i < view_entries(old(entries)@).len() ==> key_lt(key@, view_entries(old(entries)@)[i as int].0),
    ensures
        wf_entries(view_entries(final(entries)@)),
        entries_map(view_entries(final(entries)@)) == entries_map(view_entries(old(entries)@)).insert(key@, value),
        view_entries(final(entries)@).len() == view_entries(old(entries)@).len() + 1,
        !entries_map(view_entries(old(entries)@)).contains_key(key@),
{
    let ghost before = view_entries(entries@);
    proof {
        lemma_lookup_absent(before, key@);
    }
    entries.insert(i, (key, value));
    let ghost after = view_entries(entries@);
    assert(after =~= before.insert(i as int, (key@, value)));
    if i > 0 {
        proof {
            lemma_key_lt_total(before[i - 1].0, key@);
        }
    }
    assert(strictly_sorted(after)) by {
        assert forall|m: int| 0 <= m < after.len() - 1 implies key_lt(
            #[trigger] after[m].0,
            after[m + 1].0,
        ) by {
            if m + 1 < i {
                assert(after[m] == before[m] && after[m + 1] == before[m + 1]);
            } else if m > i {
                assert(after[m] == before[m - 1] && after[m + 1] == before[m]);
            }
        }
    }
    assert(unique_keys(after)) by {
        assert forall|a: int, b: int|
            0 <= a < after.len() && 0 <= b < after.len() && a != b implies #[trigger] after[a].0
            != #[trigger] after[b].0 by {
            let sa = if a < i { a } else { a - 1 };
            let sb = if b < i { b } else { b - 1 };
            if a != i && b != i {
                assert(after[a] == before[sa] && after[b] == before[sb]);
            } else if a == i {
                assert(after[b] == before[sb]);
            } else {
                assert(after[a] == before[sa]);
            }
        }
    }
    assert(entries_map(view_entries(entries@)) =~= entries_map(view_entries(old(entries)@)).insert(key@, value)) by {
        assert forall|k: Seq<char>| #[trigger] entry_lookup(after, k) == (if k == key@ {
            Some(value)
        } else {
            entry_lookup(before, k)
        }) by {
            if k == key@ {
                lemma_lookup_found(after, i as int);
            } else if exists|m: int| 0 <= m < before.len() && before[m].0 == k {
                let m = choose|m: int| 0 <= m < before.len() && before[m].0 == k;
                lemma_lookup_found(before, m);
                let am = if m < i { m } else { m + 1 };
                assert(after[am] == before[m]);
                lemma_lookup_found(after, am);
            } else {
                lemma_lookup_absent(before, k);
                assert forall|m: int| 0 <= m < after.len() implies #[trigger] after[m].0 != k by {
                    if m < i {
                        assert(after[m] == before[m]);
                    } else if m > i {
                        assert(after[m] == before[m - 1]);
                    }
                }
                lemma_lookup_absent(after, k);
            }
        }
    }
}

/// A map from string keys to values, each key at most once, walked in the
/// order of its keys.
#[derive(Debug)]
pub struct KeyedMap<V> {
    entries: Vec<(String, V)>,
}

impl<V> KeyedMap<V> {
    /// The entries as they are held, in the order of their keys.
    pub closed spec fn spec_raw(&self) -> Seq<(String, V)> {
        self.entries@
    }

    /// The entries, keys as character sequences, in the order of their keys.
    pub closed spec fn spec_entries(&self) -> Seq<(Seq<char>, V)> {
        view_entries(self.entries@)
    }

    #[verifier::type_invariant]
    closed spec fn inv(&self) -> bool {
        wf_entries(self.spec_entries())
    }

    /// What the map binds each key to.
    pub open spec fn spec_map(&self) -> Map<Seq<char>, V> {
        entries_map(self.spec_entries())
    }

    /// The map with no entry.
    pub fn new() -> (r: KeyedMap<V>)
        ensures
            r.spec_raw() == Seq::<(String, V)>::empty(),
            r.spec_entries() == Seq::<(Seq<char>, V)>::empty(),
            r.spec_map() == Map::<Seq<char>, V>::empty(),
    {
        let r = KeyedMap { entries: Vec::new() };
        assert(r.spec_raw() =~= Seq::<(String, V)>::empty());
        assert(r.spec_entries() =~= Seq::<(Seq<char>, V)>::empty());
        assert(r.spec_map() =~= Map::<Seq<char>, V>::empty());
        r
    }

    /// The held entries seen with keys as character sequences.
    pub proof fn entries_match(&self)
        ensures
            view_entries(self.spec_raw()) == self.spec_entries(),
    {
    }

    /// A copy of this map, each value copied by `dup`.
    pub fn copy_with<F: Fn(&V) -> V>(&self, dup: F) -> (r: KeyedMap<V>)
        requires
            forall|v: &V| #[trigger] dup.requires((v,)),
            forall|v: &V, c: V| #[trigger] dup.ensures((v,), c) ==> c == *v,
        ensures
            r.spec_raw() == self.spec_raw(),
    {
        proof {
            use_type_invariant(self);
        }
        let mut entries: Vec<(String, V)> = Vec::new();
        let n = self.entries.len();
        let mut i: usize = 0;
        while i < n
            invariant
                n == self.entries@.len(),
                i <= n,
                entries@ == self.entries@.subrange(0, i as int),
                forall|v: &V| #[trigger] dup.requires((v,)),
                forall|v: &V, c: V| #[trigger] dup.ensures((v,), c) ==> c == *v,
            decreases n - i,
        {
            let (k, v) = &self.entries[i];
            let c = dup(v);
            entries.push((k.clone(), c));
            assert(entries@ =~= self.entries@.subrange(0, i + 1));
            i = i + 1;
        }
        assert(entries@ =~= self.entries@);
        KeyedMap { entries }
    }

    /// The number of entries.
    pub fn len(&self) -> (r: usize)
        ensures
            r == self.spec_entries().len(),
    {
        self.entries.len()
    }

    /// The entries, in the order of their keys.
    pub fn entries(&self) -> (r: &Vec<(String, V)>)
        ensures
            view_entries(r@) == self.spec_entries(),
            r@ == self.spec_raw(),
            view_entries(self.spec_raw()) == self.spec_entries(),
            wf_entries(self.spec_entries()),
    {
        proof {
            use_type_invariant(self);
        }
        &self.entries
    }

    /// This map with `key` bound to `value`: a new key adds an entry in its
    /// place in the order; a key already there keeps its place and takes the
    /// new value.
    pub fn insert(self, key: String, value: V) -> (r: KeyedMap<V>)
        ensures
            r.spec_map() == self.spec_map().insert(key@, value),
            r.spec_entries().len() == self.spec_entries().len() + (if self.spec_map().contains_key(
                key@,
            ) {
                0int
            } else {
                1int
            }),
    {
        proof {
            use_type_invariant(&self);
        }
        let KeyedMap { mut entries } = self;
        insert_entry(&mut entries, key, value);
        KeyedMap { entries }
    }
}

impl<V: Clone> Clone for KeyedMap<V> {
    /// A copy built entry by entry, keys in the same order.
    fn clone(&self) -> (r: KeyedMap<V>) {
        let mut r = KeyedMap::new();
        let n = self.entries.len();
        let mut i: usize = 0;
        while i < n
            invariant
                n == self.entries.len(),
                i <= n,
            decreases n - i,
        {
            let (key, value) = &self.entries[i];
            r = r.insert(key.clone(), value.clone());
            i = i + 1;
        }
        r
    }
}

} // verus!
