use vstd::prelude::*;

verus! {

/// Each key is smaller than every key after it.
pub open spec fn strictly_ascending<T>(s: Seq<(u64, T)>) -> bool {
    forall|i: int, j: int| 0 <= i < j < s.len() ==> s[i].0 < s[j].0
}

/// A list of entries with each value replaced by its view.
pub open spec fn entry_views<V: View>(s: Seq<(u64, V)>) -> Seq<(u64, V::V)> {
    s.map_values(|e: (u64, V)| (e.0, e.1@))
}

/// `s` lists the map `m` by ascending key: every entry of `s` is a pair of
/// `m`, every key of `m` has its entry, and the keys ascend.
pub open spec fn lists<T>(s: Seq<(u64, T)>, m: Map<u64, T>) -> bool {
    &&& strictly_ascending(s)
    &&& forall|i: int| 0 <= i < s.len() ==> m.contains_pair(#[trigger] s[i].0, s[i].1)
    &&& forall|k: u64| #[trigger]
        m.contains_key(k) ==> exists|i: int| 0 <= i < s.len() && s[i].0 == k
}

/// The list of a map's pairs by ascending key, for a map that has such a
/// list: [`lemma_listing_is_unique`] shows that it has at most one.
pub open spec fn listing<T>(m: Map<u64, T>) -> Seq<(u64, T)> {
    choose|s: Seq<(u64, T)>| lists(s, m)
}

/// Two lists of one map by ascending key are the same list.
pub proof fn lemma_listing_is_unique<T>(a: Seq<(u64, T)>, b: Seq<(u64, T)>, m: Map<u64, T>)
    requires
        lists(a, m),
        lists(b, m),
    ensures
        a == b,
    decreases a.len(),
{
    if a.len() == 0 {
        // `m` is empty, so `b` has no entry either.
        if b.len() > 0 {
            assert(m.contains_key(b[0].0));
        }
        assert(a =~= b);
    } else {
        // The greatest key of `m` ends both lists.
        let top = a.last().0;
        assert(m.contains_key(top));
        let at = choose|i: int| 0 <= i < b.len() && b[i].0 == top;
        if at < b.len() - 1 {
            assert(m.contains_key(b.last().0));
        }
        assert(a.last() == b.last());
        lemma_rest_is_listed(a, m);
        lemma_rest_is_listed(b, m);
        lemma_listing_is_unique(a.drop_last(), b.drop_last(), m.remove(top));
        assert(a =~= a.drop_last().push(a.last()));
        assert(b =~= b.drop_last().push(b.last()));
    }
}

/// A list without its last entry lists the map without that entry's key.
proof fn lemma_rest_is_listed<T>(s: Seq<(u64, T)>, m: Map<u64, T>)
    requires
        lists(s, m),
        s.len() > 0,
    ensures
        lists(s.drop_last(), m.remove(s.last().0)),
{
    let rest = s.drop_last();
    let top = s.last().0;
    assert forall|k: u64| #[trigger] m.remove(top).contains_key(k) implies exists|i: int|
        0 <= i < rest.len() && rest[i].0 == k by {
        let i = choose|i: int| 0 <= i < s.len() && s[i].0 == k;
        assert(rest[i].0 == k);
    }
}

/// The map that a list of entries stands for: each listed key, with the
/// view of a value listed under it.
spec fn listed<V: View>(s: Seq<(u64, V)>) -> Map<u64, V::V> {
    Map::new(
        |k: u64| exists|i: int| 0 <= i < s.len() && s[i].0 == k,
        |k: u64| s[choose|i: int| 0 <= i < s.len() && s[i].0 == k].1@,
    )
}

/// In an ascending list each entry is what the map holds under its key.
proof fn lemma_listed_entry<V: View>(s: Seq<(u64, V)>, i: int)
    requires
        strictly_ascending(s),
        0 <= i < s.len(),
    ensures
        listed(s).contains_key(s[i].0),
        listed(s)[s[i].0] == s[i].1@,
{
    // No other entry has the key of entry `i`, so that is the one chosen.
    let j = choose|j: int| 0 <= j < s.len() && s[j].0 == s[i].0;
    assert(j == i);
}

/// The views of an ascending list are the listing of the map it stands for.
proof fn lemma_listed_listing<V: View>(s: Seq<(u64, V)>)
    requires
        strictly_ascending(s),
    ensures
        lists(entry_views(s), listed(s)),
        entry_views(s) == listing(listed(s)),
{
    let views = entry_views(s);
    let m = listed(s);
    assert forall|i: int| 0 <= i < views.len() implies m.contains_pair(
        #[trigger] views[i].0,
        views[i].1,
    ) by {
        lemma_listed_entry(s, i);
    }
    assert forall|k: u64| #[trigger] m.contains_key(k) implies exists|i: int|
        0 <= i < views.len() && views[i].0 == k by {
        let i = choose|i: int| 0 <= i < s.len() && s[i].0 == k;
        assert(views[i].0 == k);
    }
    assert(lists(views, m));
    lemma_listing_is_unique(views, listing(m), m);
}

/// Putting `value` under `key` at place `at` of an ascending list, in place
/// of the entry with that key or between its neighbours, gives an ascending
/// list that stands for the map with `value` under `key`.
proof fn lemma_listed_put<V: View>(
    before: Seq<(u64, V)>,
    after: Seq<(u64, V)>,
    at: int,
    key: u64,
    value: V,
)
    requires
        strictly_ascending(before),
        0 <= at <= before.len(),
        forall|j: int| 0 <= j < at ==> before[j].0 < key,
        forall|j: int| at <= j < before.len() ==> before[j].0 >= key,
        if at < before.len() && before[at].0 == key {
            after == before.update(at, (key, value))
        } else {
            after == before.insert(at, (key, value))
        },
    ensures
        strictly_ascending(after),
        listed(after) == listed(before).insert(key, value@),
{
    let replaced = at < before.len() && before[at].0 == key;
    // Where entry `i` of the new list stood in the old one.
    let old_place = |i: int| if replaced || i < at { i } else { i - 1 };
    // Where entry `i` of the old list stands in the new one.
    let new_place = |i: int| if replaced || i < at { i } else { i + 1 };
    assert forall|i: int, j: int| 0 <= i < j < after.len() implies after[i].0 < after[j].0 by {
        if i != at && j != at {
            assert(before[old_place(i)].0 < before[old_place(j)].0);
        }
    }
    let m = listed(before).insert(key, value@);
    assert forall|k: u64| listed(after).contains_key(k) == #[trigger] m.contains_key(k) by {
        if listed(after).contains_key(k) && k != key {
            let i = choose|i: int| 0 <= i < after.len() && after[i].0 == k;
            assert(before[old_place(i)].0 == k);
        }
        if listed(before).contains_key(k) {
            let i = choose|i: int| 0 <= i < before.len() && before[i].0 == k;
            assert(after[new_place(i)].0 == k);
        }
        if k == key {
            assert(after[at].0 == k);
        }
    }
    assert forall|k: u64| #[trigger] m.contains_key(k) implies listed(after)[k] == m[k] by {
        let i = choose|i: int| 0 <= i < after.len() && after[i].0 == k;
        lemma_listed_entry(after, i);
        if i != at {
            lemma_listed_entry(before, old_place(i));
        }
    }
    assert(listed(after) =~= m);
}

/// Values kept under packet sequence numbers, at most one under each, and
/// listed by ascending sequence number.
pub struct SequenceMap<V> {
    entries: Vec<(u64, V)>,
}

impl<V: View> View for SequenceMap<V> {
    type V = Map<u64, V::V>;

    closed spec fn view(&self) -> Map<u64, V::V> {
        listed(self.entries@)
    }
}

impl<V> SequenceMap<V> {
    #[verifier::type_invariant]
    spec fn ascending(self) -> bool {
        strictly_ascending(self.entries@)
    }
}

impl<V: View> SequenceMap<V> {
    /// A map that holds nothing.
    pub fn new() -> (r: Self)
        ensures
            r@ == Map::<u64, V::V>::empty(),
    {
        let r = SequenceMap { entries: Vec::new() };
        assert(r@ =~= Map::<u64, V::V>::empty());
        r
    }

    /// The number of entries whose key is below `key`, which is the place
    /// of `key` in the list, or the place where it would go.
    fn position(&self, key: u64) -> (at: usize)
        ensures
            at <= self.entries@.len(),
            forall|j: int| 0 <= j < at ==> self.entries@[j].0 < key,
            forall|j: int| at <= j < self.entries@.len() ==> self.entries@[j].0 >= key,
    {
        proof {
            use_type_invariant(self);
        }
        let mut low: usize = 0;
        let mut high: usize = self.entries.len();
        while low < high
            invariant
                low <= high <= self.entries@.len(),
                strictly_ascending(self.entries@),
                forall|j: int| 0 <= j < low ==> self.entries@[j].0 < key,
                forall|j: int| high <= j < self.entries@.len() ==> self.entries@[j].0 >= key,
            decreases high - low,
        {
            let mid: usize = low + (high - low) / 2;
            if self.entries[mid].0 < key {
                low = mid + 1;
            } else {
                high = mid;
            }
        }
        low
    }

    /// Keeps `value` under `key`, in place of what was kept there before.
    pub fn put(&mut self, key: u64, value: V)
        ensures
            final(self)@ == old(self)@.insert(key, value@),
    {
        proof {
            use_type_invariant(&*self);
        }
        let at: usize = self.position(key);
        let mut taken = SequenceMap { entries: Vec::new() };
        std::mem::swap(self, &mut taken);
        let mut entries = taken.entries;
        let ghost before = entries@;
        if at < entries.len() && entries[at].0 == key {
            entries[at] = (key, value);
        } else {
            entries.insert(at, (key, value));
        }
        proof {
            lemma_listed_put(before, entries@, at as int, key, value);
        }
        *self = SequenceMap { entries };
    }

    /// What is kept under `key`, if anything.
    pub fn get(&self, key: u64) -> (r: Option<&V>)
        ensures
            match r {
                Some(value) => self@.contains_key(key) && self@[key] == value@,
                None => !self@.contains_key(key),
            },
    {
        proof {
            use_type_invariant(self);
        }
        let at: usize = self.position(key);
        if at < self.entries.len() && self.entries[at].0 == key {
            proof {
                lemma_listed_entry(self.entries@, at as int);
            }
            Some(&self.entries[at].1)
        } else {
            None
        }
    }

    /// All entries, by ascending key.
    pub fn entries(&self) -> (r: &Vec<(u64, V)>)
        ensures
            lists(entry_views(r@), self@),
            entry_views(r@) == listing(self@),
    {
        proof {
            use_type_invariant(self);
            lemma_listed_listing(self.entries@);
        }
        &self.entries
    }
}

} // verus!
