//! A keyed collection: records with unique 128-bit keys, kept in insertion order.

use vstd::prelude::*;

verus! {

/// A record that carries a unique 128-bit key; the key is read off the record's view.
pub trait Keyed: View + Sized {
    /// The key of a record whose view is `v`.
    spec fn key_of(v: Self::V) -> u128;

    /// Reads the record's key.
    fn get_key(&self) -> (k: u128)
        ensures
            k == Self::key_of(self@),
    ;

    /// A copy of the record, with the same view.
    fn duplicate(&self) -> (r: Self)
        ensures
            r@ == self@,
    ;
}

/// Some record of `s` has key `k`.
pub open spec fn has_key<T: Keyed>(s: Seq<T::V>, k: u128) -> bool {
    exists|i: int| 0 <= i < s.len() && #[trigger] T::key_of(s[i]) == k
}

/// No two records of `s` share a key.
pub open spec fn unique_keys<T: Keyed>(s: Seq<T::V>) -> bool {
    forall|i: int, j: int|
        0 <= i < s.len() && 0 <= j < s.len() && #[trigger] T::key_of(s[i]) == #[trigger] T::key_of(s[j])
            ==> i == j
}

/// The position of a record of `s` with key `k` (meaningful when `has_key(s, k)`).
pub open spec fn index_of<T: Keyed>(s: Seq<T::V>, k: u128) -> int {
    choose|i: int| 0 <= i < s.len() && #[trigger] T::key_of(s[i]) == k
}

/// The records of `s` as a map from key to record.
pub open spec fn map_of<T: Keyed>(s: Seq<T::V>) -> Map<u128, T::V> {
    Map::new(|k: u128| has_key::<T>(s, k), |k: u128| s[index_of::<T>(s, k)])
}

/// `s` after inserting `x`: it takes the place of the record with the same key, or is
/// appended when there is none.
pub open spec fn upsert_seq<T: Keyed>(s: Seq<T::V>, x: T::V) -> Seq<T::V> {
    if has_key::<T>(s, T::key_of(x)) {
        s.update(index_of::<T>(s, T::key_of(x)), x)
    } else {
        s.push(x)
    }
}

/// `s` after replacing the record with the key of `x` by `x`; unchanged when there is none.
pub open spec fn replace_seq<T: Keyed>(s: Seq<T::V>, x: T::V) -> Seq<T::V> {
    if has_key::<T>(s, T::key_of(x)) {
        s.update(index_of::<T>(s, T::key_of(x)), x)
    } else {
        s
    }
}

/// `s` without the record with key `k`.
pub open spec fn remove_seq<T: Keyed>(s: Seq<T::V>, k: u128) -> Seq<T::V> {
    if has_key::<T>(s, k) {
        s.remove(index_of::<T>(s, k))
    } else {
        s
    }
}

/// In a sequence with unique keys, the record at position `i` is the one the map gives
/// for its key, and it is the only position with that key.
pub proof fn lemma_map_of_index<T: Keyed>(s: Seq<T::V>, i: int)
    requires
        unique_keys::<T>(s),
        0 <= i < s.len(),
    ensures
        map_of::<T>(s).contains_key(T::key_of(s[i])),
        map_of::<T>(s)[T::key_of(s[i])] == s[i],
        index_of::<T>(s, T::key_of(s[i])) == i,
{
    assert(has_key::<T>(s, T::key_of(s[i])));
}

/// A key occurs in `s` with `x` appended exactly when it occurs in `s` or is the key of `x`.
pub proof fn lemma_has_key_push<T: Keyed>(s: Seq<T::V>, x: T::V, k: u128)
    ensures
        has_key::<T>(s.push(x), k) == (has_key::<T>(s, k) || T::key_of(x) == k),
{
    let t = s.push(x);
    if has_key::<T>(s, k) {
        let i = choose|i: int| 0 <= i < s.len() && #[trigger] T::key_of(s[i]) == k;
        assert(t[i] == s[i]);
    }
    if T::key_of(x) == k {
        assert(t[s.len() as int] == x);
    }
    if has_key::<T>(t, k) {
        let i = choose|i: int| 0 <= i < t.len() && #[trigger] T::key_of(t[i]) == k;
        if i < s.len() {
            assert(t[i] == s[i]);
        }
    }
}

/// Inserting keeps keys unique and inserts into the map.
pub proof fn lemma_upsert<T: Keyed>(s: Seq<T::V>, x: T::V)
    requires
        unique_keys::<T>(s),
    ensures
        unique_keys::<T>(upsert_seq::<T>(s, x)),
        map_of::<T>(upsert_seq::<T>(s, x)) == map_of::<T>(s).insert(T::key_of(x), x),
{
    let t = upsert_seq::<T>(s, x);
    let kx = T::key_of(x);
    let j = if has_key::<T>(s, kx) { index_of::<T>(s, kx) } else { s.len() as int };
    assert(forall|i: int| 0 <= i < t.len() && i != j ==> t[i] == s[i]);
    assert(t[j] == x);
    assert(has_key::<T>(s, kx) ==> T::key_of(s[j]) == kx);
    assert(unique_keys::<T>(t)) by {
        assert forall|a: int, b: int|
            0 <= a < t.len() && 0 <= b < t.len() && #[trigger] T::key_of(t[a]) == #[trigger] T::key_of(t[b])
            implies a == b by {
            if a == j && b != j {
                assert(T::key_of(s[b]) == kx);
            } else if b == j && a != j {
                assert(T::key_of(s[a]) == kx);
            }
        }
    }
    assert(map_of::<T>(t) =~= map_of::<T>(s).insert(kx, x)) by {
        assert forall|k: u128| #[trigger] map_of::<T>(t).contains_key(k) == map_of::<T>(s).insert(kx, x).contains_key(k) by {
            if has_key::<T>(t, k) {
                let i = choose|i: int| 0 <= i < t.len() && #[trigger] T::key_of(t[i]) == k;
                if i != j {
                    assert(T::key_of(s[i]) == k);
                }
            }
            if has_key::<T>(s, k) {
                let i = choose|i: int| 0 <= i < s.len() && #[trigger] T::key_of(s[i]) == k;
                if i != j {
                    assert(T::key_of(t[i]) == k);
                } else {
                    assert(T::key_of(t[j]) == kx);
                }
            }
            if k == kx {
                assert(T::key_of(t[j]) == k);
            }
        }
        assert forall|k: u128| #[trigger] map_of::<T>(t).contains_key(k) implies map_of::<T>(t)[k] == map_of::<T>(s).insert(kx, x)[k] by {
            let i = choose|i: int| 0 <= i < t.len() && #[trigger] T::key_of(t[i]) == k;
            lemma_map_of_index::<T>(t, i);
            if i != j {
                assert(T::key_of(s[i]) == k);
                lemma_map_of_index::<T>(s, i);
            }
        }
    }
}

/// Replacing keeps keys unique, and changes the map only where the key was present.
pub proof fn lemma_replace<T: Keyed>(s: Seq<T::V>, x: T::V)
    requires
        unique_keys::<T>(s),
    ensures
        unique_keys::<T>(replace_seq::<T>(s, x)),
        map_of::<T>(replace_seq::<T>(s, x)) == (if map_of::<T>(s).contains_key(T::key_of(x)) {
            map_of::<T>(s).insert(T::key_of(x), x)
        } else {
            map_of::<T>(s)
        }),
{
    lemma_upsert::<T>(s, x);
}

/// Removing keeps keys unique and removes the key from the map.
pub proof fn lemma_remove<T: Keyed>(s: Seq<T::V>, k: u128)
    requires
        unique_keys::<T>(s),
    ensures
        unique_keys::<T>(remove_seq::<T>(s, k)),
        map_of::<T>(remove_seq::<T>(s, k)) == map_of::<T>(s).remove(k),
{
    let t = remove_seq::<T>(s, k);
    if has_key::<T>(s, k) {
        let j = index_of::<T>(s, k);
        assert(unique_keys::<T>(t)) by {
            assert forall|a: int, b: int|
                0 <= a < t.len() && 0 <= b < t.len() && #[trigger] T::key_of(t[a]) == #[trigger] T::key_of(t[b])
                implies a == b by {
                let a2 = if a < j { a } else { a + 1 };
                let b2 = if b < j { b } else { b + 1 };
                assert(t[a] == s[a2]);
                assert(t[b] == s[b2]);
            }
        }
        assert(map_of::<T>(t) =~= map_of::<T>(s).remove(k)) by {
            assert forall|q: u128| #[trigger] map_of::<T>(t).contains_key(q) == map_of::<T>(s).remove(k).contains_key(q) by {
                if has_key::<T>(t, q) {
                    let i = choose|i: int| 0 <= i < t.len() && #[trigger] T::key_of(t[i]) == q;
                    let i2 = if i < j { i } else { i + 1 };
                    assert(t[i] == s[i2]);
                    assert(T::key_of(s[i2]) == q);
                    assert(i2 != j);
                }
                if has_key::<T>(s, q) && q != k {
                    let i = choose|i: int| 0 <= i < s.len() && #[trigger] T::key_of(s[i]) == q;
                    assert(i != j);
                    let i2 = if i < j { i } else { i - 1 };
                    assert(t[i2] == s[i]);
                    assert(T::key_of(t[i2]) == q);
                }
            }
            assert forall|q: u128| #[trigger] map_of::<T>(t).contains_key(q) implies map_of::<T>(t)[q] == map_of::<T>(s).remove(k)[q] by {
                let i = choose|i: int| 0 <= i < t.len() && #[trigger] T::key_of(t[i]) == q;
                let i2 = if i < j { i } else { i + 1 };
                assert(t[i] == s[i2]);
                lemma_map_of_index::<T>(t, i);
                lemma_map_of_index::<T>(s, i2);
            }
        }
    } else {
        assert(map_of::<T>(t) =~= map_of::<T>(s).remove(k));
    }
}

/// A rearrangement of a sequence with unique keys also has unique keys, and each of its
/// records is the one the original's map gives for its key.
pub proof fn lemma_permutation_entries<T: Keyed>(a: Seq<T::V>, b: Seq<T::V>)
    requires
        a.to_multiset() == b.to_multiset(),
        unique_keys::<T>(b),
    ensures
        unique_keys::<T>(a),
        a.len() == b.len(),
        forall|i: int| 0 <= i < a.len() ==> map_of::<T>(b).contains_key(T::key_of(#[trigger] a[i]))
            && map_of::<T>(b)[T::key_of(a[i])] == a[i],
        forall|k: u128| has_key::<T>(a, k) == has_key::<T>(b, k),
{
    broadcast use vstd::seq_lib::group_to_multiset_ensures;
    broadcast use vstd::multiset::group_multiset_axioms;

    assert forall|i: int| 0 <= i < a.len() implies map_of::<T>(b).contains_key(T::key_of(#[trigger] a[i]))
        && map_of::<T>(b)[T::key_of(a[i])] == a[i] by {
        assert(a.contains(a[i]));
        assert(a.to_multiset().count(a[i]) > 0);
        assert(b.contains(a[i]));
        let j = choose|j: int| 0 <= j < b.len() && b[j] == a[i];
        lemma_map_of_index::<T>(b, j);
    }
    vstd::seq_lib::to_multiset_len(a);
    vstd::seq_lib::to_multiset_len(b);
    assert(b.no_duplicates()) by {
        assert forall|i: int, j: int| 0 <= i < b.len() && 0 <= j < b.len() && i != j implies b[i] != b[j] by {
            if b[i] == b[j] {
                assert(T::key_of(b[i]) == T::key_of(b[j]));
            }
        }
    }
    b.lemma_multiset_has_no_duplicates();
    a.lemma_multiset_has_no_duplicates_conv();
    assert(unique_keys::<T>(a)) by {
        assert forall|x: int, y: int|
            0 <= x < a.len() && 0 <= y < a.len() && #[trigger] T::key_of(a[x]) == #[trigger] T::key_of(a[y])
            implies x == y by {
            assert(map_of::<T>(b)[T::key_of(a[x])] == a[x]);
            assert(map_of::<T>(b)[T::key_of(a[y])] == a[y]);
        }
    }
    assert forall|k: u128| has_key::<T>(a, k) == has_key::<T>(b, k) by {
        if has_key::<T>(a, k) {
            let i = choose|i: int| 0 <= i < a.len() && #[trigger] T::key_of(a[i]) == k;
            assert(map_of::<T>(b).contains_key(T::key_of(a[i])));
        }
        if has_key::<T>(b, k) {
            let j = choose|j: int| 0 <= j < b.len() && #[trigger] T::key_of(b[j]) == k;
            assert(b.contains(b[j]));
            assert(b.to_multiset().count(b[j]) > 0);
            assert(a.contains(b[j]));
            let i = choose|i: int| 0 <= i < a.len() && a[i] == b[j];
            assert(T::key_of(a[i]) == k);
        }
    }
}

/// Records with unique keys, kept in the order in which their keys first arrived.
pub struct Table<T> {
    items: Vec<T>,
}

/// The views of the records of `v`, in order.
pub open spec fn views<T: View>(v: Seq<T>) -> Seq<T::V> {
    v.map_values(|x: T| x@)
}

impl<T: Keyed> Table<T> {
    /// The views of the records, in order.
    pub closed spec fn seq(&self) -> Seq<T::V> {
        views(self.items@)
    }

    /// The records as a map from key to record view.
    pub open spec fn map(&self) -> Map<u128, T::V> {
        map_of::<T>(self.seq())
    }

    /// The table is well formed: it holds each key at most once.
    pub open spec fn wf(&self) -> bool {
        unique_keys::<T>(self.seq())
    }

    /// An empty table.
    pub fn new() -> (t: Self)
        ensures
            t.wf(),
            t.seq() == Seq::<T::V>::empty(),
    {
        let t = Table { items: Vec::new() };
        assert(t.seq() =~= Seq::<T::V>::empty());
        t
    }

    /// The number of records.
    pub fn len(&self) -> (n: usize)
        ensures
            n == self.seq().len(),
    {
        self.items.len()
    }

    /// The position of the record with key `k`, if there is one.
    pub fn position(&self, k: u128) -> (r: Option<usize>)
        requires
            self.wf(),
        ensures
            r is None <==> !has_key::<T>(self.seq(), k),
            r matches Some(i) ==> i < self.seq().len() && i == index_of::<T>(self.seq(), k)
                && T::key_of(self.seq()[i as int]) == k,
    {
        let n = self.items.len();
        let mut i: usize = 0;
        while i < n
            invariant
                n == self.items@.len(),
                0 <= i <= n,
                unique_keys::<T>(self.seq()),
                forall|j: int| 0 <= j < i ==> #[trigger] T::key_of(self.seq()[j]) != k,
            decreases n - i,
        {
            if self.items[i].get_key() == k {
                proof {
                    lemma_map_of_index::<T>(self.seq(), i as int);
                }
                return Some(i);
            }
            i = i + 1;
        }
        None
    }

    /// Whether a record with key `k` is present.
    pub fn contains(&self, k: u128) -> (b: bool)
        requires
            self.wf(),
        ensures
            b == self.map().contains_key(k),
    {
        self.position(k).is_some()
    }

    /// A copy of the record with key `k`, if there is one.
    pub fn get(&self, k: u128) -> (r: Option<T>)
        requires
            self.wf(),
        ensures
            r is Some == self.map().contains_key(k),
            r matches Some(x) ==> x@ == self.map()[k],
    {
        match self.position(k) {
            Some(i) => {
                proof {
                    lemma_map_of_index::<T>(self.seq(), i as int);
                }
                Some(self.items[i].duplicate())
            },
            None => None,
        }
    }

    /// A copy of all records, in order.
    pub fn to_vec(&self) -> (v: Vec<T>)
        ensures
            views(v@) == self.seq(),
    {
        let mut v: Vec<T> = Vec::new();
        let n = self.items.len();
        let mut i: usize = 0;
        while i < n
            invariant
                n == self.items@.len(),
                0 <= i <= n,
                views(v@) == self.seq().subrange(0, i as int),
            decreases n - i,
        {
            let ghost before = v@;
            let x = self.items[i].duplicate();
            v.push(x);
            assert(views(v@) =~= views(before).push(x@));
            assert(self.seq()[i as int] == self.items@[i as int]@);
            i = i + 1;
            assert(views(v@) =~= self.seq().subrange(0, i as int));
        }
        assert(views(v@) =~= self.seq());
        v
    }

    /// Inserts `x`, taking the place of the record with the same key if there is one.
    pub fn upsert(&mut self, x: T)
        requires
            old(self).wf(),
        ensures
            final(self).wf(),
            final(self).seq() == upsert_seq::<T>(old(self).seq(), x@),
    {
        proof {
            lemma_upsert::<T>(self.seq(), x@);
        }
        let k = x.get_key();
        match self.position(k) {
            Some(i) => {
                let ghost before = self.items@;
                self.items.set(i, x);
                assert(views(self.items@) =~= views(before).update(i as int, x@));
            },
            None => {
                let ghost before = self.items@;
                self.items.push(x);
                assert(views(self.items@) =~= views(before).push(x@));
            },
        }
    }

    /// Replaces the record with the key of `x` by `x`; does nothing when there is none.
    pub fn replace(&mut self, x: T)
        requires
            old(self).wf(),
        ensures
            final(self).wf(),
            final(self).seq() == replace_seq::<T>(old(self).seq(), x@),
    {
        proof {
            lemma_upsert::<T>(self.seq(), x@);
        }
        let k = x.get_key();
        match self.position(k) {
            Some(i) => {
                let ghost before = self.items@;
                self.items.set(i, x);
                assert(views(self.items@) =~= views(before).update(i as int, x@));
            },
            None => {},
        }
    }

    /// Removes the record with key `k`, if there is one.
    pub fn remove(&mut self, k: u128)
        requires
            old(self).wf(),
        ensures
            final(self).wf(),
            final(self).seq() == remove_seq::<T>(old(self).seq(), k),
    {
        proof {
            lemma_remove::<T>(self.seq(), k);
        }
        match self.position(k) {
            Some(i) => {
                let ghost before = self.items@;
                self.items.remove(i);
                assert(views(self.items@) =~= views(before).remove(i as int));
            },
            None => {},
        }
    }
}

} // verus!
