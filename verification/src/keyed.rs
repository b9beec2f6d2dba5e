//! A map kept as a vector of entries with distinct keys.
//!
//! Keys are compared by their spec view, so the map works for keys whose
//! equality is not `==` of Rust (names held as `String`, byte arrays).
use vstd::prelude::*;

verus! {

/// A key of a [`KeyedMap`]: it has a spec view, and an executable test that
/// two keys have the same view.
pub trait KeyLike: Sized {
    type KeyView;

    spec fn key_view(&self) -> Self::KeyView;

    fn same_key(&self, other: &Self) -> (res: bool)
        ensures
            res == (self.key_view() == other.key_view()),
    ;

    fn copy_key(&self) -> (res: Self)
        ensures
            res.key_view() == self.key_view(),
    ;
}

/// The key view of entry `i` of `s`.
pub open spec fn entry_key<K: KeyLike, V>(s: Seq<(K, V)>, i: int) -> K::KeyView {
    s[i].0.key_view()
}

/// No two entries of `s` have keys with the same view.
pub open spec fn entries_wf<K: KeyLike, V>(s: Seq<(K, V)>) -> bool {
    forall|i: int, j: int|
        0 <= i < s.len() && 0 <= j < s.len() && i != j ==> #[trigger] entry_key(s, i)
            != #[trigger] entry_key(s, j)
}

/// Whether some entry of `s` has a key with view `k`.
pub open spec fn entries_have<K: KeyLike, V>(s: Seq<(K, V)>, k: K::KeyView) -> bool {
    exists|i: int| 0 <= i < s.len() && entry_key(s, i) == k
}

/// The map that the entries `s` stand for.
pub open spec fn entries_view<K: KeyLike, V>(s: Seq<(K, V)>) -> Map<K::KeyView, V> {
    Map::new(
        |k: K::KeyView| entries_have(s, k),
        |k: K::KeyView| s[choose|i: int| 0 <= i < s.len() && entry_key(s, i) == k].1,
    )
}

/// The key views of `s`, in order.
pub open spec fn entries_keys<K: KeyLike, V>(s: Seq<(K, V)>) -> Seq<K::KeyView> {
    Seq::new(s.len(), |i: int| entry_key(s, i))
}

/// In well-formed entries, entry `i` gives the value of its key.
pub proof fn lemma_entry<K: KeyLike, V>(s: Seq<(K, V)>, i: int)
    requires
        entries_wf(s),
        0 <= i < s.len(),
    ensures
        entries_view(s).contains_key(entry_key(s, i)),
        entries_view(s)[entry_key(s, i)] == s[i].1,
{
    let k = entry_key(s, i);
    assert(entries_have(s, k));
    let j = choose|j: int| 0 <= j < s.len() && entry_key(s, j) == k;
    if j != i {
        assert(entry_key(s, j) != entry_key(s, i));
    }
}

/// Replacing the value of entry `i` keeps the entries well formed and sets
/// that key's value.
pub proof fn lemma_update_value<K: KeyLike, V>(s: Seq<(K, V)>, i: int, v: V)
    requires
        entries_wf(s),
        0 <= i < s.len(),
    ensures
        entries_wf(s.update(i, (s[i].0, v))),
        entries_view(s.update(i, (s[i].0, v))) == entries_view(s).insert(entry_key(s, i), v),
        entries_keys(s.update(i, (s[i].0, v))) == entries_keys(s),
{
    let t = s.update(i, (s[i].0, v));
    let kv = entry_key(s, i);
    assert forall|a: int| 0 <= a < s.len() implies entry_key(t, a) == entry_key(s, a) by {}
    assert forall|a: int, b: int|
        0 <= a < t.len() && 0 <= b < t.len() && a != b implies #[trigger] entry_key(t, a)
        != #[trigger] entry_key(t, b) by {
        assert(entry_key(s, a) != entry_key(s, b));
    }
    assert forall|x: K::KeyView| entries_have(t, x) == entries_have(s, x) by {
        if entries_have(t, x) {
            let j = choose|j: int| 0 <= j < t.len() && entry_key(t, j) == x;
            assert(entry_key(s, j) == x);
        }
        if entries_have(s, x) {
            let j = choose|j: int| 0 <= j < s.len() && entry_key(s, j) == x;
            assert(entry_key(t, j) == x);
        }
    }
    lemma_entry(s, i);
    assert forall|x: K::KeyView| #[trigger] entries_view(t).contains_key(x) implies entries_view(
        t,
    )[x] == entries_view(s).insert(kv, v)[x] by {
        let j = choose|j: int| 0 <= j < t.len() && entry_key(t, j) == x;
        lemma_entry(t, j);
        if j != i {
            lemma_entry(s, j);
        }
    }
    assert(entries_view(t) =~= entries_view(s).insert(kv, v));
    assert(entries_keys(t) =~= entries_keys(s));
}

/// Appending an entry with a new key keeps the entries well formed and adds
/// that key.
pub proof fn lemma_push<K: KeyLike, V>(s: Seq<(K, V)>, k: K, v: V)
    requires
        entries_wf(s),
        !entries_have(s, k.key_view()),
    ensures
        entries_wf(s.push((k, v))),
        entries_view(s.push((k, v))) == entries_view(s).insert(k.key_view(), v),
        entries_keys(s.push((k, v))) == entries_keys(s).push(k.key_view()),
{
    let t = s.push((k, v));
    let n = s.len() as int;
    let kv = k.key_view();
    assert forall|a: int| 0 <= a < s.len() implies entry_key(t, a) == entry_key(s, a) by {}
    assert(entry_key(t, n) == kv);
    assert forall|a: int, b: int|
        0 <= a < t.len() && 0 <= b < t.len() && a != b implies #[trigger] entry_key(t, a)
        != #[trigger] entry_key(t, b) by {
        if a < n && b < n {
            assert(entry_key(s, a) != entry_key(s, b));
        }
    }
    assert forall|x: K::KeyView| entries_have(t, x) == (entries_have(s, x) || x == kv) by {
        if entries_have(t, x) {
            let j = choose|j: int| 0 <= j < t.len() && entry_key(t, j) == x;
            if j < n {
                assert(entry_key(s, j) == x);
            }
        }
        if entries_have(s, x) {
            let j = choose|j: int| 0 <= j < s.len() && entry_key(s, j) == x;
            assert(entry_key(t, j) == x);
        }
    }
    assert forall|x: K::KeyView| #[trigger] entries_view(t).contains_key(x) implies entries_view(
        t,
    )[x] == entries_view(s).insert(kv, v)[x] by {
        let j = choose|j: int| 0 <= j < t.len() && entry_key(t, j) == x;
        lemma_entry(t, j);
        if j < n {
            lemma_entry(s, j);
        }
    }
    assert(entries_view(t) =~= entries_view(s).insert(kv, v));
    assert(entries_keys(t) =~= entries_keys(s).push(kv));
}

/// In well-formed entries, the keys are distinct and are the map's domain.
pub proof fn lemma_keys<K: KeyLike, V>(s: Seq<(K, V)>)
    requires
        entries_wf(s),
    ensures
        entries_keys(s).no_duplicates(),
        entries_view(s).dom() == entries_keys(s).to_set(),
        entries_view(s).len() == s.len(),
{
    let ks = entries_keys(s);
    assert forall|k: K::KeyView| entries_view(s).dom().contains(k) <==> ks.to_set().contains(k) by {
        if entries_have(s, k) {
            let i = choose|i: int| 0 <= i < s.len() && entry_key(s, i) == k;
            assert(ks[i] == k);
        }
        if ks.to_set().contains(k) {
            let i = choose|i: int| 0 <= i < ks.len() && ks[i] == k;
            assert(entry_key(s, i) == k);
        }
    }
    assert(entries_view(s).dom() =~= ks.to_set());
    assert forall|i: int, j: int| 0 <= i < ks.len() && 0 <= j < ks.len() && i != j implies ks[i]
        != ks[j] by {
        assert(entry_key(s, i) != entry_key(s, j));
    }
    ks.unique_seq_to_set();
}

/// A finite map from keys (by their view) to values.
pub struct KeyedMap<K, V> {
    entries: Vec<(K, V)>,
}

impl<K: KeyLike, V> KeyedMap<K, V> {
    /// No two entries have keys with the same view.
    pub closed spec fn wf(&self) -> bool {
        entries_wf(self.entries@)
    }

    /// The map that the entries stand for.
    pub closed spec fn view(&self) -> Map<K::KeyView, V> {
        entries_view(self.entries@)
    }

    /// The keys, in the order in which they were first inserted.
    pub closed spec fn key_seq(&self) -> Seq<K::KeyView> {
        entries_keys(self.entries@)
    }

    /// The keys are distinct and are the map's domain.
    pub proof fn lemma_key_seq(&self)
        requires
            self.wf(),
        ensures
            self.key_seq().no_duplicates(),
            self.view().dom() == self.key_seq().to_set(),
            self.view().len() == self.key_seq().len(),
    {
        lemma_keys(self.entries@);
    }

    /// An empty map.
    pub fn new() -> (res: Self)
        ensures
            res.wf(),
            res.view() == Map::<K::KeyView, V>::empty(),
            res.key_seq() == Seq::<K::KeyView>::empty(),
    {
        let res = KeyedMap { entries: Vec::new() };
        assert(res.view() =~= Map::<K::KeyView, V>::empty());
        assert(res.key_seq() =~= Seq::<K::KeyView>::empty());
        res
    }

    /// The number of entries.
    pub fn len(&self) -> (res: usize)
        requires
            self.wf(),
        ensures
            res == self.view().len(),
            res == self.key_seq().len(),
    {
        proof {
            lemma_keys(self.entries@);
        }
        self.entries.len()
    }

    /// The index of the entry with the key of `k`, if any.
    fn find(&self, k: &K) -> (res: Option<usize>)
        requires
            self.wf(),
        ensures
            match res {
                Some(i) => i < self.entries@.len() && entry_key(self.entries@, i as int)
                    == k.key_view(),
                None => !entries_have(self.entries@, k.key_view()),
            },
    {
        let mut i: usize = 0;
        while i < self.entries.len()
            invariant
                i <= self.entries@.len(),
                forall|j: int| 0 <= j < i ==> entry_key(self.entries@, j) != k.key_view(),
            decreases self.entries@.len() - i,
        {
            if self.entries[i].0.same_key(k) {
                return Some(i);
            }
            i = i + 1;
        }
        None
    }

    /// Whether the map has the key of `k`.
    pub fn contains_key(&self, k: &K) -> (res: bool)
        requires
            self.wf(),
        ensures
            res == self.view().contains_key(k.key_view()),
    {
        match self.find(k) {
            Some(i) => {
                proof {
                    lemma_entry(self.entries@, i as int);
                }
                true
            },
            None => false,
        }
    }

    /// The value of the key of `k`, if any.
    pub fn get(&self, k: &K) -> (res: Option<&V>)
        requires
            self.wf(),
        ensures
            res is Some == self.view().contains_key(k.key_view()),
            res matches Some(v) ==> *v == self.view()[k.key_view()],
    {
        match self.find(k) {
            Some(i) => {
                proof {
                    lemma_entry(self.entries@, i as int);
                }
                Some(&self.entries[i].1)
            },
            None => None,
        }
    }

    /// The value of the key of `k`, to change in place, if any.
    pub fn get_mut(&mut self, k: &K) -> (res: Option<&mut V>)
        requires
            old(self).wf(),
        ensures
            res is Some == old(self).view().contains_key(k.key_view()),
            match res {
                Some(v) => {
                    &&& *v == old(self).view()[k.key_view()]
                    &&& final(self).wf()
                    &&& final(self).view() == old(self).view().insert(k.key_view(), *final(v))
                    &&& final(self).key_seq() == old(self).key_seq()
                },
                None => *final(self) == *old(self),
            },
    {
        match self.find(k) {
            Some(i) => {
                proof {
                    lemma_entry(self.entries@, i as int);
                }
                let entry = &mut self.entries[i];
                let r = &mut entry.1;
                proof {
                    lemma_update_value(old(self).entries@, i as int, *final(r));
                }
                Some(r)
            },
            None => None,
        }
    }

    /// Sets the value of the key of `k` to `v`; returns the value it had.
    pub fn insert(&mut self, k: K, v: V) -> (res: Option<V>)
        requires
            old(self).wf(),
        ensures
            final(self).wf(),
            final(self).view() == old(self).view().insert(k.key_view(), v),
            res is Some == old(self).view().contains_key(k.key_view()),
            res matches Some(o) ==> o == old(self).view()[k.key_view()],
            old(self).view().contains_key(k.key_view()) ==> final(self).key_seq() == old(
                self,
            ).key_seq(),
            !old(self).view().contains_key(k.key_view()) ==> final(self).key_seq() == old(
                self,
            ).key_seq().push(k.key_view()),
    {
        match self.find(&k) {
            Some(i) => {
                proof {
                    lemma_entry(old(self).entries@, i as int);
                    lemma_update_value(old(self).entries@, i as int, v);
                }
                let (old_k, old_v) = self.entries.remove(i);
                self.entries.insert(i, (old_k, v));
                proof {
                    assert(self.entries@ =~= old(self).entries@.update(i as int, (old_k, v)));
                }
                Some(old_v)
            },
            None => {
                proof {
                    lemma_push(old(self).entries@, k, v);
                }
                self.entries.push((k, v));
                None
            },
        }
    }

    /// Copies of the keys, in the order in which they were first inserted.
    pub fn keys(&self) -> (res: Vec<K>)
        requires
            self.wf(),
        ensures
            res@.len() == self.key_seq().len(),
            forall|i: int| 0 <= i < res@.len() ==> #[trigger] res@[i].key_view() == self.key_seq()[i],
    {
        let mut out: Vec<K> = Vec::new();
        let mut i: usize = 0;
        while i < self.entries.len()
            invariant
                i <= self.entries@.len(),
                out@.len() == i,
                forall|j: int| 0 <= j < i ==> #[trigger] out@[j].key_view() == entry_key(self.entries@, j),
            decreases self.entries@.len() - i,
        {
            out.push(self.entries[i].0.copy_key());
            i = i + 1;
        }
        out
    }
}

} // verus!
