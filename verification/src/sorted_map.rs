//! A map from strings to values, kept as a vector of entries in strictly
//! increasing key order. It stands where an ordered map keyed by host
//! names is needed: iteration yields the keys in lexicographic order and
//! the first entry holds the least key.

use vstd::prelude::*;

use crate::text::{
    compare_str, lemma_seq_lt_asymmetric, lemma_seq_lt_irreflexive, lemma_seq_lt_transitive,
    seq_lt, Order,
};

verus! {

/// Keys strictly increasing in `seq_lt` order (hence pairwise distinct).
pub open spec fn keys_increasing<W>(l: Seq<(Seq<char>, W)>) -> bool {
    forall|i: int, j: int| 0 <= i < j < l.len() ==> seq_lt(#[trigger] l[i].0, #[trigger] l[j].0)
}

/// Whether `k` is the key of some entry of `l`.
pub open spec fn listing_has_key<W>(l: Seq<(Seq<char>, W)>, k: Seq<char>) -> bool {
    exists|i: int| 0 <= i < l.len() && #[trigger] l[i].0 == k
}

/// An index of an entry of `l` with key `k`, if there is one.
pub open spec fn listing_index<W>(l: Seq<(Seq<char>, W)>, k: Seq<char>) -> int {
    choose|i: int| 0 <= i < l.len() && #[trigger] l[i].0 == k
}

/// The map whose entries are those of the listing `l`.
pub open spec fn listing_map<W>(l: Seq<(Seq<char>, W)>) -> Map<Seq<char>, W> {
    Map::new(
        |k: Seq<char>| listing_has_key(l, k),
        |k: Seq<char>| l[listing_index(l, k)].1,
    )
}

/// `l` lists the entries of `m` in increasing key order.
pub open spec fn is_sorted_listing<W>(l: Seq<(Seq<char>, W)>, m: Map<Seq<char>, W>) -> bool {
    keys_increasing(l) && listing_map(l) == m
}

/// The least key of `m` in `seq_lt` order.
pub open spec fn least_key<W>(m: Map<Seq<char>, W>) -> Seq<char> {
    choose|k: Seq<char>|
        m.dom().contains(k) && forall|q: Seq<char>| #[trigger]
            m.dom().contains(q) && q != k ==> seq_lt(k, q)
}

/// The least key of `m`, or `None` when `m` is empty.
pub open spec fn least_key_opt<W>(m: Map<Seq<char>, W>) -> Option<Seq<char>> {
    if m.dom().is_empty() {
        None
    } else {
        Some(least_key(m))
    }
}

pub proof fn lemma_listing_entry<W>(l: Seq<(Seq<char>, W)>, i: int)
    requires
        keys_increasing(l),
        0 <= i < l.len(),
    ensures
        listing_map(l).dom().contains(l[i].0),
        listing_map(l)[l[i].0] == l[i].1,
{
    let k = l[i].0;
    assert(listing_has_key(l, k));
    let j = listing_index(l, k);
    if j < i {
        assert(seq_lt(l[j].0, l[i].0));
        lemma_seq_lt_irreflexive(k);
    } else if i < j {
        assert(seq_lt(l[i].0, l[j].0));
        lemma_seq_lt_irreflexive(k);
    }
    assert(j == i);
    assert(listing_map(l)[k] == l[j].1);
}

/// In an increasing listing, the first key is the least key of its map.
pub proof fn lemma_first_is_least<W>(l: Seq<(Seq<char>, W)>)
    requires
        keys_increasing(l),
        l.len() > 0,
    ensures
        !listing_map(l).dom().is_empty(),
        least_key(listing_map(l)) == l[0].0,
        least_key_opt(listing_map(l)) == Some(l[0].0),
{
    let m = listing_map(l);
    lemma_listing_entry(l, 0);
    assert(m.dom().contains(l[0].0));
    assert forall|q: Seq<char>| #[trigger] m.dom().contains(q) && q != l[0].0 implies seq_lt(
        l[0].0,
        q,
    ) by {
        let j = listing_index(l, q);
        assert(j != 0);
    }
    let k = least_key(m);
    assert(m.dom().contains(k) && forall|q: Seq<char>| #[trigger]
        m.dom().contains(q) && q != k ==> seq_lt(k, q));
    if k != l[0].0 {
        assert(seq_lt(k, l[0].0));
        assert(seq_lt(l[0].0, k));
        lemma_seq_lt_asymmetric(k, l[0].0);
    }
}

pub proof fn lemma_empty_listing<W>(l: Seq<(Seq<char>, W)>)
    requires
        l.len() == 0,
    ensures
        listing_map(l) == Map::<Seq<char>, W>::empty(),
        listing_map(l).dom().is_empty(),
{
    assert(listing_map(l) =~= Map::<Seq<char>, W>::empty());
}

pub proof fn lemma_listing_update<W>(l: Seq<(Seq<char>, W)>, i: int, v: W)
    requires
        keys_increasing(l),
        0 <= i < l.len(),
    ensures
        keys_increasing(l.update(i, (l[i].0, v))),
        listing_map(l.update(i, (l[i].0, v))) == listing_map(l).insert(l[i].0, v),
{
    let l2 = l.update(i, (l[i].0, v));
    let k = l[i].0;
    assert(keys_increasing(l2)) by {
        assert forall|a: int, b: int| 0 <= a < b < l2.len() implies seq_lt(
            #[trigger] l2[a].0,
            #[trigger] l2[b].0,
        ) by {
            assert(l2[a].0 == l[a].0);
            assert(l2[b].0 == l[b].0);
        }
    }
    let m = listing_map(l);
    let m2 = listing_map(l2);
    assert forall|q: Seq<char>| #[trigger] m2.dom().contains(q) <==> m.insert(k, v).dom().contains(
        q,
    ) by {
        if m2.dom().contains(q) {
            let j = listing_index(l2, q);
            assert(l[j].0 == q);
            assert(listing_has_key(l, q));
        }
        if m.dom().contains(q) {
            let j = listing_index(l, q);
            assert(l2[j].0 == q);
            assert(listing_has_key(l2, q));
        }
        if q == k {
            assert(l2[i].0 == q);
            assert(listing_has_key(l2, q));
        }
    }
    assert forall|q: Seq<char>| #[trigger] m2.dom().contains(q) implies m2[q] == m.insert(k, v)[q] by {
        let j = listing_index(l2, q);
        lemma_listing_entry(l2, j);
        if j != i {
            lemma_listing_entry(l, j);
            assert(l2[j] == l[j]);
            lemma_seq_lt_irreflexive(k);
            if j < i {
                assert(seq_lt(l[j].0, l[i].0));
            } else {
                assert(seq_lt(l[i].0, l[j].0));
            }
        } else {
            assert(l2[i].0 == k);
        }
    }
    assert(m2 =~= m.insert(k, v));
}

pub proof fn lemma_listing_insert<W>(l: Seq<(Seq<char>, W)>, p: int, k: Seq<char>, v: W)
    requires
        keys_increasing(l),
        0 <= p <= l.len(),
        forall|j: int| 0 <= j < p ==> seq_lt(#[trigger] l[j].0, k),
        forall|j: int| p <= j < l.len() ==> seq_lt(k, #[trigger] l[j].0),
    ensures
        keys_increasing(l.insert(p, (k, v))),
        listing_map(l.insert(p, (k, v))) == listing_map(l).insert(k, v),
        !listing_map(l).dom().contains(k),
{
    let l2 = l.insert(p, (k, v));
    assert(keys_increasing(l2)) by {
        assert forall|a: int, b: int| 0 <= a < b < l2.len() implies seq_lt(
            #[trigger] l2[a].0,
            #[trigger] l2[b].0,
        ) by {
            if b < p {
                assert(l2[a] == l[a] && l2[b] == l[b]);
            } else if b == p {
                assert(l2[a] == l[a]);
            } else if a < p {
                assert(l2[a] == l[a] && l2[b] == l[b - 1]);
                lemma_seq_lt_transitive(l[a].0, k, l[b - 1].0);
            } else if a == p {
                assert(l2[b] == l[b - 1]);
            } else {
                assert(l2[a] == l[a - 1] && l2[b] == l[b - 1]);
            }
        }
    }
    let m = listing_map(l);
    let m2 = listing_map(l2);
    if m.dom().contains(k) {
        let j = listing_index(l, k);
        lemma_seq_lt_irreflexive(k);
        if j < p {
            assert(seq_lt(l[j].0, k));
        } else {
            assert(seq_lt(k, l[j].0));
        }
    }
    assert forall|q: Seq<char>| #[trigger] m2.dom().contains(q) <==> m.insert(k, v).dom().contains(
        q,
    ) by {
        if m2.dom().contains(q) {
            let j = listing_index(l2, q);
            if j < p {
                assert(l[j].0 == q);
                assert(listing_has_key(l, q));
            } else if j > p {
                assert(l[j - 1].0 == q);
                assert(listing_has_key(l, q));
            }
        }
        if m.dom().contains(q) {
            let j = listing_index(l, q);
            if j < p {
                assert(l2[j].0 == q);
                assert(listing_has_key(l2, q));
            } else {
                assert(l2[j + 1].0 == q);
                assert(listing_has_key(l2, q));
            }
        }
        if q == k {
            assert(l2[p].0 == q);
            assert(listing_has_key(l2, q));
        }
    }
    assert forall|q: Seq<char>| #[trigger] m2.dom().contains(q) implies m2[q] == m.insert(k, v)[q] by {
        let j = listing_index(l2, q);
        lemma_listing_entry(l2, j);
        if j < p {
            lemma_listing_entry(l, j);
            assert(l2[j] == l[j]);
            if q == k {
                lemma_seq_lt_irreflexive(k);
            }
        } else if j > p {
            lemma_listing_entry(l, j - 1);
            assert(l2[j] == l[j - 1]);
            if q == k {
                lemma_seq_lt_irreflexive(k);
            }
        }
    }
    assert(m2 =~= m.insert(k, v));
}

pub proof fn lemma_listing_remove<W>(l: Seq<(Seq<char>, W)>, i: int)
    requires
        keys_increasing(l),
        0 <= i < l.len(),
    ensures
        keys_increasing(l.remove(i)),
        listing_map(l.remove(i)) == listing_map(l).remove(l[i].0),
{
    let l2 = l.remove(i);
    let k = l[i].0;
    assert(keys_increasing(l2)) by {
        assert forall|a: int, b: int| 0 <= a < b < l2.len() implies seq_lt(
            #[trigger] l2[a].0,
            #[trigger] l2[b].0,
        ) by {
            if b < i {
                assert(l2[a] == l[a] && l2[b] == l[b]);
            } else if a < i {
                assert(l2[a] == l[a] && l2[b] == l[b + 1]);
            } else {
                assert(l2[a] == l[a + 1] && l2[b] == l[b + 1]);
            }
        }
    }
    let m = listing_map(l);
    let m2 = listing_map(l2);
    assert forall|q: Seq<char>| #[trigger] m2.dom().contains(q) <==> m.remove(k).dom().contains(q) by {
        if m2.dom().contains(q) {
            let j = listing_index(l2, q);
            if j < i {
                assert(l[j].0 == q);
                assert(listing_has_key(l, q));
                lemma_seq_lt_irreflexive(q);
            } else {
                assert(l[j + 1].0 == q);
                assert(listing_has_key(l, q));
                lemma_seq_lt_irreflexive(q);
            }
        }
        if m.dom().contains(q) && q != k {
            let j = listing_index(l, q);
            if j < i {
                assert(l2[j].0 == q);
                assert(listing_has_key(l2, q));
            } else {
                assert(j != i);
                assert(l2[j - 1].0 == q);
                assert(listing_has_key(l2, q));
            }
        }
    }
    assert forall|q: Seq<char>| #[trigger] m2.dom().contains(q) implies m2[q] == m.remove(k)[q] by {
        let j = listing_index(l2, q);
        lemma_listing_entry(l2, j);
        if j < i {
            lemma_listing_entry(l, j);
        } else {
            lemma_listing_entry(l, j + 1);
        }
    }
    assert(m2 =~= m.remove(k));
}

/// Two increasing listings of the same map are the same listing: the order
/// in which entries are listed is determined by the keys alone.
pub proof fn lemma_sorted_listing_unique<W>(l1: Seq<(Seq<char>, W)>, l2: Seq<(Seq<char>, W)>)
    requires
        keys_increasing(l1),
        keys_increasing(l2),
        listing_map(l1) == listing_map(l2),
    ensures
        l1 == l2,
    decreases l1.len(),
{
    if l1.len() == 0 {
        lemma_empty_listing(l1);
        if l2.len() > 0 {
            lemma_listing_entry(l2, 0);
        }
        assert(l1 =~= l2);
    } else {
        lemma_listing_entry(l1, 0);
        if l2.len() == 0 {
            lemma_empty_listing(l2);
        }
        lemma_first_is_least(l1);
        lemma_first_is_least(l2);
        lemma_listing_entry(l2, 0);
        lemma_listing_remove(l1, 0);
        lemma_listing_remove(l2, 0);
        lemma_sorted_listing_unique(l1.remove(0), l2.remove(0));
        assert(l1 =~= seq![l1[0]] + l1.remove(0));
        assert(l2 =~= seq![l2[0]] + l2.remove(0));
    }
}

/// A map from strings to values with entries in increasing key order.
#[derive(Debug)]
pub struct SortedMap<V: View> {
    entries: Vec<(String, V)>,
}

/// The view of one entry: its key's characters and its value's view.
pub open spec fn entry_view<V: View>(e: (String, V)) -> (Seq<char>, V::V) {
    (e.0@, e.1@)
}

/// The views of a sequence of entries.
pub open spec fn entries_view<V: View>(v: Seq<(String, V)>) -> Seq<(Seq<char>, V::V)> {
    v.map_values(|e: (String, V)| entry_view(e))
}

impl<V: View> SortedMap<V> {
    /// The entries, viewed, in increasing key order.
    pub closed spec fn listing(&self) -> Seq<(Seq<char>, V::V)> {
        entries_view(self.entries@)
    }

    #[verifier::type_invariant]
    closed spec fn sorted(&self) -> bool {
        keys_increasing(self.listing())
    }

    /// An empty map.
    pub fn new() -> (r: Self)
        ensures
            r@ == Map::<Seq<char>, V::V>::empty(),
            r.listing() == Seq::<(Seq<char>, V::V)>::empty(),
    {
        let r = SortedMap { entries: Vec::new() };
        assert(r.listing() =~= Seq::<(Seq<char>, V::V)>::empty());
        proof {
            lemma_empty_listing(r.listing());
        }
        r
    }

    /// The number of entries.
    pub fn len(&self) -> (r: usize)
        ensures
            r == self.listing().len(),
            r == self@.dom().len(),
    {
        proof {
            use_type_invariant(self);
            lemma_listing_dom_len(self.listing());
        }
        self.entries.len()
    }

    /// Position of `k`: `(true, i)` when the entry `i` has key `k`, else
    /// `(false, p)` with `p` the position where `k` would be inserted.
    fn find(&self, k: &str) -> (r: (bool, usize))
        ensures
            r.1 <= self.listing().len(),
            r.0 ==> r.1 < self.listing().len() && self.listing()[r.1 as int].0 == k@,
            !r.0 ==> forall|j: int| 0 <= j < r.1 ==> seq_lt(#[trigger] self.listing()[j].0, k@),
            !r.0 ==> forall|j: int|
                r.1 <= j < self.listing().len() ==> seq_lt(k@, #[trigger] self.listing()[j].0),
    {
        proof {
            use_type_invariant(self);
        }
        let ghost l = self.listing();
        let n = self.entries.len();
        let mut i: usize = 0;
        while i < n
            invariant
                i <= n == self.entries@.len() == l.len(),
                l == self.listing(),
                keys_increasing(l),
                forall|j: int| 0 <= j < i ==> seq_lt(#[trigger] l[j].0, k@),
            decreases n - i,
        {
            assert(l[i as int].0 == self.entries@[i as int].0@);
            match compare_str(self.entries[i].0.as_str(), k) {
                Order::Less => {},
                Order::Equal => {
                    return (true, i);
                },
                Order::Greater => {
                    assert forall|j: int| i <= j < l.len() implies seq_lt(k@, #[trigger] l[j].0) by {
                        if j > i {
                            lemma_seq_lt_transitive(k@, l[i as int].0, l[j].0);
                        }
                    }
                    return (false, i);
                },
            }
            i = i + 1;
        }
        (false, i)
    }

    /// The value stored under `k`, if any.
    pub fn get(&self, k: &str) -> (r: Option<&V>)
        ensures
            match r {
                Some(v) => self@.dom().contains(k@) && v@ == self@[k@],
                None => !self@.dom().contains(k@),
            },
    {
        proof {
            use_type_invariant(self);
        }
        let (found, i) = self.find(k);
        if found {
            proof {
                lemma_listing_entry(self.listing(), i as int);
            }
            Some(&self.entries[i].1)
        } else {
            proof {
                self.lemma_absent(k@, i as int);
            }
            None
        }
    }

    proof fn lemma_absent(&self, k: Seq<char>, p: int)
        requires
            keys_increasing(self.listing()),
            0 <= p <= self.listing().len(),
            forall|j: int| 0 <= j < p ==> seq_lt(#[trigger] self.listing()[j].0, k),
            forall|j: int| p <= j < self.listing().len() ==> seq_lt(k, #[trigger] self.listing()[j].0),
        ensures
            !self@.dom().contains(k),
    {
        let l = self.listing();
        if self@.dom().contains(k) {
            let j = listing_index(l, k);
            lemma_seq_lt_irreflexive(k);
            if j < p {
                assert(seq_lt(l[j].0, k));
            } else {
                assert(seq_lt(k, l[j].0));
            }
        }
    }

    /// Whether some entry has key `k`.
    pub fn contains_key(&self, k: &str) -> (r: bool)
        ensures
            r == self@.dom().contains(k@),
    {
        match self.get(k) {
            Some(_) => true,
            None => false,
        }
    }

    /// Stores `v` under `k`, replacing any value already there.
    pub fn insert(&mut self, k: String, v: V)
        ensures
            final(self)@ == old(self)@.insert(k@, v@),
    {
        proof {
            use_type_invariant(&*self);
        }
        let (found, i) = self.find(k.as_str());
        let ghost l = self.listing();
        if found {
            proof {
                lemma_listing_update(l, i as int, v@);
            }
            let mut entries: Vec<(String, V)> = Vec::new();
            std::mem::swap(&mut entries, &mut self.entries);
            entries.set(i, (k, v));
            assert(entries_view(entries@) =~= l.update(i as int, (l[i as int].0, v@)));
            self.entries = entries;
        } else {
            proof {
                lemma_listing_insert(l, i as int, k@, v@);
            }
            let ghost kv = k@;
            let mut entries: Vec<(String, V)> = Vec::new();
            std::mem::swap(&mut entries, &mut self.entries);
            entries.insert(i, (k, v));
            assert(entries_view(entries@) =~= l.insert(i as int, (kv, v@)));
            self.entries = entries;
        }
    }

    /// Removes the entry with key `k`, returning its value.
    pub fn remove(&mut self, k: &str) -> (r: Option<V>)
        ensures
            final(self)@ == old(self)@.remove(k@),
            match r {
                Some(v) => old(self)@.dom().contains(k@) && v@ == old(self)@[k@],
                None => !old(self)@.dom().contains(k@),
            },
    {
        proof {
            use_type_invariant(&*self);
        }
        let (found, i) = self.find(k);
        let ghost l = self.listing();
        if found {
            proof {
                lemma_listing_entry(l, i as int);
                lemma_listing_remove(l, i as int);
            }
            let mut entries: Vec<(String, V)> = Vec::new();
            std::mem::swap(&mut entries, &mut self.entries);
            let e = entries.remove(i);
            assert(entries_view(entries@) =~= l.remove(i as int));
            self.entries = entries;
            Some(e.1)
        } else {
            proof {
                self.lemma_absent(k@, i as int);
                assert(old(self)@.remove(k@) =~= old(self)@);
            }
            None
        }
    }

    /// The least key, or `None` when the map is empty.
    pub fn first_key(&self) -> (r: Option<&String>)
        ensures
            match r {
                Some(s) => least_key_opt(self@) == Some(s@),
                None => least_key_opt(self@) == None::<Seq<char>>,
            },
    {
        proof {
            use_type_invariant(self);
        }
        if self.entries.len() == 0 {
            proof {
                lemma_empty_listing(self.listing());
            }
            None
        } else {
            proof {
                lemma_first_is_least(self.listing());
            }
            Some(&self.entries[0].0)
        }
    }

    /// The entries in increasing key order.
    pub fn entries(&self) -> (r: &Vec<(String, V)>)
        ensures
            entries_view(r@) == self.listing(),
            is_sorted_listing(self.listing(), self@),
    {
        proof {
            use_type_invariant(self);
        }
        &self.entries
    }
}

impl<V: View> View for SortedMap<V> {
    type V = Map<Seq<char>, V::V>;

    closed spec fn view(&self) -> Map<Seq<char>, V::V> {
        listing_map(self.listing())
    }
}

pub proof fn lemma_listing_dom_len<W>(l: Seq<(Seq<char>, W)>)
    requires
        keys_increasing(l),
    ensures
        listing_map(l).dom().finite(),
        listing_map(l).dom().len() == l.len(),
    decreases l.len(),
{
    if l.len() == 0 {
        lemma_empty_listing(l);
    } else {
        lemma_listing_remove(l, 0);
        lemma_listing_dom_len(l.remove(0));
        lemma_listing_entry(l, 0);
        let m = listing_map(l);
        assert(m.dom() =~= m.remove(l[0].0).dom().insert(l[0].0));
    }
}

} // verus!
