//! A finite map keyed by strings, kept as a vector of distinct keys in
//! insertion order. Its model is a `Map` from the keys' characters to values.

use vstd::prelude::*;

verus! {

/// The map that a list of pairs denotes: later pairs win over earlier ones.
pub open spec fn pairs_map<V>(s: Seq<(String, V)>) -> Map<Seq<char>, V>
    decreases s.len(),
{
    if s.len() == 0 {
        Map::empty()
    } else {
        pairs_map(s.drop_last()).insert(s.last().0@, s.last().1)
    }
}

/// No two pairs share a key.
pub open spec fn keys_distinct<V>(s: Seq<(String, V)>) -> bool {
    forall|i: int, j: int| 0 <= i < s.len() && 0 <= j < s.len() && i != j ==> s[i].0@ != s[j].0@
}

proof fn lemma_pairs_map_dom<V>(s: Seq<(String, V)>, k: Seq<char>)
    ensures
        pairs_map(s).dom().contains(k) <==> exists|i: int| 0 <= i < s.len() && s[i].0@ == k,
    decreases s.len(),
{
    if s.len() > 0 {
        lemma_pairs_map_dom(s.drop_last(), k);
        if pairs_map(s).dom().contains(k) && s.last().0@ != k {
            let i = choose|i: int| 0 <= i < s.drop_last().len() && s.drop_last()[i].0@ == k;
            assert(s[i].0@ == k);
        }
        if exists|i: int| 0 <= i < s.len() && s[i].0@ == k {
            let i = choose|i: int| 0 <= i < s.len() && s[i].0@ == k;
            if i < s.len() - 1 {
                assert(s.drop_last()[i].0@ == k);
            }
        }
    }
}

proof fn lemma_pairs_map_finite<V>(s: Seq<(String, V)>)
    ensures
        pairs_map(s).dom().finite(),
        pairs_map(s).dom().len() <= s.len(),
    decreases s.len(),
{
    if s.len() > 0 {
        lemma_pairs_map_finite(s.drop_last());
    }
}

proof fn lemma_pairs_map_at<V>(s: Seq<(String, V)>, i: int)
    requires
        keys_distinct(s),
        0 <= i < s.len(),
    ensures
        pairs_map(s).dom().contains(s[i].0@),
        pairs_map(s)[s[i].0@] == s[i].1,
    decreases s.len(),
{
    if i < s.len() - 1 {
        lemma_pairs_map_at(s.drop_last(), i);
        assert(s.drop_last()[i] == s[i]);
        assert(s.last().0@ != s[i].0@);
    }
}

proof fn lemma_pairs_map_len<V>(s: Seq<(String, V)>)
    requires
        keys_distinct(s),
    ensures
        pairs_map(s).dom().finite(),
        pairs_map(s).dom().len() == s.len(),
    decreases s.len(),
{
    lemma_pairs_map_finite(s);
    if s.len() > 0 {
        let t = s.drop_last();
        assert(keys_distinct(t)) by {
            assert forall|i: int, j: int| 0 <= i < t.len() && 0 <= j < t.len() && i != j implies t[i].0@
                != t[j].0@ by {
                assert(t[i] == s[i] && t[j] == s[j]);
            }
        }
        lemma_pairs_map_len(t);
        lemma_pairs_map_dom(t, s.last().0@);
        if pairs_map(t).dom().contains(s.last().0@) {
            let i = choose|i: int| 0 <= i < t.len() && t[i].0@ == s.last().0@;
            assert(t[i] == s[i]);
        }
    }
}

proof fn lemma_pairs_map_update<V>(s: Seq<(String, V)>, i: int, v: V)
    requires
        0 <= i < s.len(),
        keys_distinct(s),
    ensures
        pairs_map(s.update(i, (s[i].0, v))) == pairs_map(s).insert(s[i].0@, v),
    decreases s.len(),
{
    let u = s.update(i, (s[i].0, v));
    if i == s.len() - 1 {
        assert(u.drop_last() =~= s.drop_last());
        assert(pairs_map(u) =~= pairs_map(s).insert(s[i].0@, v));
    } else {
        let t = s.drop_last();
        assert(keys_distinct(t)) by {
            assert forall|a: int, b: int| 0 <= a < t.len() && 0 <= b < t.len() && a != b implies t[a].0@
                != t[b].0@ by {
                assert(t[a] == s[a] && t[b] == s[b]);
            }
        }
        assert(t[i] == s[i]);
        lemma_pairs_map_update(t, i, v);
        assert(u.drop_last() =~= t.update(i, (s[i].0, v)));
        assert(s.last().0@ != s[i].0@);
        assert(pairs_map(u) =~= pairs_map(s).insert(s[i].0@, v));
    }
}

proof fn lemma_pairs_map_remove<V>(s: Seq<(String, V)>, i: int)
    requires
        0 <= i < s.len(),
        keys_distinct(s),
    ensures
        pairs_map(s.remove(i)) == pairs_map(s).remove(s[i].0@),
        keys_distinct(s.remove(i)),
    decreases s.len(),
{
    let r = s.remove(i);
    assert(keys_distinct(r)) by {
        assert forall|a: int, b: int| 0 <= a < r.len() && 0 <= b < r.len() && a != b implies r[a].0@
            != r[b].0@ by {
            let sa = if a < i { a } else { a + 1 };
            let sb = if b < i { b } else { b + 1 };
            assert(r[a] == s[sa] && r[b] == s[sb]);
        }
    }
    let t = s.drop_last();
    assert(keys_distinct(t)) by {
        assert forall|a: int, b: int| 0 <= a < t.len() && 0 <= b < t.len() && a != b implies t[a].0@
            != t[b].0@ by {
            assert(t[a] == s[a] && t[b] == s[b]);
        }
    }
    if i == s.len() - 1 {
        assert(r =~= t);
        lemma_pairs_map_dom(t, s[i].0@);
        if pairs_map(t).dom().contains(s[i].0@) {
            let j = choose|j: int| 0 <= j < t.len() && t[j].0@ == s[i].0@;
            assert(t[j] == s[j]);
        }
        assert(pairs_map(r) =~= pairs_map(s).remove(s[i].0@));
    } else {
        lemma_pairs_map_remove(t, i);
        assert(r.drop_last() =~= t.remove(i));
        assert(r.last() == s.last());
        assert(s.last().0@ != s[i].0@);
        assert(pairs_map(r) =~= pairs_map(s).remove(s[i].0@));
    }
}

/// A map from strings to values. Keys are compared by their characters.
#[derive(Debug)]
pub struct StrMap<V> {
    entries: Vec<(String, V)>,
}

impl<V> View for StrMap<V> {
    type V = Map<Seq<char>, V>;

    closed spec fn view(&self) -> Map<Seq<char>, V> {
        pairs_map(self.entries@)
    }
}

impl<V> StrMap<V> {
    #[verifier::type_invariant]
    spec fn distinct_keys(self) -> bool {
        keys_distinct(self.entries@)
    }

    /// Every map's domain is finite.
    pub proof fn lemma_finite(&self)
        ensures
            self@.dom().finite(),
    {
        lemma_pairs_map_finite(self.entries@);
    }

    /// The empty map.
    pub fn new() -> (m: Self)
        ensures
            m@ == Map::<Seq<char>, V>::empty(),
    {
        StrMap { entries: Vec::new() }
    }

    /// The number of keys.
    pub fn len(&self) -> (n: usize)
        ensures
            self@.dom().finite(),
            n == self@.dom().len(),
    {
        proof {
            use_type_invariant(self);
            lemma_pairs_map_len(self.entries@);
        }
        self.entries.len()
    }

    /// The position of `key` among the entries, if present.
    fn find(&self, key: &String) -> (r: Option<usize>)
        ensures
            match r {
                Some(i) => i < self.entries@.len() && self.entries@[i as int].0@ == key@,
                None => !self@.dom().contains(key@),
            },
    {
        let n = self.entries.len();
        let mut i: usize = 0;
        while i < n
            invariant
                n == self.entries@.len(),
                i <= n,
                forall|j: int| 0 <= j < i ==> self.entries@[j].0@ != key@,
            decreases n - i,
        {
            if self.entries[i].0 == *key {
                return Some(i);
            }
            i = i + 1;
        }
        proof {
            lemma_pairs_map_dom(self.entries@, key@);
        }
        None
    }

    /// Whether `key` is present.
    pub fn contains_key(&self, key: &String) -> (b: bool)
        ensures
            b == self@.dom().contains(key@),
    {
        proof {
            use_type_invariant(self);
        }
        match self.find(key) {
            Some(i) => {
                proof {
                    lemma_pairs_map_at(self.entries@, i as int);
                }
                true
            },
            None => false,
        }
    }

    /// The value stored under `key`, if any.
    pub fn get(&self, key: &String) -> (r: Option<&V>)
        ensures
            match r {
                Some(v) => self@.dom().contains(key@) && *v == self@[key@],
                None => !self@.dom().contains(key@),
            },
    {
        proof {
            use_type_invariant(self);
        }
        match self.find(key) {
            Some(i) => {
                proof {
                    lemma_pairs_map_at(self.entries@, i as int);
                }
                Some(&self.entries[i].1)
            },
            None => None,
        }
    }

    /// Stores `value` under `key`, replacing what was there.
    pub fn insert(&mut self, key: String, value: V)
        ensures
            final(self)@ == old(self)@.insert(key@, value),
    {
        proof {
            use_type_invariant(&*self);
        }
        let found = self.find(&key);
        let ghost s = self.entries@;
        let mut entries: Vec<(String, V)> = Vec::new();
        std::mem::swap(&mut entries, &mut self.entries);
        assert(entries@ == s);
        match found {
            Some(i) => {
                proof {
                    lemma_pairs_map_update(s, i as int, value);
                }
                let old_key = entries.remove(i);
                assert(entries@ == s.remove(i as int));
                proof {
                    lemma_pairs_map_remove(s, i as int);
                }
                entries.insert(i, (old_key.0, value));
                assert(entries@ =~= s.update(i as int, (s[i as int].0, value)));
                assert(keys_distinct(entries@)) by {
                    assert forall|a: int, b: int|
                        0 <= a < entries@.len() && 0 <= b < entries@.len() && a != b implies entries@[a].0@
                        != entries@[b].0@ by {
                        assert(s[a].0@ == entries@[a].0@ && s[b].0@ == entries@[b].0@);
                    }
                }
            },
            None => {
                proof {
                    lemma_pairs_map_dom(s, key@);
                }
                entries.push((key, value));
                assert(entries@.drop_last() =~= s);
            },
        }
        self.entries = entries;
    }

    /// Removes `key` and hands back its value, if it was present.
    pub fn remove(&mut self, key: &String) -> (r: Option<V>)
        ensures
            final(self)@ == old(self)@.remove(key@),
            match r {
                Some(v) => old(self)@.dom().contains(key@) && v == old(self)@[key@],
                None => !old(self)@.dom().contains(key@),
            },
    {
        proof {
            use_type_invariant(&*self);
        }
        match self.find(key) {
            Some(i) => {
                let ghost s = self.entries@;
                proof {
                    lemma_pairs_map_at(s, i as int);
                    lemma_pairs_map_remove(s, i as int);
                }
                let mut entries: Vec<(String, V)> = Vec::new();
                std::mem::swap(&mut entries, &mut self.entries);
                let (_, v) = entries.remove(i);
                self.entries = entries;
                Some(v)
            },
            None => {
                assert(old(self)@.remove(key@) =~= old(self)@);
                None
            },
        }
    }

    /// The entries, in insertion order.
    pub fn entries(&self) -> (r: &Vec<(String, V)>)
        ensures
            pairs_map(r@) == self@,
            keys_distinct(r@),
    {
        proof {
            use_type_invariant(self);
        }
        &self.entries
    }
}

impl<V: Copy> StrMap<V> {
    /// A copy of the map.
    pub fn copy_map(&self) -> (m: Self)
        ensures
            m@ == self@,
    {
        proof {
            use_type_invariant(self);
        }
        let n = self.entries.len();
        let mut out: Vec<(String, V)> = Vec::new();
        let mut i: usize = 0;
        while i < n
            invariant
                n == self.entries@.len(),
                i <= n,
                out@.len() == i,
                forall|j: int| 0 <= j < i ==> out@[j].0@ == self.entries@[j].0@ && out@[j].1
                    == self.entries@[j].1,
            decreases n - i,
        {
            let k = self.entries[i].0.clone();
            let v = self.entries[i].1;
            out.push((k, v));
            i = i + 1;
        }
        proof {
            lemma_pairs_map_same_keys(out@, self.entries@);
        }
        StrMap { entries: out }
    }
}

impl<V: Clone> Clone for StrMap<V> {
    /// A map with the same keys, each holding a clone of its value.
    fn clone(&self) -> (m: Self)
        ensures
            m@.dom() == self@.dom(),
            forall|k: Seq<char>| #[trigger] m@.dom().contains(k) ==> cloned::<V>(self@[k], m@[k]),
    {
        proof {
            use_type_invariant(self);
        }
        let n = self.entries.len();
        let mut out: Vec<(String, V)> = Vec::new();
        let mut i: usize = 0;
        while i < n
            invariant
                n == self.entries@.len(),
                i <= n,
                out@.len() == i,
                forall|j: int| 0 <= j < i ==> (#[trigger] out@[j]).0@ == self.entries@[j].0@,
                forall|j: int| 0 <= j < i ==> cloned::<V>(self.entries@[j].1, (#[trigger] out@[j]).1),
            decreases n - i,
        {
            let k = self.entries[i].0.clone();
            let v = self.entries[i].1.clone();
            out.push((k, v));
            i = i + 1;
        }
        proof {
            lemma_pairs_map_same_domain(out@, self.entries@);
            assert forall|k: Seq<char>| #[trigger] pairs_map(out@).dom().contains(k) implies cloned::<V>(
                pairs_map(self.entries@)[k],
                pairs_map(out@)[k],
            ) by {
                lemma_pairs_map_dom(out@, k);
                let j = choose|j: int| 0 <= j < out@.len() && out@[j].0@ == k;
                lemma_pairs_map_at(out@, j);
                lemma_pairs_map_at(self.entries@, j);
                assert(cloned::<V>(self.entries@[j].1, out@[j].1));
            }
        }
        StrMap { entries: out }
    }
}

proof fn lemma_pairs_map_same_domain<V>(a: Seq<(String, V)>, b: Seq<(String, V)>)
    requires
        a.len() == b.len(),
        forall|j: int| 0 <= j < a.len() ==> (#[trigger] a[j]).0@ == b[j].0@,
    ensures
        pairs_map(a).dom() == pairs_map(b).dom(),
        keys_distinct(b) ==> keys_distinct(a),
    decreases a.len(),
{
    if a.len() > 0 {
        lemma_pairs_map_same_domain(a.drop_last(), b.drop_last());
        assert(pairs_map(a).dom() =~= pairs_map(b).dom());
    }
}

proof fn lemma_pairs_map_same_keys<V>(a: Seq<(String, V)>, b: Seq<(String, V)>)
    requires
        a.len() == b.len(),
        forall|j: int| 0 <= j < a.len() ==> a[j].0@ == b[j].0@ && a[j].1 == b[j].1,
    ensures
        pairs_map(a) == pairs_map(b),
        keys_distinct(b) ==> keys_distinct(a),
    decreases a.len(),
{
    if a.len() > 0 {
        lemma_pairs_map_same_keys(a.drop_last(), b.drop_last());
    }
}

/// The keys whose value is `true`.
pub open spec fn true_keys(m: Map<Seq<char>, bool>) -> Set<Seq<char>> {
    m.dom().filter(|k: Seq<char>| m[k])
}

/// Number of `true` entries among the first `n` pairs.
spec fn count_true_prefix(s: Seq<(String, bool)>, n: int) -> nat
    decreases n,
{
    if n <= 0 {
        0
    } else {
        count_true_prefix(s, n - 1) + if s[n - 1].1 { 1nat } else { 0nat }
    }
}

proof fn lemma_count_true_prefix(s: Seq<(String, bool)>, n: int)
    requires
        keys_distinct(s),
        0 <= n <= s.len(),
    ensures
        true_keys(pairs_map(s.take(n))).finite(),
        count_true_prefix(s, n) == true_keys(pairs_map(s.take(n))).len(),
    decreases n,
{
    let t = s.take(n);
    assert(keys_distinct(t));
    lemma_pairs_map_finite(t);
    let m = pairs_map(t);
    if n == 0 {
        assert(true_keys(m) =~= Set::empty());
    } else {
        lemma_count_true_prefix(s, n - 1);
        let p = s.take(n - 1);
        assert(t.drop_last() =~= p);
        let mp = pairs_map(p);
        let k = s[n - 1].0@;
        lemma_pairs_map_dom(p, k);
        if mp.dom().contains(k) {
            let j = choose|j: int| 0 <= j < p.len() && p[j].0@ == k;
            assert(p[j] == s[j]);
        }
        assert(!mp.dom().contains(k));
        if s[n - 1].1 {
            assert(true_keys(m) =~= true_keys(mp).insert(k));
        } else {
            assert(true_keys(m) =~= true_keys(mp));
        }
    }
}

impl StrMap<bool> {
    /// How many keys map to `true`.
    pub fn count_true(&self) -> (n: usize)
        ensures
            true_keys(self@).finite(),
            n == true_keys(self@).len(),
    {
        proof {
            use_type_invariant(self);
        }
        let len = self.entries.len();
        let mut count: usize = 0;
        let mut i: usize = 0;
        while i < len
            invariant
                len == self.entries@.len(),
                i <= len,
                count == count_true_prefix(self.entries@, i as int),
                count <= i,
            decreases len - i,
        {
            if self.entries[i].1 {
                count = count + 1;
            }
            i = i + 1;
        }
        proof {
            lemma_count_true_prefix(self.entries@, len as int);
            assert(self.entries@.take(len as int) =~= self.entries@);
        }
        count
    }

    /// Whether every key maps to `true`.
    pub fn all_true(&self) -> (b: bool)
        ensures
            b == (forall|k: Seq<char>| self@.dom().contains(k) ==> #[trigger] self@[k]),
    {
        proof {
            use_type_invariant(self);
        }
        let len = self.entries.len();
        let mut i: usize = 0;
        while i < len
            invariant
                len == self.entries@.len(),
                i <= len,
                keys_distinct(self.entries@),
                forall|j: int| 0 <= j < i ==> #[trigger] self.entries@[j].1,
            decreases len - i,
        {
            if !self.entries[i].1 {
                proof {
                    lemma_pairs_map_at(self.entries@, i as int);
                    assert(self@.dom().contains(self.entries@[i as int].0@));
                    assert(!self@[self.entries@[i as int].0@]);
                }
                return false;
            }
            i = i + 1;
        }
        proof {
            assert forall|k: Seq<char>| self@.dom().contains(k) implies #[trigger] self@[k] by {
                lemma_pairs_map_dom(self.entries@, k);
                let j = choose|j: int| 0 <= j < self.entries@.len() && self.entries@[j].0@ == k;
                lemma_pairs_map_at(self.entries@, j);
            }
        }
        true
    }
}

} // verus!
