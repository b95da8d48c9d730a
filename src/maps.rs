//! Maps from text keys to values, with unique keys, and their merge.
use vstd::prelude::*;

verus! {

/// The map that a list of entries denotes: a later entry wins over an earlier
/// one with the same key.
pub open spec fn entries_map<V>(s: Seq<(String, V)>) -> Map<Seq<char>, V>
    decreases s.len(),
{
    if s.len() == 0 {
        Map::empty()
    } else {
        entries_map(s.drop_last()).insert(s.last().0@, s.last().1)
    }
}

/// No two entries share a key.
pub open spec fn keys_unique<V>(s: Seq<(String, V)>) -> bool {
    forall|i: int, j: int|
        0 <= i < s.len() && 0 <= j < s.len() && i != j ==> #[trigger] s[i].0@ != #[trigger] s[j].0@
}

proof fn lemma_entries_domain<V>(s: Seq<(String, V)>, k: Seq<char>)
    ensures
        entries_map(s).contains_key(k) <==> exists|i: int| 0 <= i < s.len() && #[trigger] s[i].0@ == k,
    decreases s.len(),
{
    if s.len() > 0 {
        lemma_entries_domain(s.drop_last(), k);
        if entries_map(s.drop_last()).contains_key(k) {
            let i = choose|i: int| 0 <= i < s.drop_last().len() && #[trigger] s.drop_last()[i].0@ == k;
            assert(s[i].0@ == k);
        }
        if exists|i: int| 0 <= i < s.len() && #[trigger] s[i].0@ == k {
            let i = choose|i: int| 0 <= i < s.len() && #[trigger] s[i].0@ == k;
            if i < s.len() - 1 {
                assert(s.drop_last()[i].0@ == k);
            }
        }
    }
}

proof fn lemma_entries_value<V>(s: Seq<(String, V)>, i: int)
    requires
        keys_unique(s),
        0 <= i < s.len(),
    ensures
        entries_map(s).contains_key(s[i].0@),
        entries_map(s)[s[i].0@] == s[i].1,
    decreases s.len(),
{
    lemma_entries_domain(s, s[i].0@);
    if i < s.len() - 1 {
        let t = s.drop_last();
        assert(keys_unique(t));
        lemma_entries_value(t, i);
        assert(t[i] == s[i]);
        assert(s[i].0@ != s[s.len() - 1].0@);
    }
}

/// A map from text keys to values, kept as a list of entries with unique keys.
#[derive(Debug)]
pub struct TextMap<V> {
    entries: Vec<(String, V)>,
}

impl<V> View for TextMap<V> {
    type V = Map<Seq<char>, V>;

    closed spec fn view(&self) -> Map<Seq<char>, V> {
        entries_map(self.entries@)
    }
}

impl<V> TextMap<V> {
    pub closed spec fn wf(&self) -> bool {
        keys_unique(self.entries@)
    }

    pub fn new() -> (r: TextMap<V>)
        ensures
            r.wf(),
            r@ == Map::<Seq<char>, V>::empty(),
    {
        TextMap { entries: Vec::new() }
    }

    /// The number of keys.
    pub fn len(&self) -> (r: usize)
        requires
            self.wf(),
        ensures
            r == self@.len(),
    {
        proof {
            self.lemma_len();
        }
        self.entries.len()
    }

    proof fn lemma_len(&self)
        requires
            self.wf(),
        ensures
            self@.dom().finite(),
            self@.len() == self.entries@.len(),
    {
        lemma_unique_len(self.entries@);
    }

    /// Index of the entry with key `key`, if there is one.
    fn find(&self, key: &String) -> (r: Option<usize>)
        requires
            self.wf(),
        ensures
            r is None ==> !self@.contains_key(key@),
            r matches Some(i) ==> i < self.entries@.len() && self.entries@[i as int].0@ == key@,
    {
        let mut i: usize = 0;
        while i < self.entries.len()
            invariant
                i <= self.entries@.len(),
                forall|j: int| 0 <= j < i ==> #[trigger] self.entries@[j].0@ != key@,
            decreases self.entries@.len() - i,
        {
            if self.entries[i].0 == *key {
                return Some(i);
            }
            i = i + 1;
        }
        proof {
            lemma_entries_domain(self.entries@, key@);
        }
        None
    }

    /// The value under `key`, if any.
    pub fn get(&self, key: &String) -> (r: Option<&V>)
        requires
            self.wf(),
        ensures
            r is None <==> !self@.contains_key(key@),
            r matches Some(v) ==> *v == self@[key@],
    {
        match self.find(key) {
            Some(i) => {
                proof {
                    lemma_entries_value(self.entries@, i as int);
                }
                Some(&self.entries[i].1)
            },
            None => None,
        }
    }

    /// Sets the value under `key`, replacing any value it had.
    pub fn insert(&mut self, key: String, value: V)
        requires
            old(self).wf(),
        ensures
            final(self).wf(),
            final(self)@ == old(self)@.insert(key@, value),
    {
        let ghost k = key@;
        match self.find(&key) {
            Some(i) => {
                let ghost s0 = self.entries@;
                self.entries.set(i, (key, value));
                proof {
                    let s1 = self.entries@;
                    assert(keys_unique(s1)) by {
                        assert forall|a: int, b: int|
                            0 <= a < s1.len() && 0 <= b < s1.len() && a != b implies #[trigger] s1[a].0@
                            != #[trigger] s1[b].0@ by {
                            assert(s0[a].0@ != s0[b].0@);
                        }
                    }
                    assert forall|kk: Seq<char>| #![auto]
                        entries_map(s1).contains_key(kk) == entries_map(s0).insert(k, value).contains_key(kk)
                        by {
                        lemma_entries_domain(s1, kk);
                        lemma_entries_domain(s0, kk);
                        if exists|j: int| 0 <= j < s0.len() && #[trigger] s0[j].0@ == kk {
                            let j = choose|j: int| 0 <= j < s0.len() && #[trigger] s0[j].0@ == kk;
                            assert(s1[j].0@ == kk);
                        }
                        if exists|j: int| 0 <= j < s1.len() && #[trigger] s1[j].0@ == kk {
                            let j = choose|j: int| 0 <= j < s1.len() && #[trigger] s1[j].0@ == kk;
                            assert(s0[j].0@ == kk);
                        }
                    }
                    assert forall|kk: Seq<char>| #[trigger] entries_map(s1).contains_key(kk) implies
                        entries_map(s1)[kk] == entries_map(s0).insert(k, value)[kk] by {
                        lemma_entries_domain(s1, kk);
                        let j = choose|j: int| 0 <= j < s1.len() && #[trigger] s1[j].0@ == kk;
                        lemma_entries_value(s1, j);
                        if j != i {
                            lemma_entries_value(s0, j);
                        }
                    }
                    assert(entries_map(s1) =~= entries_map(s0).insert(k, value));
                }
            },
            None => {
                let ghost s0 = self.entries@;
                self.entries.push((key, value));
                proof {
                    let s1 = self.entries@;
                    assert(s1.drop_last() =~= s0);
                    assert(keys_unique(s1)) by {
                        assert forall|a: int, b: int|
                            0 <= a < s1.len() && 0 <= b < s1.len() && a != b implies #[trigger] s1[a].0@
                            != #[trigger] s1[b].0@ by {
                            if a == s0.len() {
                                lemma_entries_domain(s0, k);
                                assert(s0[b].0@ == s1[b].0@);
                            } else if b == s0.len() {
                                lemma_entries_domain(s0, k);
                                assert(s0[a].0@ == s1[a].0@);
                            } else {
                                assert(s0[a].0@ != s0[b].0@);
                            }
                        }
                    }
                }
            },
        }
    }
}

impl<V> TextMap<V> {
    /// The entries, one per key, in no particular order.
    pub fn entries(&self) -> (r: &Vec<(String, V)>)
        requires
            self.wf(),
        ensures
            keys_unique(r@),
            entries_map(r@) == self@,
    {
        &self.entries
    }
}

impl TextMap<String> {
    /// Merges `over` into `base`: every key of either map is present, and where
    /// both hold a key the value of `over` is kept.
    pub fn combine(base: TextMap<String>, over: TextMap<String>) -> (r: TextMap<String>)
        requires
            base.wf(),
            over.wf(),
        ensures
            r.wf(),
            r@ == merged(base@, over@),
    {
        let ghost b = base@;
        let mut r = base;
        let mut i: usize = 0;
        assert(over.entries@.take(0) =~= Seq::<(String, String)>::empty());
        assert(b.union_prefer_right(Map::empty()) =~= b);
        while i < over.entries.len()
            invariant
                r.wf(),
                over.wf(),
                i <= over.entries@.len(),
                r@ == b.union_prefer_right(entries_map(over.entries@.take(i as int))),
            decreases over.entries@.len() - i,
        {
            let k = over.entries[i].0.clone();
            let v = over.entries[i].1.clone();
            r.insert(k, v);
            proof {
                let s = over.entries@;
                assert(s.take(i + 1).drop_last() =~= s.take(i as int));
                assert(s.take(i + 1).last() == s[i as int]);
                assert(r@ =~= b.union_prefer_right(entries_map(s.take(i + 1))));
            }
            i = i + 1;
        }
        assert(over.entries@.take(i as int) =~= over.entries@);
        r
    }
}

/// The merge of a map of defaults with a map of overrides.
pub open spec fn merged<V>(base: Map<Seq<char>, V>, over: Map<Seq<char>, V>) -> Map<Seq<char>, V> {
    base.union_prefer_right(over)
}

/// A merge keeps every key of both maps and no other; a key that the overrides
/// hold takes their value, and a key that only the defaults hold keeps its default.
pub proof fn lemma_merge_precedence<V>(base: Map<Seq<char>, V>, over: Map<Seq<char>, V>, k: Seq<char>)
    ensures
        merged(base, over).dom() == base.dom().union(over.dom()),
        over.contains_key(k) ==> merged(base, over)[k] == over[k],
        base.contains_key(k) && !over.contains_key(k) ==> merged(base, over)[k] == base[k],
{
    assert(merged(base, over).dom() =~= base.dom().union(over.dom()));
}

proof fn lemma_unique_len<V>(s: Seq<(String, V)>)
    requires
        keys_unique(s),
    ensures
        entries_map(s).dom().finite(),
        entries_map(s).len() == s.len(),
    decreases s.len(),
{
    if s.len() > 0 {
        let t = s.drop_last();
        assert(keys_unique(t));
        lemma_unique_len(t);
        lemma_entries_domain(t, s.last().0@);
        if entries_map(t).contains_key(s.last().0@) {
            let i = choose|i: int| 0 <= i < t.len() && #[trigger] t[i].0@ == s.last().0@;
            assert(s[i].0@ == s[s.len() - 1].0@);
        }
    }
}

} // verus!
