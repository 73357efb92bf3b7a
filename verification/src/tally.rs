use vstd::prelude::*;

use crate::usage::{
    add_usage, lemma_add_usage_associative, lemma_add_usage_commutative, lemma_add_usage_zero,
    zero_usage, Usage,
};
use vstd::set::fold::{is_fun_commutative, lemma_fold_empty, lemma_fold_insert};

verus! {

/// A key of a [`Tally`]: comparable and copyable by its view.
pub trait TallyKey: View + Sized {
    fn same_key(&self, other: &Self) -> (r: bool)
        ensures
            r == (self@ == other@),
    ;

    fn copy_key(&self) -> (r: Self)
        ensures
            r@ == self@,
    ;
}

impl TallyKey for String {
    fn same_key(&self, other: &Self) -> (r: bool) {
        *self == *other
    }

    fn copy_key(&self) -> (r: Self) {
        self.clone()
    }
}

/// No two entries have keys with the same view.
pub open spec fn distinct_keys<K: View>(s: Seq<(K, Usage)>) -> bool {
    forall|i: int, j: int| 0 <= i < s.len() && 0 <= j < s.len() && i != j ==> #[trigger] s[i].0@ != #[trigger] s[j].0@
}

/// The map that a sequence of entries stands for.
pub open spec fn entries_map<K: View>(s: Seq<(K, Usage)>) -> Map<K::V, Usage>
    decreases s.len(),
{
    if s.len() == 0 {
        Map::empty()
    } else {
        entries_map(s.drop_last()).insert(s.last().0@, s.last().1)
    }
}

/// `m` with `u` added to the usage under `k` (a missing key counts as zero).
pub open spec fn credited<V>(m: Map<V, Usage>, k: V, u: Usage) -> Map<V, Usage> {
    m.insert(k, add_usage(if m.contains_key(k) { m[k] } else { zero_usage() }, u))
}

/// The usage under `k`, zero where `k` is missing.
pub open spec fn usage_at<V>(m: Map<V, Usage>, k: V) -> Usage {
    if m.contains_key(k) {
        m[k]
    } else {
        zero_usage()
    }
}

/// Key-wise sum of two tallies.
pub open spec fn merged<V>(t: Map<V, Usage>, s: Map<V, Usage>) -> Map<V, Usage> {
    Map::new(
        |k: V| t.contains_key(k) || s.contains_key(k),
        |k: V| add_usage(usage_at(t, k), usage_at(s, k)),
    )
}

/// A prefix of distinct entries has distinct keys.
pub proof fn lemma_distinct_take<K: View>(s: Seq<(K, Usage)>, n: int)
    requires
        distinct_keys(s),
        0 <= n <= s.len(),
    ensures
        distinct_keys(s.take(n)),
{
    assert forall|i: int, j: int|
        0 <= i < n && 0 <= j < n && i != j implies #[trigger] s.take(n)[i].0@ != #[trigger] s.take(n)[j].0@ by {
        assert(s.take(n)[i] == s[i] && s.take(n)[j] == s[j]);
    }
}

/// The map of distinct entries has exactly their keys, each with its usage.
pub proof fn lemma_entries_map_facts<K: View>(s: Seq<(K, Usage)>)
    requires
        distinct_keys(s),
    ensures
        entries_map(s).dom().finite(),
        forall|k: K::V| #[trigger] entries_map(s).contains_key(k) <==> exists|i: int| 0 <= i < s.len() && s[i].0@ == k,
        forall|i: int| 0 <= i < s.len() ==> #[trigger] entries_map(s)[s[i].0@] == s[i].1,
    decreases s.len(),
{
    if s.len() > 0 {
        let p = s.drop_last();
        assert(p =~= s.take(s.len() - 1));
        lemma_distinct_take(s, s.len() - 1);
        lemma_entries_map_facts(p);
        assert forall|k: K::V| #[trigger] entries_map(s).contains_key(k) <==> exists|i: int| 0 <= i < s.len() && s[i].0@ == k by {
            if entries_map(s).contains_key(k) && k != s.last().0@ {
                let i = choose|i: int| 0 <= i < p.len() && p[i].0@ == k;
                assert(s[i].0@ == k);
            }
            if exists|i: int| 0 <= i < s.len() && s[i].0@ == k {
                let i = choose|i: int| 0 <= i < s.len() && s[i].0@ == k;
                if i < p.len() {
                    assert(p[i].0@ == k);
                }
            }
        }
        assert forall|i: int| 0 <= i < s.len() implies #[trigger] entries_map(s)[s[i].0@] == s[i].1 by {
            if i < s.len() - 1 {
                assert(p[i] == s[i]);
                assert(s[i].0@ != s[s.len() - 1].0@);
            }
        }
    }
}

/// A tally of usage by key: each key has one entry, in the order keys were
/// first credited.
pub struct Tally<K: TallyKey> {
    entries: Vec<(K, Usage)>,
}

impl<K: TallyKey> View for Tally<K> {
    type V = Map<K::V, Usage>;

    closed spec fn view(&self) -> Map<K::V, Usage> {
        entries_map(self.entries@)
    }
}

impl<K: TallyKey> Tally<K> {
    #[verifier::type_invariant]
    spec fn well_formed(self) -> bool {
        distinct_keys(self.entries@)
    }

    /// The entries in order, one per key.
    pub closed spec fn entries_seq(self) -> Seq<(K, Usage)> {
        self.entries@
    }

    /// An empty tally.
    pub fn new() -> (res: Self)
        ensures
            res@ == Map::<K::V, Usage>::empty(),
    {
        Tally { entries: Vec::new() }
    }

    /// The entries in order: keys are distinct and stand for the tally.
    pub fn entries(&self) -> (res: &Vec<(K, Usage)>)
        ensures
            distinct_keys(res@),
            entries_map(res@) == self@,
            res@ == self.entries_seq(),
    {
        proof {
            use_type_invariant(self);
        }
        &self.entries
    }

    /// The number of keys.
    pub fn len(&self) -> (res: usize)
        ensures
            res == self.entries_seq().len(),
            res == self@.len(),
    {
        proof {
            use_type_invariant(self);
            self.lemma_len();
        }
        self.entries.len()
    }

    proof fn lemma_len(self)
        requires
            distinct_keys(self.entries@),
        ensures
            self@.len() == self.entries@.len(),
        decreases self.entries@.len(),
    {
        lemma_seq_len(self.entries@);
    }

    fn position(&self, key: &K) -> (res: Option<usize>)
        ensures
            match res {
                Some(i) => i < self.entries@.len() && self.entries@[i as int].0@ == key@,
                None => forall|i: int| 0 <= i < self.entries@.len() ==> self.entries@[i].0@ != key@,
            },
    {
        let mut i: usize = 0;
        while i < self.entries.len()
            invariant
                i <= self.entries@.len(),
                forall|j: int| 0 <= j < i ==> self.entries@[j].0@ != key@,
            decreases self.entries@.len() - i,
        {
            if self.entries[i].0.same_key(key) {
                return Some(i);
            }
            i += 1;
        }
        None
    }

    /// The usage under `key`, if it has one.
    pub fn get(&self, key: &K) -> (res: Option<Usage>)
        ensures
            res == (if self@.contains_key(key@) { Some(self@[key@]) } else { None::<Usage> }),
    {
        proof {
            use_type_invariant(self);
            lemma_entries_map_facts(self.entries@);
        }
        match self.position(key) {
            Some(i) => Some(self.entries[i].1),
            None => None,
        }
    }

    /// Adds `usage` to the entry of `key`, making one if there is none.
    pub fn credit(&mut self, key: &K, usage: &Usage)
        ensures
            final(self)@ == credited(old(self)@, key@, *usage),
    {
        proof {
            use_type_invariant(&*self);
            lemma_entries_map_facts(self.entries@);
        }
        let ghost old_entries = self.entries@;
        match self.position(key) {
            Some(i) => {
                let mut entry = self.entries[i].1;
                entry.merge(usage);
                let k = self.entries[i].0.copy_key();
                let mut entries: Vec<(K, Usage)> = Vec::new();
                std::mem::swap(&mut entries, &mut self.entries);
                entries.set(i, (k, entry));
                proof {
                    assert(distinct_keys(entries@));
                }
                self.entries = entries;
                proof {
                    assert(distinct_keys(self.entries@));
                    lemma_entries_map_facts(self.entries@);
                    assert(self@ =~= credited(entries_map(old_entries), key@, *usage)) by {
                        assert forall|k2: K::V| #[trigger] self@.contains_key(k2)
                            == credited(entries_map(old_entries), key@, *usage).contains_key(k2) by {
                            if self@.contains_key(k2) {
                                let j = choose|j: int| 0 <= j < self.entries@.len() && self.entries@[j].0@ == k2;
                                assert(old_entries[j].0@ == k2);
                            }
                            if entries_map(old_entries).contains_key(k2) {
                                let j = choose|j: int| 0 <= j < old_entries.len() && old_entries[j].0@ == k2;
                                assert(self.entries@[j].0@ == k2);
                            }
                        }
                        assert forall|k2: K::V| #[trigger] self@.contains_key(k2) implies self@[k2]
                            == credited(entries_map(old_entries), key@, *usage)[k2] by {
                            let j = choose|j: int| 0 <= j < self.entries@.len() && self.entries@[j].0@ == k2;
                            assert(old_entries[j].0@ == k2);
                        }
                    }
                }
            },
            None => {
                let mut entry = Usage::default();
                entry.merge(usage);
                let k = key.copy_key();
                let mut entries: Vec<(K, Usage)> = Vec::new();
                std::mem::swap(&mut entries, &mut self.entries);
                entries.push((k, entry));
                proof {
                    assert(entries@.drop_last() =~= old_entries);
                    assert(distinct_keys(entries@));
                }
                self.entries = entries;
                proof {
                    assert(self.entries@.drop_last() =~= old_entries);
                    assert(distinct_keys(self.entries@));
                    assert(!entries_map(old_entries).contains_key(key@));
                    assert(self@ =~= credited(entries_map(old_entries), key@, *usage));
                }
            },
        }
    }

    /// Adds every entry of `source` to this tally, key by key.
    pub fn merge_from(&mut self, source: &Tally<K>)
        ensures
            final(self)@ == merged(old(self)@, source@),
    {
        let src = source.entries();
        let ghost start = self@;
        let n = src.len();
        let mut i: usize = 0;
        proof {
            assert(merged(start, entries_map(src@.take(0))) =~= start);
        }
        while i < n
            invariant
                n == src@.len(),
                i <= n,
                distinct_keys(src@),
                entries_map(src@) == source@,
                self@ == merged(start, entries_map(src@.take(i as int))),
            decreases n - i,
        {
            let ghost before = self@;
            self.credit(&src[i].0, &src[i].1);
            proof {
                let p = src@.take(i as int);
                let q = src@.take(i + 1);
                assert(q.drop_last() =~= p);
                lemma_distinct_take(src@, i as int);
                lemma_entries_map_facts(p);
                let k = src@[i as int].0@;
                assert(!entries_map(p).contains_key(k)) by {
                    if entries_map(p).contains_key(k) {
                        let j = choose|j: int| 0 <= j < p.len() && p[j].0@ == k;
                        assert(src@[j].0@ == k);
                    }
                }
                assert(self@ =~= merged(start, entries_map(q)));
            }
            i += 1;
        }
        proof {
            assert(src@.take(n as int) =~= src@);
        }
    }
}

proof fn lemma_seq_len<K: View>(s: Seq<(K, Usage)>)
    requires
        distinct_keys(s),
    ensures
        entries_map(s).len() == s.len(),
    decreases s.len(),
{
    if s.len() > 0 {
        let p = s.drop_last();
        assert(p =~= s.take(s.len() - 1));
        lemma_distinct_take(s, s.len() - 1);
        lemma_seq_len(p);
        lemma_entries_map_facts(p);
        assert(!entries_map(p).contains_key(s.last().0@)) by {
            if entries_map(p).contains_key(s.last().0@) {
                let j = choose|j: int| 0 <= j < p.len() && p[j].0@ == s.last().0@;
                assert(s[j].0@ == s[s.len() - 1].0@);
            }
        }
    }
}

impl<K: TallyKey> Clone for Tally<K> {
    fn clone(&self) -> (res: Self)
        ensures
            res@ == self@,
            res.entries_seq().len() == self.entries_seq().len(),
    {
        proof {
            use_type_invariant(self);
        }
        let mut out: Vec<(K, Usage)> = Vec::new();
        let n = self.entries.len();
        let mut i: usize = 0;
        while i < n
            invariant
                n == self.entries@.len(),
                i <= n,
                out@.len() == i,
                distinct_keys(self.entries@),
                forall|j: int| 0 <= j < i ==> (#[trigger] out@[j]).0@ == self.entries@[j].0@ && out@[j].1
                    == self.entries@[j].1,
            decreases n - i,
        {
            let k = self.entries[i].0.copy_key();
            out.push((k, self.entries[i].1));
            i += 1;
        }
        proof {
            lemma_same_keys_same_map(out@, self.entries@);
        }
        Tally { entries: out }
    }
}

proof fn lemma_same_keys_same_map<K: View>(a: Seq<(K, Usage)>, b: Seq<(K, Usage)>)
    requires
        a.len() == b.len(),
        forall|j: int| 0 <= j < a.len() ==> (#[trigger] a[j]).0@ == b[j].0@ && a[j].1 == b[j].1,
    ensures
        entries_map(a) == entries_map(b),
        distinct_keys(b) ==> distinct_keys(a),
    decreases a.len(),
{
    if a.len() > 0 {
        lemma_same_keys_same_map(a.drop_last(), b.drop_last());
    }
    if distinct_keys(b) {
        assert forall|i: int, j: int| 0 <= i < a.len() && 0 <= j < a.len() && i != j implies #[trigger] a[i].0@ != #[trigger] a[j].0@ by {
            assert(b[i].0@ != b[j].0@);
        }
    }
}

/// Usage maps keyed by model name.
pub type UsageMap = Tally<String>;

/// Adds every entry of `source` into `target`, model by model.
pub fn merge_usage_map(target: &mut UsageMap, source: &UsageMap)
    ensures
        final(target)@ == merged(old(target)@, source@),
{
    target.merge_from(source);
}

/// Merging tallies does not depend on their order.
pub proof fn lemma_merged_commutative<V>(a: Map<V, Usage>, b: Map<V, Usage>)
    ensures
        merged(a, b) == merged(b, a),
{
    assert(merged(a, b) =~= merged(b, a));
}

/// Merging tallies does not depend on how they are grouped, so adding up
/// files one by one gives the same usage by model in whatever order they come.
#[verifier::spinoff_prover]
#[verifier::rlimit(40)]
pub proof fn lemma_merged_associative<V>(a: Map<V, Usage>, b: Map<V, Usage>, c: Map<V, Usage>)
    ensures
        merged(merged(a, b), c) == merged(a, merged(b, c)),
{
    assert forall|k: V| #[trigger] usage_at(merged(a, b), k) == add_usage(usage_at(a, k), usage_at(b, k)) by {}
    assert forall|k: V| #[trigger] usage_at(merged(b, c), k) == add_usage(usage_at(b, k), usage_at(c, k)) by {}
    assert(merged(merged(a, b), c) =~= merged(a, merged(b, c)));
}

/// Crediting a key twice adds both amounts.
pub proof fn lemma_credited_twice<V>(m: Map<V, Usage>, k: V, u: Usage, w: Usage)
    ensures
        credited(credited(m, k, u), k, w) == credited(m, k, add_usage(u, w)),
{
    assert(credited(credited(m, k, u), k, w) =~= credited(m, k, add_usage(u, w)));
}


/// One step of adding up a map: the usage so far plus the usage under a key.
pub open spec fn add_entry<K>(m: Map<K, Usage>) -> spec_fn(Usage, K) -> Usage {
    |acc: Usage, k: K| add_usage(acc, m[k])
}

/// The sum of the usages that `m` holds under the keys of a finite set.
pub open spec fn usage_sum<K>(m: Map<K, Usage>, keys: Set<K>) -> Usage {
    keys.fold(zero_usage(), add_entry(m))
}

proof fn lemma_add_entry_commutative<K>(m: Map<K, Usage>)
    ensures
        is_fun_commutative(add_entry(m)),
{
    assert forall|a1: K, a2: K, b: Usage|
        #[trigger] add_entry(m)(add_entry(m)(b, a2), a1) == add_entry(m)(add_entry(m)(b, a1), a2) by {
        lemma_add_usage_associative(b, m[a2], m[a1]);
        lemma_add_usage_associative(b, m[a1], m[a2]);
        lemma_add_usage_commutative(m[a1], m[a2]);
    }
}

/// The sum over no keys is zero.
pub proof fn lemma_usage_sum_empty<K>(m: Map<K, Usage>)
    ensures
        usage_sum(m, Set::empty()) == zero_usage(),
{
    lemma_fold_empty(zero_usage(), add_entry(m));
}

/// Adding a key to the set adds its usage to the sum.
pub proof fn lemma_usage_sum_insert<K>(m: Map<K, Usage>, keys: Set<K>, k: K)
    requires
        keys.finite(),
        !keys.contains(k),
    ensures
        usage_sum(m, keys.insert(k)) == add_usage(usage_sum(m, keys), m[k]),
{
    lemma_add_entry_commutative(m);
    lemma_fold_insert(keys, zero_usage(), add_entry(m), k);
}

/// The sum over a set depends only on the usages under its keys.
pub proof fn lemma_usage_sum_agree<K>(m1: Map<K, Usage>, m2: Map<K, Usage>, keys: Set<K>)
    requires
        keys.finite(),
        forall|k: K| #[trigger] keys.contains(k) ==> m1[k] == m2[k],
    ensures
        usage_sum(m1, keys) == usage_sum(m2, keys),
    decreases keys.len(),
{
    if keys.len() == 0 {
        assert(keys =~= Set::empty());
        lemma_usage_sum_empty(m1);
        lemma_usage_sum_empty(m2);
    } else {
        let k = keys.choose();
        let rest = keys.remove(k);
        lemma_usage_sum_agree(m1, m2, rest);
        assert(rest.insert(k) =~= keys);
        lemma_usage_sum_insert(m1, rest, k);
        lemma_usage_sum_insert(m2, rest, k);
    }
}

/// Crediting `u` under `k` adds `u` to the sum over the keys of `m` that meet
/// `pred` when `k` meets it, and leaves that sum alone when it does not.
pub proof fn lemma_usage_sum_credited<K>(m: Map<K, Usage>, pred: spec_fn(K) -> bool, k: K, u: Usage)
    requires
        m.dom().finite(),
    ensures
        credited(m, k, u).dom() == m.dom().insert(k),
        credited(m, k, u).dom().finite(),
        pred(k) ==> usage_sum(credited(m, k, u), credited(m, k, u).dom().filter(pred)) == add_usage(
            usage_sum(m, m.dom().filter(pred)),
            u,
        ),
        !pred(k) ==> usage_sum(credited(m, k, u), credited(m, k, u).dom().filter(pred)) == usage_sum(
            m,
            m.dom().filter(pred),
        ),
{
    let m2 = credited(m, k, u);
    let old_keys = m.dom().filter(pred);
    let new_keys = m2.dom().filter(pred);
    assert(m2.dom() =~= m.dom().insert(k));
    if !pred(k) {
        assert(new_keys =~= old_keys);
        lemma_usage_sum_agree(m2, m, old_keys);
    } else if m.contains_key(k) {
        assert(new_keys =~= old_keys);
        let rest = old_keys.remove(k);
        assert(rest.insert(k) =~= old_keys);
        lemma_usage_sum_agree(m2, m, rest);
        lemma_usage_sum_insert(m2, rest, k);
        lemma_usage_sum_insert(m, rest, k);
        lemma_add_usage_associative(usage_sum(m, rest), m[k], u);
    } else {
        assert(new_keys =~= old_keys.insert(k));
        lemma_usage_sum_agree(m2, m, old_keys);
        lemma_usage_sum_insert(m2, old_keys, k);
        lemma_add_usage_zero(u);
    }
}

} // verus!
