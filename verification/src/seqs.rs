//! Small sequence lemmas used by the table-shaped state in this crate.

use vstd::prelude::*;

verus! {

/// Filtering commutes with appending one element.
pub proof fn lemma_filter_push<A>(s: Seq<A>, x: A, pred: spec_fn(A) -> bool)
    ensures
        s.push(x).filter(pred) == (if pred(x) {
            s.filter(pred).push(x)
        } else {
            s.filter(pred)
        }),
{
    reveal(Seq::filter);
    assert(s.push(x).drop_last() =~= s);
    assert(s.push(x).last() == x);
}

/// Every element of a filtered sequence occurs in the original.
pub proof fn lemma_filter_elements<A>(s: Seq<A>, pred: spec_fn(A) -> bool)
    ensures
        forall|j: int|
            0 <= j < s.filter(pred).len() ==> exists|t: int|
                0 <= t < s.len() && s[t] == #[trigger] s.filter(pred)[j],
    decreases s.len(),
{
    reveal(Seq::filter);
    if s.len() > 0 {
        lemma_filter_elements(s.drop_last(), pred);
        assert forall|j: int| 0 <= j < s.filter(pred).len() implies exists|t: int|
            0 <= t < s.len() && s[t] == #[trigger] s.filter(pred)[j] by {
            let d = s.drop_last();
            if j < d.filter(pred).len() {
                let t = choose|t: int| 0 <= t < d.len() && d[t] == d.filter(pred)[j];
                assert(s[t] == s.filter(pred)[j]);
            } else {
                assert(s[s.len() - 1] == s.filter(pred)[j]);
            }
        }
    }
}

/// No element occurs twice.
pub open spec fn distinct<A>(s: Seq<A>) -> bool {
    forall|i: int, j: int| 0 <= i < j < s.len() ==> s[i] != s[j]
}

/// Filtering keeps elements pairwise distinct.
pub proof fn lemma_filter_distinct<A>(s: Seq<A>, pred: spec_fn(A) -> bool)
    requires
        distinct(s),
    ensures
        distinct(s.filter(pred)),
    decreases s.len(),
{
    reveal(Seq::filter);
    if s.len() > 0 {
        let d = s.drop_last();
        assert(distinct(d));
        lemma_filter_distinct(d, pred);
        lemma_filter_elements(d, pred);
        if pred(s.last()) {
            let f = s.filter(pred);
            assert(f == d.filter(pred).push(s.last()));
            assert forall|i: int, j: int| 0 <= i < j < f.len() implies f[i] != f[j] by {
                if j == f.len() - 1 {
                    let t = choose|t: int| 0 <= t < d.len() && d[t] == d.filter(pred)[i];
                    assert(s[t] == f[i]);
                    assert(s[t] != s.last());
                }
            }
        }
    }
}

/// Pairwise-distinct keys in an association list.
pub open spec fn kv_unique<V>(s: Seq<(String, V)>) -> bool {
    forall|i: int, j: int| 0 <= i < j < s.len() ==> s[i].0@ != s[j].0@
}

/// An association list read as a map.
pub open spec fn kv_map<V>(s: Seq<(String, V)>) -> Map<Seq<char>, V>
    decreases s.len(),
{
    if s.len() == 0 {
        Map::empty()
    } else {
        kv_map(s.drop_last()).insert(s.last().0@, s.last().1)
    }
}

pub proof fn lemma_kv_domain<V>(s: Seq<(String, V)>, k: Seq<char>)
    ensures
        kv_map(s).contains_key(k) <==> exists|i: int| 0 <= i < s.len() && s[i].0@ == k,
    decreases s.len(),
{
    if s.len() > 0 {
        lemma_kv_domain(s.drop_last(), k);
        if kv_map(s).contains_key(k) && s.last().0@ != k {
            let i = choose|i: int| 0 <= i < s.drop_last().len() && s.drop_last()[i].0@ == k;
            assert(s[i].0@ == k);
        }
        if exists|i: int| 0 <= i < s.len() && s[i].0@ == k {
            let i = choose|i: int| 0 <= i < s.len() && s[i].0@ == k;
            if i < s.len() - 1 {
                assert(s.drop_last()[i].0@ == k);
            }
        }
    }
}

pub proof fn lemma_kv_index<V>(s: Seq<(String, V)>, i: int)
    requires
        kv_unique(s),
        0 <= i < s.len(),
    ensures
        kv_map(s).contains_key(s[i].0@),
        kv_map(s)[s[i].0@] == s[i].1,
    decreases s.len(),
{
    if i < s.len() - 1 {
        assert(kv_unique(s.drop_last()));
        lemma_kv_index(s.drop_last(), i);
        assert(s.drop_last()[i] == s[i]);
        assert(s.last().0@ != s[i].0@);
    }
}

pub proof fn lemma_kv_update<V>(s: Seq<(String, V)>, i: int, v: V)
    requires
        kv_unique(s),
        0 <= i < s.len(),
    ensures
        kv_map(s.update(i, (s[i].0, v))) =~= kv_map(s).insert(s[i].0@, v),
    decreases s.len(),
{
    let t = s.update(i, (s[i].0, v));
    if i == s.len() - 1 {
        assert(t.drop_last() =~= s.drop_last());
        assert(t.last() == (s[i].0, v));
    } else {
        assert(kv_unique(s.drop_last()));
        lemma_kv_update(s.drop_last(), i, v);
        assert(t.drop_last() =~= s.drop_last().update(i, (s[i].0, v)));
        assert(s.drop_last()[i] == s[i]);
        assert(t.last() == s.last());
        assert(s.last().0@ != s[i].0@);
    }
}

/// Filtering an association list keeps its keys pairwise distinct.
pub proof fn lemma_filter_kv_unique<V>(s: Seq<(String, V)>, pred: spec_fn((String, V)) -> bool)
    requires
        kv_unique(s),
    ensures
        kv_unique(s.filter(pred)),
    decreases s.len(),
{
    reveal(Seq::filter);
    if s.len() > 0 {
        let d = s.drop_last();
        assert(kv_unique(d));
        lemma_filter_kv_unique(d, pred);
        lemma_filter_elements(d, pred);
        if pred(s.last()) {
            let f = s.filter(pred);
            assert(f == d.filter(pred).push(s.last()));
            assert forall|i: int, j: int| 0 <= i < j < f.len() implies f[i].0@ != f[j].0@ by {
                if j == f.len() - 1 {
                    let t = choose|t: int| 0 <= t < d.len() && d[t] == d.filter(pred)[i];
                    assert(s[t] == f[i]);
                    assert(s[t].0@ != s.last().0@);
                }
            }
        }
    }
}

pub proof fn lemma_kv_remove<V>(s: Seq<(String, V)>, i: int)
    requires
        kv_unique(s),
        0 <= i < s.len(),
    ensures
        kv_unique(s.remove(i)),
        kv_map(s.remove(i)) =~= kv_map(s).remove(s[i].0@),
    decreases s.len(),
{
    let t = s.remove(i);
    if i == s.len() - 1 {
        assert(t =~= s.drop_last());
        lemma_kv_domain(s.drop_last(), s[i].0@);
        assert(!kv_map(s.drop_last()).contains_key(s[i].0@));
        assert(kv_map(t) =~= kv_map(s).remove(s[i].0@));
    } else {
        assert(kv_unique(s.drop_last()));
        lemma_kv_remove(s.drop_last(), i);
        assert(t.drop_last() =~= s.drop_last().remove(i));
        assert(t.last() == s.last());
        assert(s.last().0@ != s[i].0@);
    }
}

} // verus!
