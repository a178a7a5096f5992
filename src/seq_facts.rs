//! Facts about sequences of rows that every table relies on.
use vstd::prelude::*;

verus! {

broadcast use vstd::seq_lib::group_seq_lib_default;

/// No two rows of `s` share a key.
pub open spec fn unique_by<T, K>(s: Seq<T>, key: spec_fn(T) -> K) -> bool {
    forall|i: int, j: int|
        0 <= i < s.len() && 0 <= j < s.len() && i != j ==> #[trigger] key(s[i]) != #[trigger] key(
            s[j],
        )
}

/// Some row of `s` has key `k`.
pub open spec fn has_key<T, K>(s: Seq<T>, key: spec_fn(T) -> K, k: K) -> bool {
    exists|i: int| 0 <= i < s.len() && #[trigger] key(s[i]) == k
}

pub proof fn lemma_filter_unique<T, K>(s: Seq<T>, key: spec_fn(T) -> K, p: spec_fn(T) -> bool)
    requires
        unique_by(s, key),
    ensures
        unique_by(s.filter(p), key),
    decreases s.len(),
{
    reveal(Seq::filter);
    if s.len() > 0 {
        let rest = s.drop_last();
        assert(unique_by(rest, key)) by {
            assert forall|i: int, j: int|
                0 <= i < rest.len() && 0 <= j < rest.len() && i != j implies #[trigger] key(
                rest[i],
            ) != #[trigger] key(rest[j]) by {
                assert(rest[i] == s[i] && rest[j] == s[j]);
            }
        }
        lemma_filter_unique(rest, key, p);
        let f = rest.filter(p);
        if p(s.last()) {
            let g = f.push(s.last());
            assert forall|i: int, j: int|
                0 <= i < g.len() && 0 <= j < g.len() && i != j implies #[trigger] key(g[i])
                != #[trigger] key(g[j]) by {
                if i == g.len() - 1 || j == g.len() - 1 {
                    let o = if i == g.len() - 1 { j } else { i };
                    assert(f.contains(f[o]));
                    rest.lemma_filter_contains_rev(p, f[o]);
                    let k = choose|k: int| 0 <= k < rest.len() && rest[k] == f[o];
                    assert(s[k] == f[o]);
                    assert(key(s[k]) != key(s[s.len() - 1]));
                } else {
                    assert(g[i] == f[i] && g[j] == f[j]);
                }
            }
        }
    }
}

pub proof fn lemma_remove_unique<T, K>(s: Seq<T>, key: spec_fn(T) -> K, n: int)
    requires
        unique_by(s, key),
        0 <= n < s.len(),
    ensures
        unique_by(s.remove(n), key),
{
    let r = s.remove(n);
    assert forall|i: int, j: int|
        0 <= i < r.len() && 0 <= j < r.len() && i != j implies #[trigger] key(r[i]) != #[trigger] key(
        r[j],
    ) by {
        let a = if i < n { i } else { i + 1 };
        let b = if j < n { j } else { j + 1 };
        assert(r[i] == s[a] && r[j] == s[b]);
    }
}

pub proof fn lemma_push_unique<T, K>(s: Seq<T>, key: spec_fn(T) -> K, x: T)
    requires
        unique_by(s, key),
        !has_key(s, key, key(x)),
    ensures
        unique_by(s.push(x), key),
{
    let r = s.push(x);
    assert forall|i: int, j: int|
        0 <= i < r.len() && 0 <= j < r.len() && i != j implies #[trigger] key(r[i]) != #[trigger] key(
        r[j],
    ) by {
        if i < s.len() && j < s.len() {
            assert(r[i] == s[i] && r[j] == s[j]);
        } else if i < s.len() {
            assert(r[i] == s[i]);
        } else {
            assert(r[j] == s[j]);
        }
    }
}

pub proof fn lemma_update_unique<T, K>(s: Seq<T>, key: spec_fn(T) -> K, n: int, x: T)
    requires
        unique_by(s, key),
        0 <= n < s.len(),
        key(x) == key(s[n]),
    ensures
        unique_by(s.update(n, x), key),
{
    let r = s.update(n, x);
    assert forall|i: int, j: int|
        0 <= i < r.len() && 0 <= j < r.len() && i != j implies #[trigger] key(r[i]) != #[trigger] key(
        r[j],
    ) by {
        assert(key(r[i]) == key(s[i]));
        assert(key(r[j]) == key(s[j]));
    }
}

pub proof fn lemma_update_fresh_unique<T, K>(s: Seq<T>, key: spec_fn(T) -> K, n: int, x: T)
    requires
        unique_by(s, key),
        0 <= n < s.len(),
        !has_key(s, key, key(x)) || key(x) == key(s[n]),
    ensures
        unique_by(s.update(n, x), key),
{
    let r = s.update(n, x);
    assert forall|i: int, j: int|
        0 <= i < r.len() && 0 <= j < r.len() && i != j implies #[trigger] key(r[i]) != #[trigger] key(
        r[j],
    ) by {
        if i != n && j != n {
            assert(r[i] == s[i] && r[j] == s[j]);
        } else if i == n {
            assert(r[j] == s[j]);
        } else {
            assert(r[i] == s[i]);
        }
    }
}

/// Filtering first by `p` keeps no more rows satisfying `q` than there were.
pub proof fn lemma_filter_filter_len<T>(s: Seq<T>, p: spec_fn(T) -> bool, q: spec_fn(T) -> bool)
    ensures
        s.filter(p).filter(q).len() <= s.filter(q).len(),
    decreases s.len(),
{
    reveal(Seq::filter);
    if s.len() > 0 {
        let rest = s.drop_last();
        lemma_filter_filter_len(rest, p, q);
        rest.filter(p).lemma_filter_push(s.last(), q);
        rest.lemma_filter_push(s.last(), q);
        assert(s == rest.push(s.last()));
        rest.lemma_filter_push(s.last(), p);
    }
}

/// The rows of a filtered sequence come from the sequence.
pub proof fn lemma_filter_subset<T>(s: Seq<T>, p: spec_fn(T) -> bool, i: int)
    requires
        0 <= i < s.filter(p).len(),
    ensures
        s.contains(s.filter(p)[i]),
        p(s.filter(p)[i]),
{
    assert(s.filter(p).contains(s.filter(p)[i]));
    s.lemma_filter_contains_rev(p, s.filter(p)[i]);
}

/// A sequence whose rows all fail `p` filters to nothing.
pub proof fn lemma_filter_none<T>(s: Seq<T>, p: spec_fn(T) -> bool)
    requires
        forall|i: int| 0 <= i < s.len() ==> !p(#[trigger] s[i]),
    ensures
        s.filter(p) == Seq::<T>::empty(),
{
    s.lemma_all_neg_filter_empty(p);
    assert(s.filter(p) =~= Seq::<T>::empty());
}

/// A sequence whose rows all pass `p` filters to itself.
pub proof fn lemma_filter_all<T>(s: Seq<T>, p: spec_fn(T) -> bool)
    requires
        forall|i: int| 0 <= i < s.len() ==> p(#[trigger] s[i]),
    ensures
        s.filter(p) == s,
    decreases s.len(),
{
    reveal(Seq::filter);
    if s.len() > 0 {
        lemma_filter_all(s.drop_last(), p);
        assert(s.drop_last().push(s.last()) =~= s);
    }
}

} // verus!
