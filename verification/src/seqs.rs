//! Sequence helpers shared by the specifications.
use vstd::prelude::*;

verus! {

/// The concatenation `f(0) + f(1) + ... + f(n - 1)`.
pub open spec fn concat_map<A>(n: nat, f: spec_fn(int) -> Seq<A>) -> Seq<A>
    decreases n,
{
    if n == 0 {
        Seq::empty()
    } else {
        concat_map((n - 1) as nat, f) + f(n - 1)
    }
}

/// Every element of `concat_map(n, f)` is an element of some `f(k)` with `k < n`.
pub proof fn lemma_concat_map_member<A>(n: nat, f: spec_fn(int) -> Seq<A>, i: int)
    requires
        0 <= i < concat_map(n, f).len(),
    ensures
        exists|k: int, j: int|
            0 <= k < n && 0 <= j < f(k).len() && #[trigger] f(k)[j] == concat_map(n, f)[i],
    decreases n,
{
    let prev = concat_map((n - 1) as nat, f);
    assert(concat_map(n, f) == prev + f(n - 1));
    if i < prev.len() {
        lemma_concat_map_member((n - 1) as nat, f, i);
        let (k, j) = choose|k: int, j: int|
            0 <= k < n - 1 && 0 <= j < f(k).len() && #[trigger] f(k)[j] == prev[i];
        assert(f(k)[j] == concat_map(n, f)[i]);
    } else {
        let j = i - prev.len();
        assert(f(n - 1)[j] == concat_map(n, f)[i]);
    }
}

/// Element `j` of piece `k` sits in `concat_map(n, f)` right after the
/// pieces before it.
pub proof fn lemma_concat_map_index<A>(n: nat, f: spec_fn(int) -> Seq<A>, k: int, j: int)
    requires
        0 <= k < n,
        0 <= j < f(k).len(),
    ensures
        concat_map(k as nat, f).len() + j < concat_map(n, f).len(),
        concat_map(n, f)[concat_map(k as nat, f).len() + j] == f(k)[j],
    decreases n,
{
    if k < n - 1 {
        lemma_concat_map_index((n - 1) as nat, f, k, j);
    }
}

/// The length of `concat_map(n, f)` when each piece has at most `m` elements.
pub proof fn lemma_concat_map_len_le<A>(n: nat, f: spec_fn(int) -> Seq<A>, m: nat)
    requires
        forall|k: int| 0 <= k < n ==> #[trigger] f(k).len() <= m,
    ensures
        concat_map(n, f).len() <= n * m,
    decreases n,
{
    if n > 0 {
        lemma_concat_map_len_le((n - 1) as nat, f, m);
        assert(f(n - 1).len() <= m);
        assert(concat_map(n, f).len() == concat_map((n - 1) as nat, f).len() + f(n - 1).len());
        assert((n - 1) * m + m == n * m) by (nonlinear_arith);
    }
}

/// The map from keys to names that a list of `(key, name)` entries
/// describes, later entries taking precedence.
pub open spec fn assoc_map<K>(v: Seq<(K, String)>) -> Map<K, Seq<char>>
    decreases v.len(),
{
    if v.len() == 0 {
        Map::empty()
    } else {
        assoc_map(v.drop_last()).insert(v.last().0, v.last().1@)
    }
}

/// No key occurs twice in a list of `(key, name)` entries.
pub open spec fn keys_distinct<K>(v: Seq<(K, String)>) -> bool {
    forall|i: int, j: int| 0 <= i < v.len() && 0 <= j < v.len() && i != j ==> v[i].0 != v[j].0
}

/// Replacing the name of an entry of a list with distinct keys replaces the
/// name of that key in the described map.
pub proof fn lemma_assoc_update<K>(v: Seq<(K, String)>, j: int, name: String)
    requires
        keys_distinct(v),
        0 <= j < v.len(),
    ensures
        assoc_map(v.update(j, (v[j].0, name))) == assoc_map(v).insert(v[j].0, name@),
    decreases v.len(),
{
    let k = v[j].0;
    let w = v.update(j, (k, name));
    if j == v.len() - 1 {
        assert(w.drop_last() =~= v.drop_last());
        assert(assoc_map(w) =~= assoc_map(v).insert(k, name@));
    } else {
        let vd = v.drop_last();
        assert(w.drop_last() =~= vd.update(j, (k, name)));
        assert(vd[j].0 == k);
        lemma_assoc_update(vd, j, name);
        assert(v.last().0 != k);
        assert(w.last() == v.last());
        assert(assoc_map(w) =~= assoc_map(v).insert(k, name@));
    }
}

/// The keys of the map described by a list are the keys of its entries.
pub proof fn lemma_assoc_dom<K>(v: Seq<(K, String)>, k: K)
    ensures
        assoc_map(v).dom().contains(k) <==> exists|i: int| 0 <= i < v.len() && (#[trigger] v[i]).0 == k,
    decreases v.len(),
{
    if v.len() > 0 {
        lemma_assoc_dom(v.drop_last(), k);
        if assoc_map(v.drop_last()).dom().contains(k) {
            let i = choose|i: int| 0 <= i < v.drop_last().len() && (#[trigger] v.drop_last()[i]).0 == k;
            assert(v[i].0 == k);
        }
        if exists|i: int| 0 <= i < v.len() && (#[trigger] v[i]).0 == k {
            let i = choose|i: int| 0 <= i < v.len() && (#[trigger] v[i]).0 == k;
            if i < v.len() - 1 {
                assert(v.drop_last()[i].0 == k);
            }
        }
    }
}

/// Pairs of `u32` obey the ordering laws that `BTreeMap` relies on.
pub proof fn lemma_u32_pairs_ordered()
    ensures
        vstd::laws_cmp::obeys_cmp::<(u32, u32)>(),
{
    broadcast use vstd::laws_cmp::group_laws_cmp;
}

/// Filtering a prefix keeps no more elements than filtering the whole sequence.
pub proof fn lemma_filter_prefix_len<A>(s: Seq<A>, pred: spec_fn(A) -> bool, k: int)
    requires
        0 <= k <= s.len(),
    ensures
        s.take(k).filter(pred).len() <= s.filter(pred).len(),
    decreases s.len() - k,
{
    reveal_with_fuel(Seq::filter, 1);
    if k < s.len() {
        lemma_filter_prefix_len(s, pred, k + 1);
        assert(s.take(k + 1).drop_last() =~= s.take(k));
    } else {
        assert(s.take(k) =~= s);
    }
}

/// A concatenation holds exactly what its two parts hold.
pub proof fn lemma_add_contains<A>(a: Seq<A>, b: Seq<A>, x: A)
    ensures
        (a + b).contains(x) <==> a.contains(x) || b.contains(x),
{
    if (a + b).contains(x) {
        let i = choose|i: int| 0 <= i < (a + b).len() && (a + b)[i] == x;
        if i < a.len() {
            assert(a[i] == x);
        } else {
            assert(b[i - a.len()] == x);
        }
    }
    if a.contains(x) {
        let i = choose|i: int| 0 <= i < a.len() && a[i] == x;
        assert((a + b)[i] == x);
    }
    if b.contains(x) {
        let i = choose|i: int| 0 <= i < b.len() && b[i] == x;
        assert((a + b)[a.len() + i] == x);
    }
}

/// `concat_map(n, f)` holds exactly what some `f(k)` with `k < n` holds.
pub proof fn lemma_concat_map_contains<A>(n: nat, f: spec_fn(int) -> Seq<A>, x: A)
    ensures
        concat_map(n, f).contains(x) <==> exists|k: int| 0 <= k < n && #[trigger] f(k).contains(x),
    decreases n,
{
    if n > 0 {
        lemma_concat_map_contains((n - 1) as nat, f, x);
        lemma_add_contains(concat_map((n - 1) as nat, f), f(n - 1), x);
        if concat_map(n, f).contains(x) {
            if !f(n - 1).contains(x) {
                let k = choose|k: int| 0 <= k < n - 1 && #[trigger] f(k).contains(x);
                assert(f(k).contains(x));
            }
        }
    }
}

/// Two sequences without duplicates and without a common element
/// concatenate to one without duplicates.
pub proof fn lemma_add_no_duplicates<A>(a: Seq<A>, b: Seq<A>)
    requires
        a.no_duplicates(),
        b.no_duplicates(),
        forall|i: int, j: int| 0 <= i < a.len() && 0 <= j < b.len() ==> a[i] != b[j],
    ensures
        (a + b).no_duplicates(),
{
    let s = a + b;
    assert forall|i: int, j: int| 0 <= i < s.len() && 0 <= j < s.len() && i != j implies s[i] != s[j] by {
        if i < a.len() && j < a.len() {
        } else if i >= a.len() && j >= a.len() {
            assert(s[i] == b[i - a.len()]);
            assert(s[j] == b[j - a.len()]);
        } else if i < a.len() {
            assert(s[j] == b[j - a.len()]);
        } else {
            assert(s[i] == b[i - a.len()]);
        }
    }
}

/// Where each piece `f(k)` has no duplicates and every element of it has
/// key `k`, `concat_map(n, f)` has no duplicates and every element's key
/// lies in `0 .. n`.
pub proof fn lemma_concat_map_keyed<A>(n: nat, f: spec_fn(int) -> Seq<A>, key: spec_fn(A) -> int)
    requires
        forall|k: int| 0 <= k < n ==> (#[trigger] f(k)).no_duplicates(),
        forall|k: int, j: int| 0 <= k < n && 0 <= j < f(k).len() ==> key(#[trigger] f(k)[j]) == k,
    ensures
        concat_map(n, f).no_duplicates(),
        forall|i: int| 0 <= i < concat_map(n, f).len() ==> 0 <= #[trigger] key(concat_map(n, f)[i]) < n,
    decreases n,
{
    if n > 0 {
        let prev = concat_map((n - 1) as nat, f);
        let last = f(n - 1);
        lemma_concat_map_keyed((n - 1) as nat, f, key);
        assert(concat_map(n, f) == prev + last);
        assert forall|i: int, j: int| 0 <= i < prev.len() && 0 <= j < last.len() implies prev[i] != last[j] by {
            assert(key(prev[i]) < n - 1);
            assert(key(last[j]) == n - 1);
        }
        lemma_add_no_duplicates(prev, last);
        assert forall|i: int| 0 <= i < concat_map(n, f).len() implies 0 <= #[trigger] key(concat_map(n, f)[i]) < n by {
            if i < prev.len() {
                assert(concat_map(n, f)[i] == prev[i]);
                assert(0 <= key(prev[i]) < n - 1);
            } else {
                assert(concat_map(n, f)[i] == last[i - prev.len()]);
            }
        }
    }
}

/// Filtering a sequence without duplicates leaves none.
pub proof fn lemma_filter_no_duplicates<A>(s: Seq<A>, pred: spec_fn(A) -> bool)
    requires
        s.no_duplicates(),
    ensures
        s.filter(pred).no_duplicates(),
    decreases s.len(),
{
    if s.len() > 0 {
        let init = s.drop_last();
        let e = s.last();
        assert(init.push(e) =~= s);
        assert(init.no_duplicates()) by {
            assert forall|i: int, j: int| 0 <= i < init.len() && 0 <= j < init.len() && i != j implies init[i]
                != init[j] by {
                assert(init[i] == s[i] && init[j] == s[j]);
            }
        }
        lemma_filter_no_duplicates(init, pred);
        init.lemma_filter_push(e, pred);
        if pred(e) {
            let f = init.filter(pred);
            assert forall|i: int| 0 <= i < f.len() implies f[i] != e by {
                assert(f.contains(f[i]));
                init.lemma_filter_contains_rev(pred, f[i]);
                let k = choose|k: int| 0 <= k < init.len() && init[k] == f[i];
                assert(s[k] == init[k]);
                assert(s[s.len() - 1] == e);
            }
            let g = f.push(e);
            assert forall|i: int, j: int| 0 <= i < g.len() && 0 <= j < g.len() && i != j implies g[i] != g[j] by {
                if i < f.len() && j < f.len() {
                    assert(g[i] == f[i] && g[j] == f[j]);
                } else if i < f.len() {
                    assert(g[i] == f[i]);
                } else {
                    assert(g[j] == f[j]);
                }
            }
        }
    }
}

/// Filtering a sequence on which the predicate is constantly `b` keeps all
/// of it or none of it.
pub proof fn lemma_filter_len_const<A>(s: Seq<A>, pred: spec_fn(A) -> bool, b: bool)
    requires
        forall|i: int| 0 <= i < s.len() ==> pred(#[trigger] s[i]) == b,
    ensures
        s.filter(pred).len() == if b { s.len() } else { 0 },
    decreases s.len(),
{
    if s.len() > 0 {
        let init = s.drop_last();
        assert(init.push(s.last()) =~= s);
        assert forall|i: int| 0 <= i < init.len() implies pred(#[trigger] init[i]) == b by {
            assert(init[i] == s[i]);
        }
        lemma_filter_len_const(init, pred, b);
        init.lemma_filter_len_push(pred, s.last());
    }
}

/// `v` followed by each element of `xs` that is in neither `v` nor the
/// elements of `xs` before it: the union of the two as a list.
pub open spec fn union_push<A>(v: Seq<A>, xs: Seq<A>) -> Seq<A>
    decreases xs.len(),
{
    if xs.len() == 0 {
        v
    } else {
        let w = union_push(v, xs.drop_last());
        if w.contains(xs.last()) {
            w
        } else {
            w.push(xs.last())
        }
    }
}

/// `union_push(v, xs)` starts with `v`, holds exactly what `v` or `xs`
/// holds, and holds nothing twice if `v` does not.
pub proof fn lemma_union_push<A>(v: Seq<A>, xs: Seq<A>)
    ensures
        union_push(v, xs).len() >= v.len(),
        union_push(v, xs).take(v.len() as int) == v,
        forall|x: A| #[trigger] union_push(v, xs).contains(x) <==> v.contains(x) || xs.contains(x),
        v.no_duplicates() ==> union_push(v, xs).no_duplicates(),
    decreases xs.len(),
{
    if xs.len() > 0 {
        let init = xs.drop_last();
        let e = xs.last();
        lemma_union_push(v, init);
        let w = union_push(v, init);
        assert(xs == init.push(e));
        assert forall|x: A| #[trigger] union_push(v, xs).contains(x) <==> v.contains(x) || xs.contains(x) by {
            if xs.contains(x) && !init.contains(x) {
                let k = choose|k: int| 0 <= k < xs.len() && xs[k] == x;
                if k < init.len() {
                    assert(init[k] == x);
                }
            }
            if init.contains(x) {
                let k = choose|k: int| 0 <= k < init.len() && init[k] == x;
                assert(xs[k] == x);
            }
            if !w.contains(e) && w.push(e).contains(x) && x != e {
                let k = choose|k: int| 0 <= k < w.push(e).len() && w.push(e)[k] == x;
                assert(w[k] == x);
            }
            if !w.contains(e) && w.contains(x) {
                let k = choose|k: int| 0 <= k < w.len() && w[k] == x;
                assert(w.push(e)[k] == x);
            }
            if !w.contains(e) && x == e {
                assert(w.push(e)[w.len() as int] == x);
            }
        }
        if !w.contains(e) {
            assert(w.push(e).take(v.len() as int) =~= w.take(v.len() as int));
            if v.no_duplicates() {
                let u = w.push(e);
                assert forall|i: int, j: int| 0 <= i < u.len() && 0 <= j < u.len() && i != j implies u[i] != u[j] by {
                    if i < w.len() && j < w.len() {
                        assert(u[i] == w[i] && u[j] == w[j]);
                    } else if i < w.len() {
                        assert(u[i] == w[i]);
                    } else {
                        assert(u[j] == w[j]);
                    }
                }
            }
        }
    }
}

} // verus!
