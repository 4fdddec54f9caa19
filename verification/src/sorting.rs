//! Stable, descending ordering of a list by integer keys.
//!
//! Every "largest first" listing of the tool (projects by size, caches by size,
//! projects by cleanup priority, summary groups) goes through the insertion
//! sort below, which is proved to produce a stable arrangement.
use vstd::prelude::*;

verus! {

/// `perm` lists each of the indices `0..n` exactly once.
pub open spec fn is_index_permutation(perm: Seq<int>, n: nat) -> bool {
    &&& perm.len() == n
    &&& forall|i: int| 0 <= i < n ==> 0 <= #[trigger] perm[i] < n
    &&& forall|i: int, j: int| 0 <= i < j < n ==> #[trigger] perm[i] != #[trigger] perm[j]
    &&& forall|v: int| 0 <= v < n ==> #[trigger] has_preimage(perm, v)
}

/// Some position of `perm` holds `v`.
pub open spec fn has_preimage(perm: Seq<int>, v: int) -> bool {
    exists|i: int| 0 <= i < perm.len() && #[trigger] perm[i] == v
}

/// `result` holds the elements of `orig` rearranged by `perm`, largest key first,
/// and elements with equal keys keep their original relative order.
pub open spec fn stable_desc_arrangement<T>(
    orig: Seq<T>,
    keys: Seq<u128>,
    result: Seq<T>,
    perm: Seq<int>,
) -> bool {
    &&& is_index_permutation(perm, orig.len())
    &&& result.len() == orig.len()
    &&& forall|i: int| 0 <= i < result.len() ==> #[trigger] result[i] == orig[perm[i]]
    &&& forall|i: int, j: int|
        0 <= i < j < result.len() ==> keys[#[trigger] perm[i]] >= keys[#[trigger] perm[j]]
    &&& forall|i: int, j: int|
        0 <= i < j < result.len() && keys[perm[i]] == keys[perm[j]] ==> #[trigger] perm[i]
            < #[trigger] perm[j]
}

/// `result` is the stable descending ordering of `orig` by `keys`.
pub open spec fn is_stable_desc_sort<T>(orig: Seq<T>, keys: Seq<u128>, result: Seq<T>) -> bool {
    exists|perm: Seq<int>| stable_desc_arrangement(orig, keys, result, perm)
}

/// Reorders `items` so that larger keys come first; items with equal keys keep
/// their relative order (`keys[i]` is the key of `items[i]`).
pub fn sort_desc_by_keys<T>(items: &mut Vec<T>, keys: Vec<u128>)
    requires
        old(items)@.len() == keys@.len(),
    ensures
        is_stable_desc_sort(old(items)@, keys@, final(items)@),
{
    let ghost orig = items@;
    let ghost k0 = keys@;
    let mut ks = keys;
    let n = items.len();
    let ghost mut perm: Seq<int> = Seq::new(n as nat, |t: int| t);
    assert forall|v: int| 0 <= v < n implies #[trigger] has_preimage(perm, v) by {
        assert(perm[v] == v);
    }
    let mut i: usize = 0;
    while i < n
        invariant
            n == orig.len(),
            n == k0.len(),
            items@.len() == n,
            ks@.len() == n,
            0 <= i <= n,
            is_index_permutation(perm, n as nat),
            forall|t: int| 0 <= t < n ==> #[trigger] items@[t] == orig[perm[t]],
            forall|t: int| 0 <= t < n ==> #[trigger] ks@[t] == k0[perm[t]],
            forall|t: int| i <= t < n ==> #[trigger] perm[t] == t,
            forall|a: int, b: int|
                0 <= a < b < i ==> k0[#[trigger] perm[a]] >= k0[#[trigger] perm[b]],
            forall|a: int, b: int|
                0 <= a < b < i && k0[perm[a]] == k0[perm[b]] ==> #[trigger] perm[a]
                    < #[trigger] perm[b],
        decreases n - i,
    {
        let ghost items_before = items@;
        let ghost ks_before = ks@;
        let ghost perm_before = perm;
        assert(forall|t: int| 0 <= t < i ==> 0 <= #[trigger] perm_before[t] < i) by {
            assert forall|t: int| 0 <= t < i implies 0 <= #[trigger] perm_before[t] < i by {
                if perm_before[t] >= i {
                    let u = perm_before[t];
                    assert(perm_before[u] == u);
                    assert(perm_before[t] != perm_before[u]);
                }
            }
        }
        let x = items.remove(i);
        let kx = ks.remove(i);
        proof {
            items_before.remove_ensures(i as int);
            ks_before.remove_ensures(i as int);
        }
        assert(kx == k0[i as int]);
        let mut j: usize = i;
        while j > 0 && ks[j - 1] < kx
            invariant
                0 <= j <= i < n,
                ks@ == ks_before.remove(i as int),
                ks_before.len() == n,
                kx == k0[i as int],
                forall|t: int| 0 <= t < n ==> #[trigger] ks_before[t] == k0[perm_before[t]],
                forall|t: int| j <= t < i ==> #[trigger] ks_before[t] < kx,
            decreases j,
        {
            proof {
                ks_before.remove_ensures(i as int);
            }
            j = j - 1;
        }
        proof {
            ks_before.remove_ensures(i as int);
            if j > 0 {
                assert(ks_before[j - 1] >= kx);
            }
        }
        items.insert(j, x);
        ks.insert(j, kx);
        proof {
            items_before.remove(i as int).insert_ensures(j as int, x);
            ks_before.remove(i as int).insert_ensures(j as int, kx);
            perm_before.remove_ensures(i as int);
            perm_before.remove(i as int).insert_ensures(j as int, i as int);
            perm = perm_before.remove(i as int).insert(j as int, i as int);
            let pb = perm_before;
            // shape of the new arrangement
            assert forall|t: int| 0 <= t < j implies #[trigger] perm[t] == pb[t] by {}
            assert(perm[j as int] == i);
            assert forall|t: int| j < t <= i implies #[trigger] perm[t] == pb[t - 1] by {}
            assert forall|t: int| i < t < n implies #[trigger] perm[t] == pb[t] by {}
            assert forall|t: int| 0 <= t < n implies #[trigger] items@[t] == orig[perm[t]] by {
                if t < j {
                } else if t == j {
                } else if t <= i {
                    assert(items@[t] == items_before[t - 1]);
                } else {
                    assert(items@[t] == items_before[t]);
                }
            }
            assert forall|t: int| 0 <= t < n implies #[trigger] ks@[t] == k0[perm[t]] by {
                if t < j {
                } else if t == j {
                } else if t <= i {
                    assert(ks@[t] == ks_before[t - 1]);
                } else {
                    assert(ks@[t] == ks_before[t]);
                }
            }
            assert forall|t: int| 0 <= t < n implies 0 <= #[trigger] perm[t] < n by {
                if t < j {
                } else if t == j {
                } else if t <= i {
                    assert(perm[t] == pb[t - 1]);
                } else {
                }
            }
            assert forall|a: int, b: int| 0 <= a < b < n implies #[trigger] perm[a]
                != #[trigger] perm[b] by {
                let pa = if a < j {
                    a
                } else if a == j {
                    -1
                } else if a <= i {
                    a - 1
                } else {
                    a
                };
                let pbb = if b < j {
                    b
                } else if b == j {
                    -1
                } else if b <= i {
                    b - 1
                } else {
                    b
                };
                if a == j {
                    assert(perm[a] == i);
                    assert(perm[b] == pb[pbb]);
                    assert(pbb != i);
                    assert(pb[pbb] != pb[i as int]);
                } else if b == j {
                    assert(perm[b] == i);
                    assert(perm[a] == pb[pa]);
                    assert(pb[pa] != pb[i as int]);
                } else {
                    assert(perm[a] == pb[pa]);
                    assert(perm[b] == pb[pbb]);
                    assert(pa < pbb);
                    assert(pb[pa] != pb[pbb]);
                }
            }
            assert forall|v: int| 0 <= v < n implies #[trigger] has_preimage(perm, v) by {
                if v == i {
                    assert(perm[j as int] == v);
                } else {
                    assert(has_preimage(pb, v));
                    let q0 = choose|q: int| 0 <= q < pb.len() && #[trigger] pb[q] == v;
                    assert(q0 != i);
                    if q0 < j {
                        assert(perm[q0] == v);
                    } else if q0 < i {
                        assert(perm[q0 + 1] == pb[q0]);
                    } else {
                        assert(perm[q0] == pb[q0]);
                    }
                }
            }
            assert forall|t: int| i + 1 <= t < n implies #[trigger] perm[t] == t by {}
            assert forall|a: int, b: int| 0 <= a < b < i + 1 implies k0[#[trigger] perm[a]]
                >= k0[#[trigger] perm[b]] by {
                assert(ks@[a] == k0[perm[a]]);
                assert(ks@[b] == k0[perm[b]]);
                if b < j {
                    assert(k0[pb[a]] >= k0[pb[b]]);
                } else if b == j {
                    // everything before the insertion point has key >= kx
                    assert(k0[pb[j - 1]] >= kx);
                    if a < j - 1 {
                        assert(k0[pb[a]] >= k0[pb[j - 1]]);
                    }
                } else if a == j {
                    assert(ks_before[b - 1] < kx);
                } else if a < j {
                    assert(k0[pb[a]] >= k0[pb[b - 1]]);
                } else {
                    assert(k0[pb[a - 1]] >= k0[pb[b - 1]]);
                }
            }
            assert forall|a: int, b: int|
                0 <= a < b < i + 1 && k0[perm[a]] == k0[perm[b]] implies #[trigger] perm[a]
                < #[trigger] perm[b] by {
                if b < j {
                } else if b == j {
                    assert(0 <= pb[a] < i);
                } else if a == j {
                    assert(ks_before[b - 1] < kx);
                    assert(ks_before[b - 1] == k0[pb[b - 1]]);
                } else if a < j {
                    assert(perm[b] == pb[b - 1]);
                } else {
                    assert(perm[a] == pb[a - 1]);
                    assert(perm[b] == pb[b - 1]);
                }
            }
        }
        i = i + 1;
    }
    assert(stable_desc_arrangement(orig, k0, items@, perm));
}

} // verus!

verus! {

proof fn lemma_arrangements_agree_at<T>(
    orig: Seq<T>,
    keys: Seq<u128>,
    r1: Seq<T>,
    r2: Seq<T>,
    p1: Seq<int>,
    p2: Seq<int>,
    i: int,
)
    requires
        stable_desc_arrangement(orig, keys, r1, p1),
        stable_desc_arrangement(orig, keys, r2, p2),
        0 <= i < orig.len(),
        forall|t: int| 0 <= t < i ==> p1[t] == p2[t],
    ensures
        p1[i] == p2[i],
{
    let n = orig.len() as int;
    let x = p1[i];
    let y = p2[i];
    if x != y {
        assert(0 <= y < n);
        assert(has_preimage(p1, y));
        let j = choose|j: int| 0 <= j < p1.len() && #[trigger] p1[j] == y;
        if j < i {
            assert(p2[j] == y);
            assert(p2[j] != p2[i]);
        }
        assert(0 <= x < n);
        assert(has_preimage(p2, x));
        let k = choose|k: int| 0 <= k < p2.len() && #[trigger] p2[k] == x;
        if k < i {
            assert(p1[k] == x);
            assert(p1[k] != p1[i]);
        }
        assert(keys[p1[i]] >= keys[p1[j]]);
        assert(keys[p2[i]] >= keys[p2[k]]);
        assert(p1[i] < p1[j]);
        assert(p2[i] < p2[k]);
    }
}

proof fn lemma_arrangements_agree_below<T>(
    orig: Seq<T>,
    keys: Seq<u128>,
    r1: Seq<T>,
    r2: Seq<T>,
    p1: Seq<int>,
    p2: Seq<int>,
    m: int,
)
    requires
        stable_desc_arrangement(orig, keys, r1, p1),
        stable_desc_arrangement(orig, keys, r2, p2),
        0 <= m <= orig.len(),
    ensures
        forall|t: int| 0 <= t < m ==> p1[t] == p2[t],
    decreases m,
{
    if m > 0 {
        lemma_arrangements_agree_below(orig, keys, r1, r2, p1, p2, m - 1);
        lemma_arrangements_agree_at(orig, keys, r1, r2, p1, p2, m - 1);
    }
}

/// The stable descending ordering of a list by given keys is unique: two
/// results that both are it are equal.
pub proof fn stable_desc_sort_is_unique<T>(orig: Seq<T>, keys: Seq<u128>, r1: Seq<T>, r2: Seq<T>)
    requires
        is_stable_desc_sort(orig, keys, r1),
        is_stable_desc_sort(orig, keys, r2),
    ensures
        r1 == r2,
{
    let p1 = choose|p: Seq<int>| stable_desc_arrangement(orig, keys, r1, p);
    let p2 = choose|p: Seq<int>| stable_desc_arrangement(orig, keys, r2, p);
    lemma_arrangements_agree_below(orig, keys, r1, r2, p1, p2, orig.len() as int);
    assert forall|t: int| 0 <= t < r1.len() implies r1[t] == r2[t] by {
        assert(r1[t] == orig[p1[t]]);
        assert(r2[t] == orig[p2[t]]);
    }
    assert(r1 =~= r2);
}

} // verus!
