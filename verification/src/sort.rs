//! Stable ordering of items by integer-sequence keys.
//!
//! Every ordering in the crate (newest chat first, names in byte order, largest
//! upload first) is an increasing order of a key made of integers and compared
//! lexicographically; items with equal keys keep their original order.

use vstd::prelude::*;

verus! {

/// `a` comes strictly before `b` in lexicographic order (a proper prefix first).
pub open spec fn lex_lt(a: Seq<i128>, b: Seq<i128>) -> bool
    decreases a.len(),
{
    if a.len() == 0 {
        b.len() > 0
    } else if b.len() == 0 {
        false
    } else if a[0] < b[0] {
        true
    } else if a[0] > b[0] {
        false
    } else {
        lex_lt(a.drop_first(), b.drop_first())
    }
}

/// `idx` lists each of `0..n` exactly once.
pub open spec fn is_permutation(idx: Seq<int>, n: nat) -> bool {
    &&& idx.len() == n
    &&& forall|k: int| 0 <= k < n ==> 0 <= #[trigger] idx[k] < n
    &&& forall|k: int, l: int| 0 <= k < l < n ==> #[trigger] idx[k] != #[trigger] idx[l]
}

/// `r` is `items` rearranged by `idx`, in increasing order of `keys`, items
/// with equal keys in their original order.
pub open spec fn arranged_by<T>(items: Seq<T>, keys: Seq<Seq<i128>>, r: Seq<T>, idx: Seq<int>) -> bool {
    &&& is_permutation(idx, items.len())
    &&& r.len() == items.len()
    &&& forall|k: int| 0 <= k < r.len() ==> r[k] == items[#[trigger] idx[k]]
    &&& forall|k: int, l: int|
        0 <= k < l < r.len() ==> lex_lt(keys[#[trigger] idx[k]], keys[#[trigger] idx[l]]) || (
        keys[idx[k]] == keys[idx[l]] && idx[k] < idx[l])
}

/// `r` is the stable sort of `items` by `keys`.
pub open spec fn stably_sorted<T>(items: Seq<T>, keys: Seq<Seq<i128>>, r: Seq<T>) -> bool {
    exists|idx: Seq<int>| arranged_by(items, keys, r, idx)
}

/// No key comes strictly before itself.
pub proof fn lemma_lex_irreflexive(a: Seq<i128>)
    ensures
        !lex_lt(a, a),
    decreases a.len(),
{
    if a.len() > 0 {
        lemma_lex_irreflexive(a.drop_first());
    }
}

/// Of two keys, one comes first unless they are equal, and never both.
pub proof fn lemma_lex_total(a: Seq<i128>, b: Seq<i128>)
    ensures
        lex_lt(a, b) || lex_lt(b, a) || a == b,
        lex_lt(a, b) ==> !lex_lt(b, a),
    decreases a.len(),
{
    if a.len() > 0 && b.len() > 0 {
        lemma_lex_total(a.drop_first(), b.drop_first());
        if a[0] == b[0] && a.drop_first() == b.drop_first() {
            assert(a =~= seq![a[0]] + a.drop_first());
            assert(b =~= seq![b[0]] + b.drop_first());
        }
    } else if a.len() == 0 && b.len() == 0 {
        assert(a =~= b);
    }
}

/// The lexicographic order is transitive.
pub proof fn lemma_lex_transitive(a: Seq<i128>, b: Seq<i128>, c: Seq<i128>)
    ensures
        lex_lt(a, b) && lex_lt(b, c) ==> lex_lt(a, c),
    decreases a.len(),
{
    if a.len() > 0 && b.len() > 0 && c.len() > 0 {
        lemma_lex_transitive(a.drop_first(), b.drop_first(), c.drop_first());
    }
}

/// The lexicographic order is irreflexive, total and transitive.
pub proof fn lemma_lex_order(a: Seq<i128>, b: Seq<i128>, c: Seq<i128>)
    ensures
        !lex_lt(a, a),
        lex_lt(a, b) || lex_lt(b, a) || a == b,
        lex_lt(a, b) ==> !lex_lt(b, a),
        lex_lt(a, b) && lex_lt(b, c) ==> lex_lt(a, c),
{
    lemma_lex_irreflexive(a);
    lemma_lex_total(a, b);
    lemma_lex_transitive(a, b, c);
}

/// `a` comes strictly before `b`.
pub fn key_lt(a: &Vec<i128>, b: &Vec<i128>) -> (r: bool)
    ensures
        r == lex_lt(a@, b@),
{
    let mut i: usize = 0;
    assert(a@.skip(0) =~= a@);
    assert(b@.skip(0) =~= b@);
    while i < a.len() && i < b.len()
        invariant
            i <= a.len(),
            i <= b.len(),
            lex_lt(a@, b@) == lex_lt(a@.skip(i as int), b@.skip(i as int)),
        decreases a.len() - i,
    {
        assert(a@.skip(i as int)[0] == a@[i as int]);
        assert(b@.skip(i as int)[0] == b@[i as int]);
        if a[i] < b[i] {
            return true;
        }
        if a[i] > b[i] {
            return false;
        }
        assert(a@.skip(i as int).drop_first() =~= a@.skip(i + 1));
        assert(b@.skip(i as int).drop_first() =~= b@.skip(i + 1));
        i += 1;
    }
    i < b.len()
}

/// Sorts `items` stably in increasing order of `keys` (one key per item).
pub fn stable_sort<T>(items: Vec<T>, keys: Vec<Vec<i128>>) -> (r: Vec<T>)
    requires
        items.len() == keys.len(),
    ensures
        stably_sorted(items@, keys@.map_values(|k: Vec<i128>| k@), r@),
{
    let ghost orig = items@;
    let ghost okeys = keys@.map_values(|k: Vec<i128>| k@);
    let n = items.len();
    let mut rest = items;
    let mut rest_keys = keys;
    let mut r: Vec<T> = Vec::new();
    let mut rk: Vec<Vec<i128>> = Vec::new();
    let ghost mut idx: Seq<int> = Seq::empty();
    let mut i: usize = 0;
    while i < n
        invariant
            n == orig.len(),
            okeys.len() == n,
            i <= n,
            rest@ == orig.subrange(i as int, n as int),
            rest_keys@.len() == n - i,
            forall|j: int| 0 <= j < n - i ==> #[trigger] rest_keys@[j]@ == okeys[i + j],
            r@.len() == i,
            rk@.len() == i,
            idx.len() == i,
            forall|k: int| 0 <= k < i ==> 0 <= #[trigger] idx[k] < i,
            forall|k: int, l: int| 0 <= k < l < i ==> #[trigger] idx[k] != #[trigger] idx[l],
            forall|k: int| 0 <= k < i ==> r@[k] == orig[#[trigger] idx[k]],
            forall|k: int| 0 <= k < i ==> #[trigger] rk@[k]@ == okeys[idx[k]],
            forall|k: int, l: int|
                0 <= k < l < i ==> lex_lt(#[trigger] rk@[k]@, #[trigger] rk@[l]@) || (rk@[k]@
                    == rk@[l]@ && idx[k] < idx[l]),
        decreases n - i,
    {
        let item = rest.remove(0);
        let key = rest_keys.remove(0);
        assert(key@ == okeys[i as int]);
        assert(item == orig[i as int]);
        // first position whose key is strictly greater
        let mut p: usize = 0;
        while p < rk.len() && !key_lt(&key, &rk[p])
            invariant
                p <= rk.len(),
                rk@.len() == i,
                forall|q: int| 0 <= q < p ==> !lex_lt(key@, #[trigger] rk@[q]@),
            decreases rk.len() - p,
        {
            p += 1;
        }
        proof {
            assert forall|q: int| p <= q < i implies lex_lt(key@, #[trigger] rk@[q]@) by {
                if q > p {
                    assert(lex_lt(rk@[p as int]@, rk@[q]@) || rk@[p as int]@ == rk@[q]@);
                    lemma_lex_order(key@, rk@[p as int]@, rk@[q]@);
                }
            }
            assert forall|q: int| 0 <= q < p implies lex_lt(#[trigger] rk@[q]@, key@) || rk@[q]@
                == key@ by {
                lemma_lex_order(rk@[q]@, key@, key@);
            }
        }
        let ghost r0 = r@;
        let ghost rk0 = rk@;
        let ghost idx0 = idx;
        r.insert(p, item);
        rk.insert(p, key);
        proof {
            idx = idx0.insert(p as int, i as int);
            assert forall|k: int| 0 <= k < i + 1 implies r@[k] == orig[#[trigger] idx[k]] by {
                if k < p {
                    assert(r@[k] == r0[k]);
                } else if k > p {
                    assert(r@[k] == r0[k - 1]);
                }
            }
            assert forall|k: int| 0 <= k < i + 1 implies #[trigger] rk@[k]@ == okeys[idx[k]] by {
                if k < p {
                    assert(rk@[k] == rk0[k]);
                } else if k > p {
                    assert(rk@[k] == rk0[k - 1]);
                }
            }
            assert forall|k: int| 0 <= k < i + 1 implies 0 <= #[trigger] idx[k] < i + 1 by {}
            assert forall|k: int, l: int| 0 <= k < l < i + 1 implies #[trigger] idx[k]
                != #[trigger] idx[l] by {
                if k < p && l < p {
                } else if k < p && l == p {
                } else if k < p {
                    assert(idx[l] == idx0[l - 1]);
                } else if k == p {
                    assert(idx[l] == idx0[l - 1]);
                } else {
                    assert(idx[l] == idx0[l - 1]);
                    assert(idx[k] == idx0[k - 1]);
                }
            }
            assert forall|k: int, l: int| 0 <= k < l < i + 1 implies lex_lt(
                #[trigger] rk@[k]@,
                #[trigger] rk@[l]@,
            ) || (rk@[k]@ == rk@[l]@ && idx[k] < idx[l]) by {
                if k < p && l < p {
                    assert(rk@[k] == rk0[k] && rk@[l] == rk0[l]);
                } else if k < p && l == p {
                    assert(rk@[k] == rk0[k]);
                    assert(idx[k] == idx0[k]);
                } else if k < p {
                    assert(rk@[k] == rk0[k] && rk@[l] == rk0[l - 1]);
                    assert(idx[k] == idx0[k] && idx[l] == idx0[l - 1]);
                } else if k == p {
                    assert(rk@[l] == rk0[l - 1]);
                } else {
                    assert(rk@[k] == rk0[k - 1] && rk@[l] == rk0[l - 1]);
                    assert(idx[k] == idx0[k - 1] && idx[l] == idx0[l - 1]);
                }
            }
        }
        assert(rest@ =~= orig.subrange(i + 1, n as int));
        i += 1;
    }
    assert forall|k: int, l: int|
        0 <= k < l < r@.len() implies lex_lt(okeys[#[trigger] idx[k]], okeys[#[trigger] idx[l]]) || (
        okeys[idx[k]] == okeys[idx[l]] && idx[k] < idx[l]) by {
        assert(rk@[k]@ == okeys[idx[k]]);
        assert(rk@[l]@ == okeys[idx[l]]);
    }
    assert(arranged_by(orig, okeys, r@, idx));
    r
}


/// Sorting commutes with looking at the items through `f`: the images of a
/// stable sort are a stable sort of the images, by the same keys.
pub proof fn lemma_sorted_map<T, U>(items: Seq<T>, keys: Seq<Seq<i128>>, r: Seq<T>, f: spec_fn(T) -> U)
    requires
        stably_sorted(items, keys, r),
    ensures
        stably_sorted(items.map_values(f), keys, r.map_values(f)),
{
    let idx = choose|idx: Seq<int>| arranged_by(items, keys, r, idx);
    assert(arranged_by(items.map_values(f), keys, r.map_values(f), idx));
}

/// Items told apart by `f` stay told apart after a stable sort: the sort only
/// rearranges them.
pub proof fn lemma_sorted_distinct<T, U>(
    items: Seq<T>,
    keys: Seq<Seq<i128>>,
    r: Seq<T>,
    f: spec_fn(T) -> U,
)
    requires
        stably_sorted(items, keys, r),
        forall|a: int, b: int| 0 <= a < b < items.len() ==> f(#[trigger] items[a]) != f(#[trigger] items[b]),
    ensures
        forall|a: int, b: int| 0 <= a < b < r.len() ==> f(#[trigger] r[a]) != f(#[trigger] r[b]),
{
    let idx = choose|idx: Seq<int>| arranged_by(items, keys, r, idx);
    assert forall|a: int, b: int| 0 <= a < b < r.len() implies f(#[trigger] r[a]) != f(
        #[trigger] r[b],
    ) by {
        assert(r[a] == items[idx[a]]);
        assert(r[b] == items[idx[b]]);
        assert(idx[a] != idx[b]);
        if idx[a] < idx[b] {
            assert(f(items[idx[a]]) != f(items[idx[b]]));
        } else {
            assert(f(items[idx[b]]) != f(items[idx[a]]));
        }
    }
}

/// The key that orders texts by character codes, as `String`'s order does.
pub open spec fn text_key(s: Seq<char>) -> Seq<i128> {
    s.map_values(|c: char| (c as u32) as i128)
}

/// The key of `s` (see `text_key`).
pub fn text_key_exec(s: &str) -> (k: Vec<i128>)
    ensures
        k@ == text_key(s@),
{
    let cs = crate::text::chars_of(s);
    let mut k: Vec<i128> = Vec::new();
    let mut i: usize = 0;
    while i < cs.len()
        invariant
            i <= cs.len(),
            cs@ == s@,
            k@ == text_key(cs@.take(i as int)),
        decreases cs.len() - i,
    {
        k.push((cs[i] as u32) as i128);
        assert(text_key(cs@.take(i + 1)) =~= text_key(cs@.take(i as int)).push(
            (cs@[i as int] as u32) as i128,
        ));
        i += 1;
    }
    assert(cs@.take(cs.len() as int) =~= cs@);
    k
}

} // verus!
