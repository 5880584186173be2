//! Stable ordering by a numeric key, largest key first: the order that
//! `sort_by_key(|x| Reverse(key(x)))` gives.
use vstd::prelude::*;

verus! {

/// `order` lists each index of `keys` exactly once.
pub open spec fn is_index_permutation(order: Seq<usize>, n: nat) -> bool {
    &&& order.len() == n
    &&& forall|a: int| 0 <= a < order.len() ==> #[trigger] order[a] < n
    &&& forall|a: int, b: int| 0 <= a < b < order.len() ==> order[a] != order[b]
}

/// `order` puts larger keys first and, among equal keys, keeps the original
/// order: it is what a stable sort by descending key produces.
pub open spec fn is_stable_desc_order(order: Seq<usize>, keys: Seq<u64>) -> bool {
    &&& is_index_permutation(order, keys.len())
    &&& forall|a: int, b: int|
        0 <= a < b < order.len() ==> keys[order[a] as int] >= keys[order[b] as int]
    &&& forall|a: int, b: int|
        0 <= a < b < order.len() && keys[order[a] as int] == keys[order[b] as int] ==> order[a]
            < order[b]
}

/// `order` is the stable descending order of the first `i` keys of `keys`.
pub open spec fn is_stable_desc_prefix(order: Seq<usize>, keys: Seq<u64>, i: nat) -> bool {
    &&& i <= keys.len()
    &&& order.len() == i
    &&& forall|a: int| 0 <= a < order.len() ==> #[trigger] order[a] < i
    &&& forall|a: int, b: int| 0 <= a < b < order.len() ==> order[a] != order[b]
    &&& forall|a: int, b: int|
        0 <= a < b < order.len() ==> keys[order[a] as int] >= keys[order[b] as int]
    &&& forall|a: int, b: int|
        0 <= a < b < order.len() && keys[order[a] as int] == keys[order[b] as int] ==> order[a]
            < order[b]
}

/// The stable descending order of `keys` (there is exactly one).
pub open spec fn stable_desc_order_of(keys: Seq<u64>) -> Seq<usize> {
    choose|o: Seq<usize>| is_stable_desc_order(o, keys)
}

/// Inserting index `i` after every index whose key is at least its own keeps
/// the order stable and descending.
proof fn lemma_insert_step(old: Seq<usize>, keys: Seq<u64>, i: nat, pos: int)
    requires
        is_stable_desc_prefix(old, keys, i),
        i < keys.len(),
        i < usize::MAX,
        0 <= pos <= old.len(),
        forall|a: int| 0 <= a < pos ==> keys[#[trigger] old[a] as int] >= keys[i as int],
        forall|a: int| pos <= a < old.len() ==> keys[#[trigger] old[a] as int] < keys[i as int],
    ensures
        is_stable_desc_prefix(old.insert(pos, i as usize), keys, i + 1),
{
    let k = keys[i as int];
    let o = old.insert(pos, i as usize);
    assert forall|a: int| 0 <= a < o.len() implies #[trigger] o[a] < i + 1 by {
        if a < pos {
            assert(o[a] == old[a]);
        } else if a > pos {
            assert(o[a] == old[a - 1]);
        }
    }
    assert forall|a: int, b: int| 0 <= a < b < o.len() implies o[a] != o[b] by {
        if a < pos && b < pos {
        } else if a < pos && b == pos {
            assert(old[a] < i);
        } else if a < pos && b > pos {
            assert(o[b] == old[b - 1]);
        } else if a == pos {
            assert(o[b] == old[b - 1]);
            assert(old[b - 1] < i);
        } else {
            assert(o[a] == old[a - 1]);
            assert(o[b] == old[b - 1]);
        }
    }
    assert forall|a: int, b: int| 0 <= a < b < o.len() implies keys[o[a] as int] >= keys[o[
        b] as int] by {
        if a < pos && b < pos {
        } else if a < pos && b == pos {
        } else if a < pos && b > pos {
            assert(o[b] == old[b - 1]);
        } else if a == pos {
            assert(o[b] == old[b - 1]);
            assert(keys[old[b - 1] as int] < k);
        } else {
            assert(o[a] == old[a - 1]);
            assert(o[b] == old[b - 1]);
        }
    }
    assert forall|a: int, b: int|
        0 <= a < b < o.len() && keys[o[a] as int] == keys[o[b] as int] implies o[a] < o[b] by {
        if a < pos && b < pos {
        } else if a < pos && b == pos {
            assert(old[a] < i);
        } else if a < pos && b > pos {
            assert(o[b] == old[b - 1]);
        } else if a == pos {
            assert(o[b] == old[b - 1]);
            assert(keys[old[b - 1] as int] < k);
        } else {
            assert(o[a] == old[a - 1]);
            assert(o[b] == old[b - 1]);
        }
    }
}

/// The first position of `old`, from `p` on, whose key is below the key of `i`.
proof fn lemma_find_pos(old: Seq<usize>, keys: Seq<u64>, i: nat, p: int) -> (pos: int)
    requires
        is_stable_desc_prefix(old, keys, i),
        i < keys.len(),
        0 <= p <= old.len(),
        forall|a: int| 0 <= a < p ==> keys[#[trigger] old[a] as int] >= keys[i as int],
    ensures
        0 <= pos <= old.len(),
        forall|a: int| 0 <= a < pos ==> keys[#[trigger] old[a] as int] >= keys[i as int],
        forall|a: int| pos <= a < old.len() ==> keys[#[trigger] old[a] as int] < keys[i as int],
    decreases old.len() - p,
{
    if p == old.len() {
        p
    } else if keys[old[p] as int] < keys[i as int] {
        assert forall|a: int| p <= a < old.len() implies keys[#[trigger] old[a] as int]
            < keys[i as int] by {
            if a > p {
                assert(keys[old[p] as int] >= keys[old[a] as int]);
            }
        }
        p
    } else {
        lemma_find_pos(old, keys, i, p + 1)
    }
}

proof fn lemma_prefix_exists(keys: Seq<u64>, i: nat) -> (order: Seq<usize>)
    requires
        i <= keys.len() <= usize::MAX,
    ensures
        is_stable_desc_prefix(order, keys, i),
    decreases i,
{
    if i == 0 {
        Seq::<usize>::empty()
    } else {
        let old = lemma_prefix_exists(keys, (i - 1) as nat);
        let pos = lemma_find_pos(old, keys, (i - 1) as nat, 0);
        lemma_insert_step(old, keys, (i - 1) as nat, pos);
        old.insert(pos, (i - 1) as usize)
    }
}

/// Every list of keys has a stable descending order, and
/// `stable_desc_order_of` is one.
pub proof fn lemma_stable_desc_order_exists(keys: Seq<u64>)
    requires
        keys.len() <= usize::MAX,
    ensures
        is_stable_desc_order(stable_desc_order_of(keys), keys),
{
    let o = lemma_prefix_exists(keys, keys.len());
    assert(is_stable_desc_order(o, keys));
}

/// The stable descending order of `keys`, as a list of indices.
pub fn stable_desc_order(keys: &[u64]) -> (order: Vec<usize>)
    ensures
        is_stable_desc_order(order@, keys@),
        order@ == stable_desc_order_of(keys@),
{
    let n = keys.len();
    let mut order: Vec<usize> = Vec::new();
    let mut i: usize = 0;
    while i < n
        invariant
            i <= n == keys@.len(),
            is_stable_desc_prefix(order@, keys@, i as nat),
        decreases n - i,
    {
        let k = keys[i];
        // first position whose key is smaller than `k`
        let mut pos: usize = 0;
        while pos < order.len() && keys[order[pos]] >= k
            invariant
                pos <= order@.len() == i,
                i < n == keys@.len(),
                k == keys@[i as int],
                is_stable_desc_prefix(order@, keys@, i as nat),
                forall|a: int| 0 <= a < pos ==> keys@[#[trigger] order@[a] as int] >= k,
            decreases order@.len() - pos,
        {
            pos = pos + 1;
        }
        proof {
            if pos < order@.len() {
                assert forall|a: int| pos <= a < order@.len() implies keys@[
                    #[trigger] order@[a] as int] < k by {
                    if a > pos {
                        assert(keys@[order@[pos as int] as int] >= keys@[order@[a] as int]);
                    }
                }
            }
            lemma_insert_step(order@, keys@, i as nat, pos as int);
        }
        order.insert(pos, i);
        i = i + 1;
    }
    proof {
        lemma_stable_desc_order_exists(keys@);
        lemma_stable_desc_order_unique(order@, stable_desc_order_of(keys@), keys@);
    }
    order
}

/// A stable descending order is unique: two orders that both satisfy
/// `is_stable_desc_order` for the same keys are the same order.
pub proof fn lemma_stable_desc_order_unique(o1: Seq<usize>, o2: Seq<usize>, keys: Seq<u64>)
    requires
        keys.len() <= usize::MAX,
        is_stable_desc_order(o1, keys),
        is_stable_desc_order(o2, keys),
    ensures
        o1 == o2,
{
    // Each index's position is determined by how many indices precede it:
    // those with a larger key, and those with an equal key and a smaller index.
    assert forall|a: int| 0 <= a < o1.len() implies o1[a] == o2[a] by {
        lemma_position_determined(o1, keys, a);
        let x = o1[a];
        lemma_index_occurs(o2, keys.len(), x);
        let b = choose|b: int| 0 <= b < o2.len() && o2[b] == x;
        lemma_position_determined(o2, keys, b);
        assert(a == b);
    }
    assert(o1 =~= o2);
}

/// The indices that precede index `x` in the stable descending order.
pub open spec fn precedes(keys: Seq<u64>, y: int, x: int) -> bool {
    keys[y] > keys[x] || (keys[y] == keys[x] && y < x)
}

/// The number of indices `y < m` that precede `x`.
pub open spec fn count_preceding(keys: Seq<u64>, x: int, m: int) -> nat
    decreases m,
{
    if m <= 0 {
        0
    } else {
        count_preceding(keys, x, m - 1) + if precedes(keys, m - 1, x) {
            1nat
        } else {
            0nat
        }
    }
}

pub proof fn lemma_index_occurs(order: Seq<usize>, n: nat, x: usize)
    requires
        n <= usize::MAX + 1,
        is_index_permutation(order, n),
        x < n,
    ensures
        exists|b: int| 0 <= b < order.len() && order[b] == x,
{
    // A list of `n` distinct indices below `n` holds every index below `n`.
    let s = order.to_set();
    lemma_distinct_to_set_len(order);
    assert forall|e: usize| s.contains(e) implies e < n by {
        let a = choose|a: int| 0 <= a < order.len() && order[a] == e;
        assert(order[a] < n);
    }
    let full = Set::new(|e: usize| e < n);
    lemma_range_set_len(n);
    assert(s.subset_of(full));
    vstd::set_lib::lemma_len_subset(s, full);
    if !s.contains(x) {
        assert(s.subset_of(full.remove(x)));
        vstd::set_lib::lemma_len_subset(s, full.remove(x));
        assert(full.contains(x));
    }
    assert(s.contains(x));
}

proof fn lemma_distinct_to_set_len(order: Seq<usize>)
    requires
        forall|a: int, b: int| 0 <= a < b < order.len() ==> order[a] != order[b],
    ensures
        order.to_set().len() == order.len(),
        order.to_set().finite(),
{
    assert(order.no_duplicates()) by {
        assert forall|a: int, b: int| 0 <= a < order.len() && 0 <= b < order.len() && a != b
            implies order[a] != order[b] by {
            if a < b {
            } else {
            }
        }
    }
    order.unique_seq_to_set();
}

proof fn lemma_range_set_len(n: nat)
    requires
        n <= usize::MAX + 1,
    ensures
        Set::new(|e: usize| e < n).finite(),
        Set::new(|e: usize| e < n).len() == n,
    decreases n,
{
    if n == 0 {
        assert(Set::new(|e: usize| e < n) =~= Set::<usize>::empty());
    } else {
        lemma_range_set_len((n - 1) as nat);
        let small = Set::new(|e: usize| e < (n - 1) as nat);
        let big = Set::new(|e: usize| e < n);
        assert(big =~= small.insert((n - 1) as usize));
        assert(!small.contains((n - 1) as usize));
    }
}

proof fn lemma_position_determined(order: Seq<usize>, keys: Seq<u64>, a: int)
    requires
        keys.len() <= usize::MAX,
        is_stable_desc_order(order, keys),
        0 <= a < order.len(),
    ensures
        a == count_preceding(keys, order[a] as int, keys.len() as int),
{
    // The indices that precede order[a] are exactly order[0..a].
    let x = order[a] as int;
    let n = keys.len() as int;
    let before = order.subrange(0, a).to_set();
    let prec = Set::new(|y: usize| y < n && precedes(keys, y as int, x));
    assert forall|y: usize| before.contains(y) <==> prec.contains(y) by {
        if before.contains(y) {
            let c = choose|c: int| 0 <= c < a && order.subrange(0, a)[c] == y;
            assert(order[c] == y);
        }
        if prec.contains(y) {
            lemma_index_occurs(order, keys.len(), y);
            let c = choose|c: int| 0 <= c < order.len() && order[c] == y;
            if c >= a {
                if c == a {
                    assert(!precedes(keys, x, x));
                } else {
                    assert(keys[order[a] as int] >= keys[order[c] as int]);
                }
            }
            assert(order.subrange(0, a)[c] == y);
        }
    }
    assert(before =~= prec);
    lemma_distinct_to_set_len(order.subrange(0, a));
    lemma_count_preceding_is_len(keys, x, n);
}

proof fn lemma_count_preceding_is_len(keys: Seq<u64>, x: int, m: int)
    requires
        0 <= m <= keys.len(),
        keys.len() <= usize::MAX,
        0 <= x < keys.len(),
    ensures
        Set::new(|y: usize| y < m && precedes(keys, y as int, x)).finite(),
        Set::new(|y: usize| y < m && precedes(keys, y as int, x)).len() == count_preceding(
            keys,
            x,
            m,
        ),
    decreases m,
{
    let s = Set::new(|y: usize| y < m && precedes(keys, y as int, x));
    if m == 0 {
        assert(s =~= Set::<usize>::empty());
    } else {
        lemma_count_preceding_is_len(keys, x, m - 1);
        let t = Set::new(|y: usize| y < m - 1 && precedes(keys, y as int, x));
        if precedes(keys, m - 1, x) {
            assert(s =~= t.insert((m - 1) as usize));
            assert(!t.contains((m - 1) as usize));
        } else {
            assert(s =~= t);
        }
    }
}

} // verus!
