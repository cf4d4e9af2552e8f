use vstd::prelude::*;

use crate::rng::lcg_step;

verus! {

/// Sum of the first `n` weights.
pub open spec fn weight_prefix(ws: Seq<int>, n: int) -> int
    decreases n,
{
    if n <= 0 {
        0
    } else {
        weight_prefix(ws, n - 1) + ws[n - 1]
    }
}

/// Sum of all weights.
pub open spec fn weight_total(ws: Seq<int>) -> int {
    weight_prefix(ws, ws.len() as int)
}

/// Every weight is at least one.
pub open spec fn all_positive(ws: Seq<int>) -> bool {
    forall|i: int| 0 <= i < ws.len() ==> #[trigger] ws[i] >= 1
}

/// Where a running-sum scan from index `i` (with `acc` summed so far) stops: the first
/// index whose running sum exceeds `roll`, or the last index when none does.
pub open spec fn scan_index(ws: Seq<int>, roll: int, i: int, acc: int) -> int
    decreases ws.len() - i,
{
    if i < 0 || i >= ws.len() {
        if ws.len() == 0 {
            0
        } else {
            ws.len() - 1
        }
    } else if roll < acc + ws[i] {
        i
    } else {
        scan_index(ws, roll, i + 1, acc + ws[i])
    }
}

/// The index a roll selects: the first one whose running sum of weights exceeds the roll.
pub open spec fn weighted_index(ws: Seq<int>, roll: int) -> int {
    scan_index(ws, roll, 0, 0)
}

/// The sequence after `Vec::swap_remove(i)`: the last item takes the place of item `i`.
pub open spec fn swap_removed<T>(s: Seq<T>, i: int) -> Seq<T> {
    s.update(i, s.last()).drop_last()
}

/// Successive weighted draws without replacement: each draw advances the generator,
/// picks by `weighted_index` over the weights of what is left, and takes the item out
/// with `swap_remove`. Stops after `remaining` draws or when nothing is left.
pub open spec fn draws<T>(items: Seq<T>, weight: spec_fn(T) -> int, rng: u64, remaining: nat) -> Seq<T>
    decreases remaining,
{
    if remaining == 0 || items.len() == 0 {
        Seq::empty()
    } else {
        let next = lcg_step(rng);
        let ws = items.map_values(weight);
        let k = weighted_index(ws, next as int % weight_total(ws));
        seq![items[k]] + draws(swap_removed(items, k), weight, next, (remaining - 1) as nat)
    }
}

pub proof fn lemma_prefix_monotone(ws: Seq<int>, i: int, j: int)
    requires
        0 <= i <= j <= ws.len(),
        forall|k: int| 0 <= k < ws.len() ==> #[trigger] ws[k] >= 0,
    ensures
        weight_prefix(ws, i) <= weight_prefix(ws, j),
    decreases j - i,
{
    if i < j {
        lemma_prefix_monotone(ws, i, j - 1);
        assert(ws[j - 1] >= 0);
    }
}

proof fn lemma_scan_bracket(ws: Seq<int>, roll: int, i: int)
    requires
        0 <= i <= ws.len(),
        weight_prefix(ws, i) <= roll < weight_total(ws),
    ensures
        i <= scan_index(ws, roll, i, weight_prefix(ws, i)) < ws.len(),
        weight_prefix(ws, scan_index(ws, roll, i, weight_prefix(ws, i))) <= roll,
        roll < weight_prefix(ws, scan_index(ws, roll, i, weight_prefix(ws, i)) + 1),
    decreases ws.len() - i,
{
    if i < ws.len() {
        if roll >= weight_prefix(ws, i) + ws[i] {
            assert(weight_prefix(ws, i + 1) == weight_prefix(ws, i) + ws[i]);
            lemma_scan_bracket(ws, roll, i + 1);
        }
    }
}

/// A roll below the total selects an index in range whose bracket of running sums holds
/// the roll.
pub proof fn lemma_weighted_index_bracket(ws: Seq<int>, roll: int)
    requires
        0 <= roll < weight_total(ws),
    ensures
        0 <= weighted_index(ws, roll) < ws.len(),
        weight_prefix(ws, weighted_index(ws, roll)) <= roll < weight_prefix(ws, weighted_index(ws, roll) + 1),
{
    lemma_scan_bracket(ws, roll, 0);
}

/// Weights that are each at least one sum to at least their count.
pub proof fn lemma_total_at_least_len(ws: Seq<int>, n: int)
    requires
        0 <= n <= ws.len(),
        all_positive(ws),
    ensures
        weight_prefix(ws, n) >= n,
    decreases n,
{
    if n > 0 {
        lemma_total_at_least_len(ws, n - 1);
        assert(ws[n - 1] >= 1);
    }
}


/// Weight prefixes of two sequences that agree on their first `n` weights are equal.
pub proof fn lemma_prefix_agrees(a: Seq<int>, b: Seq<int>, n: int)
    requires
        0 <= n <= a.len(),
        n <= b.len(),
        forall|i: int| 0 <= i < n ==> a[i] == b[i],
    ensures
        weight_prefix(a, n) == weight_prefix(b, n),
    decreases n,
{
    if n > 0 {
        lemma_prefix_agrees(a, b, n - 1);
    }
}

proof fn lemma_prefix_update(ws: Seq<int>, k: int, v: int, n: int)
    requires
        0 <= k < n <= ws.len(),
    ensures
        weight_prefix(ws.update(k, v), n) == weight_prefix(ws, n) - ws[k] + v,
    decreases n,
{
    if n - 1 == k {
        lemma_prefix_agrees(ws.update(k, v), ws, n - 1);
    } else {
        lemma_prefix_update(ws, k, v, n - 1);
    }
}

/// Taking an item out with `swap_remove` takes its weight out of the total.
pub proof fn lemma_total_swap_removed(ws: Seq<int>, k: int)
    requires
        0 <= k < ws.len(),
    ensures
        weight_total(swap_removed(ws, k)) == weight_total(ws) - ws[k],
{
    let n = ws.len() as int;
    let s = swap_removed(ws, k);
    if k == n - 1 {
        assert(ws.update(k, ws.last()) =~= ws);
        lemma_prefix_agrees(s, ws, n - 1);
    } else {
        lemma_prefix_agrees(s, ws.update(k, ws.last()), n - 1);
        lemma_prefix_update(ws, k, ws.last(), n - 1);
    }
}

/// The weights of what `swap_remove` leaves are those of the weights it leaves.
pub proof fn lemma_weights_swap_removed<T>(items: Seq<T>, weight: spec_fn(T) -> int, k: int)
    requires
        0 <= k < items.len(),
    ensures
        swap_removed(items, k).map_values(weight) == swap_removed(items.map_values(weight), k),
{
    assert(swap_removed(items, k).map_values(weight) =~= swap_removed(items.map_values(weight), k));
}

/// Two weight lists that agree on their first `n` entries have the same sum of them.
pub(crate) proof fn lemma_swap_removed_parts<T>(items: Seq<T>, k: int)
    requires
        0 <= k < items.len(),
        items.no_duplicates(),
    ensures
        swap_removed(items, k).no_duplicates(),
        !swap_removed(items, k).contains(items[k]),
        forall|x: T| #[trigger] swap_removed(items, k).contains(x) ==> items.contains(x),
        swap_removed(items, k).len() == items.len() - 1,
{
    let sr = swap_removed(items, k);
    let n = items.len() as int;
    assert forall|j: int| 0 <= j < sr.len() implies #[trigger] sr[j] == (if j == k { items[n - 1] } else { items[j] }) by {
    }
    assert forall|x: T| #[trigger] sr.contains(x) implies items.contains(x) by {
        let j = choose|j: int| 0 <= j < sr.len() && sr[j] == x;
        if j == k {
            assert(items[n - 1] == x);
        } else {
            assert(items[j] == x);
        }
    }
    if sr.contains(items[k]) {
        let j = choose|j: int| 0 <= j < sr.len() && sr[j] == items[k];
        if j == k {
            assert(items[n - 1] == items[k]);
        } else {
            assert(items[j] == items[k]);
        }
    }
    assert forall|a: int, b: int| 0 <= a < sr.len() && 0 <= b < sr.len() && a != b implies sr[a] != sr[b] by {
        let ia = if a == k { n - 1 } else { a };
        let ib = if b == k { n - 1 } else { b };
        assert(sr[a] == items[ia]);
        assert(sr[b] == items[ib]);
    }
}

/// Weighted draws without replacement from a list without repeats take as many items as
/// asked, or all there are, each one from the list and none twice.
pub proof fn law_draws_distinct_members<T>(items: Seq<T>, weight: spec_fn(T) -> int, rng: u64, n: nat)
    requires
        items.no_duplicates(),
        forall|x: T| #[trigger] weight(x) >= 1,
    ensures
        draws(items, weight, rng, n).len() == if n < items.len() { n } else { items.len() },
        forall|x: T| #[trigger] draws(items, weight, rng, n).contains(x) ==> items.contains(x),
        draws(items, weight, rng, n).no_duplicates(),
    decreases n,
{
    if n > 0 && items.len() > 0 {
        let next = lcg_step(rng);
        let ws = items.map_values(weight);
        assert forall|i: int| 0 <= i < ws.len() implies #[trigger] ws[i] >= 1 by {
            assert(weight(items[i]) >= 1);
        }
        lemma_total_at_least_len(ws, ws.len() as int);
        let roll = next as int % weight_total(ws);
        lemma_weighted_index_bracket(ws, roll);
        let k = weighted_index(ws, roll);
        let sr = swap_removed(items, k);
        lemma_swap_removed_parts(items, k);
        law_draws_distinct_members(sr, weight, next, (n - 1) as nat);
        let rest = draws(sr, weight, next, (n - 1) as nat);
        let d = draws(items, weight, rng, n);
        assert(d == seq![items[k]] + rest);
        assert forall|x: T| #[trigger] d.contains(x) implies items.contains(x) by {
            let j = choose|j: int| 0 <= j < d.len() && d[j] == x;
            if j > 0 {
                assert(rest[j - 1] == x);
                assert(rest.contains(x));
            }
        }
        assert forall|a: int, b: int| 0 <= a < d.len() && 0 <= b < d.len() && a != b implies d[a] != d[b] by {
            if a == 0 && b > 0 {
                assert(d[b] == rest[b - 1]);
                assert(rest.contains(d[b]));
            } else if b == 0 && a > 0 {
                assert(d[a] == rest[a - 1]);
                assert(rest.contains(d[a]));
            } else if a > 0 && b > 0 {
                assert(d[a] == rest[a - 1]);
                assert(d[b] == rest[b - 1]);
            }
        }
    }
}
} // verus!
