//! The layout of the pipe pool: its horizontal positions, sorted, always
//! form an arithmetic sequence.
use vstd::prelude::*;

verus! {

/// `slots` places each of `xs` on the grid `b + k d`, one element per slot
/// `k < xs.len()`.
pub open spec fn slots_for(xs: Seq<int>, slots: Seq<int>, b: int, d: int) -> bool {
    &&& slots.len() == xs.len()
    &&& forall|i: int|
        0 <= i < xs.len() ==> 0 <= #[trigger] slots[i] < xs.len() && xs[i] == b + slots[i] * d
    &&& forall|i: int, j: int|
        0 <= i < xs.len() && 0 <= j < xs.len() && i != j ==> #[trigger] slots[i] != #[trigger] slots[j]
}

/// `xs` holds, in some order, exactly `b, b + d, ..., b + (n - 1) d`.
pub open spec fn spaced_from(xs: Seq<int>, b: int, d: int) -> bool {
    exists|slots: Seq<int>| slots_for(xs, slots, b, d)
}

/// `xs`, sorted, is an arithmetic sequence with common difference `d`.
pub open spec fn spaced(xs: Seq<int>, d: int) -> bool {
    exists|b: int| spaced_from(xs, b, d)
}

/// The positions after one recycling pass: each below `threshold` moves
/// forward by `offset`.
pub open spec fn recycled(xs: Seq<int>, threshold: int, offset: int) -> Seq<int> {
    xs.map_values(|x: int| if x < threshold { x + offset } else { x })
}

/// The positions after every one moved by `delta`.
pub open spec fn shifted(xs: Seq<int>, delta: int) -> Seq<int> {
    xs.map_values(|x: int| x + delta)
}

/// Number of grid slots `b + k d`, `k < n`, that lie below `t`.
spec fn cut(b: int, d: int, t: int, n: nat) -> nat
    decreases n,
{
    if n == 0 {
        0
    } else if b + (n - 1) * d < t {
        n
    } else {
        cut(b, d, t, (n - 1) as nat)
    }
}

proof fn lemma_cut(b: int, d: int, t: int, n: nat)
    requires
        d > 0,
    ensures
        cut(b, d, t, n) <= n,
        forall|k: int| 0 <= k < n ==> (b + #[trigger] (k * d) < t) == (k < cut(b, d, t, n)),
    decreases n,
{
    if n > 0 {
        lemma_cut(b, d, t, (n - 1) as nat);
        assert forall|k: int| 0 <= k < n implies (b + #[trigger] (k * d) < t) == (k < cut(b, d, t, n)) by {
            assert(k * d <= (n - 1) * d) by (nonlinear_arith)
                requires
                    0 <= k < n,
                    d > 0,
            ;
        }
    }
}

/// Recycling a pool of `n` positions spaced by `d`, each moved forward by
/// `n d` once below the threshold, leaves the pool spaced by `d`.
pub proof fn pipe_respacing(xs: Seq<int>, d: int, threshold: int)
    requires
        d > 0,
        spaced(xs, d),
    ensures
        spaced(recycled(xs, threshold, xs.len() * d), d),
{
    let n = xs.len();
    let b = choose|b: int| spaced_from(xs, b, d);
    let slots = choose|slots: Seq<int>| slots_for(xs, slots, b, d);
    let c = cut(b, d, threshold, n) as int;
    lemma_cut(b, d, threshold, n);
    let nb = b + c * d;
    let ns = Seq::new(n, |i: int| if slots[i] < c { slots[i] + n - c } else { slots[i] - c });
    let ys = recycled(xs, threshold, n * d);
    assert forall|i: int| 0 <= i < n implies 0 <= #[trigger] ns[i] < n && ys[i] == nb + ns[i] * d by {
        let s = slots[i];
        assert(0 <= s < n && xs[i] == b + s * d);
        assert((b + s * d < threshold) == (s < c));
        if s < c {
            assert(b + s * d + n * d == b + c * d + (s + n - c) * d) by (nonlinear_arith);
        } else {
            assert(b + s * d == b + c * d + (s - c) * d) by (nonlinear_arith);
        }
    }
    assert forall|i: int, j: int| 0 <= i < n && 0 <= j < n && i != j implies #[trigger] ns[i] != #[trigger] ns[j] by {
        assert(slots[i] != slots[j]);
    }
    assert(slots_for(ys, ns, nb, d));
    assert(spaced_from(ys, nb, d));
}

/// Moving every position of a pool spaced by `d` by the same amount leaves
/// it spaced by `d`.
pub proof fn shift_keeps_spacing(xs: Seq<int>, d: int, delta: int)
    requires
        spaced(xs, d),
    ensures
        spaced(shifted(xs, delta), d),
{
    let b = choose|b: int| spaced_from(xs, b, d);
    let slots = choose|slots: Seq<int>| slots_for(xs, slots, b, d);
    assert(slots_for(shifted(xs, delta), slots, b + delta, d));
    assert(spaced_from(shifted(xs, delta), b + delta, d));
}

/// The positions `b, b + d, ..., b + (n - 1) d`, in this order, are spaced
/// by `d`.
pub proof fn grid_is_spaced(xs: Seq<int>, b: int, d: int)
    requires
        forall|i: int| 0 <= i < xs.len() ==> #[trigger] xs[i] == b + i * d,
    ensures
        spaced(xs, d),
{
    let slots = Seq::new(xs.len(), |i: int| i);
    assert(slots_for(xs, slots, b, d));
    assert(spaced_from(xs, b, d));
}

} // verus!
