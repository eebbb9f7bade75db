//! Sums over the entries of a finite map.

use vstd::prelude::*;

verus! {

/// The sum of `f` over the values of `m`, for a map with finitely many
/// entries.
pub open spec fn total<K, V>(m: Map<K, V>, f: spec_fn(V) -> nat) -> nat
    recommends
        m.dom().finite(),
    decreases m.dom().len(),
    when m.dom().finite()
{
    if m.dom().len() == 0 {
        0
    } else {
        let k = m.dom().choose();
        f(m[k]) + total(m.remove(k), f)
    }
}

/// Any one entry can be taken out of the sum first.
pub proof fn total_split<K, V>(m: Map<K, V>, f: spec_fn(V) -> nat, k: K)
    requires
        m.dom().finite(),
        m.dom().contains(k),
    ensures
        total(m, f) == f(m[k]) + total(m.remove(k), f),
    decreases m.dom().len(),
{
    let c = m.dom().choose();
    if c != k {
        total_split(m.remove(c), f, k);
        total_split(m.remove(k), f, c);
        assert(m.remove(c).remove(k) =~= m.remove(k).remove(c));
    }
}

/// Writing `v` at `k` replaces the share of `k`, if it had one, by that of
/// `v`.
pub proof fn total_insert<K, V>(m: Map<K, V>, f: spec_fn(V) -> nat, k: K, v: V)
    requires
        m.dom().finite(),
    ensures
        total(m.insert(k, v), f) == total(m.remove(k), f) + f(v),
        m.dom().contains(k) ==> total(m.insert(k, v), f) + f(m[k]) == total(m, f) + f(v),
        !m.dom().contains(k) ==> total(m.insert(k, v), f) == total(m, f) + f(v),
{
    total_split(m.insert(k, v), f, k);
    assert(m.insert(k, v).remove(k) =~= m.remove(k));
    if m.dom().contains(k) {
        total_split(m, f, k);
    } else {
        assert(m.remove(k) =~= m);
    }
}

/// No entry's share exceeds the sum.
pub proof fn total_covers<K, V>(m: Map<K, V>, f: spec_fn(V) -> nat, k: K)
    requires
        m.dom().finite(),
        m.dom().contains(k),
    ensures
        f(m[k]) <= total(m, f),
{
    total_split(m, f, k);
}

/// The sum of two measures is the sum of their sums.
pub proof fn total_of_sum<K, V>(
    m: Map<K, V>,
    f: spec_fn(V) -> nat,
    g: spec_fn(V) -> nat,
    h: spec_fn(V) -> nat,
)
    requires
        m.dom().finite(),
        forall|v: V| #[trigger] h(v) == f(v) + g(v),
    ensures
        total(m, h) == total(m, f) + total(m, g),
    decreases m.dom().len(),
{
    if m.dom().len() != 0 {
        let k = m.dom().choose();
        total_of_sum(m.remove(k), f, g, h);
    }
}

/// A sum of zeros is zero, and a sum that is zero has only zero shares.
pub proof fn total_zero<K, V>(m: Map<K, V>, f: spec_fn(V) -> nat)
    requires
        m.dom().finite(),
    ensures
        total(m, f) == 0 <==> forall|k: K| m.dom().contains(k) ==> #[trigger] f(m[k]) == 0,
    decreases m.dom().len(),
{
    if m.dom().len() != 0 {
        let c = m.dom().choose();
        total_zero(m.remove(c), f);
        if total(m, f) == 0 {
            assert forall|k: K| m.dom().contains(k) implies #[trigger] f(m[k]) == 0 by {
                total_covers(m, f, k);
            }
        } else if f(m[c]) == 0 {
            let k = choose|k: K| m.remove(c).dom().contains(k) && #[trigger] f(m.remove(c)[k]) != 0;
            assert(m.dom().contains(k) && f(m[k]) != 0);
        }
    }
}

} // verus!
