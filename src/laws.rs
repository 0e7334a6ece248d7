//! Laws of the arithmetic on `Poui`, stated for every backing type over the
//! spec functions that `+` and `*` are specified by.
use vstd::prelude::*;
use vstd::arithmetic::power2::{pow2, lemma2_to64, lemma_pow2_adds, lemma_pow2_pos};
use vstd::arithmetic::div_mod::{
    lemma_fundamental_div_mod,
    lemma_fundamental_div_mod_converse,
    lemma_mod_bound,
    lemma_mod_multiples_basic,
    lemma_small_mod,
};
use crate::{Backing, Poui, point, product, span, sum, wrap};

verus! {

/// There are at least 256 values, and each value is in range and is the
/// point of its own raw integer.
proof fn lemma_point_of<N: Backing>(a: Poui<N>)
    ensures
        span::<N>() >= 256,
        N::lowest() <= a.0.as_int() < N::lowest() + span::<N>(),
        point::<N>(a.0.as_int()) == a,
{
    N::lemma_model(a.0);
    lemma_pow2_pos((N::bits() - 8) as nat);
    lemma2_to64();
    lemma_pow2_adds((N::bits() - 8) as nat, 8);
}

/// Zero, one and the largest raw integer lie in every backing range.
proof fn lemma_in_range<N: Backing>(a: Poui<N>)
    ensures
        N::lowest() <= 0 < 1 < N::lowest() + span::<N>(),
        N::lowest() <= N::lowest() + span::<N>() - 1,
{
    lemma_point_of(a);
    N::lemma_model(a.0);
}

/// Addition wraps: the raw integer of a sum is in the backing range and
/// differs from the exact sum of the raw integers by a multiple of `2^W`.
/// So the largest value plus one is the least value: `0` for unsigned
/// backing, the most negative value for signed backing.
pub proof fn lemma_sum_wraps<N: Backing>(a: Poui<N>, b: Poui<N>)
    ensures
        N::lowest() <= sum(a, b).0.as_int() < N::lowest() + span::<N>(),
        (sum(a, b).0.as_int() - (a.0.as_int() + b.0.as_int())) % span::<N>() == 0,
        a.0.as_int() == N::lowest() + span::<N>() - 1 && b.0.as_int() == 1
            ==> sum(a, b).0.as_int() == N::lowest(),
{
    lemma_point_of(a);
    lemma_point_of(b);
    let m = span::<N>();
    let lo = N::lowest();
    let x = a.0.as_int() + b.0.as_int();
    lemma_mod_bound(x - lo, m);
    let w = wrap(x, lo, m);
    N::lemma_of_int(w);
    lemma_fundamental_div_mod(x - lo, m);
    assert(w - x == (-((x - lo) / m)) * m) by (nonlinear_arith)
        requires
            w == lo + (x - lo) % m,
            x - lo == m * ((x - lo) / m) + (x - lo) % m,
    ;
    lemma_mod_multiples_basic(-((x - lo) / m), m);
    if a.0.as_int() == lo + m - 1 && b.0.as_int() == 1 {
        assert(x - lo == m);
        lemma_mod_multiples_basic(1, m);
    }
}

/// Zero is the identity of addition.
pub proof fn lemma_sum_zero<N: Backing>(a: Poui<N>)
    ensures
        sum(a, point(0)) == a,
{
    lemma_point_of(a);
    lemma_in_range(a);
    N::lemma_of_int(0);
    let d = a.0.as_int() - N::lowest();
    lemma_small_mod(d as nat, span::<N>() as nat);
}

/// Addition is commutative.
pub proof fn lemma_sum_commutative<N: Backing>(a: Poui<N>, b: Poui<N>)
    ensures
        sum(a, b) == sum(b, a),
{
    assert(a.0.as_int() + b.0.as_int() == b.0.as_int() + a.0.as_int());
}

/// Zero absorbs multiplication.
pub proof fn lemma_product_zero<N: Backing>(a: Poui<N>)
    ensures
        product(a, point(0)) == point::<N>(0),
{
    lemma_in_range(a);
    lemma_point_of(a);
    N::lemma_of_int(0);
    assert(a.0.as_int() * point::<N>(0).0.as_int() == 0);
}

/// Multiplication truncates: the smallest positive value times itself is
/// zero, whatever the width.
pub proof fn lemma_product_smallest<N: Backing>(a: Poui<N>)
    requires
        a == point::<N>(1),
    ensures
        product(a, a) == point::<N>(0),
{
    lemma_in_range(a);
    lemma_point_of(a);
    N::lemma_of_int(1);
    lemma_fundamental_div_mod_converse(1, span::<N>(), 0, 1);
}

/// With unsigned backing, one half times one half is exactly one quarter.
pub proof fn lemma_product_half<N: Backing>(a: Poui<N>)
    requires
        N::lowest() == 0,
        a == point::<N>(span::<N>() / 2),
    ensures
        product(a, a) == point::<N>(span::<N>() / 4),
{
    lemma_point_of(a);
    N::lemma_model(a.0);
    let m = span::<N>();
    lemma2_to64();
    lemma_pow2_adds((N::bits() - 2) as nat, 2);
    let k = pow2((N::bits() - 2) as nat) as int;
    assert(m == 4 * k);
    assert(m / 2 == 2 * k);
    assert(m / 4 == k);
    N::lemma_of_int(m / 2);
    assert((2 * k) * (2 * k) / (4 * k) == k) by (nonlinear_arith)
        requires
            k > 0,
    ;
}

} // verus!
