use vstd::prelude::*;
use vstd::arithmetic::power2::pow2;

mod backing;
pub mod laws;
mod ops;
mod width;

pub use width::{Shorten, Widen};

verus! {

/// A point on the unit interval, held as the raw bits of a backing integer.
///
/// With an unsigned backing integer of `W` bits, `Poui(x)` stands for
/// `x / 2^W`, a point of `[0, 1)`. With a signed one it stands for
/// `x / 2^(W-1)`, a point of `[-1, 1)`. Every bit pattern is a valid point,
/// so construction cannot fail.
#[derive(Debug, PartialEq, Eq, Structural, Clone, Copy)]
pub struct Poui<N>(pub N);

impl<N> Poui<N> {
    /// The point with raw bits `raw`; every raw value is a point.
    pub fn new(raw: N) -> (r: Self)
        ensures
            r.0 == raw,
    {
        Poui(raw)
    }
}

/// A fixed-width integer that can back a `Poui`, seen as a mathematical integer.
pub trait Backing: Sized + Copy {
    /// Width in bits.
    spec fn bits() -> nat;

    /// The least value of the type.
    spec fn lowest() -> int;

    /// The value as an integer.
    spec fn as_int(self) -> int;

    /// The value of the type that stands for `i`, for `i` in range.
    spec fn of_int(i: int) -> Self;

    /// The width is at least a byte; the type is either unsigned or two's
    /// complement; its values are the `2^W` integers from `lowest()` on.
    proof fn lemma_model(x: Self)
        ensures
            Self::bits() >= 8,
            Self::lowest() == 0 || Self::lowest() == -(pow2(Self::bits()) / 2),
            Self::lowest() <= x.as_int() < Self::lowest() + pow2(Self::bits()),
            Self::of_int(x.as_int()) == x,
    ;

    /// `of_int` inverts `as_int` on the type's range.
    proof fn lemma_of_int(i: int)
        requires
            Self::lowest() <= i < Self::lowest() + pow2(Self::bits()),
        ensures
            Self::of_int(i).as_int() == i,
    ;
}

/// The number of values of the backing type, `2^W`.
pub open spec fn span<N: Backing>() -> int {
    pow2(N::bits()) as int
}

/// The integer in `[lo, lo + m)` that is congruent to `x` modulo `m`.
pub open spec fn wrap(x: int, lo: int, m: int) -> int {
    lo + (x - lo) % m
}

/// The point at raw integer `i`, for `i` in the backing type's range.
pub open spec fn point<N: Backing>(i: int) -> Poui<N> {
    Poui(N::of_int(i))
}

/// Sum on the circle: the raw integers added and wrapped into the backing
/// range, so that a carry past one full revolution is dropped.
pub open spec fn sum<N: Backing>(a: Poui<N>, b: Poui<N>) -> Poui<N> {
    point(wrap(a.0.as_int() + b.0.as_int(), N::lowest(), span::<N>()))
}

/// Fixed-point product: the exact product of the raw integers divided by
/// `2^W` and rounded towards negative infinity (the top `W` bits of the
/// double-width product).
pub open spec fn product<N: Backing>(a: Poui<N>, b: Poui<N>) -> Poui<N> {
    point((a.0.as_int() * b.0.as_int()) / span::<N>())
}

} // verus!
