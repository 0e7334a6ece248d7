//! Widening to double width and shortening to half width, the two steps
//! around a fixed-point multiplication.
use vstd::prelude::*;
use crate::backing::lemma_spans;
use crate::{Backing, span};

verus! {

/// Widening to the integer type of twice the width, with the same
/// signedness. The 128-bit types, having no wider counterpart, widen to
/// themselves.
pub trait Widen: Backing {
    type Widened: Backing;

    /// The same value in the wider type (zero or sign extension).
    fn widen(self) -> (r: Self::Widened)
        ensures
            r.as_int() == self.as_int(),
    ;
}

/// Shortening to the integer type of half the width, with the same
/// signedness: the top half of the bits. The 8-bit types shorten to
/// themselves.
pub trait Shorten: Backing {
    type Shortened: Backing;

    /// The value shifted right by the width `V` of the result (an arithmetic
    /// shift for signed types), that is, divided by `2^W / 2^V` and rounded
    /// towards negative infinity.
    fn shorten(self) -> (r: Self::Shortened)
        ensures
            r.as_int() == self.as_int() / (span::<Self>() / span::<Self::Shortened>()),
    ;
}

impl Widen for u8 {
    type Widened = u16;

    fn widen(self) -> (r: u16) {
        self as u16
    }
}

impl Widen for u16 {
    type Widened = u32;

    fn widen(self) -> (r: u32) {
        self as u32
    }
}

impl Widen for u32 {
    type Widened = u64;

    fn widen(self) -> (r: u64) {
        self as u64
    }
}

impl Widen for u64 {
    type Widened = u128;

    fn widen(self) -> (r: u128) {
        self as u128
    }
}

impl Widen for u128 {
    type Widened = u128;

    fn widen(self) -> (r: u128) {
        self
    }
}

impl Widen for i8 {
    type Widened = i16;

    fn widen(self) -> (r: i16) {
        self as i16
    }
}

impl Widen for i16 {
    type Widened = i32;

    fn widen(self) -> (r: i32) {
        self as i32
    }
}

impl Widen for i32 {
    type Widened = i64;

    fn widen(self) -> (r: i64) {
        self as i64
    }
}

impl Widen for i64 {
    type Widened = i128;

    fn widen(self) -> (r: i128) {
        self as i128
    }
}

impl Widen for i128 {
    type Widened = i128;

    fn widen(self) -> (r: i128) {
        self
    }
}

impl Shorten for u8 {
    type Shortened = u8;

    fn shorten(self) -> (r: u8) {
        proof {
            lemma_spans();
            assert(span::<u8>() / span::<u8>() == 1);
        }
        self
    }
}

impl Shorten for u16 {
    type Shortened = u8;

    fn shorten(self) -> (r: u8) {
        proof {
            lemma_spans();
            assert(self >> 8u16 == self / 0x100) by (bit_vector);
        }
        (self >> 8u16) as u8
    }
}

impl Shorten for u32 {
    type Shortened = u16;

    fn shorten(self) -> (r: u16) {
        proof {
            lemma_spans();
            assert(self >> 16u32 == self / 0x10000) by (bit_vector);
        }
        (self >> 16u32) as u16
    }
}

impl Shorten for u64 {
    type Shortened = u32;

    fn shorten(self) -> (r: u32) {
        proof {
            lemma_spans();
            assert(self >> 32u64 == self / 0x100000000) by (bit_vector);
        }
        (self >> 32u64) as u32
    }
}

impl Shorten for u128 {
    type Shortened = u64;

    fn shorten(self) -> (r: u64) {
        proof {
            lemma_spans();
            assert(self >> 64u128 == self / 0x10000000000000000) by (bit_vector);
        }
        (self >> 64u128) as u64
    }
}

impl Shorten for i8 {
    type Shortened = i8;

    fn shorten(self) -> (r: i8) {
        proof {
            lemma_spans();
            assert(span::<i8>() / span::<i8>() == 1);
        }
        self
    }
}

impl Shorten for i16 {
    type Shortened = i8;

    fn shorten(self) -> (r: i8) {
        proof {
            lemma_spans();
            assert(self >> 8i16 == self / 0x100) by (bit_vector);
        }
        (self >> 8i16) as i8
    }
}

impl Shorten for i32 {
    type Shortened = i16;

    fn shorten(self) -> (r: i16) {
        proof {
            lemma_spans();
            assert(self >> 16i32 == self / 0x10000) by (bit_vector);
        }
        (self >> 16i32) as i16
    }
}

impl Shorten for i64 {
    type Shortened = i32;

    fn shorten(self) -> (r: i32) {
        proof {
            lemma_spans();
            assert(self >> 32i64 == self / 0x100000000) by (bit_vector);
        }
        (self >> 32i64) as i32
    }
}

impl Shorten for i128 {
    type Shortened = i64;

    fn shorten(self) -> (r: i64) {
        proof {
            lemma_spans();
            assert(self >> 64i128 == self / 0x10000000000000000) by (bit_vector);
        }
        (self >> 64i128) as i64
    }
}

} // verus!
