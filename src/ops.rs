//! Addition and multiplication of points, for each backing integer type.
use vstd::prelude::*;
use crate::backing::lemma_spans;
use crate::width::{Shorten, Widen};
use crate::{product, sum, Poui};

verus! {

/// Wrapping addition: a sum on the circle, never a fault.
impl std::ops::Add for Poui<u8> {
    type Output = Self;

    fn add(self, rhs: Self) -> (r: Self) {
        proof {
            lemma_spans();
        }
        Poui(self.0.wrapping_add(rhs.0))
    }
}

impl vstd::std_specs::ops::AddSpecImpl for Poui<u8> {
    open spec fn obeys_add_spec() -> bool {
        true
    }

    open spec fn add_req(self, rhs: Self) -> bool {
        true
    }

    open spec fn add_spec(self, rhs: Self) -> Self {
        sum(self, rhs)
    }
}

/// Wrapping addition: a sum on the circle, never a fault.
impl std::ops::Add for Poui<u16> {
    type Output = Self;

    fn add(self, rhs: Self) -> (r: Self) {
        proof {
            lemma_spans();
        }
        Poui(self.0.wrapping_add(rhs.0))
    }
}

impl vstd::std_specs::ops::AddSpecImpl for Poui<u16> {
    open spec fn obeys_add_spec() -> bool {
        true
    }

    open spec fn add_req(self, rhs: Self) -> bool {
        true
    }

    open spec fn add_spec(self, rhs: Self) -> Self {
        sum(self, rhs)
    }
}

/// Wrapping addition: a sum on the circle, never a fault.
impl std::ops::Add for Poui<u32> {
    type Output = Self;

    fn add(self, rhs: Self) -> (r: Self) {
        proof {
            lemma_spans();
        }
        Poui(self.0.wrapping_add(rhs.0))
    }
}

impl vstd::std_specs::ops::AddSpecImpl for Poui<u32> {
    open spec fn obeys_add_spec() -> bool {
        true
    }

    open spec fn add_req(self, rhs: Self) -> bool {
        true
    }

    open spec fn add_spec(self, rhs: Self) -> Self {
        sum(self, rhs)
    }
}

/// Wrapping addition: a sum on the circle, never a fault.
impl std::ops::Add for Poui<u64> {
    type Output = Self;

    fn add(self, rhs: Self) -> (r: Self) {
        proof {
            lemma_spans();
        }
        Poui(self.0.wrapping_add(rhs.0))
    }
}

impl vstd::std_specs::ops::AddSpecImpl for Poui<u64> {
    open spec fn obeys_add_spec() -> bool {
        true
    }

    open spec fn add_req(self, rhs: Self) -> bool {
        true
    }

    open spec fn add_spec(self, rhs: Self) -> Self {
        sum(self, rhs)
    }
}

/// Wrapping addition: a sum on the circle, never a fault.
impl std::ops::Add for Poui<u128> {
    type Output = Self;

    fn add(self, rhs: Self) -> (r: Self) {
        proof {
            lemma_spans();
        }
        Poui(self.0.wrapping_add(rhs.0))
    }
}

impl vstd::std_specs::ops::AddSpecImpl for Poui<u128> {
    open spec fn obeys_add_spec() -> bool {
        true
    }

    open spec fn add_req(self, rhs: Self) -> bool {
        true
    }

    open spec fn add_spec(self, rhs: Self) -> Self {
        sum(self, rhs)
    }
}

/// Wrapping addition: a sum on the circle, never a fault.
impl std::ops::Add for Poui<i8> {
    type Output = Self;

    fn add(self, rhs: Self) -> (r: Self) {
        proof {
            lemma_spans();
        }
        Poui(self.0.wrapping_add(rhs.0))
    }
}

impl vstd::std_specs::ops::AddSpecImpl for Poui<i8> {
    open spec fn obeys_add_spec() -> bool {
        true
    }

    open spec fn add_req(self, rhs: Self) -> bool {
        true
    }

    open spec fn add_spec(self, rhs: Self) -> Self {
        sum(self, rhs)
    }
}

/// Wrapping addition: a sum on the circle, never a fault.
impl std::ops::Add for Poui<i16> {
    type Output = Self;

    fn add(self, rhs: Self) -> (r: Self) {
        proof {
            lemma_spans();
        }
        Poui(self.0.wrapping_add(rhs.0))
    }
}

impl vstd::std_specs::ops::AddSpecImpl for Poui<i16> {
    open spec fn obeys_add_spec() -> bool {
        true
    }

    open spec fn add_req(self, rhs: Self) -> bool {
        true
    }

    open spec fn add_spec(self, rhs: Self) -> Self {
        sum(self, rhs)
    }
}

/// Wrapping addition: a sum on the circle, never a fault.
impl std::ops::Add for Poui<i32> {
    type Output = Self;

    fn add(self, rhs: Self) -> (r: Self) {
        proof {
            lemma_spans();
        }
        Poui(self.0.wrapping_add(rhs.0))
    }
}

impl vstd::std_specs::ops::AddSpecImpl for Poui<i32> {
    open spec fn obeys_add_spec() -> bool {
        true
    }

    open spec fn add_req(self, rhs: Self) -> bool {
        true
    }

    open spec fn add_spec(self, rhs: Self) -> Self {
        sum(self, rhs)
    }
}

/// Wrapping addition: a sum on the circle, never a fault.
impl std::ops::Add for Poui<i64> {
    type Output = Self;

    fn add(self, rhs: Self) -> (r: Self) {
        proof {
            lemma_spans();
        }
        Poui(self.0.wrapping_add(rhs.0))
    }
}

impl vstd::std_specs::ops::AddSpecImpl for Poui<i64> {
    open spec fn obeys_add_spec() -> bool {
        true
    }

    open spec fn add_req(self, rhs: Self) -> bool {
        true
    }

    open spec fn add_spec(self, rhs: Self) -> Self {
        sum(self, rhs)
    }
}

/// Wrapping addition: a sum on the circle, never a fault.
impl std::ops::Add for Poui<i128> {
    type Output = Self;

    fn add(self, rhs: Self) -> (r: Self) {
        proof {
            lemma_spans();
        }
        Poui(self.0.wrapping_add(rhs.0))
    }
}

impl vstd::std_specs::ops::AddSpecImpl for Poui<i128> {
    open spec fn obeys_add_spec() -> bool {
        true
    }

    open spec fn add_req(self, rhs: Self) -> bool {
        true
    }

    open spec fn add_spec(self, rhs: Self) -> Self {
        sum(self, rhs)
    }
}

/// Fixed-point multiplication: both raw integers are widened, multiplied
/// exactly, and the product shortened to its top half. This truncates; it
/// cannot overflow.
impl std::ops::Mul for Poui<u8> {
    type Output = Self;

    fn mul(self, rhs: Self) -> (r: Self) {
        let a: u16 = self.0.widen();
        let b: u16 = rhs.0.widen();
        proof {
            lemma_spans();
            assert(a * b < 0x10000) by (nonlinear_arith)
                requires
                    a < 0x100,
                    b < 0x100,
            ;
        }
        let r = Poui((a * b).shorten());
        proof {
            assert(r == product(self, rhs));
        }
        r
    }
}

impl vstd::std_specs::ops::MulSpecImpl for Poui<u8> {
    open spec fn obeys_mul_spec() -> bool {
        true
    }

    open spec fn mul_req(self, rhs: Self) -> bool {
        true
    }

    open spec fn mul_spec(self, rhs: Self) -> Self {
        product(self, rhs)
    }
}

/// Fixed-point multiplication: both raw integers are widened, multiplied
/// exactly, and the product shortened to its top half. This truncates; it
/// cannot overflow.
impl std::ops::Mul for Poui<u16> {
    type Output = Self;

    fn mul(self, rhs: Self) -> (r: Self) {
        let a: u32 = self.0.widen();
        let b: u32 = rhs.0.widen();
        proof {
            lemma_spans();
            assert(a * b < 0x100000000) by (nonlinear_arith)
                requires
                    a < 0x10000,
                    b < 0x10000,
            ;
        }
        let r = Poui((a * b).shorten());
        proof {
            assert(r == product(self, rhs));
        }
        r
    }
}

impl vstd::std_specs::ops::MulSpecImpl for Poui<u16> {
    open spec fn obeys_mul_spec() -> bool {
        true
    }

    open spec fn mul_req(self, rhs: Self) -> bool {
        true
    }

    open spec fn mul_spec(self, rhs: Self) -> Self {
        product(self, rhs)
    }
}

/// Fixed-point multiplication: both raw integers are widened, multiplied
/// exactly, and the product shortened to its top half. This truncates; it
/// cannot overflow.
impl std::ops::Mul for Poui<u32> {
    type Output = Self;

    fn mul(self, rhs: Self) -> (r: Self) {
        let a: u64 = self.0.widen();
        let b: u64 = rhs.0.widen();
        proof {
            lemma_spans();
            assert(a * b < 0x10000000000000000) by (nonlinear_arith)
                requires
                    a < 0x100000000,
                    b < 0x100000000,
            ;
        }
        let r = Poui((a * b).shorten());
        proof {
            assert(r == product(self, rhs));
        }
        r
    }
}

impl vstd::std_specs::ops::MulSpecImpl for Poui<u32> {
    open spec fn obeys_mul_spec() -> bool {
        true
    }

    open spec fn mul_req(self, rhs: Self) -> bool {
        true
    }

    open spec fn mul_spec(self, rhs: Self) -> Self {
        product(self, rhs)
    }
}

/// Fixed-point multiplication: both raw integers are widened, multiplied
/// exactly, and the product shortened to its top half. This truncates; it
/// cannot overflow.
impl std::ops::Mul for Poui<u64> {
    type Output = Self;

    fn mul(self, rhs: Self) -> (r: Self) {
        let a: u128 = self.0.widen();
        let b: u128 = rhs.0.widen();
        proof {
            lemma_spans();
            assert(a * b < 0x100000000000000000000000000000000) by (nonlinear_arith)
                requires
                    a < 0x10000000000000000,
                    b < 0x10000000000000000,
            ;
        }
        let r = Poui((a * b).shorten());
        proof {
            assert(r == product(self, rhs));
        }
        r
    }
}

impl vstd::std_specs::ops::MulSpecImpl for Poui<u64> {
    open spec fn obeys_mul_spec() -> bool {
        true
    }

    open spec fn mul_req(self, rhs: Self) -> bool {
        true
    }

    open spec fn mul_spec(self, rhs: Self) -> Self {
        product(self, rhs)
    }
}

/// Fixed-point multiplication: both raw integers are widened, multiplied
/// exactly, and the product shortened to its top half. This truncates; it
/// cannot overflow.
impl std::ops::Mul for Poui<i8> {
    type Output = Self;

    fn mul(self, rhs: Self) -> (r: Self) {
        let a: i16 = self.0.widen();
        let b: i16 = rhs.0.widen();
        proof {
            lemma_spans();
            assert(-0x4000 <= a * b <= 0x4000) by (nonlinear_arith)
                requires
                    -0x80 <= a < 0x80,
                    -0x80 <= b < 0x80,
            ;
        }
        let r = Poui((a * b).shorten());
        proof {
            assert(r == product(self, rhs));
        }
        r
    }
}

impl vstd::std_specs::ops::MulSpecImpl for Poui<i8> {
    open spec fn obeys_mul_spec() -> bool {
        true
    }

    open spec fn mul_req(self, rhs: Self) -> bool {
        true
    }

    open spec fn mul_spec(self, rhs: Self) -> Self {
        product(self, rhs)
    }
}

/// Fixed-point multiplication: both raw integers are widened, multiplied
/// exactly, and the product shortened to its top half. This truncates; it
/// cannot overflow.
impl std::ops::Mul for Poui<i16> {
    type Output = Self;

    fn mul(self, rhs: Self) -> (r: Self) {
        let a: i32 = self.0.widen();
        let b: i32 = rhs.0.widen();
        proof {
            lemma_spans();
            assert(-0x40000000 <= a * b <= 0x40000000) by (nonlinear_arith)
                requires
                    -0x8000 <= a < 0x8000,
                    -0x8000 <= b < 0x8000,
            ;
        }
        let r = Poui((a * b).shorten());
        proof {
            assert(r == product(self, rhs));
        }
        r
    }
}

impl vstd::std_specs::ops::MulSpecImpl for Poui<i16> {
    open spec fn obeys_mul_spec() -> bool {
        true
    }

    open spec fn mul_req(self, rhs: Self) -> bool {
        true
    }

    open spec fn mul_spec(self, rhs: Self) -> Self {
        product(self, rhs)
    }
}

/// Fixed-point multiplication: both raw integers are widened, multiplied
/// exactly, and the product shortened to its top half. This truncates; it
/// cannot overflow.
impl std::ops::Mul for Poui<i32> {
    type Output = Self;

    fn mul(self, rhs: Self) -> (r: Self) {
        let a: i64 = self.0.widen();
        let b: i64 = rhs.0.widen();
        proof {
            lemma_spans();
            assert(-0x4000000000000000 <= a * b <= 0x4000000000000000) by (nonlinear_arith)
                requires
                    -0x80000000 <= a < 0x80000000,
                    -0x80000000 <= b < 0x80000000,
            ;
        }
        let r = Poui((a * b).shorten());
        proof {
            assert(r == product(self, rhs));
        }
        r
    }
}

impl vstd::std_specs::ops::MulSpecImpl for Poui<i32> {
    open spec fn obeys_mul_spec() -> bool {
        true
    }

    open spec fn mul_req(self, rhs: Self) -> bool {
        true
    }

    open spec fn mul_spec(self, rhs: Self) -> Self {
        product(self, rhs)
    }
}

/// Fixed-point multiplication: both raw integers are widened, multiplied
/// exactly, and the product shortened to its top half. This truncates; it
/// cannot overflow.
impl std::ops::Mul for Poui<i64> {
    type Output = Self;

    fn mul(self, rhs: Self) -> (r: Self) {
        let a: i128 = self.0.widen();
        let b: i128 = rhs.0.widen();
        proof {
            lemma_spans();
            assert(-0x40000000000000000000000000000000 <= a * b <= 0x40000000000000000000000000000000) by (nonlinear_arith)
                requires
                    -0x8000000000000000 <= a < 0x8000000000000000,
                    -0x8000000000000000 <= b < 0x8000000000000000,
            ;
        }
        let r = Poui((a * b).shorten());
        proof {
            assert(r == product(self, rhs));
        }
        r
    }
}

impl vstd::std_specs::ops::MulSpecImpl for Poui<i64> {
    open spec fn obeys_mul_spec() -> bool {
        true
    }

    open spec fn mul_req(self, rhs: Self) -> bool {
        true
    }

    open spec fn mul_spec(self, rhs: Self) -> Self {
        product(self, rhs)
    }
}

} // verus!
