//! The fixed-width integer types as backing integers: their widths, ranges
//! and integer values.
use vstd::prelude::*;
use vstd::arithmetic::power2::{pow2, lemma2_to64, lemma2_to64_rest, lemma_pow2_adds};
use crate::{Backing, span};

verus! {

/// Powers of two at the widths of the backing types.
proof fn lemma_pow2_widths()
    ensures
        pow2(7) == 0x80,
        pow2(8) == 0x100,
        pow2(15) == 0x8000,
        pow2(16) == 0x10000,
        pow2(31) == 0x80000000,
        pow2(32) == 0x100000000,
        pow2(63) == 0x8000000000000000,
        pow2(64) == 0x10000000000000000,
        pow2(128) == 0x100000000000000000000000000000000,
{
    lemma2_to64();
    lemma2_to64_rest();
    lemma_pow2_adds(64, 64);
}

/// The number of values of each backing type.
pub(crate) proof fn lemma_spans()
    ensures
        span::<u8>() == 0x100,
        span::<u16>() == 0x10000,
        span::<u32>() == 0x100000000,
        span::<u64>() == 0x10000000000000000,
        span::<u128>() == 0x100000000000000000000000000000000,
        span::<i8>() == 0x100,
        span::<i16>() == 0x10000,
        span::<i32>() == 0x100000000,
        span::<i64>() == 0x10000000000000000,
        span::<i128>() == 0x100000000000000000000000000000000,
{
    lemma_pow2_widths();
}

impl Backing for u8 {
    open spec fn bits() -> nat {
        8
    }

    open spec fn lowest() -> int {
        0
    }

    open spec fn as_int(self) -> int {
        self as int
    }

    open spec fn of_int(i: int) -> u8 {
        i as u8
    }

    proof fn lemma_model(x: u8) {
        lemma_pow2_widths();
    }

    proof fn lemma_of_int(i: int) {
        lemma_pow2_widths();
    }
}

impl Backing for u16 {
    open spec fn bits() -> nat {
        16
    }

    open spec fn lowest() -> int {
        0
    }

    open spec fn as_int(self) -> int {
        self as int
    }

    open spec fn of_int(i: int) -> u16 {
        i as u16
    }

    proof fn lemma_model(x: u16) {
        lemma_pow2_widths();
    }

    proof fn lemma_of_int(i: int) {
        lemma_pow2_widths();
    }
}

impl Backing for u32 {
    open spec fn bits() -> nat {
        32
    }

    open spec fn lowest() -> int {
        0
    }

    open spec fn as_int(self) -> int {
        self as int
    }

    open spec fn of_int(i: int) -> u32 {
        i as u32
    }

    proof fn lemma_model(x: u32) {
        lemma_pow2_widths();
    }

    proof fn lemma_of_int(i: int) {
        lemma_pow2_widths();
    }
}

impl Backing for u64 {
    open spec fn bits() -> nat {
        64
    }

    open spec fn lowest() -> int {
        0
    }

    open spec fn as_int(self) -> int {
        self as int
    }

    open spec fn of_int(i: int) -> u64 {
        i as u64
    }

    proof fn lemma_model(x: u64) {
        lemma_pow2_widths();
    }

    proof fn lemma_of_int(i: int) {
        lemma_pow2_widths();
    }
}

impl Backing for u128 {
    open spec fn bits() -> nat {
        128
    }

    open spec fn lowest() -> int {
        0
    }

    open spec fn as_int(self) -> int {
        self as int
    }

    open spec fn of_int(i: int) -> u128 {
        i as u128
    }

    proof fn lemma_model(x: u128) {
        lemma_pow2_widths();
    }

    proof fn lemma_of_int(i: int) {
        lemma_pow2_widths();
    }
}

impl Backing for i8 {
    open spec fn bits() -> nat {
        8
    }

    open spec fn lowest() -> int {
        -0x80
    }

    open spec fn as_int(self) -> int {
        self as int
    }

    open spec fn of_int(i: int) -> i8 {
        i as i8
    }

    proof fn lemma_model(x: i8) {
        lemma_pow2_widths();
    }

    proof fn lemma_of_int(i: int) {
        lemma_pow2_widths();
    }
}

impl Backing for i16 {
    open spec fn bits() -> nat {
        16
    }

    open spec fn lowest() -> int {
        -0x8000
    }

    open spec fn as_int(self) -> int {
        self as int
    }

    open spec fn of_int(i: int) -> i16 {
        i as i16
    }

    proof fn lemma_model(x: i16) {
        lemma_pow2_widths();
    }

    proof fn lemma_of_int(i: int) {
        lemma_pow2_widths();
    }
}

impl Backing for i32 {
    open spec fn bits() -> nat {
        32
    }

    open spec fn lowest() -> int {
        -0x80000000
    }

    open spec fn as_int(self) -> int {
        self as int
    }

    open spec fn of_int(i: int) -> i32 {
        i as i32
    }

    proof fn lemma_model(x: i32) {
        lemma_pow2_widths();
    }

    proof fn lemma_of_int(i: int) {
        lemma_pow2_widths();
    }
}

impl Backing for i64 {
    open spec fn bits() -> nat {
        64
    }

    open spec fn lowest() -> int {
        -0x8000000000000000
    }

    open spec fn as_int(self) -> int {
        self as int
    }

    open spec fn of_int(i: int) -> i64 {
        i as i64
    }

    proof fn lemma_model(x: i64) {
        lemma_pow2_widths();
    }

    proof fn lemma_of_int(i: int) {
        lemma_pow2_widths();
    }
}

impl Backing for i128 {
    open spec fn bits() -> nat {
        128
    }

    open spec fn lowest() -> int {
        -0x80000000000000000000000000000000
    }

    open spec fn as_int(self) -> int {
        self as int
    }

    open spec fn of_int(i: int) -> i128 {
        i as i128
    }

    proof fn lemma_model(x: i128) {
        lemma_pow2_widths();
    }

    proof fn lemma_of_int(i: int) {
        lemma_pow2_widths();
    }
}

} // verus!
