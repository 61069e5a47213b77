//! Element types whose values are integers.

use std::ops::{Add, Mul, Neg, Sub};
use vstd::prelude::*;
use vstd::std_specs::cmp::PartialEqSpec;
use vstd::std_specs::ops::{AddSpec, MulSpec, NegSpec, SubSpec};

verus! {

/// An element type that holds integers, each of which fits in an `i128`,
/// and whose operators are those of the integers wherever it permits them.
pub trait Integral: Copy + PartialEq + Add<Output = Self> + Sub<Output = Self> + Mul<
    Output = Self,
> {
    /// The integer that the value stands for.
    spec fn value(self) -> int;

    /// The same integer in the widest signed type.
    fn widen(self) -> (wide: i128)
        ensures
            wide == self.value(),
    ;

    /// Equality is that of the integers, the operators give the integers'
    /// sum, difference and product, sum and product do not depend on the
    /// order of the operands, and a value may be taken from itself.
    proof fn lemma_operators(x: Self, y: Self)
        ensures
            Self::obeys_eq_spec(),
            Self::obeys_add_spec(),
            Self::obeys_sub_spec(),
            Self::obeys_mul_spec(),
            x.value() == y.value() <==> x == y,
            x.eq_spec(&y) <==> x == y,
            x.add_req(y) ==> x.add_spec(y).value() == x.value() + y.value(),
            x.sub_req(y) ==> x.sub_spec(y).value() == x.value() - y.value(),
            x.mul_req(y) ==> x.mul_spec(y).value() == x.value() * y.value(),
            x.add_req(y) == y.add_req(x),
            x.add_spec(y) == y.add_spec(x),
            x.mul_req(y) == y.mul_req(x),
            x.mul_spec(y) == y.mul_spec(x),
            x.sub_req(x),
    ;
}

/// An integer type with negative values.
pub trait Signed: Integral + Neg<Output = Self> {
    /// Negation is that of the integers, and negating twice gives the
    /// value back.
    proof fn lemma_negation(x: Self)
        ensures
            Self::obeys_neg_spec(),
            x.neg_req() ==> x.neg_spec().value() == -x.value(),
            x.neg_req() ==> x.neg_spec().neg_req(),
            x.neg_req() ==> x.neg_spec().neg_spec() == x,
    ;
}

impl Integral for i8 {
    open spec fn value(self) -> int {
        self as int
    }

    fn widen(self) -> (wide: i128) {
        self as i128
    }

    proof fn lemma_operators(x: Self, y: Self) {
    }
}

impl Signed for i8 {
    proof fn lemma_negation(x: Self) {
    }
}

impl Integral for i16 {
    open spec fn value(self) -> int {
        self as int
    }

    fn widen(self) -> (wide: i128) {
        self as i128
    }

    proof fn lemma_operators(x: Self, y: Self) {
    }
}

impl Signed for i16 {
    proof fn lemma_negation(x: Self) {
    }
}

impl Integral for i32 {
    open spec fn value(self) -> int {
        self as int
    }

    fn widen(self) -> (wide: i128) {
        self as i128
    }

    proof fn lemma_operators(x: Self, y: Self) {
    }
}

impl Signed for i32 {
    proof fn lemma_negation(x: Self) {
    }
}

impl Integral for i64 {
    open spec fn value(self) -> int {
        self as int
    }

    fn widen(self) -> (wide: i128) {
        self as i128
    }

    proof fn lemma_operators(x: Self, y: Self) {
    }
}

impl Signed for i64 {
    proof fn lemma_negation(x: Self) {
    }
}

impl Integral for i128 {
    open spec fn value(self) -> int {
        self as int
    }

    fn widen(self) -> (wide: i128) {
        self
    }

    proof fn lemma_operators(x: Self, y: Self) {
    }
}

impl Signed for i128 {
    proof fn lemma_negation(x: Self) {
    }
}

impl Integral for isize {
    open spec fn value(self) -> int {
        self as int
    }

    fn widen(self) -> (wide: i128) {
        self as i128
    }

    proof fn lemma_operators(x: Self, y: Self) {
    }
}

impl Signed for isize {
    proof fn lemma_negation(x: Self) {
    }
}

impl Integral for u8 {
    open spec fn value(self) -> int {
        self as int
    }

    fn widen(self) -> (wide: i128) {
        self as i128
    }

    proof fn lemma_operators(x: Self, y: Self) {
    }
}

impl Integral for u16 {
    open spec fn value(self) -> int {
        self as int
    }

    fn widen(self) -> (wide: i128) {
        self as i128
    }

    proof fn lemma_operators(x: Self, y: Self) {
    }
}

impl Integral for u32 {
    open spec fn value(self) -> int {
        self as int
    }

    fn widen(self) -> (wide: i128) {
        self as i128
    }

    proof fn lemma_operators(x: Self, y: Self) {
    }
}

impl Integral for u64 {
    open spec fn value(self) -> int {
        self as int
    }

    fn widen(self) -> (wide: i128) {
        self as i128
    }

    proof fn lemma_operators(x: Self, y: Self) {
    }
}

impl Integral for usize {
    open spec fn value(self) -> int {
        self as int
    }

    fn widen(self) -> (wide: i128) {
        self as i128
    }

    proof fn lemma_operators(x: Self, y: Self) {
    }
}

} // verus!
