//! Two-component vectors.
//!
//! Every operation is the componentwise lift of the element type's own
//! operator. A contract therefore speaks of the element type twice: through
//! the operator's spec function (`add_spec`, `mul_spec`, ...), which holds for
//! element types that obey it, and through `call_ensures`, which holds for
//! every element type.

use crate::integral::{Integral, Signed};
use crate::normalise::{check_components, integers, verdict, NormaliseError};
use std::ops::{Add, Mul, Neg, Sub};
use vstd::prelude::*;
use vstd::std_specs::cmp::PartialEqSpec;
use vstd::std_specs::ops::{AddSpec, MulSpec, NegSpec, SubSpec};

verus! {

/// A vector with the two components `x` and `y`.
#[derive(Debug)]
pub struct Vector2<T> {
    pub x: T,
    pub y: T,
}

impl<T: Copy> Copy for Vector2<T> {

}

impl<T: Clone> Clone for Vector2<T> {
    /// Clones each component.
    fn clone(&self) -> (copy: Self)
        ensures
            cloned(self.x, copy.x),
            cloned(self.y, copy.y),
    {
        Self { x: self.x.clone(), y: self.y.clone() }
    }
}

impl<T> Vector2<T> {
    /// Builds the vector `(x, y)`.
    pub fn new(x: T, y: T) -> (v: Self)
        ensures
            v == (Vector2 { x, y }),
    {
        Self { x, y }
    }
}

impl<T: PartialEq> vstd::std_specs::cmp::PartialEqSpecImpl for Vector2<T> {
    open spec fn obeys_eq_spec() -> bool {
        T::obeys_eq_spec()
    }

    /// Two vectors are equal when both pairs of components are.
    open spec fn eq_spec(&self, other: &Self) -> bool {
        &&& self.x.eq_spec(&other.x)
        &&& self.y.eq_spec(&other.y)
    }
}

impl<T: PartialEq> PartialEq for Vector2<T> {
    /// Compares every pair of components, in component order.
    fn eq(&self, other: &Self) -> (equal: bool)
        ensures
            exists|ex: bool, ey: bool|
                {
                    &&& #[trigger] call_ensures(T::eq, (&self.x, &other.x), ex)
                    &&& #[trigger] call_ensures(T::eq, (&self.y, &other.y), ey)
                    &&& equal == (ex && ey)
                },
    {
        let ex = self.x == other.x;
        let ey = self.y == other.y;
        ex && ey
    }
}

impl<T: Eq> Eq for Vector2<T> {

}

impl<T: Add<Output = T>> vstd::std_specs::ops::AddSpecImpl for Vector2<T> {
    open spec fn obeys_add_spec() -> bool {
        T::obeys_add_spec()
    }

    open spec fn add_req(self, rhs: Self) -> bool {
        &&& self.x.add_req(rhs.x)
        &&& self.y.add_req(rhs.y)
    }

    open spec fn add_spec(self, rhs: Self) -> Self {
        Vector2 {
            x: self.x.add_spec(rhs.x),
            y: self.y.add_spec(rhs.y),
        }
    }
}

impl<T: Add<Output = T>> Add for Vector2<T> {
    type Output = Self;

    /// The componentwise sum.
    fn add(self, other: Self) -> (sum: Self)
        ensures
            call_ensures(T::add, (self.x, other.x), sum.x),
            call_ensures(T::add, (self.y, other.y), sum.y),
    {
        Self { x: self.x + other.x, y: self.y + other.y }
    }
}

impl<T: Sub<Output = T>> vstd::std_specs::ops::SubSpecImpl for Vector2<T> {
    open spec fn obeys_sub_spec() -> bool {
        T::obeys_sub_spec()
    }

    open spec fn sub_req(self, rhs: Self) -> bool {
        &&& self.x.sub_req(rhs.x)
        &&& self.y.sub_req(rhs.y)
    }

    open spec fn sub_spec(self, rhs: Self) -> Self {
        Vector2 {
            x: self.x.sub_spec(rhs.x),
            y: self.y.sub_spec(rhs.y),
        }
    }
}

impl<T: Sub<Output = T>> Sub for Vector2<T> {
    type Output = Self;

    /// The componentwise difference.
    fn sub(self, other: Self) -> (difference: Self)
        ensures
            call_ensures(T::sub, (self.x, other.x), difference.x),
            call_ensures(T::sub, (self.y, other.y), difference.y),
    {
        Self { x: self.x - other.x, y: self.y - other.y }
    }
}

impl<T: Neg<Output = T>> vstd::std_specs::ops::NegSpecImpl for Vector2<T> {
    open spec fn obeys_neg_spec() -> bool {
        T::obeys_neg_spec()
    }

    open spec fn neg_req(self) -> bool {
        &&& self.x.neg_req()
        &&& self.y.neg_req()
    }

    open spec fn neg_spec(self) -> Self {
        Vector2 {
            x: self.x.neg_spec(),
            y: self.y.neg_spec(),
        }
    }
}

impl<T: Neg<Output = T>> Neg for Vector2<T> {
    type Output = Self;

    /// The componentwise negation.
    fn neg(self) -> (negated: Self)
        ensures
            call_ensures(T::neg, (self.x,), negated.x),
            call_ensures(T::neg, (self.y,), negated.y),
    {
        Self { x: self.x.neg(), y: self.y.neg() }
    }
}

impl<T: Mul<Output = T> + Add<Output = T> + Copy> Vector2<T> {
    /// `T` permits every product and the sum that `dot` forms, whatever `T`
    /// gives for the products.
    pub open spec fn dot_req(self, other: Self) -> bool {
        &&& self.x.mul_req(other.x)
        &&& self.y.mul_req(other.y)
        &&& forall|px: T, py: T|
            {
                &&& call_ensures(T::mul, (self.x, other.x), px)
                &&& call_ensures(T::mul, (self.y, other.y), py)
            } ==> #[trigger] px.add_req(py)
    }

    /// The dot product over `T`'s spec operators: `x * x' + y * y'`,
    /// summed from the left.
    pub open spec fn dot_spec(self, other: Self) -> T {
        self.x.mul_spec(other.x).add_spec(self.y.mul_spec(other.y))
    }

    /// `T` permits every product and every sum that `dot_spec` forms.
    pub open spec fn dot_spec_req(self, other: Self) -> bool {
        let px = self.x.mul_spec(other.x);
        let py = self.y.mul_spec(other.y);
        &&& self.x.mul_req(other.x)
        &&& self.y.mul_req(other.y)
        &&& px.add_req(py)
    }

    /// `d` is a value that `T`'s operators can give for `x * x' + y * y'`,
    /// summed from the left.
    pub open spec fn dot_gives(self, other: Self, d: T) -> bool {
        exists|px: T, py: T|
            {
                &&& #[trigger] call_ensures(T::mul, (self.x, other.x), px)
                &&& #[trigger] call_ensures(T::mul, (self.y, other.y), py)
                &&& call_ensures(T::add, (px, py), d)
            }
    }

    /// The dot product, summed in component order.
    pub fn dot(self, other: &Self) -> (d: T)
        requires
            self.dot_req(*other),
        ensures
            self.dot_gives(*other, d),
            T::obeys_mul_spec() && T::obeys_add_spec() ==> d == self.dot_spec(*other),
    {
        (self.x * other.x) + (self.y * other.y)
    }
}

impl<T: Integral> View for Vector2<T> {
    type V = Seq<int>;

    /// The components as integers, in component order.
    open spec fn view(&self) -> Seq<int> {
        seq![self.x.value(), self.y.value()]
    }
}

impl<T: Integral> Vector2<T> {
    /// Decides whether the vector can be normalised: whether every component
    /// is a double exactly and one of them is not zero.
    pub fn check_normalise(&self) -> (outcome: Result<(), NormaliseError>)
        ensures
            outcome == verdict(self@),
    {
        let components = [self.x.widen(), self.y.widen()];
        assert(integers(components@) == self@);
        check_components(components.as_slice())
    }
}

/// Addition commutes on every pair of vectors whose components' sums do.
pub proof fn lemma_add_commutative<T: Add<Output = T>>(a: Vector2<T>, b: Vector2<T>)
    requires
        a.x.add_spec(b.x) == b.x.add_spec(a.x),
        a.y.add_spec(b.y) == b.y.add_spec(a.y),
    ensures
        a.add_spec(b) == b.add_spec(a),
{
}

/// A vector minus itself is the all-zero vector, where `zero` is what each
/// component minus itself gives.
pub proof fn lemma_sub_self_is_zero<T: Sub<Output = T>>(a: Vector2<T>, zero: T)
    requires
        a.x.sub_spec(a.x) == zero,
        a.y.sub_spec(a.y) == zero,
    ensures
        a.sub_spec(a) == (Vector2 { x: zero, y: zero }),
{
}

/// Negating twice gives the vector back wherever it gives each component back.
pub proof fn lemma_neg_involutive<T: Neg<Output = T>>(a: Vector2<T>)
    requires
        a.x.neg_spec().neg_spec() == a.x,
        a.y.neg_spec().neg_spec() == a.y,
    ensures
        a.neg_spec().neg_spec() == a,
{
}

/// The dot product is symmetric wherever the components' products commute.
pub proof fn lemma_dot_symmetric<T: Mul<Output = T> + Add<Output = T> + Copy>(
    a: Vector2<T>,
    b: Vector2<T>,
)
    requires
        a.x.mul_spec(b.x) == b.x.mul_spec(a.x),
        a.y.mul_spec(b.y) == b.y.mul_spec(a.y),
    ensures
        a.dot_spec(b) == b.dot_spec(a),
{
}

/// A vector equals itself when each of its components equals itself.
pub proof fn lemma_eq_reflexive<T: PartialEq>(a: Vector2<T>)
    requires
        a.x.eq_spec(&a.x),
        a.y.eq_spec(&a.y),
    ensures
        a.eq_spec(&a),
{
}

/// Equality of vectors is symmetric wherever that of their components is.
pub proof fn lemma_eq_symmetric<T: PartialEq>(a: Vector2<T>, b: Vector2<T>)
    requires
        a.x.eq_spec(&b.x) == b.x.eq_spec(&a.x),
        a.y.eq_spec(&b.y) == b.y.eq_spec(&a.y),
    ensures
        a.eq_spec(&b) == b.eq_spec(&a),
{
}

/// Equality of vectors is transitive wherever that of their components is.
pub proof fn lemma_eq_transitive<T: PartialEq>(a: Vector2<T>, b: Vector2<T>, c: Vector2<T>)
    requires
        a.x.eq_spec(&b.x) && b.x.eq_spec(&c.x) ==> a.x.eq_spec(&c.x),
        a.y.eq_spec(&b.y) && b.y.eq_spec(&c.y) ==> a.y.eq_spec(&c.y),
        a.eq_spec(&b),
        b.eq_spec(&c),
    ensures
        a.eq_spec(&c),
{
}

/// With integer components the operators give what their spec functions
/// say, which for a sum or a difference that is permitted is that of the
/// integers, and the laws above hold of every vector: addition commutes,
/// and is permitted in one order when it is in the other; a vector may be
/// taken from itself, which gives the all-zero vector; the dot product is
/// symmetric, and is permitted in one order when it is in the other; and
/// equality is that of the components, so it is reflexive, symmetric and
/// transitive.
pub proof fn lemma_integer_laws<T: Integral>(a: Vector2<T>, b: Vector2<T>, c: Vector2<T>)
    ensures
        T::obeys_eq_spec() && T::obeys_add_spec() && T::obeys_sub_spec() && T::obeys_mul_spec(),
        a.add_req(b) ==> a.add_spec(b)@ == seq![a@[0] + b@[0], a@[1] + b@[1]],
        a.sub_req(b) ==> a.sub_spec(b)@ == seq![a@[0] - b@[0], a@[1] - b@[1]],
        a.add_req(b) == b.add_req(a),
        a.add_spec(b) == b.add_spec(a),
        a.sub_req(a),
        a.sub_spec(a)@ == seq![0int, 0int],
        a.dot_spec_req(b) == b.dot_spec_req(a),
        a.dot_spec(b) == b.dot_spec(a),
        a.eq_spec(&b) <==> a == b,
        a.eq_spec(&a),
        a.eq_spec(&b) == b.eq_spec(&a),
        a.eq_spec(&b) && b.eq_spec(&c) ==> a.eq_spec(&c),
{
    T::lemma_operators(a.x, a.x);
    T::lemma_operators(a.x, b.x);
    T::lemma_operators(b.x, a.x);
    T::lemma_operators(a.y, a.y);
    T::lemma_operators(a.y, b.y);
    T::lemma_operators(b.y, a.y);
}

/// For an element type that obeys its spec operators, `dot` is permitted
/// when every product and every sum of `dot_spec` is.
pub proof fn lemma_dot_req<T: Mul<Output = T> + Add<Output = T> + Copy>(
    a: Vector2<T>,
    b: Vector2<T>,
)
    requires
        T::obeys_mul_spec(),
        T::obeys_add_spec(),
        a.dot_spec_req(b),
    ensures
        a.dot_req(b),
{
}

/// With integer components `dot` is permitted when every product and every
/// sum of `dot_spec` is, and it is then the dot product of the integers.
pub proof fn lemma_integer_dot<T: Integral>(a: Vector2<T>, b: Vector2<T>)
    requires
        a.dot_spec_req(b),
    ensures
        a.dot_req(b),
        a.dot_spec(b).value() == a@[0] * b@[0] + a@[1] * b@[1],
{
    let px = a.x.mul_spec(b.x);
    let py = a.y.mul_spec(b.y);
    T::lemma_operators(a.x, b.x);
    T::lemma_operators(a.y, b.y);
    T::lemma_operators(px, py);
    lemma_dot_req(a, b);
}

/// With signed integer components negation gives what its spec function
/// says, which for a vector that may be negated is the negation of the
/// integers, and such a vector may be negated twice, which gives it back.
pub proof fn lemma_integer_negation<T: Signed>(a: Vector2<T>)
    requires
        a.neg_req(),
    ensures
        T::obeys_neg_spec(),
        a.neg_spec()@ == seq![-a@[0], -a@[1]],
        a.neg_spec().neg_req(),
        a.neg_spec().neg_spec() == a,
{
    T::lemma_negation(a.x);
    T::lemma_negation(a.y);
}

} // verus!
