//! Three-component vectors.
//!
//! Every operation is the componentwise lift of the element type's own
//! operator. A contract therefore speaks of the element type twice: through
//! the operator's spec function (`add_spec`, `mul_spec`, ...), which holds for
//! element types that obey it, and through `call_ensures`, which holds for
//! every element type.

use crate::integral::{Integral, Signed};
use crate::normalise::{check_components, integers, verdict, NormaliseError};
use std::ops::{Add, Mul, Neg, Sub};
use vstd::prelude::*;
use vstd::std_specs::cmp::PartialEqSpec;
use vstd::std_specs::ops::{AddSpec, MulSpec, NegSpec, SubSpec};

verus! {

/// A vector with the three components `x`, `y` and `z`.
#[derive(Debug)]
pub struct Vector3<T> {
    pub x: T,
    pub y: T,
    pub z: T,
}

impl<T: Copy> Copy for Vector3<T> {

}

impl<T: Clone> Clone for Vector3<T> {
    /// Clones each component.
    fn clone(&self) -> (copy: Self)
        ensures
            cloned(self.x, copy.x),
            cloned(self.y, copy.y),
            cloned(self.z, copy.z),
    {
        Self {
            x: self.x.clone(),
            y: self.y.clone(),
            z: self.z.clone(),
        }
    }
}

impl<T> Vector3<T> {
    /// Builds the vector `(x, y, z)`.
    pub fn new(x: T, y: T, z: T) -> (v: Self)
        ensures
            v == (Vector3 { x, y, z }),
    {
        Self { x, y, z }
    }
}

impl<T: PartialEq> vstd::std_specs::cmp::PartialEqSpecImpl for Vector3<T> {
    open spec fn obeys_eq_spec() -> bool {
        T::obeys_eq_spec()
    }

    /// Two vectors are equal when all three pairs of components are.
    open spec fn eq_spec(&self, other: &Self) -> bool {
        &&& self.x.eq_spec(&other.x)
        &&& self.y.eq_spec(&other.y)
        &&& self.z.eq_spec(&other.z)
    }
}

impl<T: PartialEq> PartialEq for Vector3<T> {
    /// Compares every pair of components, in component order.
    fn eq(&self, other: &Self) -> (equal: bool)
        ensures
            exists|ex: bool, ey: bool, ez: bool|
                {
                    &&& #[trigger] call_ensures(T::eq, (&self.x, &other.x), ex)
                    &&& #[trigger] call_ensures(T::eq, (&self.y, &other.y), ey)
                    &&& #[trigger] call_ensures(T::eq, (&self.z, &other.z), ez)
                    &&& equal == (ex && ey && ez)
                },
    {
        let ex = self.x == other.x;
        let ey = self.y == other.y;
        let ez = self.z == other.z;
        ex && ey && ez
    }
}

impl<T: Eq> Eq for Vector3<T> {

}

impl<T: Add<Output = T>> vstd::std_specs::ops::AddSpecImpl for Vector3<T> {
    open spec fn obeys_add_spec() -> bool {
        T::obeys_add_spec()
    }

    open spec fn add_req(self, rhs: Self) -> bool {
        &&& self.x.add_req(rhs.x)
        &&& self.y.add_req(rhs.y)
        &&& self.z.add_req(rhs.z)
    }

    open spec fn add_spec(self, rhs: Self) -> Self {
        Vector3 {
            x: self.x.add_spec(rhs.x),
            y: self.y.add_spec(rhs.y),
            z: self.z.add_spec(rhs.z),
        }
    }
}

impl<T: Add<Output = T>> Add for Vector3<T> {
    type Output = Self;

    /// The componentwise sum.
    fn add(self, other: Self) -> (sum: Self)
        ensures
            call_ensures(T::add, (self.x, other.x), sum.x),
            call_ensures(T::add, (self.y, other.y), sum.y),
            call_ensures(T::add, (self.z, other.z), sum.z),
    {
        Self {
            x: self.x + other.x,
            y: self.y + other.y,
            z: self.z + other.z,
        }
    }
}

impl<T: Sub<Output = T>> vstd::std_specs::ops::SubSpecImpl for Vector3<T> {
    open spec fn obeys_sub_spec() -> bool {
        T::obeys_sub_spec()
    }

    open spec fn sub_req(self, rhs: Self) -> bool {
        &&& self.x.sub_req(rhs.x)
        &&& self.y.sub_req(rhs.y)
        &&& self.z.sub_req(rhs.z)
    }

    open spec fn sub_spec(self, rhs: Self) -> Self {
        Vector3 {
            x: self.x.sub_spec(rhs.x),
            y: self.y.sub_spec(rhs.y),
            z: self.z.sub_spec(rhs.z),
        }
    }
}

impl<T: Sub<Output = T>> Sub for Vector3<T> {
    type Output = Self;

    /// The componentwise difference.
    fn sub(self, other: Self) -> (difference: Self)
        ensures
            call_ensures(T::sub, (self.x, other.x), difference.x),
            call_ensures(T::sub, (self.y, other.y), difference.y),
            call_ensures(T::sub, (self.z, other.z), difference.z),
    {
        Self {
            x: self.x - other.x,
            y: self.y - other.y,
            z: self.z - other.z,
        }
    }
}

impl<T: Neg<Output = T>> vstd::std_specs::ops::NegSpecImpl for Vector3<T> {
    open spec fn obeys_neg_spec() -> bool {
        T::obeys_neg_spec()
    }

    open spec fn neg_req(self) -> bool {
        &&& self.x.neg_req()
        &&& self.y.neg_req()
        &&& self.z.neg_req()
    }

    open spec fn neg_spec(self) -> Self {
        Vector3 {
            x: self.x.neg_spec(),
            y: self.y.neg_spec(),
            z: self.z.neg_spec(),
        }
    }
}

impl<T: Neg<Output = T>> Neg for Vector3<T> {
    type Output = Self;

    /// The componentwise negation.
    fn neg(self) -> (negated: Self)
        ensures
            call_ensures(T::neg, (self.x,), negated.x),
            call_ensures(T::neg, (self.y,), negated.y),
            call_ensures(T::neg, (self.z,), negated.z),
    {
        Self {
            x: self.x.neg(),
            y: self.y.neg(),
            z: self.z.neg(),
        }
    }
}

impl<T: Mul<Output = T> + Add<Output = T> + Copy> Vector3<T> {
    /// `T` permits every product and every one of the sums that `dot` forms,
    /// whatever `T` gives for those before it.
    pub open spec fn dot_req(self, other: Self) -> bool {
        &&& self.x.mul_req(other.x)
        &&& self.y.mul_req(other.y)
        &&& self.z.mul_req(other.z)
        &&& forall|px: T, py: T|
            {
                &&& call_ensures(T::mul, (self.x, other.x), px)
                &&& call_ensures(T::mul, (self.y, other.y), py)
            } ==> #[trigger] px.add_req(py)
        &&& forall|px: T, py: T, pz: T, sxy: T|
            {
                &&& call_ensures(T::mul, (self.x, other.x), px)
                &&& call_ensures(T::mul, (self.y, other.y), py)
                &&& call_ensures(T::mul, (self.z, other.z), pz)
                &&& #[trigger] call_ensures(T::add, (px, py), sxy)
            } ==> #[trigger] sxy.add_req(pz)
    }

    /// The dot product over `T`'s spec operators: `x * x' + y * y' + z * z'`,
    /// summed from the left.
    pub open spec fn dot_spec(self, other: Self) -> T {
        let xy = self.x.mul_spec(other.x).add_spec(self.y.mul_spec(other.y));
        xy.add_spec(self.z.mul_spec(other.z))
    }

    /// `T` permits every product and every sum that `dot_spec` forms.
    pub open spec fn dot_spec_req(self, other: Self) -> bool {
        let px = self.x.mul_spec(other.x);
        let py = self.y.mul_spec(other.y);
        let pz = self.z.mul_spec(other.z);
        let sxy = px.add_spec(py);
        &&& self.x.mul_req(other.x)
        &&& self.y.mul_req(other.y)
        &&& self.z.mul_req(other.z)
        &&& px.add_req(py)
        &&& sxy.add_req(pz)
    }

    /// `d` is a value that `T`'s operators can give for `x * x' + y * y' + z * z'`,
    /// summed from the left.
    pub open spec fn dot_gives(self, other: Self, d: T) -> bool {
        exists|px: T, py: T, pz: T, sxy: T|
            {
                &&& #[trigger] call_ensures(T::mul, (self.x, other.x), px)
                &&& #[trigger] call_ensures(T::mul, (self.y, other.y), py)
                &&& #[trigger] call_ensures(T::mul, (self.z, other.z), pz)
                &&& #[trigger] call_ensures(T::add, (px, py), sxy)
                &&& call_ensures(T::add, (sxy, pz), d)
            }
    }

    /// The dot product, summed in component order.
    pub fn dot(self, other: &Self) -> (d: T)
        requires
            self.dot_req(*other),
        ensures
            self.dot_gives(*other, d),
            T::obeys_mul_spec() && T::obeys_add_spec() ==> d == self.dot_spec(*other),
    {
        (self.x * other.x) + (self.y * other.y) + (self.z * other.z)
    }
}

impl<T: Integral> View for Vector3<T> {
    type V = Seq<int>;

    /// The components as integers, in component order.
    open spec fn view(&self) -> Seq<int> {
        seq![self.x.value(), self.y.value(), self.z.value()]
    }
}

impl<T: Integral> Vector3<T> {
    /// Decides whether the vector can be normalised: whether every component
    /// is a double exactly and one of them is not zero.
    pub fn check_normalise(&self) -> (outcome: Result<(), NormaliseError>)
        ensures
            outcome == verdict(self@),
    {
        let components = [self.x.widen(), self.y.widen(), self.z.widen()];
        assert(integers(components@) == self@);
        check_components(components.as_slice())
    }
}

/// Addition commutes on every pair of vectors whose components' sums do.
pub proof fn lemma_add_commutative<T: Add<Output = T>>(a: Vector3<T>, b: Vector3<T>)
    requires
        a.x.add_spec(b.x) == b.x.add_spec(a.x),
        a.y.add_spec(b.y) == b.y.add_spec(a.y),
        a.z.add_spec(b.z) == b.z.add_spec(a.z),
    ensures
        a.add_spec(b) == b.add_spec(a),
{
}

/// A vector minus itself is the all-zero vector, where `zero` is what each
/// component minus itself gives.
pub proof fn lemma_sub_self_is_zero<T: Sub<Output = T>>(a: Vector3<T>, zero: T)
    requires
        a.x.sub_spec(a.x) == zero,
        a.y.sub_spec(a.y) == zero,
        a.z.sub_spec(a.z) == zero,
    ensures
        a.sub_spec(a) == (Vector3 { x: zero, y: zero, z: zero }),
{
}

/// Negating twice gives the vector back wherever it gives each component back.
pub proof fn lemma_neg_involutive<T: Neg<Output = T>>(a: Vector3<T>)
    requires
        a.x.neg_spec().neg_spec() == a.x,
        a.y.neg_spec().neg_spec() == a.y,
        a.z.neg_spec().neg_spec() == a.z,
    ensures
        a.neg_spec().neg_spec() == a,
{
}

/// The dot product is symmetric wherever the components' products commute.
pub proof fn lemma_dot_symmetric<T: Mul<Output = T> + Add<Output = T> + Copy>(
    a: Vector3<T>,
    b: Vector3<T>,
)
    requires
        a.x.mul_spec(b.x) == b.x.mul_spec(a.x),
        a.y.mul_spec(b.y) == b.y.mul_spec(a.y),
        a.z.mul_spec(b.z) == b.z.mul_spec(a.z),
    ensures
        a.dot_spec(b) == b.dot_spec(a),
{
}

/// A vector equals itself when each of its components equals itself.
pub proof fn lemma_eq_reflexive<T: PartialEq>(a: Vector3<T>)
    requires
        a.x.eq_spec(&a.x),
        a.y.eq_spec(&a.y),
        a.z.eq_spec(&a.z),
    ensures
        a.eq_spec(&a),
{
}

/// Equality of vectors is symmetric wherever that of their components is.
pub proof fn lemma_eq_symmetric<T: PartialEq>(a: Vector3<T>, b: Vector3<T>)
    requires
        a.x.eq_spec(&b.x) == b.x.eq_spec(&a.x),
        a.y.eq_spec(&b.y) == b.y.eq_spec(&a.y),
        a.z.eq_spec(&b.z) == b.z.eq_spec(&a.z),
    ensures
        a.eq_spec(&b) == b.eq_spec(&a),
{
}

/// Equality of vectors is transitive wherever that of their components is.
pub proof fn lemma_eq_transitive<T: PartialEq>(a: Vector3<T>, b: Vector3<T>, c: Vector3<T>)
    requires
        a.x.eq_spec(&b.x) && b.x.eq_spec(&c.x) ==> a.x.eq_spec(&c.x),
        a.y.eq_spec(&b.y) && b.y.eq_spec(&c.y) ==> a.y.eq_spec(&c.y),
        a.z.eq_spec(&b.z) && b.z.eq_spec(&c.z) ==> a.z.eq_spec(&c.z),
        a.eq_spec(&b),
        b.eq_spec(&c),
    ensures
        a.eq_spec(&c),
{
}

/// With integer components the operators give what their spec functions
/// say, which for a sum or a difference that is permitted is that of the
/// integers, and the laws above hold of every vector: addition commutes,
/// and is permitted in one order when it is in the other; a vector may be
/// taken from itself, which gives the all-zero vector; the dot product is
/// symmetric, and is permitted in one order when it is in the other; and
/// equality is that of the components, so it is reflexive, symmetric and
/// transitive.
pub proof fn lemma_integer_laws<T: Integral>(a: Vector3<T>, b: Vector3<T>, c: Vector3<T>)
    ensures
        T::obeys_eq_spec() && T::obeys_add_spec() && T::obeys_sub_spec() && T::obeys_mul_spec(),
        a.add_req(b) ==> a.add_spec(b)@ == seq![a@[0] + b@[0], a@[1] + b@[1], a@[2] + b@[2]],
        a.sub_req(b) ==> a.sub_spec(b)@ == seq![a@[0] - b@[0], a@[1] - b@[1], a@[2] - b@[2]],
        a.add_req(b) == b.add_req(a),
        a.add_spec(b) == b.add_spec(a),
        a.sub_req(a),
        a.sub_spec(a)@ == seq![0int, 0int, 0int],
        a.dot_spec_req(b) == b.dot_spec_req(a),
        a.dot_spec(b) == b.dot_spec(a),
        a.eq_spec(&b) <==> a == b,
        a.eq_spec(&a),
        a.eq_spec(&b) == b.eq_spec(&a),
        a.eq_spec(&b) && b.eq_spec(&c) ==> a.eq_spec(&c),
{
    T::lemma_operators(a.x, a.x);
    T::lemma_operators(a.x, b.x);
    T::lemma_operators(b.x, a.x);
    T::lemma_operators(a.y, a.y);
    T::lemma_operators(a.y, b.y);
    T::lemma_operators(b.y, a.y);
    T::lemma_operators(a.z, a.z);
    T::lemma_operators(a.z, b.z);
    T::lemma_operators(b.z, a.z);
}

/// For an element type that obeys its spec operators, `dot` is permitted
/// when every product and every sum of `dot_spec` is.
pub proof fn lemma_dot_req<T: Mul<Output = T> + Add<Output = T> + Copy>(
    a: Vector3<T>,
    b: Vector3<T>,
)
    requires
        T::obeys_mul_spec(),
        T::obeys_add_spec(),
        a.dot_spec_req(b),
    ensures
        a.dot_req(b),
{
}

/// With integer components `dot` is permitted when every product and every
/// sum of `dot_spec` is, and it is then the dot product of the integers.
pub proof fn lemma_integer_dot<T: Integral>(a: Vector3<T>, b: Vector3<T>)
    requires
        a.dot_spec_req(b),
    ensures
        a.dot_req(b),
        a.dot_spec(b).value() == a@[0] * b@[0] + a@[1] * b@[1] + a@[2] * b@[2],
{
    let px = a.x.mul_spec(b.x);
    let py = a.y.mul_spec(b.y);
    let pz = a.z.mul_spec(b.z);
    let sxy = px.add_spec(py);
    T::lemma_operators(a.x, b.x);
    T::lemma_operators(a.y, b.y);
    T::lemma_operators(a.z, b.z);
    T::lemma_operators(px, py);
    T::lemma_operators(sxy, pz);
    lemma_dot_req(a, b);
}

/// With signed integer components negation gives what its spec function
/// says, which for a vector that may be negated is the negation of the
/// integers, and such a vector may be negated twice, which gives it back.
pub proof fn lemma_integer_negation<T: Signed>(a: Vector3<T>)
    requires
        a.neg_req(),
    ensures
        T::obeys_neg_spec(),
        a.neg_spec()@ == seq![-a@[0], -a@[1], -a@[2]],
        a.neg_spec().neg_req(),
        a.neg_spec().neg_spec() == a,
{
    T::lemma_negation(a.x);
    T::lemma_negation(a.y);
    T::lemma_negation(a.z);
}

} // verus!
