//! Whether a vector of integers can be scaled to unit length.
//!
//! Normalising divides each component, taken as a double, by the vector's
//! length. That is defined when every component is a double exactly and
//! the vector is not the zero vector. The decision is made here, on the
//! integers; the arithmetic on doubles is the caller's.

use crate::double::{holds_exactly, is_double, lemma_zero_is_double};
use vstd::prelude::*;

verus! {

/// Why a vector has no unit vector.
#[derive(Debug, Clone, Copy, PartialEq, Eq, Structural)]
pub enum NormaliseError {
    /// A component is not a double exactly.
    InvalidConversion,
    /// Every component is zero, so the vector has no direction.
    ZeroLength,
}

/// Every one of `components` is a double exactly.
pub open spec fn all_exact(components: Seq<int>) -> bool {
    forall|i: int| 0 <= i < components.len() ==> is_double(#[trigger] components[i])
}

/// Every one of `components` is zero.
pub open spec fn all_zero(components: Seq<int>) -> bool {
    forall|i: int| 0 <= i < components.len() ==> #[trigger] components[i] == 0
}

/// What normalising the vector with these components comes to.
pub open spec fn verdict(components: Seq<int>) -> Result<(), NormaliseError> {
    if !all_exact(components) {
        Err(NormaliseError::InvalidConversion)
    } else if all_zero(components) {
        Err(NormaliseError::ZeroLength)
    } else {
        Ok(())
    }
}

/// The integers that `components` holds.
pub open spec fn integers(components: Seq<i128>) -> Seq<int> {
    components.map_values(|c: i128| c as int)
}

/// Decides whether the vector with these components can be normalised.
pub fn check_components(components: &[i128]) -> (outcome: Result<(), NormaliseError>)
    ensures
        outcome == verdict(integers(components@)),
{
    let mut zero = true;
    let mut i: usize = 0;
    while i < components.len()
        invariant
            i <= components.len(),
            all_exact(integers(components@).take(i as int)),
            zero == all_zero(integers(components@).take(i as int)),
        decreases components.len() - i,
    {
        let c: i128 = components[i];
        if !holds_exactly(c) {
            assert(!is_double(integers(components@)[i as int]));
            return Err(NormaliseError::InvalidConversion);
        }
        if c != 0 {
            assert(integers(components@).take(i + 1)[i as int] != 0);
            zero = false;
        }
        i = i + 1;
    }
    assert(integers(components@).take(i as int) == integers(components@));
    if zero {
        Err(NormaliseError::ZeroLength)
    } else {
        Ok(())
    }
}

/// The zero vector of any dimension has no unit vector: normalising it
/// comes to `ZeroLength`, and nothing else does.
pub proof fn lemma_zero_vector_has_zero_length(components: Seq<int>)
    ensures
        all_zero(components) <==> verdict(components) == Err::<(), _>(NormaliseError::ZeroLength),
{
    if all_zero(components) {
        assert forall|i: int| 0 <= i < components.len() implies is_double(
            #[trigger] components[i],
        ) by {
            lemma_zero_is_double();
        }
    }
}

} // verus!
