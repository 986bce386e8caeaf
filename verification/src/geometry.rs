//! Pixel dimensions of a raster surface, as `euclid` represents them.
//!
//! Sizes are values of `euclid::default::Size2D<i32>`. The two declarations
//! below make that type known to the verifier with the fields that `euclid`
//! itself gives it, so contracts can speak of a size's `width` and `height`.
//! Nothing is claimed of any function of `euclid`.

use vstd::prelude::*;

verus! {

/// `euclid::UnknownUnit`: the tag of a size that carries no unit. A unit
/// struct without fields.
#[verifier::external_type_specification]
pub struct ExUnknownUnit(euclid::UnknownUnit);

/// `euclid::Size2D`: the public fields `width` and `height`, and a
/// zero-sized marker for the unit. Declared with its fields as they stand in
/// `euclid`'s definition of the struct; two sizes with the same width and
/// height are the same value.
#[verifier::external_type_specification]
#[verifier::reject_recursive_types(T)]
#[verifier::reject_recursive_types(U)]
pub struct ExSize2D<T, U>(euclid::Size2D<T, U>);

} // verus!
