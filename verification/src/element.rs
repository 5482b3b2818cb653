//! The scalar capability: what the dense engine asks of the numbers it
//! stores. Arithmetic is pinned to spec-level functions so that the matrix
//! contracts can speak exactly about every cell the engine computes.

use vstd::prelude::*;

verus! {

/// A scalar that can fill a matrix: it has an additive identity, a sum, a
/// product, a draw from some sampling distribution, and decidable equality.
///
/// The spec functions are the mathematical face of the operations; each
/// executable operation promises to return exactly its spec counterpart, so
/// matrix contracts stated over the spec functions pin the computed cells
/// down completely.
pub trait Element: Sized + Copy {
    /// The additive identity, as contracts see it.
    spec fn zero_spec() -> Self;

    /// The sum of two scalars, as contracts see it.
    spec fn plus_spec(self, rhs: Self) -> Self;

    /// The product of two scalars, as contracts see it.
    spec fn times_spec(self, rhs: Self) -> Self;

    /// The additive identity.
    fn zero_val() -> (r: Self)
        ensures
            r == Self::zero_spec(),
    ;

    /// Adds `rhs` to `self`.
    fn plus(self, rhs: Self) -> (r: Self)
        ensures
            r == self.plus_spec(rhs),
    ;

    /// Multiplies `self` by `rhs`.
    fn times(self, rhs: Self) -> (r: Self)
        ensures
            r == self.times_spec(rhs),
    ;

    /// One draw from the scalar's sampling distribution. Nothing is promised
    /// of the value: two draws may or may not differ.
    fn sample() -> Self;

    /// Whether two scalars are the same value.
    fn eq_val(self, rhs: Self) -> (r: bool)
        ensures
            r == (self == rhs),
    ;
}

/// Relies on `rand::random`: one draw of a machine integer from thread-local
/// entropy. Nothing is promised of the value.
#[verifier::external_body]
fn random_i64() -> i64 {
    rand::random::<i64>()
}

/// Machine integers as matrix scalars. Sums and products wrap around on
/// overflow, and the spec functions say exactly that, so the contracts stay
/// total over the whole range.
impl Element for i64 {
    open spec fn zero_spec() -> i64 {
        0
    }

    open spec fn plus_spec(self, rhs: i64) -> i64 {
        vstd::wrapping::i64_specs::wrapping_add(self, rhs)
    }

    open spec fn times_spec(self, rhs: i64) -> i64 {
        vstd::wrapping::i64_specs::wrapping_mul(self, rhs)
    }

    fn zero_val() -> i64 {
        0
    }

    fn plus(self, rhs: i64) -> i64 {
        self.wrapping_add(rhs)
    }

    fn times(self, rhs: i64) -> i64 {
        self.wrapping_mul(rhs)
    }

    fn sample() -> i64 {
        random_i64()
    }

    fn eq_val(self, rhs: i64) -> bool {
        self == rhs
    }
}

} // verus!
