use vstd::prelude::*;

verus! {

/// The numeric operations that the panning formulas need, so that they can run on a
/// single- or double-precision type, or any other numeric type.
///
/// The spec functions name what each operation returns; the proof functions are the few
/// laws of arithmetic that the library's lemmas use. Each holds of IEEE floating point
/// with rounding to nearest, and an implementing type must keep them.
pub trait Scalar: Sized + Copy {
    /// The value of a small integer constant.
    spec fn spec_of_int(n: i32) -> Self;

    /// The sum, as the type rounds it.
    spec fn spec_plus(self, o: Self) -> Self;

    /// The difference, as the type rounds it.
    spec fn spec_minus(self, o: Self) -> Self;

    /// The product, as the type rounds it.
    spec fn spec_times(self, o: Self) -> Self;

    /// The quotient, as the type rounds it; what a division by zero gives is the type's affair.
    spec fn spec_divided_by(self, o: Self) -> Self;

    /// The value with its sign changed.
    spec fn spec_negated(self) -> Self;

    /// `self` raised to the power `e`.
    spec fn spec_pow(self, e: Self) -> Self;

    /// Equal to zero, of either sign.
    spec fn spec_is_zero(self) -> bool;

    /// A number, not a NaN.
    spec fn spec_is_number(self) -> bool;

    /// Neither infinite nor a NaN.
    spec fn spec_is_finite(self) -> bool;

    /// The constant zero is zero.
    proof fn lemma_zero_is_zero()
        ensures
            Self::spec_of_int(0).spec_is_zero(),
    ;

    /// A sum of two zeros is zero.
    proof fn lemma_plus_zeros(a: Self, b: Self)
        requires
            a.spec_is_zero(),
            b.spec_is_zero(),
        ensures
            a.spec_plus(b).spec_is_zero(),
    ;

    /// A product of two zeros is zero.
    proof fn lemma_times_zeros(a: Self, b: Self)
        requires
            a.spec_is_zero(),
            b.spec_is_zero(),
        ensures
            a.spec_times(b).spec_is_zero(),
    ;

    /// Zero divided by a number that is not zero is zero.
    proof fn lemma_zero_divided_by(a: Self, b: Self)
        requires
            a.spec_is_zero(),
            b.spec_is_number(),
            !b.spec_is_zero(),
        ensures
            a.spec_divided_by(b).spec_is_zero(),
    ;

    /// A finite value minus itself is the constant zero.
    proof fn lemma_minus_self(a: Self)
        requires
            a.spec_is_finite(),
        ensures
            a.spec_minus(a) == Self::spec_of_int(0),
    ;

    /// The constant zero, times itself or plus itself, is the constant zero.
    proof fn lemma_zero_ops()
        ensures
            Self::spec_of_int(0).spec_times(Self::spec_of_int(0)) == Self::spec_of_int(0),
            Self::spec_of_int(0).spec_plus(Self::spec_of_int(0)) == Self::spec_of_int(0),
    ;

    /// The constant zero plus a number that is not zero is that number.
    proof fn lemma_zero_plus(b: Self)
        requires
            b.spec_is_number(),
            !b.spec_is_zero(),
        ensures
            Self::spec_of_int(0).spec_plus(b) == b,
    ;

    /// Makes the constant `n`.
    fn of_int(n: i32) -> (r: Self)
        ensures
            r == Self::spec_of_int(n),
    ;

    /// Adds `o`.
    fn plus(self, o: Self) -> (r: Self)
        ensures
            r == self.spec_plus(o),
    ;

    /// Subtracts `o`.
    fn minus(self, o: Self) -> (r: Self)
        ensures
            r == self.spec_minus(o),
    ;

    /// Multiplies by `o`.
    fn times(self, o: Self) -> (r: Self)
        ensures
            r == self.spec_times(o),
    ;

    /// Divides by `o`.
    fn divided_by(self, o: Self) -> (r: Self)
        ensures
            r == self.spec_divided_by(o),
    ;

    /// Changes the sign.
    fn negated(self) -> (r: Self)
        ensures
            r == self.spec_negated(),
    ;

    /// Raises to the power `e`.
    fn pow(self, e: Self) -> (r: Self)
        ensures
            r == self.spec_pow(e),
    ;

    /// Whether the value equals zero.
    fn is_zero(self) -> (r: bool)
        ensures
            r == self.spec_is_zero(),
    ;
}

} // verus!
