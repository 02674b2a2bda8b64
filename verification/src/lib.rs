//! Statistical distributions and the special functions they are built on.
//!
//! The library provides the gamma distribution together with the gamma and
//! beta special-function kernels (log-gamma, digamma, regularized incomplete
//! gamma and beta). Every routine is generic over the [`Float`] capability
//! trait, which names the real-number operations in the logic; the contracts
//! of the library pin each result down to its exact construction from those
//! operations.

use vstd::prelude::*;

pub mod distribution;
pub mod function;

verus! {

/// Real-number capability on which the whole library is built.
///
/// Each ghost (`*_spec`) function gives an abstract name to a value or an
/// operation of the implementation, and each executable method promises to
/// agree with its ghost name. Nothing further is assumed of the arithmetic:
/// a contract that speaks of `a.add_spec(b)` says exactly "whatever the
/// implementation's addition returns on `a` and `b`", no more. An
/// implementation supplies the machine arithmetic (typically IEEE-754 double
/// precision) outside the verified library; the verifier holds every proof in
/// this crate to the interface below, and trusts an implementation to meet
/// it.
pub trait Float: Sized + Copy {
    /// The value is a not-a-number.
    spec fn is_nan_spec(self) -> bool;

    /// Numeric equality of the implementation. Distinct from logical
    /// equality: numerically, a not-a-number value is unequal to everything.
    spec fn feq_spec(self, o: Self) -> bool;

    /// Numeric strict order of the implementation.
    spec fn lt_spec(self, o: Self) -> bool;

    /// Numeric non-strict order of the implementation.
    spec fn le_spec(self, o: Self) -> bool;

    spec fn add_spec(self, o: Self) -> Self;

    spec fn sub_spec(self, o: Self) -> Self;

    spec fn mul_spec(self, o: Self) -> Self;

    spec fn div_spec(self, o: Self) -> Self;

    spec fn neg_spec(self) -> Self;

    spec fn abs_spec(self) -> Self;

    /// Natural logarithm.
    spec fn ln_spec(self) -> Self;

    /// Natural exponential.
    spec fn exp_spec(self) -> Self;

    spec fn sqrt_spec(self) -> Self;

    spec fn sin_spec(self) -> Self;

    spec fn tan_spec(self) -> Self;

    /// Rounding toward negative infinity.
    spec fn floor_spec(self) -> Self;

    /// `self` raised to the power `o`.
    spec fn powf_spec(self, o: Self) -> Self;

    spec fn zero_spec() -> Self;

    spec fn one_spec() -> Self;

    spec fn infinity_spec() -> Self;

    spec fn neg_infinity_spec() -> Self;

    /// A not-a-number value.
    spec fn nan_spec() -> Self;

    /// The circle constant.
    spec fn pi_spec() -> Self;

    /// The base of the natural logarithm.
    spec fn e_spec() -> Self;

    /// The convergence floor of the implementation: the magnitude below
    /// which a relative update counts as converged (machine epsilon for a
    /// binary floating-point type).
    spec fn precision_spec() -> Self;

    /// The smallest positive normal magnitude of the implementation.
    spec fn min_positive_spec() -> Self;

    /// The value standing for the integer `n`. Callers only pass integers
    /// a double-precision type represents exactly.
    spec fn from_u64_spec(n: u64) -> Self;

    /// The value whose IEEE-754 binary64 encoding is `bits`; used for the
    /// few published kernel coefficients whose decimal form is not an
    /// exactly representable integer ratio.
    spec fn from_bits_spec(bits: u64) -> Self;

    fn is_nan(self) -> (r: bool)
        ensures
            r == self.is_nan_spec(),
    ;

    fn feq(self, o: Self) -> (r: bool)
        ensures
            r == self.feq_spec(o),
    ;

    fn lt(self, o: Self) -> (r: bool)
        ensures
            r == self.lt_spec(o),
    ;

    fn le(self, o: Self) -> (r: bool)
        ensures
            r == self.le_spec(o),
    ;

    fn add(self, o: Self) -> (r: Self)
        ensures
            r == self.add_spec(o),
    ;

    fn sub(self, o: Self) -> (r: Self)
        ensures
            r == self.sub_spec(o),
    ;

    fn mul(self, o: Self) -> (r: Self)
        ensures
            r == self.mul_spec(o),
    ;

    fn div(self, o: Self) -> (r: Self)
        ensures
            r == self.div_spec(o),
    ;

    fn neg(self) -> (r: Self)
        ensures
            r == self.neg_spec(),
    ;

    fn abs(self) -> (r: Self)
        ensures
            r == self.abs_spec(),
    ;

    fn ln(self) -> (r: Self)
        ensures
            r == self.ln_spec(),
    ;

    fn exp(self) -> (r: Self)
        ensures
            r == self.exp_spec(),
    ;

    fn sqrt(self) -> (r: Self)
        ensures
            r == self.sqrt_spec(),
    ;

    fn sin(self) -> (r: Self)
        ensures
            r == self.sin_spec(),
    ;

    fn tan(self) -> (r: Self)
        ensures
            r == self.tan_spec(),
    ;

    fn floor(self) -> (r: Self)
        ensures
            r == self.floor_spec(),
    ;

    fn powf(self, o: Self) -> (r: Self)
        ensures
            r == self.powf_spec(o),
    ;

    fn zero() -> (r: Self)
        ensures
            r == Self::zero_spec(),
    ;

    fn one() -> (r: Self)
        ensures
            r == Self::one_spec(),
    ;

    fn infinity() -> (r: Self)
        ensures
            r == Self::infinity_spec(),
    ;

    fn neg_infinity() -> (r: Self)
        ensures
            r == Self::neg_infinity_spec(),
    ;

    fn nan() -> (r: Self)
        ensures
            r == Self::nan_spec(),
    ;

    fn pi() -> (r: Self)
        ensures
            r == Self::pi_spec(),
    ;

    fn e() -> (r: Self)
        ensures
            r == Self::e_spec(),
    ;

    fn precision() -> (r: Self)
        ensures
            r == Self::precision_spec(),
    ;

    fn min_positive() -> (r: Self)
        ensures
            r == Self::min_positive_spec(),
    ;

    fn from_u64(n: u64) -> (r: Self)
        ensures
            r == Self::from_u64_spec(n),
    ;

    fn from_bits(bits: u64) -> (r: Self)
        ensures
            r == Self::from_bits_spec(bits),
    ;

    /// Ground facts every implementation owes about its equality at the two
    /// distinguished points the library's boundary cases test. They hold of
    /// any IEEE-754 type: zero and one are ordinary values, numerically
    /// equal to themselves and unequal to each other.
    proof fn lemma_zero_one_feq()
        ensures
            Self::zero_spec().feq_spec(Self::zero_spec()),
            Self::one_spec().feq_spec(Self::one_spec()),
            !Self::zero_spec().feq_spec(Self::one_spec()),
            !Self::one_spec().feq_spec(Self::zero_spec()),
    ;

    /// A ground fact every implementation owes about its order: strictly
    /// below implies at-or-below.
    proof fn lemma_lt_implies_le(a: Self, o: Self)
        ensures
            a.lt_spec(o) ==> a.le_spec(o),
    ;
}

/// Source of randomness consumed by sampling: an opaque capability handed in
/// by the caller, borrowed for one call at a time. Nothing can be promised
/// of a draw, so the methods carry no contract; every sampling routine
/// states only what holds of its result whatever values come back.
pub trait RandomSource<T: Float> {
    /// One draw, uniformly distributed over `[0, 1)`.
    fn uniform(&mut self) -> T;

    /// One standard-normal draw.
    fn normal(&mut self) -> T;
}

/// The one recoverable failure of the library: construction of a
/// distribution from rejected parameters.
#[derive(Clone, Copy, Debug, PartialEq, Eq, Structural)]
pub enum StatsError {
    /// A distribution parameter was not-a-number or outside its domain.
    BadParams,
}

} // verus!
