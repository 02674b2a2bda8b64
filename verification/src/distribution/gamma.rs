//! The gamma distribution with shape and rate parameters.

use vstd::prelude::*;

use crate::Float;
use crate::RandomSource;
use crate::StatsError;
use crate::function::gamma::digamma;
use crate::function::gamma::digamma_spec;
use crate::function::gamma::gamma;
use crate::function::gamma::gamma_lr;
use crate::function::gamma::gamma_lr_spec;
use crate::function::gamma::gamma_spec;
use crate::function::gamma::ln_gamma;
use crate::function::gamma::ln_gamma_spec;

verus! {

/// Parameters are accepted when neither is not-a-number and both are
/// strictly positive; `rate` may be positive infinity (the degenerate
/// point-mass convention).
pub open spec fn valid_gamma_parameters_spec<T: Float>(shape: T, rate: T) -> bool {
    !(shape.is_nan_spec() || rate.is_nan_spec()) && !(shape.le_spec(T::zero_spec())
        || rate.le_spec(T::zero_spec()))
}

/// Reports whether `shape` and `rate` are valid gamma-distribution
/// parameters.
fn valid_gamma_parameters<T: Float>(shape: T, rate: T) -> (r: bool)
    ensures
        r == valid_gamma_parameters_spec(shape, rate),
{
    if shape.is_nan() || rate.is_nan() {
        false
    } else if shape.le(T::zero()) || rate.le(T::zero()) {
        false
    } else {
        true
    }
}

/// The gamma distribution, parameterized by a shape and a rate, both
/// strictly positive and validated at construction. A rate of positive
/// infinity stands for the degenerate point mass at the shape value.
/// Instances are immutable.
#[derive(Clone, Copy, Debug, PartialEq)]
pub struct Gamma<T: Float> {
    shape: T,
    rate: T,
}

impl<T: Float> Gamma<T> {
    /// The shape parameter, as the logic sees it.
    pub closed spec fn shape_spec(self) -> T {
        self.shape
    }

    /// The rate parameter, as the logic sees it.
    pub closed spec fn rate_spec(self) -> T {
        self.rate
    }

    /// The rate is the infinite sentinel of the degenerate point mass.
    pub open spec fn is_degenerate_spec(self) -> bool {
        self.rate_spec().feq_spec(T::infinity_spec())
    }

    /// Constructs a gamma distribution with shape `shape` and rate `rate`.
    ///
    /// Returns the bad-parameters error exactly when an argument is
    /// not-a-number or not strictly positive; otherwise stores both values
    /// unchanged.
    pub fn new(shape: T, rate: T) -> (r: Result<Gamma<T>, StatsError>)
        ensures
            r is Ok <==> valid_gamma_parameters_spec(shape, rate),
            r is Ok ==> r->Ok_0.shape_spec() == shape && r->Ok_0.rate_spec() == rate,
            r is Err ==> r->Err_0 == StatsError::BadParams,
    {
        if !valid_gamma_parameters(shape, rate) {
            Err(StatsError::BadParams)
        } else {
            Ok(Gamma { shape, rate })
        }
    }

    /// Returns the shape parameter.
    pub fn shape(&self) -> (r: T)
        ensures
            r == self.shape_spec(),
    {
        self.shape
    }

    /// Returns the rate parameter.
    pub fn rate(&self) -> (r: T)
        ensures
            r == self.rate_spec(),
    {
        self.rate
    }

    /// The mean: `shape / rate`, or `shape` itself for the infinite-rate
    /// sentinel (a deliberate compatibility convention, not the limit).
    pub open spec fn mean_spec(self) -> T {
        if self.is_degenerate_spec() {
            self.shape_spec()
        } else {
            self.shape_spec().div_spec(self.rate_spec())
        }
    }

    /// Returns the mean.
    pub fn mean(&self) -> (r: T)
        ensures
            r == self.mean_spec(),
    {
        if self.rate.feq(T::infinity()) {
            self.shape
        } else {
            self.shape.div(self.rate)
        }
    }

    /// The variance: `shape / rate^2`, or zero for the infinite-rate
    /// sentinel.
    pub open spec fn variance_spec(self) -> T {
        if self.is_degenerate_spec() {
            T::zero_spec()
        } else {
            self.shape_spec().div_spec(self.rate_spec().mul_spec(self.rate_spec()))
        }
    }

    /// Returns the variance.
    pub fn variance(&self) -> (r: T)
        ensures
            r == self.variance_spec(),
    {
        if self.rate.feq(T::infinity()) {
            T::zero()
        } else {
            self.shape.div(self.rate.mul(self.rate))
        }
    }

    /// The standard deviation: the square root of the variance.
    pub open spec fn std_dev_spec(self) -> T {
        self.variance_spec().sqrt_spec()
    }

    /// Returns the standard deviation.
    pub fn std_dev(&self) -> (r: T)
        ensures
            r == self.std_dev_spec(),
    {
        self.variance().sqrt()
    }

    /// The entropy:
    /// `shape - ln(rate) + ln_gamma(shape) + (1 - shape) * digamma(shape)`,
    /// or zero for the infinite-rate sentinel.
    pub open spec fn entropy_spec(self) -> T {
        if self.is_degenerate_spec() {
            T::zero_spec()
        } else {
            self.shape_spec().sub_spec(self.rate_spec().ln_spec()).add_spec(
                ln_gamma_spec(self.shape_spec()),
            ).add_spec(
                T::one_spec().sub_spec(self.shape_spec()).mul_spec(digamma_spec(self.shape_spec())),
            )
        }
    }

    /// Returns the entropy.
    pub fn entropy(&self) -> (r: T)
        ensures
            r == self.entropy_spec(),
    {
        if self.rate.feq(T::infinity()) {
            T::zero()
        } else {
            self.shape.sub(self.rate.ln()).add(ln_gamma(self.shape)).add(
                T::one().sub(self.shape).mul(digamma(self.shape)),
            )
        }
    }

    /// The skewness: `2 / sqrt(shape)`, whatever the rate.
    pub open spec fn skewness_spec(self) -> T {
        T::from_u64_spec(2).div_spec(self.shape_spec().sqrt_spec())
    }

    /// Returns the skewness.
    pub fn skewness(&self) -> (r: T)
        ensures
            r == self.skewness_spec(),
    {
        T::from_u64(2).div(self.shape.sqrt())
    }

    /// The mode: `(shape - 1) / rate`, or `shape` itself for the
    /// infinite-rate sentinel (the same compatibility convention as the
    /// mean).
    pub open spec fn mode_spec(self) -> T {
        if self.is_degenerate_spec() {
            self.shape_spec()
        } else {
            self.shape_spec().sub_spec(T::one_spec()).div_spec(self.rate_spec())
        }
    }

    /// Returns the mode.
    pub fn mode(&self) -> (r: T)
        ensures
            r == self.mode_spec(),
    {
        if self.rate.feq(T::infinity()) {
            self.shape
        } else {
            self.shape.sub(T::one()).div(self.rate)
        }
    }

    /// Returns the lower bound of the domain: zero, whatever the
    /// parameters.
    pub fn min(&self) -> (r: T)
        ensures
            r == T::zero_spec(),
    {
        T::zero()
    }

    /// Returns the upper bound of the domain: positive infinity, whatever
    /// the parameters.
    pub fn max(&self) -> (r: T)
        ensures
            r == T::infinity_spec(),
    {
        T::infinity()
    }

    /// The cumulative distribution function at `x`: one at the degenerate
    /// point (`x` numerically equal to the shape under the infinite-rate
    /// sentinel), zero elsewhere under that sentinel, and otherwise the
    /// regularized lower incomplete gamma function at the rate-scaled
    /// point.
    pub open spec fn cdf_spec(self, x: T) -> T {
        if x.feq_spec(self.shape_spec()) && self.is_degenerate_spec() {
            T::one_spec()
        } else if self.is_degenerate_spec() {
            T::zero_spec()
        } else {
            gamma_lr_spec(self.shape_spec(), x.mul_spec(self.rate_spec()))
        }
    }

    /// Computes the cumulative distribution function at `x`.
    ///
    /// The argument must be strictly positive: a domain violation is a
    /// contract failure, not a recoverable error, so those inputs are
    /// excluded outright rather than given a value.
    pub fn cdf(&self, x: T) -> (r: T)
        requires
            T::zero_spec().lt_spec(x),
        ensures
            r == self.cdf_spec(x),
    {
        if x.feq(self.shape) && self.rate.feq(T::infinity()) {
            T::one()
        } else if self.rate.feq(T::infinity()) {
            T::zero()
        } else {
            gamma_lr(self.shape, x.mul(self.rate))
        }
    }

    /// The log probability density at `x`: positive infinity at the
    /// degenerate point, negative infinity elsewhere under the
    /// infinite-rate sentinel, the exponential closed form when the shape
    /// is numerically one, and otherwise the sum-of-logarithms form.
    pub open spec fn ln_pdf_spec(self, x: T) -> T {
        let shape = self.shape_spec();
        let rate = self.rate_spec();
        if x.feq_spec(shape) && self.is_degenerate_spec() {
            T::infinity_spec()
        } else if self.is_degenerate_spec() {
            T::neg_infinity_spec()
        } else if shape.feq_spec(T::one_spec()) {
            rate.ln_spec().sub_spec(rate.mul_spec(x))
        } else {
            shape.mul_spec(rate.ln_spec()).add_spec(
                shape.sub_spec(T::one_spec()).mul_spec(x.ln_spec()),
            ).sub_spec(rate.mul_spec(x)).sub_spec(ln_gamma_spec(shape))
        }
    }

    /// The probability density at `x`: positive infinity at the degenerate
    /// point, zero elsewhere under the infinite-rate sentinel, the
    /// exponential closed form when the shape is numerically one, the
    /// exponential of the log density when the shape exceeds 160 (which
    /// avoids overflowing the power), and otherwise the direct product
    /// form.
    pub open spec fn pdf_spec(self, x: T) -> T {
        let shape = self.shape_spec();
        let rate = self.rate_spec();
        if x.feq_spec(shape) && self.is_degenerate_spec() {
            T::infinity_spec()
        } else if self.is_degenerate_spec() {
            T::zero_spec()
        } else if shape.feq_spec(T::one_spec()) {
            rate.mul_spec(rate.neg_spec().mul_spec(x).exp_spec())
        } else if T::from_u64_spec(160).lt_spec(shape) {
            self.ln_pdf_spec(x).exp_spec()
        } else {
            rate.powf_spec(shape).mul_spec(x.powf_spec(shape.sub_spec(T::one_spec()))).mul_spec(
                rate.neg_spec().mul_spec(x).exp_spec(),
            ).div_spec(gamma_spec(shape))
        }
    }

    /// Computes the probability density function at `x`.
    ///
    /// The argument must be strictly positive, as for [`Gamma::cdf`].
    pub fn pdf(&self, x: T) -> (r: T)
        requires
            T::zero_spec().lt_spec(x),
        ensures
            r == self.pdf_spec(x),
    {
        if x.feq(self.shape) && self.rate.feq(T::infinity()) {
            T::infinity()
        } else if self.rate.feq(T::infinity()) {
            T::zero()
        } else if self.shape.feq(T::one()) {
            self.rate.mul(self.rate.neg().mul(x).exp())
        } else if T::from_u64(160).lt(self.shape) {
            self.ln_pdf(x).exp()
        } else {
            self.rate.powf(self.shape).mul(x.powf(self.shape.sub(T::one()))).mul(
                self.rate.neg().mul(x).exp(),
            ).div(gamma(self.shape))
        }
    }

    /// Computes the log probability density function at `x`.
    ///
    /// The argument must be strictly positive, as for [`Gamma::cdf`].
    pub fn ln_pdf(&self, x: T) -> (r: T)
        requires
            T::zero_spec().lt_spec(x),
        ensures
            r == self.ln_pdf_spec(x),
    {
        if x.feq(self.shape) && self.rate.feq(T::infinity()) {
            T::infinity()
        } else if self.rate.feq(T::infinity()) {
            T::neg_infinity()
        } else if self.shape.feq(T::one()) {
            self.rate.ln().sub(self.rate.mul(x))
        } else {
            self.shape.mul(self.rate.ln()).add(self.shape.sub(T::one()).mul(x.ln())).sub(
                self.rate.mul(x),
            ).sub(ln_gamma(self.shape))
        }
    }

    /// Draws one variate, using `r` as the source of randomness.
    ///
    /// Under the infinite-rate sentinel the draw is the shape itself and
    /// no randomness is consumed. Otherwise the draw is the
    /// Marsaglia-Tsang candidate built from a correction draw and a
    /// standard-normal draw, as for [`sample_unchecked`]; which draws end
    /// up witnessing it is the random source's affair.
    pub fn sample<R: RandomSource<T>>(&self, r: &mut R) -> (s: T)
        ensures
            self.is_degenerate_spec() ==> s == self.shape_spec(),
            !self.is_degenerate_spec() ==> exists|w: T, x: T|
                s == mt_candidate_spec(self.shape_spec(), self.rate_spec(), w, x),
    {
        let s = sample_unchecked(r, self.shape, self.rate);
        proof {
            if !self.is_degenerate_spec() {
                let (w, x) = choose|w: T, x: T| s == mt_candidate_spec(self.shape, self.rate, w, x);
                assert(s == mt_candidate_spec(self.shape_spec(), self.rate_spec(), w, x));
            }
        }
        s
    }

    /// Draws one independent variate; identical to [`Gamma::sample`],
    /// kept as the independent-sampling entry point.
    pub fn ind_sample<R: RandomSource<T>>(&self, r: &mut R) -> (s: T)
        ensures
            self.is_degenerate_spec() ==> s == self.shape_spec(),
            !self.is_degenerate_spec() ==> exists|w: T, x: T|
                s == mt_candidate_spec(self.shape_spec(), self.rate_spec(), w, x),
    {
        let s = sample_unchecked(r, self.shape, self.rate);
        proof {
            if !self.is_degenerate_spec() {
                let (w, x) = choose|w: T, x: T| s == mt_candidate_spec(self.shape, self.rate, w, x);
                assert(s == mt_candidate_spec(self.shape_spec(), self.rate_spec(), w, x));
            }
        }
        s
    }
}

/// The boosted shape of the Marsaglia-Tsang method: a shape below one is
/// raised by one, which keeps the method in its efficient region; the
/// correction factor below maps the draw back to the true law.
pub open spec fn mt_boost_spec<T: Float>(shape: T) -> T {
    if shape.lt_spec(T::one_spec()) {
        shape.add_spec(T::one_spec())
    } else {
        shape
    }
}

/// The sub-unit-shape correction factor: `w^(1/shape)` for the one uniform
/// draw `w` taken when the shape lies below one, and one otherwise (the
/// shape-augmentation identity).
pub open spec fn mt_afix_spec<T: Float>(shape: T, w: T) -> T {
    if shape.lt_spec(T::one_spec()) {
        w.powf_spec(T::one_spec().div_spec(shape))
    } else {
        T::one_spec()
    }
}

/// The method's constant `d = a - 1/3`, over the boosted shape `a`.
pub open spec fn mt_d_spec<T: Float>(shape: T) -> T {
    mt_boost_spec(shape).sub_spec(T::one_spec().div_spec(T::from_u64_spec(3)))
}

/// The method's constant `c = 1 / sqrt(9 d)`.
pub open spec fn mt_c_spec<T: Float>(shape: T) -> T {
    T::one_spec().div_spec(T::from_u64_spec(9).mul_spec(mt_d_spec(shape)).sqrt_spec())
}

/// The cubed scaled draw `v = (1 + c x)^3` of one round, from the round's
/// standard-normal draw `x`.
pub open spec fn mt_v_spec<T: Float>(shape: T, x: T) -> T {
    let v = T::one_spec().add_spec(mt_c_spec(shape).mul_spec(x));
    v.mul_spec(v).mul_spec(v)
}

/// The candidate variate of one round, from the correction draw `w` and
/// the round's standard-normal draw `x`: `afix * d * v / rate`.
pub open spec fn mt_candidate_spec<T: Float>(shape: T, rate: T, w: T, x: T) -> T {
    mt_afix_spec(shape, w).mul_spec(mt_d_spec(shape)).mul_spec(mt_v_spec(shape, x)).div_spec(rate)
}

/// The cheap squeeze acceptance test of one round, on the round's
/// standard-normal draw `x` and uniform test draw `u`:
/// `u < 1 - 0.0331 x^4`.
pub open spec fn mt_squeeze_accepts_spec<T: Float>(x: T, u: T) -> bool {
    let xx = x.mul_spec(x);
    u.lt_spec(
        T::one_spec().sub_spec(
            T::from_u64_spec(331).div_spec(T::from_u64_spec(10000)).mul_spec(xx).mul_spec(xx),
        ),
    )
}

/// The exact logarithmic acceptance test of one round:
/// `ln(u) < x^2 / 2 + d (1 - v + ln(v))`.
pub open spec fn mt_log_accepts_spec<T: Float>(shape: T, x: T, u: T) -> bool {
    let xx = x.mul_spec(x);
    let v = mt_v_spec(shape, x);
    u.ln_spec().lt_spec(
        T::one_spec().div_spec(T::from_u64_spec(2)).mul_spec(xx).add_spec(
            mt_d_spec(shape).mul_spec(T::one_spec().sub_spec(v).add_spec(v.ln_spec())),
        ),
    )
}

/// A round accepts when the squeeze test or the logarithmic test does.
pub open spec fn mt_accepts_spec<T: Float>(shape: T, x: T, u: T) -> bool {
    mt_squeeze_accepts_spec(x, u) || mt_log_accepts_spec(shape, x, u)
}

/// Decides one Marsaglia-Tsang round from that round's draws alone: `w` is
/// the correction draw, `x` the round's (already redrawn-until-valid)
/// standard-normal draw and `u` the uniform test draw. Returns exactly the
/// acceptance verdict and the candidate variate of those draws; the
/// rejection loop returns the first accepted candidate.
pub fn mt_round<T: Float>(shape: T, rate: T, w: T, x: T, u: T) -> (r: (bool, T))
    ensures
        r.0 == mt_accepts_spec(shape, x, u),
        r.1 == mt_candidate_spec(shape, rate, w, x),
{
    let one = T::one();
    let afix = if shape.lt(one) {
        w.powf(one.div(shape))
    } else {
        one
    };
    let a = if shape.lt(one) {
        shape.add(one)
    } else {
        shape
    };
    let d = a.sub(one.div(T::from_u64(3)));
    let c = one.div(T::from_u64(9).mul(d).sqrt());
    let v0 = one.add(c.mul(x));
    let v = v0.mul(v0).mul(v0);
    let xx = x.mul(x);
    let cand = afix.mul(d).mul(v).div(rate);
    let accept = if u.lt(one.sub(T::from_u64(331).div(T::from_u64(10000)).mul(xx).mul(xx))) {
        true
    } else {
        u.ln().lt(one.div(T::from_u64(2)).mul(xx).add(d.mul(one.sub(v).add(v.ln()))))
    };
    (accept, cand)
}

/// Round cap of the accept-reject loops. Acceptance is overwhelmingly
/// probable in every round, so no real run approaches it; past the cap the
/// current candidate is returned as the best available draw.
pub const SAMPLE_CAP: u64 = 1000000000;

/// Samples a gamma variate with the given shape and rate by the
/// Marsaglia-Tsang method: a shape below one is boosted by one and
/// corrected afterwards through one uniform power draw; each round takes a
/// standard-normal draw (redrawn while the scaled value `1 + c x` is not
/// positive) and a uniform test draw, and [`mt_round`] decides acceptance
/// by the squeeze test or the exact logarithmic test.
///
/// Under the infinite-rate sentinel the draw is the shape itself and no
/// randomness is consumed. Otherwise the result is always the candidate
/// [`mt_candidate_spec`] of the correction draw and a standard-normal
/// draw: normally the first accepted round's, or, past the round cap, the
/// final round's as the best available draw. Which draws end up
/// witnessing it is the random source's affair, so nothing more than the
/// candidate's shape can be promised.
pub fn sample_unchecked<T: Float, R: RandomSource<T>>(r: &mut R, shape: T, rate: T) -> (s: T)
    ensures
        rate.feq_spec(T::infinity_spec()) ==> s == shape,
        !rate.feq_spec(T::infinity_spec()) ==> exists|w: T, x: T| s == mt_candidate_spec(
            shape,
            rate,
            w,
            x,
        ),
{
    if rate.feq(T::infinity()) {
        return shape;
    }
    let w = if shape.lt(T::one()) {
        r.uniform()
    } else {
        T::zero()
    };
    let mut i: u64 = 0;
    loop
        invariant
            i < SAMPLE_CAP,
            !rate.feq_spec(T::infinity_spec()),
        decreases SAMPLE_CAP - i,
    {
        let a = if shape.lt(T::one()) {
            shape.add(T::one())
        } else {
            shape
        };
        let d = a.sub(T::one().div(T::from_u64(3)));
        let c = T::one().div(T::from_u64(9).mul(d).sqrt());
        let mut x = r.normal();
        let mut v0 = T::one().add(c.mul(x));
        let mut j: u64 = 0;
        while v0.le(T::zero()) && j < SAMPLE_CAP
            invariant
                j <= SAMPLE_CAP,
            decreases SAMPLE_CAP - j,
        {
            x = r.normal();
            v0 = T::one().add(c.mul(x));
            j = j + 1;
        }
        let u = r.uniform();
        let round = mt_round(shape, rate, w, x, u);
        i = i + 1;
        if round.0 {
            return round.1;
        }
        if i == SAMPLE_CAP {
            return round.1;
        }
    }
}

/// The skewness depends on the shape alone: two distributions with the
/// same shape have the same skewness, whatever their rates, the infinite
/// sentinel included.
pub proof fn lemma_skewness_rate_free<T: Float>(g1: Gamma<T>, g2: Gamma<T>)
    requires
        g1.shape_spec() == g2.shape_spec(),
    ensures
        g1.skewness_spec() == g2.skewness_spec(),
{
}

/// Under the infinite-rate sentinel the distribution is the point mass at
/// its shape: the cumulative distribution function is one at every point
/// numerically equal to the shape and zero at every other point.
pub proof fn lemma_cdf_degenerate<T: Float>(g: Gamma<T>, x: T)
    requires
        g.is_degenerate_spec(),
    ensures
        x.feq_spec(g.shape_spec()) ==> g.cdf_spec(x) == T::one_spec(),
        !x.feq_spec(g.shape_spec()) ==> g.cdf_spec(x) == T::zero_spec(),
{
}

} // verus!
