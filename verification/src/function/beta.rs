//! The beta family of special functions: log-beta, beta, and the incomplete
//! beta function in unregularized and regularized form.
//!
//! The regularized incomplete beta function is evaluated by a continued
//! fraction with the modified Lentz recurrence, after the symmetry transform
//! that keeps the fraction in its fast-converging region. As everywhere in
//! the library, each contract pins the result to its exact construction from
//! the abstract [`Float`] operations.

use vstd::prelude::*;

use crate::Float;
use crate::function::gamma::ln_gamma;
use crate::function::gamma::ln_gamma_spec;

verus! {

/// `ln_gamma(a) + ln_gamma(b) - ln_gamma(a + b)`, the logarithm of the beta
/// function.
pub open spec fn ln_beta_spec<T: Float>(a: T, b: T) -> T {
    ln_gamma_spec(a).add_spec(ln_gamma_spec(b)).sub_spec(ln_gamma_spec(a.add_spec(b)))
}

/// The beta function, as the exponential of [`ln_beta_spec`].
pub open spec fn beta_spec<T: Float>(a: T, b: T) -> T {
    ln_beta_spec(a, b).exp_spec()
}

/// Computes the natural logarithm of the beta function at `(a, b)`.
///
/// Both parameters must be strictly positive: a domain violation is a
/// contract failure, not a recoverable error, so those inputs are excluded
/// outright rather than given a value.
pub fn ln_beta<T: Float>(a: T, b: T) -> (r: T)
    requires
        T::zero_spec().lt_spec(a),
        T::zero_spec().lt_spec(b),
    ensures
        r == ln_beta_spec(a, b),
{
    ln_gamma(a).add(ln_gamma(b)).sub(ln_gamma(a.add(b)))
}

/// Computes the beta function at `(a, b)` as `exp(ln_beta(a, b))`.
///
/// Both parameters must be strictly positive, as for [`ln_beta`].
pub fn beta<T: Float>(a: T, b: T) -> (r: T)
    requires
        T::zero_spec().lt_spec(a),
        T::zero_spec().lt_spec(b),
    ensures
        r == beta_spec(a, b),
{
    ln_beta(a, b).exp()
}

/// The power prefactor of the incomplete beta continued fraction:
/// `exp(ln_gamma(a+b) - ln_gamma(a) - ln_gamma(b) + a ln x + b ln(1-x))`.
pub open spec fn beta_reg_bt_spec<T: Float>(a: T, b: T, x: T) -> T {
    ln_gamma_spec(a.add_spec(b)).sub_spec(ln_gamma_spec(a)).sub_spec(ln_gamma_spec(b)).add_spec(
        a.mul_spec(x.ln_spec()),
    ).add_spec(b.mul_spec(T::one_spec().sub_spec(x).ln_spec())).exp_spec()
}

/// The symmetry transform applies when `x` is at or past `(a+1)/(a+b+2)`:
/// the roles of `a` and `b` swap and `1 - x` replaces `x`, keeping the
/// continued fraction in its fast-converging region.
pub open spec fn beta_reg_symm_spec<T: Float>(a: T, b: T, x: T) -> bool {
    a.add_spec(T::one_spec()).div_spec(a.add_spec(b).add_spec(T::from_u64_spec(2))).le_spec(x)
}

/// The positive floor placed under every near-zero Lentz denominator:
/// the smallest positive normal value divided by the convergence floor.
pub open spec fn lentz_fpmin_spec<T: Float>() -> T {
    T::min_positive_spec().div_spec(T::precision_spec())
}

/// Iteration cap of the continued fraction; past it the best available
/// estimate is returned without announcing non-convergence.
pub const LENTZ_CAP: u64 = 140;

/// Start state `(c, d, h, del)` of the modified Lentz recurrence.
pub open spec fn lentz_init<T: Float>(a: T, b: T, x: T) -> (T, T, T, T) {
    let one = T::one_spec();
    let qab = a.add_spec(b);
    let qap = a.add_spec(one);
    let d0 = one.sub_spec(qab.mul_spec(x).div_spec(qap));
    let d1 = if d0.abs_spec().lt_spec(lentz_fpmin_spec::<T>()) {
        lentz_fpmin_spec::<T>()
    } else {
        d0
    };
    let d2 = one.div_spec(d1);
    (one, d2, d2, one)
}

/// One step of the modified Lentz recurrence, for term index `n`: the even
/// coefficient then the odd coefficient, each folded into the convergents
/// `c` and `d` with the near-zero floor applied, and the product `h`
/// accumulated; `del` is the step's relative update.
pub open spec fn lentz_step<T: Float>(a: T, b: T, x: T, s: (T, T, T, T), n: nat) -> (T, T, T, T) {
    let one = T::one_spec();
    let fpmin = lentz_fpmin_spec::<T>();
    let qab = a.add_spec(b);
    let qap = a.add_spec(one);
    let qam = a.sub_spec(one);
    let m = T::from_u64_spec(n as u64);
    let m2 = m.mul_spec(T::from_u64_spec(2));
    let aa1 = m.mul_spec(b.sub_spec(m)).mul_spec(x).div_spec(
        qam.add_spec(m2).mul_spec(a.add_spec(m2)),
    );
    let d = one.add_spec(aa1.mul_spec(s.1));
    let d = if d.abs_spec().lt_spec(fpmin) {
        fpmin
    } else {
        d
    };
    let c = one.add_spec(aa1.div_spec(s.0));
    let c = if c.abs_spec().lt_spec(fpmin) {
        fpmin
    } else {
        c
    };
    let d = one.div_spec(d);
    let h = s.2.mul_spec(d).mul_spec(c);
    let aa2 = a.add_spec(m).neg_spec().mul_spec(qab.add_spec(m)).mul_spec(x).div_spec(
        a.add_spec(m2).mul_spec(qap.add_spec(m2)),
    );
    let d2 = one.add_spec(aa2.mul_spec(d));
    let d2 = if d2.abs_spec().lt_spec(fpmin) {
        fpmin
    } else {
        d2
    };
    let c2 = one.add_spec(aa2.div_spec(c));
    let c2 = if c2.abs_spec().lt_spec(fpmin) {
        fpmin
    } else {
        c2
    };
    let d2 = one.div_spec(d2);
    let del = d2.mul_spec(c2);
    (c2, d2, h.mul_spec(del), del)
}

/// The Lentz state after `n` steps.
pub open spec fn lentz_state<T: Float>(a: T, b: T, x: T, n: nat) -> (T, T, T, T)
    decreases n,
{
    if n == 0 {
        lentz_init(a, b, x)
    } else {
        lentz_step(a, b, x, lentz_state(a, b, x, (n - 1) as nat), n)
    }
}

/// The recurrence stops at the first step whose relative update is within
/// the convergence floor of one.
pub open spec fn lentz_done<T: Float>(a: T, b: T, x: T, n: nat) -> bool {
    n >= 1 && lentz_state(a, b, x, n).3.sub_spec(T::one_spec()).abs_spec().le_spec(
        T::precision_spec(),
    )
}

/// The first step at or after `n` at which the recurrence stops, the cap
/// included.
pub open spec fn lentz_exit_from<T: Float>(a: T, b: T, x: T, n: nat) -> nat
    decreases LENTZ_CAP - n,
{
    if lentz_done(a, b, x, n) || n >= LENTZ_CAP {
        n
    } else {
        lentz_exit_from(a, b, x, n + 1)
    }
}

/// The step at which the recurrence stops.
pub open spec fn lentz_exit<T: Float>(a: T, b: T, x: T) -> nat {
    lentz_exit_from(a, b, x, 0)
}

/// The regularized lower incomplete beta function `I_x(a, b)`.
///
/// The boundaries return their closed-form endpoints: zero at `x = 0` and
/// one at `x = 1`. Elsewhere the continued fraction runs on the
/// symmetry-transformed parameters and the result is the accumulated
/// product scaled by the power prefactor (subtracted from one when the
/// transform swapped the roles of `a` and `b`).
pub open spec fn beta_reg_spec<T: Float>(a: T, b: T, x: T) -> T {
    if x.feq_spec(T::zero_spec()) {
        T::zero_spec()
    } else if x.feq_spec(T::one_spec()) {
        T::one_spec()
    } else {
        let symm = beta_reg_symm_spec(a, b, x);
        let sa = if symm {
            b
        } else {
            a
        };
        let sb = if symm {
            a
        } else {
            b
        };
        let sx = if symm {
            T::one_spec().sub_spec(x)
        } else {
            x
        };
        let bt = beta_reg_bt_spec(a, b, x);
        let h = lentz_state(sa, sb, sx, lentz_exit(sa, sb, sx)).2;
        if symm {
            T::one_spec().sub_spec(bt.mul_spec(h).div_spec(sa))
        } else {
            bt.mul_spec(h).div_spec(sa)
        }
    }
}

/// The unregularized lower incomplete beta function, by construction the
/// regularized value scaled by the full beta function.
pub open spec fn beta_inc_spec<T: Float>(a: T, b: T, x: T) -> T {
    beta_reg_spec(a, b, x).mul_spec(beta_spec(a, b))
}

/// Computes the regularized lower incomplete beta function `I_x(a, b)`
/// for `a >= 0`, `b >= 0` and `x` in `[0, 1]`.
///
/// A domain violation is a contract failure, as for [`ln_beta`]. The
/// result is exactly [`beta_reg_spec`]; in particular `x = 0` yields zero
/// and `x = 1` yields one.
pub fn beta_reg<T: Float>(a: T, b: T, x: T) -> (r: T)
    requires
        T::zero_spec().le_spec(a),
        T::zero_spec().le_spec(b),
        T::zero_spec().le_spec(x),
        x.le_spec(T::one_spec()),
    ensures
        r == beta_reg_spec(a, b, x),
{
    let one = T::one();
    if x.feq(T::zero()) {
        return T::zero();
    }
    if x.feq(one) {
        return one;
    }
    let bt = ln_gamma(a.add(b)).sub(ln_gamma(a)).sub(ln_gamma(b)).add(a.mul(x.ln())).add(
        b.mul(one.sub(x).ln()),
    ).exp();
    let symm = a.add(one).div(a.add(b).add(T::from_u64(2))).le(x);
    let (sa, sb, sx) = if symm {
        (b, a, one.sub(x))
    } else {
        (a, b, x)
    };
    let fpmin = T::min_positive().div(T::precision());
    let eps = T::precision();
    let qab = sa.add(sb);
    let qap = sa.add(one);
    let qam = sa.sub(one);
    let mut c = one;
    let mut d = one.sub(qab.mul(sx).div(qap));
    if d.abs().lt(fpmin) {
        d = fpmin;
    }
    d = one.div(d);
    let mut h = d;
    let mut del = one;
    let mut i: u64 = 0;
    loop
        invariant_except_break
            i < LENTZ_CAP,
            !lentz_done(sa, sb, sx, i as nat),
            lentz_exit_from(sa, sb, sx, 0) == lentz_exit_from(sa, sb, sx, i as nat),
        invariant
            i <= LENTZ_CAP,
            eps == T::precision_spec(),
            fpmin == lentz_fpmin_spec::<T>(),
            qab == sa.add_spec(sb),
            qap == sa.add_spec(T::one_spec()),
            qam == sa.sub_spec(T::one_spec()),
            (c, d, h, del) == lentz_state(sa, sb, sx, i as nat),
        ensures
            (c, d, h, del) == lentz_state(sa, sb, sx, lentz_exit(sa, sb, sx)),
        decreases LENTZ_CAP - i,
    {
        let m = T::from_u64(i + 1);
        let m2 = m.mul(T::from_u64(2));
        let aa1 = m.mul(sb.sub(m)).mul(sx).div(qam.add(m2).mul(sa.add(m2)));
        d = T::one().add(aa1.mul(d));
        if d.abs().lt(fpmin) {
            d = fpmin;
        }
        c = T::one().add(aa1.div(c));
        if c.abs().lt(fpmin) {
            c = fpmin;
        }
        d = T::one().div(d);
        h = h.mul(d).mul(c);
        let aa2 = sa.add(m).neg().mul(qab.add(m)).mul(sx).div(sa.add(m2).mul(qap.add(m2)));
        d = T::one().add(aa2.mul(d));
        if d.abs().lt(fpmin) {
            d = fpmin;
        }
        c = T::one().add(aa2.div(c));
        if c.abs().lt(fpmin) {
            c = fpmin;
        }
        d = T::one().div(d);
        del = d.mul(c);
        h = h.mul(del);
        i = i + 1;
        if del.sub(T::one()).abs().le(eps) {
            proof {
                assert(lentz_done(sa, sb, sx, i as nat));
                assert(lentz_exit_from(sa, sb, sx, i as nat) == i as nat);
                assert(lentz_exit_from(sa, sb, sx, (i - 1) as nat) == i as nat);
            }
            break;
        }
        if i == LENTZ_CAP {
            proof {
                assert(lentz_exit_from(sa, sb, sx, i as nat) == i as nat);
                assert(lentz_exit_from(sa, sb, sx, (i - 1) as nat) == i as nat);
            }
            break;
        }
    }
    if symm {
        one.sub(bt.mul(h).div(sa))
    } else {
        bt.mul(h).div(sa)
    }
}

/// Computes the unregularized lower incomplete beta function
/// `B(a, b, x) = beta_reg(a, b, x) * beta(a, b)` for `a > 0`, `b > 0` and
/// `x` in `[0, 1]`.
///
/// A caller outside that domain breaks the contract, as for [`beta_reg`]
/// and [`beta`].
pub fn beta_inc<T: Float>(a: T, b: T, x: T) -> (r: T)
    requires
        T::zero_spec().lt_spec(a),
        T::zero_spec().lt_spec(b),
        T::zero_spec().le_spec(x),
        x.le_spec(T::one_spec()),
    ensures
        r == beta_inc_spec(a, b, x),
{
    proof {
        T::lemma_lt_implies_le(T::zero_spec(), a);
        T::lemma_lt_implies_le(T::zero_spec(), b);
    }
    beta_reg(a, b, x).mul(beta(a, b))
}

/// At the boundaries the regularized incomplete beta function takes its
/// closed-form endpoint values: zero at `x = 0` and one at `x = 1`,
/// whatever the parameters.
pub proof fn lemma_beta_reg_endpoints<T: Float>(a: T, b: T)
    ensures
        beta_reg_spec(a, b, T::zero_spec()) == T::zero_spec(),
        beta_reg_spec(a, b, T::one_spec()) == T::one_spec(),
{
    T::lemma_zero_one_feq();
}

/// The unregularized incomplete beta function is, for every input, exactly
/// the regularized value scaled by the full beta function: the round trip
/// holds by construction.
pub proof fn lemma_beta_inc_round_trip<T: Float>(a: T, b: T, x: T)
    ensures
        beta_inc_spec(a, b, x) == beta_reg_spec(a, b, x).mul_spec(beta_spec(a, b)),
{
}

} // verus!

