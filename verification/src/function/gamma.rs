//! The gamma family of special functions: log-gamma, gamma, digamma and the
//! regularized lower incomplete gamma function.
//!
//! Log-gamma uses the Lanczos approximation with Pugh's parameters
//! (`g = 10.900511`, eleven terms), with the reflection formula below `1/2`.
//! Every contract pins the result to its exact construction from the
//! abstract [`Float`] operations: the `*_spec` functions are the statements,
//! the executable functions are proved to compute them.

use vstd::prelude::*;

use crate::Float;

verus! {

// IEEE-754 binary64 encodings of the eleven Lanczos coefficients for
// g = 10.900511 (values 2.48574089138753565546e-5, 1.05142378581721974210,
// -3.45687097222016235469, 4.51227709466894823700, -2.98285225323576655721,
// 1.05639711577126713077, -1.95428773191645869583e-1,
// 1.70970543404441224307e-2, -5.71926117404305781283e-4,
// 4.63399473359905636708e-6, -2.71994908488607703910e-9).
pub const GAMMA_DK_0: u64 = 0x3EFA109C2231ECD3;

pub const GAMMA_DK_1: u64 = 0x3FF0D2A1BF6524BB;

pub const GAMMA_DK_2: u64 = 0xC00BA7ABF7E16B28;

pub const GAMMA_DK_3: u64 = 0x40120C925DE05F43;

pub const GAMMA_DK_4: u64 = 0xC007DCE1A4639489;

pub const GAMMA_DK_5: u64 = 0x3FF0E700A97D3899;

pub const GAMMA_DK_6: u64 = 0xBFC903CF5EC71B4C;

pub const GAMMA_DK_7: u64 = 0x3F9181E3E5002551;

pub const GAMMA_DK_8: u64 = 0xBF42BDA9FC284BE3;

pub const GAMMA_DK_9: u64 = 0x3ED36FB6C5EDE4EB;

pub const GAMMA_DK_10: u64 = 0xBE275D3B35ECD3F3;

/// Encoding of `ln(pi)`, 1.1447298858494001741434273513530587.
pub const LN_PI_BITS: u64 = 0x3FF250D048E7A1BD;

/// Encoding of `ln(2 * sqrt(e / pi))`, 0.6207822376352452223455184457816472.
pub const LN_2_SQRT_E_OVER_PI_BITS: u64 = 0x3FE3DD72B6129832;

/// One half.
pub open spec fn half_spec<T: Float>() -> T {
    T::one_spec().div_spec(T::from_u64_spec(2))
}

/// The Lanczos shift `g = 10.900511`.
pub open spec fn gamma_r_spec<T: Float>() -> T {
    T::from_u64_spec(10900511).div_spec(T::from_u64_spec(1000000))
}

/// The Lanczos partial-fraction sum used on the reflected branch (`x` below
/// one half): `d_0 + sum over i of d_i / (i - x)`, accumulated left to
/// right.
pub open spec fn lanczos_sum_low_spec<T: Float>(x: T) -> T {
    let s = T::from_bits_spec(GAMMA_DK_0);
    let s = s.add_spec(T::from_bits_spec(GAMMA_DK_1).div_spec(T::from_u64_spec(1).sub_spec(x)));
    let s = s.add_spec(T::from_bits_spec(GAMMA_DK_2).div_spec(T::from_u64_spec(2).sub_spec(x)));
    let s = s.add_spec(T::from_bits_spec(GAMMA_DK_3).div_spec(T::from_u64_spec(3).sub_spec(x)));
    let s = s.add_spec(T::from_bits_spec(GAMMA_DK_4).div_spec(T::from_u64_spec(4).sub_spec(x)));
    let s = s.add_spec(T::from_bits_spec(GAMMA_DK_5).div_spec(T::from_u64_spec(5).sub_spec(x)));
    let s = s.add_spec(T::from_bits_spec(GAMMA_DK_6).div_spec(T::from_u64_spec(6).sub_spec(x)));
    let s = s.add_spec(T::from_bits_spec(GAMMA_DK_7).div_spec(T::from_u64_spec(7).sub_spec(x)));
    let s = s.add_spec(T::from_bits_spec(GAMMA_DK_8).div_spec(T::from_u64_spec(8).sub_spec(x)));
    let s = s.add_spec(T::from_bits_spec(GAMMA_DK_9).div_spec(T::from_u64_spec(9).sub_spec(x)));
    s.add_spec(T::from_bits_spec(GAMMA_DK_10).div_spec(T::from_u64_spec(10).sub_spec(x)))
}

/// The Lanczos partial-fraction sum on the main branch:
/// `d_0 + sum over i of d_i / (x + i - 1)`, accumulated left to right.
pub open spec fn lanczos_sum_high_spec<T: Float>(x: T) -> T {
    let s = T::from_bits_spec(GAMMA_DK_0);
    let s = s.add_spec(
        T::from_bits_spec(GAMMA_DK_1).div_spec(x.add_spec(T::from_u64_spec(1)).sub_spec(T::one_spec())),
    );
    let s = s.add_spec(
        T::from_bits_spec(GAMMA_DK_2).div_spec(x.add_spec(T::from_u64_spec(2)).sub_spec(T::one_spec())),
    );
    let s = s.add_spec(
        T::from_bits_spec(GAMMA_DK_3).div_spec(x.add_spec(T::from_u64_spec(3)).sub_spec(T::one_spec())),
    );
    let s = s.add_spec(
        T::from_bits_spec(GAMMA_DK_4).div_spec(x.add_spec(T::from_u64_spec(4)).sub_spec(T::one_spec())),
    );
    let s = s.add_spec(
        T::from_bits_spec(GAMMA_DK_5).div_spec(x.add_spec(T::from_u64_spec(5)).sub_spec(T::one_spec())),
    );
    let s = s.add_spec(
        T::from_bits_spec(GAMMA_DK_6).div_spec(x.add_spec(T::from_u64_spec(6)).sub_spec(T::one_spec())),
    );
    let s = s.add_spec(
        T::from_bits_spec(GAMMA_DK_7).div_spec(x.add_spec(T::from_u64_spec(7)).sub_spec(T::one_spec())),
    );
    let s = s.add_spec(
        T::from_bits_spec(GAMMA_DK_8).div_spec(x.add_spec(T::from_u64_spec(8)).sub_spec(T::one_spec())),
    );
    let s = s.add_spec(
        T::from_bits_spec(GAMMA_DK_9).div_spec(x.add_spec(T::from_u64_spec(9)).sub_spec(T::one_spec())),
    );
    s.add_spec(
        T::from_bits_spec(GAMMA_DK_10).div_spec(x.add_spec(T::from_u64_spec(10)).sub_spec(T::one_spec())),
    )
}

/// The logarithm of the gamma function, by the Lanczos approximation: the
/// reflection formula for `x` below one half, the direct formula otherwise.
pub open spec fn ln_gamma_spec<T: Float>(x: T) -> T {
    let half = half_spec::<T>();
    if x.lt_spec(half) {
        let s = lanczos_sum_low_spec(x);
        let u = half.sub_spec(x);
        T::from_bits_spec(LN_PI_BITS).sub_spec(T::pi_spec().mul_spec(x).sin_spec().ln_spec()).sub_spec(
            s.ln_spec(),
        ).sub_spec(T::from_bits_spec(LN_2_SQRT_E_OVER_PI_BITS)).sub_spec(
            u.mul_spec(u.add_spec(gamma_r_spec::<T>()).div_spec(T::e_spec()).ln_spec()),
        )
    } else {
        let s = lanczos_sum_high_spec(x);
        let v = x.sub_spec(half);
        s.ln_spec().add_spec(T::from_bits_spec(LN_2_SQRT_E_OVER_PI_BITS)).add_spec(
            v.mul_spec(v.add_spec(gamma_r_spec::<T>()).div_spec(T::e_spec()).ln_spec()),
        )
    }
}

/// The gamma function, as the exponential of [`ln_gamma_spec`].
pub open spec fn gamma_spec<T: Float>(x: T) -> T {
    ln_gamma_spec(x).exp_spec()
}

fn lanczos_sum_low<T: Float>(x: T) -> (r: T)
    ensures
        r == lanczos_sum_low_spec(x),
{
    let mut s: T = T::from_bits(GAMMA_DK_0);
    s = s.add(T::from_bits(GAMMA_DK_1).div(T::from_u64(1).sub(x)));
    s = s.add(T::from_bits(GAMMA_DK_2).div(T::from_u64(2).sub(x)));
    s = s.add(T::from_bits(GAMMA_DK_3).div(T::from_u64(3).sub(x)));
    s = s.add(T::from_bits(GAMMA_DK_4).div(T::from_u64(4).sub(x)));
    s = s.add(T::from_bits(GAMMA_DK_5).div(T::from_u64(5).sub(x)));
    s = s.add(T::from_bits(GAMMA_DK_6).div(T::from_u64(6).sub(x)));
    s = s.add(T::from_bits(GAMMA_DK_7).div(T::from_u64(7).sub(x)));
    s = s.add(T::from_bits(GAMMA_DK_8).div(T::from_u64(8).sub(x)));
    s = s.add(T::from_bits(GAMMA_DK_9).div(T::from_u64(9).sub(x)));
    s.add(T::from_bits(GAMMA_DK_10).div(T::from_u64(10).sub(x)))
}

fn lanczos_sum_high<T: Float>(x: T) -> (r: T)
    ensures
        r == lanczos_sum_high_spec(x),
{
    let mut s: T = T::from_bits(GAMMA_DK_0);
    s = s.add(T::from_bits(GAMMA_DK_1).div(x.add(T::from_u64(1)).sub(T::one())));
    s = s.add(T::from_bits(GAMMA_DK_2).div(x.add(T::from_u64(2)).sub(T::one())));
    s = s.add(T::from_bits(GAMMA_DK_3).div(x.add(T::from_u64(3)).sub(T::one())));
    s = s.add(T::from_bits(GAMMA_DK_4).div(x.add(T::from_u64(4)).sub(T::one())));
    s = s.add(T::from_bits(GAMMA_DK_5).div(x.add(T::from_u64(5)).sub(T::one())));
    s = s.add(T::from_bits(GAMMA_DK_6).div(x.add(T::from_u64(6)).sub(T::one())));
    s = s.add(T::from_bits(GAMMA_DK_7).div(x.add(T::from_u64(7)).sub(T::one())));
    s = s.add(T::from_bits(GAMMA_DK_8).div(x.add(T::from_u64(8)).sub(T::one())));
    s = s.add(T::from_bits(GAMMA_DK_9).div(x.add(T::from_u64(9)).sub(T::one())));
    s.add(T::from_bits(GAMMA_DK_10).div(x.add(T::from_u64(10)).sub(T::one())))
}

/// Computes the natural logarithm of the gamma function at `x`.
///
/// Total: out-of-domain inputs flow through the formula (the poles at
/// non-positive integers yield non-finite values). The result is exactly
/// [`ln_gamma_spec`] of the argument.
pub fn ln_gamma<T: Float>(x: T) -> (r: T)
    ensures
        r == ln_gamma_spec(x),
{
    let half = T::one().div(T::from_u64(2));
    if x.lt(half) {
        let s = lanczos_sum_low(x);
        let u = half.sub(x);
        T::from_bits(LN_PI_BITS).sub(T::pi().mul(x).sin().ln()).sub(s.ln()).sub(
            T::from_bits(LN_2_SQRT_E_OVER_PI_BITS),
        ).sub(u.mul(u.add(T::from_u64(10900511).div(T::from_u64(1000000))).div(T::e()).ln()))
    } else {
        let s = lanczos_sum_high(x);
        let v = x.sub(half);
        s.ln().add(T::from_bits(LN_2_SQRT_E_OVER_PI_BITS)).add(
            v.mul(v.add(T::from_u64(10900511).div(T::from_u64(1000000))).div(T::e()).ln()),
        )
    }
}

/// Computes the gamma function at `x` as `exp(ln_gamma(x))`.
pub fn gamma<T: Float>(x: T) -> (r: T)
    ensures
        r == gamma_spec(x),
{
    ln_gamma(x).exp()
}

/// Encoding of -0.57721566490153286, the negated Euler-Mascheroni constant.
pub const DIGAMMA_D1_BITS: u64 = 0xBFE2788CFC6FB619;

/// Encoding of 1.6449340668482264365, `pi^2 / 6`.
pub const DIGAMMA_D2_BITS: u64 = 0x3FFA51A6625307D3;

/// State `(z, partial)` of the digamma argument-raising loop after `n`
/// steps: each step subtracts `1 / z` from the partial result and raises
/// `z` by one.
pub open spec fn digamma_climb_state<T: Float>(x: T, n: nat) -> (T, T)
    decreases n,
{
    if n == 0 {
        (x, T::zero_spec())
    } else {
        let (z, res) = digamma_climb_state(x, (n - 1) as nat);
        (z.add_spec(T::one_spec()), res.sub_spec(T::one_spec().div_spec(z)))
    }
}

/// Step cap of the argument-raising loop. A run over double-precision
/// values raises the argument at most twelve times; the cap only bounds the
/// loop for the verifier.
pub const DIGAMMA_CLIMB_CAP: u64 = 32;

/// The argument-raising loop stops as soon as `z` is no longer below 12.
pub open spec fn digamma_climb_done<T: Float>(x: T, n: nat) -> bool {
    !(digamma_climb_state(x, n).0.lt_spec(T::from_u64_spec(12)))
}

/// The first step at or after `n` at which the argument-raising loop stops,
/// the cap included.
pub open spec fn digamma_climb_exit_from<T: Float>(x: T, n: nat) -> nat
    decreases DIGAMMA_CLIMB_CAP - n,
{
    if digamma_climb_done(x, n) || n >= DIGAMMA_CLIMB_CAP {
        n
    } else {
        digamma_climb_exit_from(x, n + 1)
    }
}

/// The step count at which the argument-raising loop exits.
pub open spec fn digamma_climb_exit<T: Float>(x: T) -> nat {
    digamma_climb_exit_from(x, 0)
}

/// The asymptotic tail polynomial of digamma in `r = 1 / z^2`:
/// `1/12 - r * (1/120 - r * (1/252 - r * (1/240 - r * (1/132))))`.
pub open spec fn digamma_tail_spec<T: Float>(r: T) -> T {
    let s3 = T::one_spec().div_spec(T::from_u64_spec(12));
    let s4 = T::one_spec().div_spec(T::from_u64_spec(120));
    let s5 = T::one_spec().div_spec(T::from_u64_spec(252));
    let s6 = T::one_spec().div_spec(T::from_u64_spec(240));
    let s7 = T::one_spec().div_spec(T::from_u64_spec(132));
    s3.sub_spec(r.mul_spec(s4.sub_spec(r.mul_spec(s5.sub_spec(r.mul_spec(s6.sub_spec(r.mul_spec(s7))))))))
}

/// Digamma for arguments already known to be ordinary (not NaN, not a
/// non-positive integer, not negative): the Taylor form at or below `1e-6`,
/// otherwise the raise-then-expand form.
pub open spec fn digamma_main_spec<T: Float>(x: T) -> T {
    let small = T::one_spec().div_spec(T::from_u64_spec(1000000));
    if x.le_spec(small) {
        T::from_bits_spec(DIGAMMA_D1_BITS).sub_spec(T::one_spec().div_spec(x)).add_spec(
            T::from_bits_spec(DIGAMMA_D2_BITS).mul_spec(x),
        )
    } else {
        let (z, res) = digamma_climb_state(x, digamma_climb_exit(x));
        if T::from_u64_spec(12).le_spec(z) {
            let r1 = T::one_spec().div_spec(z);
            let res2 = res.add_spec(z.ln_spec().sub_spec(half_spec::<T>().mul_spec(r1)));
            let r2 = r1.mul_spec(r1);
            res2.sub_spec(r2.mul_spec(digamma_tail_spec(r2)))
        } else {
            res
        }
    }
}

/// The digamma function: not-a-number inputs and negative infinity yield
/// not-a-number; the poles (non-positive integers) yield negative infinity;
/// negative arguments go through the reflection formula; the rest through
/// [`digamma_main_spec`].
pub open spec fn digamma_spec<T: Float>(x: T) -> T {
    if x.is_nan_spec() || x.feq_spec(T::neg_infinity_spec()) {
        T::nan_spec()
    } else if x.le_spec(T::zero_spec()) && x.floor_spec().feq_spec(x) {
        T::neg_infinity_spec()
    } else if x.lt_spec(T::zero_spec()) {
        digamma_main_spec(T::one_spec().sub_spec(x)).add_spec(
            T::pi_spec().div_spec(T::pi_spec().neg_spec().mul_spec(x).tan_spec()),
        )
    } else {
        digamma_main_spec(x)
    }
}

fn digamma_tail<T: Float>(r: T) -> (res: T)
    ensures
        res == digamma_tail_spec(r),
{
    let s3 = T::one().div(T::from_u64(12));
    let s4 = T::one().div(T::from_u64(120));
    let s5 = T::one().div(T::from_u64(252));
    let s6 = T::one().div(T::from_u64(240));
    let s7 = T::one().div(T::from_u64(132));
    s3.sub(r.mul(s4.sub(r.mul(s5.sub(r.mul(s6.sub(r.mul(s7))))))))
}

fn digamma_main<T: Float>(x: T) -> (res: T)
    ensures
        res == digamma_main_spec(x),
{
    let small = T::one().div(T::from_u64(1000000));
    if x.le(small) {
        return T::from_bits(DIGAMMA_D1_BITS).sub(T::one().div(x)).add(
            T::from_bits(DIGAMMA_D2_BITS).mul(x),
        );
    }
    let twelve = T::from_u64(12);
    let mut z = x;
    let mut res = T::zero();
    let mut i: u64 = 0;
    while z.lt(twelve) && i < DIGAMMA_CLIMB_CAP
        invariant
            i <= DIGAMMA_CLIMB_CAP,
            twelve == T::from_u64_spec(12),
            (z, res) == digamma_climb_state(x, i as nat),
            digamma_climb_exit_from(x, 0) == digamma_climb_exit_from(x, i as nat),
        decreases DIGAMMA_CLIMB_CAP - i,
    {
        res = res.sub(T::one().div(z));
        z = z.add(T::one());
        i = i + 1;
    }
    proof {
        assert(digamma_climb_exit(x) == i as nat);
    }
    if twelve.le(z) {
        let r1 = T::one().div(z);
        let res2 = res.add(z.ln().sub(T::one().div(T::from_u64(2)).mul(r1)));
        let r2 = r1.mul(r1);
        res2.sub(r2.mul(digamma_tail(r2)))
    } else {
        res
    }
}

/// Convergence floor of the incomplete-gamma kernels: `1e-15`.
pub open spec fn kernel_eps_spec<T: Float>() -> T {
    T::one_spec().div_spec(T::from_u64_spec(1000000000000000))
}

/// Encoding of 709.78271289338399; the exponential underflows to zero
/// below the negation of this threshold.
pub const EXP_FLOOR_BITS: u64 = 0x40862E42FEFA39EF;

/// Renormalization threshold of the continued fraction, `2^52`.
pub const GAMMA_LR_BIG: u64 = 4503599627370496;

/// Iteration cap of both incomplete-gamma loops: far beyond the step count
/// of any converging double-precision run. Past the cap the loop stops with
/// its best available estimate; the kernel terminates silently rather than
/// announce non-convergence.
pub const GAMMA_LR_CAP: u64 = 1000000000;

/// State `(r2, c2, ans2)` of the lower-series evaluation after `n` terms:
/// each term multiplies `c2` by `x / r2` with `r2` raised by one first, and
/// accumulates it into `ans2`.
pub open spec fn gamma_lr_series_state<T: Float>(a: T, x: T, n: nat) -> (T, T, T)
    decreases n,
{
    if n == 0 {
        (a, T::one_spec(), T::one_spec())
    } else {
        let (r2, c2, ans2) = gamma_lr_series_state(a, x, (n - 1) as nat);
        let r2n = r2.add_spec(T::one_spec());
        let c2n = c2.mul_spec(x).div_spec(r2n);
        (r2n, c2n, ans2.add_spec(c2n))
    }
}

/// The series stops once the relative size of the latest term is at or
/// below the convergence floor.
pub open spec fn gamma_lr_series_done<T: Float>(a: T, x: T, n: nat) -> bool {
    let (r2, c2, ans2) = gamma_lr_series_state(a, x, n);
    n >= 1 && c2.div_spec(ans2).le_spec(kernel_eps_spec::<T>())
}

/// The first term count at or after `n` at which the series stops, the cap
/// included.
pub open spec fn gamma_lr_series_exit_from<T: Float>(a: T, x: T, n: nat) -> nat
    decreases GAMMA_LR_CAP - n,
{
    if gamma_lr_series_done(a, x, n) || n >= GAMMA_LR_CAP {
        n
    } else {
        gamma_lr_series_exit_from(a, x, n + 1)
    }
}

/// The term count at which the series stops.
pub open spec fn gamma_lr_series_exit<T: Float>(a: T, x: T) -> nat {
    gamma_lr_series_exit_from(a, x, 0)
}

/// State of the continued-fraction evaluation: the running frame `y`, `z`,
/// the step counter `cnt` carried as a numeric value, the last two
/// convergent numerators and denominators, and the current estimate.
pub struct GammaCfState<T> {
    pub y: T,
    pub z: T,
    pub cnt: T,
    pub p3: T,
    pub q3: T,
    pub p2: T,
    pub q2: T,
    pub ans: T,
}

/// The continued-fraction start frame.
pub open spec fn gamma_lr_cf_init<T: Float>(a: T, x: T) -> GammaCfState<T> {
    let y = T::one_spec().sub_spec(a);
    let z = x.add_spec(y).add_spec(T::one_spec());
    let p2 = x.add_spec(T::one_spec());
    let q2 = z.mul_spec(x);
    GammaCfState {
        y,
        z,
        cnt: T::zero_spec(),
        p3: T::one_spec(),
        q3: x,
        p2,
        q2,
        ans: p2.div_spec(q2),
    }
}

/// The next convergent numerator and denominator, computed from the state
/// one step earlier.
pub open spec fn gamma_lr_cf_pq<T: Float>(s: GammaCfState<T>) -> (T, T) {
    let y = s.y.add_spec(T::one_spec());
    let z = s.z.add_spec(T::from_u64_spec(2));
    let cnt = s.cnt.add_spec(T::one_spec());
    let yc = y.mul_spec(cnt);
    (s.p2.mul_spec(z).sub_spec(s.p3.mul_spec(yc)), s.q2.mul_spec(z).sub_spec(s.q3.mul_spec(yc)))
}

/// One continued-fraction step: advance the frame, shift the convergents,
/// scale all four down when the numerator grows past the renormalization
/// threshold, and take the new estimate whenever the denominator is
/// numerically nonzero.
pub open spec fn gamma_lr_cf_step<T: Float>(s: GammaCfState<T>) -> GammaCfState<T> {
    let y = s.y.add_spec(T::one_spec());
    let z = s.z.add_spec(T::from_u64_spec(2));
    let cnt = s.cnt.add_spec(T::one_spec());
    let (p, q) = gamma_lr_cf_pq(s);
    let big = T::from_u64_spec(GAMMA_LR_BIG);
    let big_inv = T::one_spec().div_spec(big);
    let scale = big.lt_spec(p.abs_spec());
    GammaCfState {
        y,
        z,
        cnt,
        p3: if scale {
            s.p2.mul_spec(big_inv)
        } else {
            s.p2
        },
        q3: if scale {
            s.q2.mul_spec(big_inv)
        } else {
            s.q2
        },
        p2: if scale {
            p.mul_spec(big_inv)
        } else {
            p
        },
        q2: if scale {
            q.mul_spec(big_inv)
        } else {
            q
        },
        ans: if !q.feq_spec(T::zero_spec()) {
            p.div_spec(q)
        } else {
            s.ans
        },
    }
}

/// The continued-fraction state after `n` steps.
pub open spec fn gamma_lr_cf_state<T: Float>(a: T, x: T, n: nat) -> GammaCfState<T>
    decreases n,
{
    if n == 0 {
        gamma_lr_cf_init(a, x)
    } else {
        gamma_lr_cf_step(gamma_lr_cf_state(a, x, (n - 1) as nat))
    }
}

/// The continued fraction stops at the first step whose denominator is
/// numerically nonzero and whose relative update is at or below the
/// convergence floor.
pub open spec fn gamma_lr_cf_done<T: Float>(a: T, x: T, n: nat) -> bool {
    n >= 1 && {
        let prev = gamma_lr_cf_state(a, x, (n - 1) as nat);
        let (p, q) = gamma_lr_cf_pq(prev);
        !q.feq_spec(T::zero_spec()) && {
            let nextans = p.div_spec(q);
            prev.ans.sub_spec(nextans).div_spec(nextans).abs_spec().le_spec(kernel_eps_spec::<T>())
        }
    }
}

/// The first step at or after `n` at which the continued fraction stops,
/// the cap included.
pub open spec fn gamma_lr_cf_exit_from<T: Float>(a: T, x: T, n: nat) -> nat
    decreases GAMMA_LR_CAP - n,
{
    if gamma_lr_cf_done(a, x, n) || n >= GAMMA_LR_CAP {
        n
    } else {
        gamma_lr_cf_exit_from(a, x, n + 1)
    }
}

/// The step at which the continued fraction stops.
pub open spec fn gamma_lr_cf_exit<T: Float>(a: T, x: T) -> nat {
    gamma_lr_cf_exit_from(a, x, 0)
}

/// The regularized lower incomplete gamma function `P(a, x)`.
///
/// Not-a-number arguments, a non-positive or infinite `a`, and a negative
/// `x` yield not-a-number; `x` at zero yields zero and at infinity one.
/// When the log-scale prefactor falls below the exponential underflow
/// threshold the answer is the saturated endpoint. Otherwise the lower
/// series is used where `x` is at most one or at most `a`, and the
/// continued fraction elsewhere.
pub open spec fn gamma_lr_spec<T: Float>(a: T, x: T) -> T {
    let zero = T::zero_spec();
    let one = T::one_spec();
    if a.is_nan_spec() || x.is_nan_spec() {
        T::nan_spec()
    } else if a.le_spec(zero) || a.feq_spec(T::infinity_spec()) {
        T::nan_spec()
    } else if x.le_spec(zero) {
        if x.feq_spec(zero) {
            zero
        } else {
            T::nan_spec()
        }
    } else if x.feq_spec(T::infinity_spec()) {
        one
    } else {
        let ax = a.mul_spec(x.ln_spec()).sub_spec(x).sub_spec(ln_gamma_spec(a));
        if ax.lt_spec(T::from_bits_spec(EXP_FLOOR_BITS).neg_spec()) {
            if a.lt_spec(x) {
                one
            } else {
                zero
            }
        } else if x.le_spec(one) || x.le_spec(a) {
            let (r2, c2, ans2) = gamma_lr_series_state(a, x, gamma_lr_series_exit(a, x));
            ax.exp_spec().mul_spec(ans2).div_spec(a)
        } else {
            one.sub_spec(ax.exp_spec().mul_spec(gamma_lr_cf_state(a, x, gamma_lr_cf_exit(a, x)).ans))
        }
    }
}

/// Computes the regularized lower incomplete gamma function `P(a, x)`.
///
/// Total: out-of-domain arguments yield the values [`gamma_lr_spec`]
/// gives them (not-a-number, or a saturated endpoint); the distribution
/// layer relies on this totality, since machine arithmetic may carry any
/// product into the kernel. The result is exactly [`gamma_lr_spec`].
pub fn gamma_lr<T: Float>(a: T, x: T) -> (r: T)
    ensures
        r == gamma_lr_spec(a, x),
{
    let zero = T::zero();
    let one = T::one();
    if a.is_nan() || x.is_nan() {
        return T::nan();
    }
    if a.le(zero) || a.feq(T::infinity()) {
        return T::nan();
    }
    if x.le(zero) {
        return if x.feq(zero) {
            zero
        } else {
            T::nan()
        };
    }
    if x.feq(T::infinity()) {
        return one;
    }
    let ax = a.mul(x.ln()).sub(x).sub(ln_gamma(a));
    if ax.lt(T::from_bits(EXP_FLOOR_BITS).neg()) {
        return if a.lt(x) {
            one
        } else {
            zero
        };
    }
    let eps = one.div(T::from_u64(1000000000000000));
    if x.le(one) || x.le(a) {
        let mut r2 = a;
        let mut c2 = one;
        let mut ans2 = one;
        let mut i: u64 = 0;
        loop
            invariant_except_break
                i < GAMMA_LR_CAP,
                !gamma_lr_series_done(a, x, i as nat),
                gamma_lr_series_exit_from(a, x, 0) == gamma_lr_series_exit_from(a, x, i as nat),
            invariant
                i <= GAMMA_LR_CAP,
                eps == kernel_eps_spec::<T>(),
                (r2, c2, ans2) == gamma_lr_series_state(a, x, i as nat),
            ensures
                (r2, c2, ans2) == gamma_lr_series_state(a, x, gamma_lr_series_exit(a, x)),
            decreases GAMMA_LR_CAP - i,
        {
            r2 = r2.add(T::one());
            c2 = c2.mul(x).div(r2);
            ans2 = ans2.add(c2);
            i = i + 1;
            if c2.div(ans2).le(eps) {
                proof {
                    assert(gamma_lr_series_done(a, x, i as nat));
                    assert(gamma_lr_series_exit_from(a, x, i as nat) == i as nat);
                    assert(gamma_lr_series_exit_from(a, x, (i - 1) as nat) == i as nat);
                }
                break;
            }
            if i == GAMMA_LR_CAP {
                proof {
                    assert(gamma_lr_series_exit_from(a, x, i as nat) == i as nat);
                    assert(gamma_lr_series_exit_from(a, x, (i - 1) as nat) == i as nat);
                }
                break;
            }
        }
        return ax.exp().mul(ans2).div(a);
    }
    let big = T::from_u64(GAMMA_LR_BIG);
    let big_inv = one.div(big);
    let mut cnt = zero;
    let mut y = one.sub(a);
    let mut z = x.add(y).add(one);
    let mut p3 = one;
    let mut q3 = x;
    let mut p2 = x.add(one);
    let mut q2 = z.mul(x);
    let mut ans = p2.div(q2);
    let mut i: u64 = 0;
    loop
        invariant_except_break
            i < GAMMA_LR_CAP,
            !gamma_lr_cf_done(a, x, i as nat),
            gamma_lr_cf_exit_from(a, x, 0) == gamma_lr_cf_exit_from(a, x, i as nat),
        invariant
            i <= GAMMA_LR_CAP,
            eps == kernel_eps_spec::<T>(),
            big == T::from_u64_spec(GAMMA_LR_BIG),
            big_inv == T::one_spec().div_spec(T::from_u64_spec(GAMMA_LR_BIG)),
            (GammaCfState { y, z, cnt, p3, q3, p2, q2, ans }) == gamma_lr_cf_state(a, x, i as nat),
        ensures
            ans == gamma_lr_cf_state(a, x, gamma_lr_cf_exit(a, x)).ans,
        decreases GAMMA_LR_CAP - i,
    {
        y = y.add(T::one());
        z = z.add(T::from_u64(2));
        cnt = cnt.add(T::one());
        let yc = y.mul(cnt);
        let p = p2.mul(z).sub(p3.mul(yc));
        let q = q2.mul(z).sub(q3.mul(yc));
        p3 = p2;
        p2 = p;
        q3 = q2;
        q2 = q;
        if big.lt(p.abs()) {
            p3 = p3.mul(big_inv);
            p2 = p2.mul(big_inv);
            q3 = q3.mul(big_inv);
            q2 = q2.mul(big_inv);
        }
        let mut conv = false;
        if !q.feq(T::zero()) {
            let nextans = p.div(q);
            let error = ans.sub(nextans).div(nextans).abs();
            ans = nextans;
            conv = error.le(eps);
        }
        i = i + 1;
        if conv {
            proof {
                assert(gamma_lr_cf_done(a, x, i as nat));
                assert(gamma_lr_cf_exit_from(a, x, i as nat) == i as nat);
                assert(gamma_lr_cf_exit_from(a, x, (i - 1) as nat) == i as nat);
            }
            break;
        }
        if i == GAMMA_LR_CAP {
            proof {
                assert(gamma_lr_cf_exit_from(a, x, i as nat) == i as nat);
                assert(gamma_lr_cf_exit_from(a, x, (i - 1) as nat) == i as nat);
            }
            break;
        }
    }
    one.sub(ax.exp().mul(ans))
}

/// Computes the digamma function (the derivative of [`ln_gamma`]) at `x`.
///
/// Total: a not-a-number argument or negative infinity yields not-a-number,
/// and each pole yields negative infinity. The result is exactly
/// [`digamma_spec`] of the argument.
pub fn digamma<T: Float>(x: T) -> (r: T)
    ensures
        r == digamma_spec(x),
{
    if x.is_nan() || x.feq(T::neg_infinity()) {
        return T::nan();
    }
    if x.le(T::zero()) && x.floor().feq(x) {
        return T::neg_infinity();
    }
    if x.lt(T::zero()) {
        return digamma_main(T::one().sub(x)).add(T::pi().div(T::pi().neg().mul(x).tan()));
    }
    digamma_main(x)
}

} // verus!
