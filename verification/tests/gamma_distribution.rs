use statrs::Float;
use statrs::RandomSource;
use statrs::StatsError;
use statrs::distribution::Gamma;
use statrs::distribution::gamma::mt_round;
use statrs::function::beta::beta;
use statrs::function::beta::beta_inc;
use statrs::function::beta::beta_reg;
use statrs::function::beta::ln_beta;

#[derive(Clone, Copy, Debug, PartialEq)]
struct F(f64);

impl Float for F {
    // The `*_spec` items are ghost in the verified library; the compiled
    // trait still lists them, so they are filled in with the operations
    // they name. Nothing ever calls them at run time.
    fn is_nan_spec(self) -> bool {
        self.0.is_nan()
    }
    fn feq_spec(self, o: Self) -> bool {
        self.0 == o.0
    }
    fn lt_spec(self, o: Self) -> bool {
        self.0 < o.0
    }
    fn le_spec(self, o: Self) -> bool {
        self.0 <= o.0
    }
    fn add_spec(self, o: Self) -> Self {
        F(self.0 + o.0)
    }
    fn sub_spec(self, o: Self) -> Self {
        F(self.0 - o.0)
    }
    fn mul_spec(self, o: Self) -> Self {
        F(self.0 * o.0)
    }
    fn div_spec(self, o: Self) -> Self {
        F(self.0 / o.0)
    }
    fn neg_spec(self) -> Self {
        F(-self.0)
    }
    fn abs_spec(self) -> Self {
        F(self.0.abs())
    }
    fn ln_spec(self) -> Self {
        F(self.0.ln())
    }
    fn exp_spec(self) -> Self {
        F(self.0.exp())
    }
    fn sqrt_spec(self) -> Self {
        F(self.0.sqrt())
    }
    fn sin_spec(self) -> Self {
        F(self.0.sin())
    }
    fn tan_spec(self) -> Self {
        F(self.0.tan())
    }
    fn floor_spec(self) -> Self {
        F(self.0.floor())
    }
    fn powf_spec(self, o: Self) -> Self {
        F(self.0.powf(o.0))
    }
    fn zero_spec() -> Self {
        F(0.0)
    }
    fn one_spec() -> Self {
        F(1.0)
    }
    fn infinity_spec() -> Self {
        F(f64::INFINITY)
    }
    fn neg_infinity_spec() -> Self {
        F(f64::NEG_INFINITY)
    }
    fn nan_spec() -> Self {
        F(f64::NAN)
    }
    fn pi_spec() -> Self {
        F(std::f64::consts::PI)
    }
    fn e_spec() -> Self {
        F(std::f64::consts::E)
    }
    fn precision_spec() -> Self {
        F(f64::EPSILON)
    }
    fn min_positive_spec() -> Self {
        F(f64::MIN_POSITIVE)
    }
    fn from_u64_spec(n: u64) -> Self {
        F(n as f64)
    }
    fn from_bits_spec(bits: u64) -> Self {
        F(f64::from_bits(bits))
    }
    fn lemma_zero_one_feq() {
    }
    fn lemma_lt_implies_le(_a: Self, _o: Self) {
    }
    fn is_nan(self) -> bool {
        self.0.is_nan()
    }
    fn feq(self, o: F) -> bool {
        self.0 == o.0
    }
    fn lt(self, o: F) -> bool {
        self.0 < o.0
    }
    fn le(self, o: F) -> bool {
        self.0 <= o.0
    }
    fn add(self, o: F) -> F {
        F(self.0 + o.0)
    }
    fn sub(self, o: F) -> F {
        F(self.0 - o.0)
    }
    fn mul(self, o: F) -> F {
        F(self.0 * o.0)
    }
    fn div(self, o: F) -> F {
        F(self.0 / o.0)
    }
    fn neg(self) -> F {
        F(-self.0)
    }
    fn abs(self) -> F {
        F(self.0.abs())
    }
    fn ln(self) -> F {
        F(self.0.ln())
    }
    fn exp(self) -> F {
        F(self.0.exp())
    }
    fn sqrt(self) -> F {
        F(self.0.sqrt())
    }
    fn sin(self) -> F {
        F(self.0.sin())
    }
    fn tan(self) -> F {
        F(self.0.tan())
    }
    fn floor(self) -> F {
        F(self.0.floor())
    }
    fn powf(self, o: F) -> F {
        F(self.0.powf(o.0))
    }
    fn zero() -> F {
        F(0.0)
    }
    fn one() -> F {
        F(1.0)
    }
    fn infinity() -> F {
        F(f64::INFINITY)
    }
    fn neg_infinity() -> F {
        F(f64::NEG_INFINITY)
    }
    fn nan() -> F {
        F(f64::NAN)
    }
    fn pi() -> F {
        F(std::f64::consts::PI)
    }
    fn e() -> F {
        F(std::f64::consts::E)
    }
    fn precision() -> F {
        F(f64::EPSILON)
    }
    fn min_positive() -> F {
        F(f64::MIN_POSITIVE)
    }
    fn from_u64(n: u64) -> F {
        F(n as f64)
    }
    fn from_bits(bits: u64) -> F {
        F(f64::from_bits(bits))
    }
}

struct TestSource {
    state: u64,
}

impl TestSource {
    fn uniform_f64(&mut self) -> f64 {
        self.state = self.state.wrapping_mul(6364136223846793005).wrapping_add(1442695040888963407);
        ((self.state >> 11) as f64) / 9007199254740992.0
    }
}

impl RandomSource<F> for TestSource {
    fn uniform(&mut self) -> F {
        F(self.uniform_f64())
    }
    fn normal(&mut self) -> F {
        loop {
            let x = 2.0 * self.uniform_f64() - 1.0;
            let y = 2.0 * self.uniform_f64() - 1.0;
            let s = x * x + y * y;
            if s < 1.0 && s != 0.0 {
                return F(x * (-2.0 * s.ln() / s).sqrt());
            }
        }
    }
}

fn almost_eq(a: f64, b: f64, acc: f64) -> bool {
    if a == b {
        return true;
    }
    if a.is_infinite() || b.is_infinite() {
        return a == b;
    }
    (a - b).abs() < acc
}

fn try_create(shape: f64, rate: f64) -> Gamma<F> {
    let n = Gamma::new(F(shape), F(rate));
    assert!(n.is_ok());
    n.unwrap()
}

fn create_case(shape: f64, rate: f64) {
    let n = try_create(shape, rate);
    assert_eq!(shape, n.shape().0);
    assert_eq!(rate, n.rate().0);
}

fn bad_create_case(shape: f64, rate: f64) {
    let n = Gamma::new(F(shape), F(rate));
    assert!(n.is_err());
    assert_eq!(n.unwrap_err(), StatsError::BadParams);
}

fn get_value<E>(shape: f64, rate: f64, eval: E) -> f64
where
    E: Fn(Gamma<F>) -> f64,
{
    let n = try_create(shape, rate);
    eval(n)
}

fn test_case<E>(shape: f64, rate: f64, expected: f64, eval: E)
where
    E: Fn(Gamma<F>) -> f64,
{
    let x = get_value(shape, rate, eval);
    assert_eq!(expected, x);
}

fn test_almost<E>(shape: f64, rate: f64, expected: f64, acc: f64, eval: E)
where
    E: Fn(Gamma<F>) -> f64,
{
    let x = get_value(shape, rate, eval);
    assert!(almost_eq(expected, x, acc), "expected {} got {}", expected, x);
}

#[test]
fn test_create() {
    create_case(1.0, 0.1);
    create_case(1.0, 1.0);
    create_case(10.0, 10.0);
    create_case(10.0, 1.0);
    create_case(10.0, f64::INFINITY);
}

#[test]
fn test_bad_create() {
    bad_create_case(0.0, 0.0);
    bad_create_case(1.0, f64::NAN);
    bad_create_case(1.0, -1.0);
    bad_create_case(-1.0, 1.0);
    bad_create_case(-1.0, -1.0);
    bad_create_case(-1.0, f64::NAN);
}

#[test]
fn test_mean() {
    test_case(1.0, 0.1, 10.0, |x| x.mean().0);
    test_case(1.0, 1.0, 1.0, |x| x.mean().0);
    test_case(10.0, 10.0, 1.0, |x| x.mean().0);
    test_case(10.0, 1.0, 10.0, |x| x.mean().0);
    test_case(10.0, f64::INFINITY, 10.0, |x| x.mean().0);
}

#[test]
fn test_variance() {
    test_almost(1.0, 0.1, 100.0, 1e-13, |x| x.variance().0);
    test_case(1.0, 1.0, 1.0, |x| x.variance().0);
    test_case(10.0, 10.0, 0.1, |x| x.variance().0);
    test_case(10.0, 1.0, 10.0, |x| x.variance().0);
    test_case(10.0, f64::INFINITY, 0.0, |x| x.variance().0);
}

#[test]
fn test_std_dev() {
    test_case(1.0, 0.1, 10.0, |x| x.std_dev().0);
    test_case(1.0, 1.0, 1.0, |x| x.std_dev().0);
    test_case(10.0, 10.0, 0.31622776601683794197697302588502426416723164097476643, |x| {
        x.std_dev().0
    });
    test_case(10.0, 1.0, 3.1622776601683793319988935444327185337195551393252168, |x| {
        x.std_dev().0
    });
    test_case(10.0, f64::INFINITY, 0.0, |x| x.std_dev().0);
}

#[test]
fn test_entropy() {
    test_almost(1.0, 0.1, 3.3025850929940456285068402234265387271634735938763824, 1e-15, |x| {
        x.entropy().0
    });
    test_almost(1.0, 1.0, 1.0, 1e-15, |x| x.entropy().0);
    test_almost(10.0, 10.0, 0.23346908548693395836262094490967812177376750477943892, 1e-13, |x| {
        x.entropy().0
    });
    test_almost(10.0, 1.0, 2.5360541784809796423806123995940423293748689934081866, 1e-13, |x| {
        x.entropy().0
    });
    test_case(10.0, f64::INFINITY, 0.0, |x| x.entropy().0);
}

#[test]
fn test_skewness() {
    test_case(1.0, 0.1, 2.0, |x| x.skewness().0);
    test_case(1.0, 1.0, 2.0, |x| x.skewness().0);
    test_case(10.0, 10.0, 0.63245553203367586639977870888654370674391102786504337, |x| {
        x.skewness().0
    });
    test_case(10.0, 1.0, 0.63245553203367586639977870888654370674391102786504337, |x| {
        x.skewness().0
    });
    test_case(10.0, f64::INFINITY, 0.63245553203367586639977870888654370674391102786504337, |x| {
        x.skewness().0
    });
}

#[test]
fn test_mode() {
    test_case(1.0, 0.1, 0.0, |x| x.mode().0);
    test_case(1.0, 1.0, 0.0, |x| x.mode().0);
    test_case(10.0, 10.0, 0.9, |x| x.mode().0);
    test_case(10.0, 1.0, 9.0, |x| x.mode().0);
    test_case(10.0, f64::INFINITY, 10.0, |x| x.mode().0);
}

#[test]
fn test_min_max() {
    test_case(1.0, 0.1, 0.0, |x| x.min().0);
    test_case(1.0, 1.0, 0.0, |x| x.min().0);
    test_case(10.0, 10.0, 0.0, |x| x.min().0);
    test_case(10.0, 1.0, 0.0, |x| x.min().0);
    test_case(10.0, f64::INFINITY, 0.0, |x| x.min().0);
    test_case(1.0, 0.1, f64::INFINITY, |x| x.max().0);
    test_case(1.0, 1.0, f64::INFINITY, |x| x.max().0);
    test_case(10.0, 10.0, f64::INFINITY, |x| x.max().0);
    test_case(10.0, 1.0, f64::INFINITY, |x| x.max().0);
    test_case(10.0, f64::INFINITY, f64::INFINITY, |x| x.max().0);
}

#[test]
fn test_pdf() {
    test_case(1.0, 0.1, 0.090483741803595961836995913651194571475319347018875963, |x| {
        x.pdf(F(1.0)).0
    });
    test_case(1.0, 0.1, 0.036787944117144234201693506390001264039984687455876246, |x| {
        x.pdf(F(10.0)).0
    });
    test_case(1.0, 1.0, 0.36787944117144232159552377016146086744581113103176804, |x| {
        x.pdf(F(1.0)).0
    });
    test_case(1.0, 1.0, 0.000045399929762484851535591515560550610237918088866564953, |x| {
        x.pdf(F(10.0)).0
    });
    test_almost(10.0, 10.0, 1.2511003572113329898476497894772544708420990097708588, 1e-14, |x| {
        x.pdf(F(1.0)).0
    });
    test_almost(
        10.0,
        10.0,
        1.0251532120868705806216092933926141802686541811003037e-30,
        1e-44,
        |x| x.pdf(F(10.0)).0,
    );
    test_almost(
        10.0,
        1.0,
        0.0000010137771196302974029859010421116095333052555418644397,
        1e-20,
        |x| x.pdf(F(1.0)).0,
    );
    test_almost(10.0, 1.0, 0.12511003572113329898476497894772544708420990097708601, 1e-15, |x| {
        x.pdf(F(10.0)).0
    });
    test_case(10.0, f64::INFINITY, 0.0, |x| x.pdf(F(1.0)).0);
    test_case(10.0, f64::INFINITY, f64::INFINITY, |x| x.pdf(F(10.0)).0);
}

#[test]
fn test_ln_pdf() {
    test_case(1.0, 0.1, -2.402585092994045634057955346552321429281631934330484, |x| {
        x.ln_pdf(F(1.0)).0
    });
    test_case(1.0, 0.1, -3.3025850929940456285068402234265387271634735938763824, |x| {
        x.ln_pdf(F(10.0)).0
    });
    test_case(1.0, 1.0, -1.0, |x| x.ln_pdf(F(1.0)).0);
    test_case(1.0, 1.0, -10.0, |x| x.ln_pdf(F(10.0)).0);
    test_almost(10.0, 10.0, 0.22402344985898722897219667227693591172986563062456522, 1e-15, |x| {
        x.ln_pdf(F(1.0)).0
    });
    test_case(10.0, 10.0, -69.052710713194601614865880235563786219860220971716511, |x| {
        x.ln_pdf(F(10.0)).0
    });
    test_almost(10.0, 1.0, -13.801827480081469611207717874566706164281149255663166, 1e-14, |x| {
        x.ln_pdf(F(1.0)).0
    });
    test_almost(10.0, 1.0, -2.0785616431350584550457947824074282958712358580042068, 1e-14, |x| {
        x.ln_pdf(F(10.0)).0
    });
    test_case(10.0, f64::INFINITY, f64::NEG_INFINITY, |x| x.ln_pdf(F(1.0)).0);
    test_case(10.0, f64::INFINITY, f64::INFINITY, |x| x.ln_pdf(F(10.0)).0);
}

#[test]
fn test_cdf() {
    test_almost(1.0, 0.1, 0.095162581964040431858607615783064404690935346242622848, 1e-16, |x| {
        x.cdf(F(1.0)).0
    });
    test_almost(1.0, 0.1, 0.63212055882855767840447622983853913255418886896823196, 1e-15, |x| {
        x.cdf(F(10.0)).0
    });
    test_almost(1.0, 1.0, 0.63212055882855767840447622983853913255418886896823196, 1e-15, |x| {
        x.cdf(F(1.0)).0
    });
    test_case(1.0, 1.0, 0.99995460007023751514846440848443944938976208191113396, |x| {
        x.cdf(F(10.0)).0
    });
    test_almost(10.0, 10.0, 0.54207028552814779168583514294066541824736464003242184, 1e-15, |x| {
        x.cdf(F(1.0)).0
    });
    test_case(10.0, 10.0, 0.99999999999999999999999999999988746526039157266114706, |x| {
        x.cdf(F(10.0)).0
    });
    test_almost(
        10.0,
        1.0,
        0.00000011142547833872067735305068724025236288094949815466035,
        1e-21,
        |x| x.cdf(F(1.0)).0,
    );
    test_almost(10.0, 1.0, 0.54207028552814779168583514294066541824736464003242184, 1e-15, |x| {
        x.cdf(F(10.0)).0
    });
    test_case(10.0, f64::INFINITY, 0.0, |x| x.cdf(F(1.0)).0);
    test_case(10.0, f64::INFINITY, 1.0, |x| x.cdf(F(10.0)).0);
}

#[test]
fn test_ln_beta() {
    assert!(almost_eq(ln_beta(F(0.5), F(0.5)).0, 1.144729885849400174144, 1e-15));
    assert!(almost_eq(ln_beta(F(1.0), F(0.5)).0, 0.6931471805599453094172, 1e-14));
    assert!(almost_eq(ln_beta(F(2.5), F(0.5)).0, 0.163900632837673937284, 1e-15));
    assert!(almost_eq(ln_beta(F(0.5), F(1.0)).0, 0.6931471805599453094172, 1e-14));
    assert!(almost_eq(ln_beta(F(1.0), F(1.0)).0, 0.0, 1e-15));
    assert!(almost_eq(ln_beta(F(2.5), F(1.0)).0, -0.9162907318741550651835, 1e-14));
    assert!(almost_eq(ln_beta(F(0.5), F(2.5)).0, 0.163900632837673937284, 1e-15));
    assert!(almost_eq(ln_beta(F(1.0), F(2.5)).0, -0.9162907318741550651835, 1e-14));
    assert!(almost_eq(ln_beta(F(2.5), F(2.5)).0, -2.608688089402107300388, 1e-14));
}

#[test]
fn test_beta() {
    assert!(almost_eq(beta(F(0.5), F(0.5)).0, 3.141592653589793238463, 1e-15));
    assert!(almost_eq(beta(F(1.0), F(0.5)).0, 2.0, 1e-14));
    assert!(almost_eq(beta(F(2.5), F(0.5)).0, 1.17809724509617246442, 1e-15));
    assert!(almost_eq(beta(F(0.5), F(1.0)).0, 2.0, 1e-14));
    assert!(almost_eq(beta(F(1.0), F(1.0)).0, 1.0, 1e-15));
    assert!(almost_eq(beta(F(2.5), F(1.0)).0, 0.4, 1e-14));
    assert!(almost_eq(beta(F(0.5), F(2.5)).0, 1.17809724509617246442, 1e-15));
    assert!(almost_eq(beta(F(1.0), F(2.5)).0, 0.4, 1e-14));
    assert!(almost_eq(beta(F(2.5), F(2.5)).0, 0.073631077818510779026, 1e-15));
}

#[test]
fn test_beta_inc() {
    assert!(almost_eq(beta_inc(F(0.5), F(0.5), F(0.5)).0, 1.570796326794896619231, 1e-14));
    assert!(almost_eq(beta_inc(F(0.5), F(0.5), F(1.0)).0, 3.141592653589793238463, 1e-15));
    assert!(almost_eq(beta_inc(F(1.0), F(0.5), F(0.5)).0, 0.5857864376269049511983, 1e-15));
    assert!(almost_eq(beta_inc(F(1.0), F(0.5), F(1.0)).0, 2.0, 1e-14));
    assert!(almost_eq(beta_inc(F(2.5), F(0.5), F(0.5)).0, 0.0890486225480862322117, 1e-16));
    assert!(almost_eq(beta_inc(F(2.5), F(0.5), F(1.0)).0, 1.17809724509617246442, 1e-15));
    assert!(almost_eq(beta_inc(F(0.5), F(1.0), F(0.5)).0, 1.414213562373095048802, 1e-14));
    assert!(almost_eq(beta_inc(F(0.5), F(1.0), F(1.0)).0, 2.0, 1e-14));
    assert!(almost_eq(beta_inc(F(1.0), F(1.0), F(0.5)).0, 0.5, 1e-15));
    assert!(almost_eq(beta_inc(F(1.0), F(1.0), F(1.0)).0, 1.0, 1e-15));
    assert_eq!(beta_inc(F(2.5), F(1.0), F(0.5)).0, 0.0707106781186547524401);
    assert!(almost_eq(beta_inc(F(2.5), F(1.0), F(1.0)).0, 0.4, 1e-14));
    assert!(almost_eq(beta_inc(F(0.5), F(2.5), F(0.5)).0, 1.08904862254808623221, 1e-15));
    assert!(almost_eq(beta_inc(F(0.5), F(2.5), F(1.0)).0, 1.17809724509617246442, 1e-15));
    assert!(almost_eq(beta_inc(F(1.0), F(2.5), F(0.5)).0, 0.32928932188134524756, 1e-14));
    assert!(almost_eq(beta_inc(F(1.0), F(2.5), F(1.0)).0, 0.4, 1e-14));
    assert!(almost_eq(beta_inc(F(2.5), F(2.5), F(0.5)).0, 0.03681553890925538951323, 1e-15));
    assert!(almost_eq(beta_inc(F(2.5), F(2.5), F(1.0)).0, 0.073631077818510779026, 1e-15));
}

#[test]
fn test_beta_reg() {
    assert!(almost_eq(beta_reg(F(0.5), F(0.5), F(0.5)).0, 0.5, 1e-15));
    assert_eq!(beta_reg(F(0.5), F(0.5), F(1.0)).0, 1.0);
    assert!(almost_eq(beta_reg(F(1.0), F(0.5), F(0.5)).0, 0.292893218813452475599, 1e-15));
    assert_eq!(beta_reg(F(1.0), F(0.5), F(1.0)).0, 1.0);
    assert!(almost_eq(beta_reg(F(2.5), F(0.5), F(0.5)).0, 0.07558681842161243795, 1e-16));
    assert_eq!(beta_reg(F(2.5), F(0.5), F(1.0)).0, 1.0);
    assert!(almost_eq(beta_reg(F(0.5), F(1.0), F(0.5)).0, 0.7071067811865475244, 1e-15));
    assert_eq!(beta_reg(F(0.5), F(1.0), F(1.0)).0, 1.0);
    assert!(almost_eq(beta_reg(F(1.0), F(1.0), F(0.5)).0, 0.5, 1e-15));
    assert_eq!(beta_reg(F(1.0), F(1.0), F(1.0)).0, 1.0);
    assert!(almost_eq(beta_reg(F(2.5), F(1.0), F(0.5)).0, 0.1767766952966368811, 1e-15));
    assert_eq!(beta_reg(F(2.5), F(1.0), F(1.0)).0, 1.0);
    assert_eq!(beta_reg(F(0.5), F(2.5), F(0.5)).0, 0.92441318157838756205);
    assert_eq!(beta_reg(F(0.5), F(2.5), F(1.0)).0, 1.0);
    assert!(almost_eq(beta_reg(F(1.0), F(2.5), F(0.5)).0, 0.8232233047033631189, 1e-15));
    assert_eq!(beta_reg(F(1.0), F(2.5), F(1.0)).0, 1.0);
    assert!(almost_eq(beta_reg(F(2.5), F(2.5), F(0.5)).0, 0.5, 1e-15));
    assert_eq!(beta_reg(F(2.5), F(2.5), F(1.0)).0, 1.0);
}

#[test]
fn test_mean_times_rate_recovers_shape() {
    for &(shape, rate) in &[(3.0, 1.0), (1.0, 1.0), (4.0, 2.0), (10.0, 10.0), (2.5, 0.5)] {
        let n = try_create(shape, rate);
        assert_eq!(n.mean().0 * rate, shape);
    }
    for &(shape, rate) in &[(3.0, 1.0), (1.0, 1.0), (4.0, 2.0)] {
        let n = try_create(shape, rate);
        assert_eq!(n.variance().0 * (rate * rate), shape);
    }
}

#[test]
fn test_skewness_ignores_rate() {
    let reference = try_create(10.0, 1.0).skewness().0;
    assert_eq!(try_create(10.0, 0.1).skewness().0, reference);
    assert_eq!(try_create(10.0, 123.25).skewness().0, reference);
    assert_eq!(try_create(10.0, f64::INFINITY).skewness().0, reference);
    assert_eq!(reference, 2.0 / 10.0f64.sqrt());
}

#[test]
fn test_cdf_monotone_and_saturates() {
    let n = try_create(3.0, 1.5);
    let points = [0.25, 0.5, 1.0, 2.0, 4.0, 8.0, 16.0, 64.0];
    let mut last = 0.0;
    for &p in points.iter() {
        let c = n.cdf(F(p)).0;
        assert!(c >= last);
        assert!((0.0..=1.0).contains(&c));
        last = c;
    }
    assert!(almost_eq(n.cdf(F(1000.0)).0, 1.0, 1e-12));
}

#[test]
fn test_pdf_nonnegative_and_normalized() {
    let n = try_create(3.0, 1.0);
    let step = 0.001;
    let mut sum = 0.0;
    let mut k = 1;
    while k < 40000 {
        let x = step * k as f64;
        let p = n.pdf(F(x)).0;
        assert!(p >= 0.0);
        sum += p * step;
        k += 1;
    }
    assert!(almost_eq(sum, 1.0, 1e-3));
}

#[test]
fn test_beta_reg_endpoints() {
    for &(a, b) in &[(0.5, 0.5), (1.0, 2.5), (3.0, 4.0), (0.0, 1.0), (2.0, 0.0)] {
        assert_eq!(beta_reg(F(a), F(b), F(0.0)).0, 0.0);
        assert_eq!(beta_reg(F(a), F(b), F(1.0)).0, 1.0);
    }
}

#[test]
fn test_beta_inc_round_trip() {
    for &(a, b, x) in &[(0.5, 0.5, 0.5), (2.5, 1.0, 0.25), (3.5, 2.25, 0.75), (1.0, 4.0, 0.125)] {
        let exact = beta_reg(F(a), F(b), F(x)).0 * beta(F(a), F(b)).0;
        assert_eq!(beta_inc(F(a), F(b), F(x)).0, exact);
    }
}

#[test]
fn test_beta_reg_symmetry() {
    for &(a, b, x) in &[(0.5, 0.5, 0.25), (2.5, 1.0, 0.5), (3.5, 2.25, 0.125), (1.0, 4.0, 0.75)] {
        let lhs = beta_reg(F(a), F(b), F(x)).0;
        let rhs = beta_reg(F(b), F(a), F(1.0 - x)).0;
        assert!(almost_eq(lhs + rhs, 1.0, 1e-14));
    }
}

#[test]
fn test_scenarios() {
    let n = try_create(3.0, 1.0);
    assert_eq!(n.mean().0, 3.0);
    assert!(almost_eq(n.pdf(F(2.0)).0, 0.270670566473225383788, 1e-15));
    let n = try_create(1.0, 0.1);
    assert_eq!(n.mean().0, 10.0);
    assert!(almost_eq(n.pdf(F(1.0)).0, 0.0904837418035959618, 1e-15));
    let n = try_create(10.0, 10.0);
    assert!(almost_eq(n.cdf(F(1.0)).0, 0.5420702855281477916858, 1e-15));
    let n = try_create(10.0, f64::INFINITY);
    assert_eq!(n.mean().0, 10.0);
    assert_eq!(n.variance().0, 0.0);
    assert_eq!(n.cdf(F(10.0)).0, 1.0);
    assert_eq!(n.pdf(F(10.0)).0, f64::INFINITY);
    assert!(Gamma::new(F(0.0), F(0.0)).is_err());
    assert!(Gamma::new(F(-1.0), F(1.0)).is_err());
    assert!(Gamma::new(F(3.0), F(1.0)).is_ok());
    assert!(almost_eq(beta_reg(F(0.5), F(0.5), F(0.5)).0, 0.5, 1e-15));
}

#[test]
fn test_mt_round_accepting_round() {
    let (shape, rate, x, u) = (2.0f64, 1.5, 0.25, 0.5);
    let d = shape - 1.0 / 3.0;
    let c = 1.0 / (9.0 * d).sqrt();
    let v0 = 1.0 + c * x;
    let v = v0 * v0 * v0;
    let xx = x * x;
    let (accept, cand) = mt_round(F(shape), F(rate), F(0.0), F(x), F(u));
    assert!(u < 1.0 - 0.0331 * xx * xx);
    assert!(accept);
    assert_eq!(cand.0, 1.0 * d * v / rate);
}

#[test]
fn test_mt_round_rejecting_round() {
    let (shape, rate, x, u) = (2.0f64, 1.5, 3.0, 0.9);
    let d = shape - 1.0 / 3.0;
    let c = 1.0 / (9.0 * d).sqrt();
    let v0 = 1.0 + c * x;
    let v = v0 * v0 * v0;
    let xx = x * x;
    let (accept, cand) = mt_round(F(shape), F(rate), F(0.0), F(x), F(u));
    assert!(!(u < 1.0 - 0.0331 * xx * xx));
    assert!(!(u.ln() < 0.5 * xx + d * (1.0 - v + v.ln())));
    assert!(!accept);
    assert_eq!(cand.0, 1.0 * d * v / rate);
}

#[test]
fn test_mt_round_sub_unit_shape_scaling() {
    let (shape, rate, w, x, u) = (0.5f64, 2.0f64, 0.3f64, 0.1f64, 0.25f64);
    let afix = w.powf(1.0 / shape);
    let a = shape + 1.0;
    let d = a - 1.0 / 3.0;
    let c = 1.0 / (9.0 * d).sqrt();
    let v0 = 1.0 + c * x;
    let v = v0 * v0 * v0;
    let (accept, cand) = mt_round(F(shape), F(rate), F(w), F(x), F(u));
    assert!(accept);
    assert_eq!(cand.0, afix * d * v / rate);
    let (_, unscaled) = mt_round(F(1.5), F(rate), F(w), F(x), F(u));
    assert!(almost_eq(cand.0, afix * unscaled.0, 1e-15));
}

#[test]
fn test_sample_degenerate_point_mass() {
    let n = try_create(10.0, f64::INFINITY);
    let mut src = TestSource { state: 42 };
    assert_eq!(n.sample(&mut src).0, 10.0);
    assert_eq!(n.ind_sample(&mut src).0, 10.0);
}

#[test]
fn test_sample_positive_and_plausible() {
    let n = try_create(2.0, 1.5);
    let mut src = TestSource { state: 20240915 };
    let mut sum = 0.0;
    let count = 2000;
    for _ in 0..count {
        let s = n.sample(&mut src).0;
        assert!(s.is_finite());
        assert!(s > 0.0);
        sum += s;
    }
    let mean = sum / count as f64;
    assert!((mean - 2.0 / 1.5).abs() < 0.2);
}

#[test]
fn test_sample_sub_unit_shape() {
    let n = try_create(0.5, 2.0);
    let mut src = TestSource { state: 7 };
    for _ in 0..500 {
        let s = n.sample(&mut src).0;
        assert!(s.is_finite());
        assert!(s >= 0.0);
    }
}
