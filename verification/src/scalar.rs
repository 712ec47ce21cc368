//! The trusted scalar layer: the one place where the crate touches
//! single-precision complex arithmetic.
//!
//! A [`num_complex::Complex32`] is opaque to the verifier. Each elementary
//! operation the engine needs is wrapped in one `external_body` function whose
//! result is pinned to an uninterpreted name, so that every contract above
//! this module can state exactly which arithmetic expression each amplitude
//! holds, without restating floating-point semantics. Real scalars
//! (probabilities, angles, magnitudes) travel as complex numbers with zero
//! imaginary part; the wrappers that read a scalar read the real part.

use vstd::prelude::*;
use num_traits::One;
use num_traits::Zero;

verus! {

/// Makes `num_complex::Complex<T>` known to the verifier as an opaque type.
#[verifier::external_type_specification]
#[verifier::external_body]
#[verifier::reject_recursive_types(T)]
pub struct ExComplex<T>(num_complex::Complex<T>);

/// The complex number an exact small-integer pair converts to.
pub uninterp spec fn c_int(re: int, im: int) -> num_complex::Complex32;

/// The sum of two complex numbers.
pub uninterp spec fn cadd(a: num_complex::Complex32, b: num_complex::Complex32) -> num_complex::Complex32;

/// The difference of two complex numbers.
pub uninterp spec fn csub(a: num_complex::Complex32, b: num_complex::Complex32) -> num_complex::Complex32;

/// The negation of a complex number.
pub uninterp spec fn cneg(a: num_complex::Complex32) -> num_complex::Complex32;

/// The product of two complex numbers.
pub uninterp spec fn cmul(a: num_complex::Complex32, b: num_complex::Complex32) -> num_complex::Complex32;

/// The product of a complex number and the real part of the second argument.
pub uninterp spec fn cmuls(a: num_complex::Complex32, s: num_complex::Complex32) -> num_complex::Complex32;

/// The quotient of the real parts, as a real-valued complex number.
pub uninterp spec fn cdivre(a: num_complex::Complex32, b: num_complex::Complex32) -> num_complex::Complex32;

/// The componentwise quotient of a complex number by the real part of the second argument.
pub uninterp spec fn cdivs(a: num_complex::Complex32, s: num_complex::Complex32) -> num_complex::Complex32;

/// The complex conjugate.
pub uninterp spec fn cconj(a: num_complex::Complex32) -> num_complex::Complex32;

/// The squared magnitude, as a real-valued complex number.
pub uninterp spec fn cnormsqr(a: num_complex::Complex32) -> num_complex::Complex32;

/// The magnitude, as a real-valued complex number.
pub uninterp spec fn cnorm(a: num_complex::Complex32) -> num_complex::Complex32;

/// The square root of the real part, as a real-valued complex number.
pub uninterp spec fn csqrt(a: num_complex::Complex32) -> num_complex::Complex32;

/// The base-two logarithm of the real part, as a real-valued complex number.
pub uninterp spec fn clog2(a: num_complex::Complex32) -> num_complex::Complex32;

/// The cosine of the real part, as a real-valued complex number.
pub uninterp spec fn ccos(a: num_complex::Complex32) -> num_complex::Complex32;

/// The sine of the real part, as a real-valued complex number.
pub uninterp spec fn csin(a: num_complex::Complex32) -> num_complex::Complex32;

/// The complex number built from the real parts of the two arguments.
pub uninterp spec fn cmake(re_of: num_complex::Complex32, im_of: num_complex::Complex32) -> num_complex::Complex32;

/// The real part, as a real-valued complex number.
pub uninterp spec fn cre(a: num_complex::Complex32) -> num_complex::Complex32;

/// The smaller of the real part and one, as a real-valued complex number.
pub uninterp spec fn cmin1(a: num_complex::Complex32) -> num_complex::Complex32;

/// The real part clamped into the unit interval, as a real-valued complex number.
pub uninterp spec fn cclamp01(a: num_complex::Complex32) -> num_complex::Complex32;

/// Whether the real part lies above the engine's small positive cutoff.
pub uninterp spec fn cabove_cutoff(a: num_complex::Complex32) -> bool;

/// Whether the real part is strictly positive.
pub uninterp spec fn cpos(a: num_complex::Complex32) -> bool;

/// Relies on `num_complex::Complex32::new` and `f32::from(i16)`: the complex
/// number with the given exact small-integer parts.
#[verifier::external_body]
pub(crate) fn c_from_ints(re: i16, im: i16) -> (r: num_complex::Complex32)
    ensures
        r == c_int(re as int, im as int),
{
    num_complex::Complex32::new(re.into(), im.into())
}

/// Relies on `Add for num_complex::Complex32`: componentwise addition.
#[verifier::external_body]
pub(crate) fn c_add(a: num_complex::Complex32, b: num_complex::Complex32) -> (r: num_complex::Complex32)
    ensures
        r == cadd(a, b),
{
    a + b
}

/// Relies on `Sub for num_complex::Complex32`: componentwise subtraction.
#[verifier::external_body]
pub(crate) fn c_sub(a: num_complex::Complex32, b: num_complex::Complex32) -> (r: num_complex::Complex32)
    ensures
        r == csub(a, b),
{
    a - b
}

/// Relies on `Neg for num_complex::Complex32`: componentwise negation.
#[verifier::external_body]
pub(crate) fn c_neg(a: num_complex::Complex32) -> (r: num_complex::Complex32)
    ensures
        r == cneg(a),
{
    -a
}

/// Relies on `Mul for num_complex::Complex32`: the complex product.
#[verifier::external_body]
pub(crate) fn c_mul(a: num_complex::Complex32, b: num_complex::Complex32) -> (r: num_complex::Complex32)
    ensures
        r == cmul(a, b),
{
    a * b
}

/// Relies on `Mul<f32> for num_complex::Complex32`: scaling by the real part
/// of the second argument.
#[verifier::external_body]
pub(crate) fn c_mul_scalar(a: num_complex::Complex32, s: num_complex::Complex32) -> (r: num_complex::Complex32)
    ensures
        r == cmuls(a, s),
{
    a * s.re
}

/// Relies on the single-precision division of the real parts.
#[verifier::external_body]
pub(crate) fn c_div_re(a: num_complex::Complex32, b: num_complex::Complex32) -> (r: num_complex::Complex32)
    ensures
        r == cdivre(a, b),
{
    num_complex::Complex32::from(a.re / b.re)
}

/// Relies on `Div<f32> for num_complex::Complex32`: componentwise division by
/// the real part of the second argument.
#[verifier::external_body]
pub(crate) fn c_div_scalar(a: num_complex::Complex32, s: num_complex::Complex32) -> (r: num_complex::Complex32)
    ensures
        r == cdivs(a, s),
{
    a / s.re
}

/// Relies on `num_complex::Complex32::conj`: the complex conjugate.
#[verifier::external_body]
pub(crate) fn c_conj(a: num_complex::Complex32) -> (r: num_complex::Complex32)
    ensures
        r == cconj(a),
{
    a.conj()
}

/// Relies on `num_complex::Complex32::norm_sqr`: the squared magnitude.
#[verifier::external_body]
pub(crate) fn c_norm_sqr(a: num_complex::Complex32) -> (r: num_complex::Complex32)
    ensures
        r == cnormsqr(a),
{
    num_complex::Complex32::from(a.norm_sqr())
}

/// Relies on `num_complex::Complex32::norm` (`f32::hypot`): the magnitude.
/// Rust leaves its precision platform-specific; the name denotes the one
/// value this build's math library computes.
#[verifier::external_body]
pub(crate) fn c_norm(a: num_complex::Complex32) -> (r: num_complex::Complex32)
    ensures
        r == cnorm(a),
{
    num_complex::Complex32::from(a.norm())
}

/// Relies on `f32::sqrt` applied to the real part.
#[verifier::external_body]
pub(crate) fn c_sqrt(a: num_complex::Complex32) -> (r: num_complex::Complex32)
    ensures
        r == csqrt(a),
{
    num_complex::Complex32::from(a.re.sqrt())
}

/// Relies on `f32::log2` applied to the real part. Rust leaves its
/// precision platform-specific; the name denotes the one value this build's
/// math library computes.
#[verifier::external_body]
pub(crate) fn c_log2(a: num_complex::Complex32) -> (r: num_complex::Complex32)
    ensures
        r == clog2(a),
{
    num_complex::Complex32::from(a.re.log2())
}

/// Relies on `f32::cos` applied to the real part. Rust leaves its
/// precision platform-specific; the name denotes the one value this build's
/// math library computes.
#[verifier::external_body]
pub(crate) fn c_cos(a: num_complex::Complex32) -> (r: num_complex::Complex32)
    ensures
        r == ccos(a),
{
    num_complex::Complex32::from(a.re.cos())
}

/// Relies on `f32::sin` applied to the real part. Rust leaves its
/// precision platform-specific; the name denotes the one value this build's
/// math library computes.
#[verifier::external_body]
pub(crate) fn c_sin(a: num_complex::Complex32) -> (r: num_complex::Complex32)
    ensures
        r == csin(a),
{
    num_complex::Complex32::from(a.re.sin())
}

/// Relies on `num_complex::Complex32::new`: pairs the real parts of the two
/// arguments into one complex number.
#[verifier::external_body]
pub(crate) fn c_make(re_of: num_complex::Complex32, im_of: num_complex::Complex32) -> (r: num_complex::Complex32)
    ensures
        r == cmake(re_of, im_of),
{
    num_complex::Complex32::new(re_of.re, im_of.re)
}

/// Relies on the `re` field of `num_complex::Complex32`.
#[verifier::external_body]
pub(crate) fn c_re(a: num_complex::Complex32) -> (r: num_complex::Complex32)
    ensures
        r == cre(a),
{
    num_complex::Complex32::from(a.re)
}

/// Relies on `f32::min`: the real part capped above at one.
#[verifier::external_body]
pub(crate) fn c_min_one(a: num_complex::Complex32) -> (r: num_complex::Complex32)
    ensures
        r == cmin1(a),
{
    let one = num_complex::Complex32::one();
    num_complex::Complex32::from(a.re.min(one.re))
}

/// Relies on `f32::clamp`: the real part clamped into the unit interval.
#[verifier::external_body]
pub(crate) fn c_clamp_unit(a: num_complex::Complex32) -> (r: num_complex::Complex32)
    ensures
        r == cclamp01(a),
{
    let one = num_complex::Complex32::one();
    let zero = num_complex::Complex32::zero();
    num_complex::Complex32::from(a.re.clamp(zero.re, one.re))
}

/// Relies on the `f32` order and division: whether the real part exceeds the
/// engine's small positive cutoff, one billionth. Ten to the ninth is exactly
/// representable in `f32`, so the quotient below rounds to the same value as
/// a literal would.
#[verifier::external_body]
pub(crate) fn c_above_cutoff(a: num_complex::Complex32) -> (r: bool)
    ensures
        r == cabove_cutoff(a),
{
    let one = num_complex::Complex32::one();
    let ten = num_complex::Complex32::new(10i16.into(), 0i16.into());
    let t = ten.re;
    let billion = t * t * t * t * t * t * t * t * t;
    a.re > one.re / billion
}

/// Relies on the `f32` order: whether the real part is strictly positive.
#[verifier::external_body]
pub(crate) fn c_pos(a: num_complex::Complex32) -> (r: bool)
    ensures
        r == cpos(a),
{
    let zero = num_complex::Complex32::zero();
    a.re > zero.re
}

/// The left-to-right sum of a sequence of complex numbers, starting from zero,
/// in the order a sequential fold performs it.
pub open spec fn csum(s: Seq<num_complex::Complex32>) -> num_complex::Complex32
    decreases s.len(),
{
    if s.len() == 0 {
        c_int(0, 0)
    } else {
        cadd(csum(s.drop_last()), s.last())
    }
}

/// Sums the entries of `v` with indices in `lo..hi`, left to right.
pub(crate) fn sum_range(v: &Vec<num_complex::Complex32>, lo: usize, hi: usize) -> (r: num_complex::Complex32)
    requires
        lo <= hi <= v@.len(),
    ensures
        r == csum(v@.subrange(lo as int, hi as int)),
{
    let mut acc = c_from_ints(0, 0);
    let mut i = lo;
    while i < hi
        invariant
            lo <= i <= hi <= v@.len(),
            acc == csum(v@.subrange(lo as int, i as int)),
        decreases hi - i,
    {
        let next = c_add(acc, v[i]);
        proof {
            assert(v@.subrange(lo as int, i + 1).drop_last() =~= v@.subrange(lo as int, i as int));
            assert(v@.subrange(lo as int, i + 1).last() == v@[i as int]);
        }
        acc = next;
        i = i + 1;
    }
    acc
}

} // verus!
