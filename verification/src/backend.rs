//! Trusted bindings to the algebraic backend.
//!
//! The argument system treats the BN254 field and groups as an opaque
//! algebraic backend.  Scalar-field elements, affine group elements of both
//! source groups and pairing outputs are held in opaque wrapper structs
//! (their generic backend types cannot be declared to the verifier, since
//! their trait bounds cannot be), and every operation on them is a small
//! trusted wrapper around one backend call.  Results that are functions of
//! the arguments alone are given uninterpreted names, so that the callers'
//! contracts can pin each computed value down exactly, up to those names.
use vstd::prelude::*;

verus! {

/// An element of the BN254 scalar field, an opaque value of the backend.
#[verifier::external_body]
pub struct Scalar(pub(crate) ark_bn254::Fr);

/// An affine point of the BN254 group G1, an opaque value of the backend.
#[verifier::external_body]
pub struct G1Point(pub(crate) ark_bn254::G1Affine);

/// An affine point of the BN254 group G2, an opaque value of the backend.
#[verifier::external_body]
pub struct G2Point(pub(crate) ark_bn254::G2Affine);

/// An element of the pairing target group, an opaque value of the backend.
#[verifier::external_body]
pub struct GtPoint(pub(crate) ark_ec::pairing::PairingOutput<ark_bn254::Bn254>);

impl Clone for Scalar {
    /// Relies on `Fp` being `Copy`: a clone is the same field element.
    #[verifier::external_body]
    fn clone(&self) -> (r: Scalar)
        ensures
            r == *self,
    {
        Scalar(self.0)
    }
}

impl Copy for Scalar {

}

impl Clone for G1Point {
    /// Relies on `Affine` being `Copy`: a clone is the same point.
    #[verifier::external_body]
    fn clone(&self) -> (r: G1Point)
        ensures
            r == *self,
    {
        G1Point(self.0)
    }
}

impl Copy for G1Point {

}

impl Clone for G2Point {
    /// Relies on `Affine` being `Copy`: a clone is the same point.
    #[verifier::external_body]
    fn clone(&self) -> (r: G2Point)
        ensures
            r == *self,
    {
        G2Point(self.0)
    }
}

impl Copy for G2Point {

}

impl Clone for GtPoint {
    /// Relies on `PairingOutput` being `Copy`: a clone is the same element.
    #[verifier::external_body]
    fn clone(&self) -> (r: GtPoint)
        ensures
            r == *self,
    {
        GtPoint(self.0)
    }
}

impl Copy for GtPoint {

}

/// Relies on `Fr::from::<u64>`: the canonical embedding of an integer
/// into the scalar field.
#[verifier::external_body]
pub fn fr_from_u64(x: u64) -> (r: Scalar)
    ensures
        r == fr_from_u64_of(x),
{
    Scalar(ark_bn254::Fr::from(x))
}

/// The scalar-field element `Fr::from(x)`, as a function of the integer `x`.
pub uninterp spec fn fr_from_u64_of(x: u64) -> Scalar;

/// The field sum `a + b`.
pub uninterp spec fn fr_add_of(a: Scalar, b: Scalar) -> Scalar;

/// The field difference `a - b`.
pub uninterp spec fn fr_sub_of(a: Scalar, b: Scalar) -> Scalar;

/// The field product `a * b`.
pub uninterp spec fn fr_mul_of(a: Scalar, b: Scalar) -> Scalar;

/// The multiplicative inverse of a non-zero field element.
pub uninterp spec fn fr_inv_of(a: Scalar) -> Scalar;

/// The field power `a^e` for a machine-word exponent.
pub uninterp spec fn fr_pow_of(a: Scalar, e: u64) -> Scalar;

/// Relies on `core::ops::Add` for `Fp`: field addition.
#[verifier::external_body]
pub fn fr_add(a: &Scalar, b: &Scalar) -> (r: Scalar)
    ensures
        r == fr_add_of(*a, *b),
{
    Scalar(a.0 + b.0)
}

/// Relies on `core::ops::Sub` for `Fp`: field subtraction.
#[verifier::external_body]
pub fn fr_sub(a: &Scalar, b: &Scalar) -> (r: Scalar)
    ensures
        r == fr_sub_of(*a, *b),
{
    Scalar(a.0 - b.0)
}

/// Relies on `core::ops::Mul` for `Fp`: field multiplication.
#[verifier::external_body]
pub fn fr_mul(a: &Scalar, b: &Scalar) -> (r: Scalar)
    ensures
        r == fr_mul_of(*a, *b),
{
    Scalar(a.0 * b.0)
}

/// Relies on `Field::inverse`: `None` exactly on the zero element, the
/// multiplicative inverse otherwise.
#[verifier::external_body]
pub fn fr_inverse(a: &Scalar) -> (r: Option<Scalar>)
    ensures
        r is Some <==> *a != fr_from_u64_of(0),
        r is Some ==> r->0 == fr_inv_of(*a),
{
    ark_ff::Field::inverse(&a.0).map(Scalar)
}

/// Relies on `Field::pow`: exponentiation by a machine word.
#[verifier::external_body]
pub fn fr_pow(a: &Scalar, e: u64) -> (r: Scalar)
    ensures
        r == fr_pow_of(*a, e),
{
    Scalar(ark_ff::Field::pow(&a.0, [e]))
}

/// Relies on the `educe`-derived `PartialEq` for `Fp`, which compares the
/// single (canonical Montgomery) representation field-wise.
#[verifier::external_body]
pub fn fr_eq(a: &Scalar, b: &Scalar) -> (r: bool)
    ensures
        r == (*a == *b),
{
    a.0 == b.0
}

/// Relies on `UniformRand::rand`: a scalar drawn from the thread's
/// generator.  Nothing is promised of the value.
#[verifier::external_body]
pub fn fr_rand() -> Scalar {
    Scalar(<ark_bn254::Fr as ark_std::UniformRand>::rand(&mut ark_std::rand::thread_rng()))
}

/// The field element `Fr::from_le_bytes_mod_order(bytes)`, a function of
/// the bytes alone.
pub uninterp spec fn fr_from_le_mod_of(bytes: Seq<u8>) -> Scalar;

/// Relies on `PrimeField::from_le_bytes_mod_order`: interprets the bytes
/// as a little-endian integer and reduces it modulo the field order.
#[verifier::external_body]
pub fn fr_from_le_bytes_mod_order(bytes: &[u8]) -> (r: Scalar)
    ensures
        r == fr_from_le_mod_of(bytes@),
{
    Scalar(<ark_bn254::Fr as ark_ff::PrimeField>::from_le_bytes_mod_order(bytes))
}

/// The `n`-th root of unity that the backend returns for a power of two
/// `n` within the field's 2-adicity.
pub uninterp spec fn fr_root_of_unity_of(n: u64) -> Scalar;

/// Relies on `FftField::get_root_of_unity`: for a power-of-two order it
/// succeeds exactly when `log2(n)` is within the field's 2-adicity of 28,
/// and then returns a primitive `n`-th root of unity.
#[verifier::external_body]
pub fn fr_root_of_unity(n: u64) -> (r: Option<Scalar>)
    requires
        n >= 1,
        crate::domain::spec_is_pow2(n as nat),
    ensures
        r is Some <==> n <= 0x10000000,
        r is Some ==> r->0 == fr_root_of_unity_of(n),
{
    <ark_bn254::Fr as ark_ff::FftField>::get_root_of_unity(n).map(Scalar)
}

/// The canonical uncompressed encoding of a scalar.
pub uninterp spec fn ser_fr_of(a: Scalar) -> Seq<u8>;

/// Relies on `CanonicalSerialize::serialize_uncompressed` for `Fp`: the
/// canonical little-endian encoding; writing to a `Vec` cannot fail.
#[verifier::external_body]
pub fn ser_fr(a: &Scalar) -> (r: Vec<u8>)
    ensures
        r@ == ser_fr_of(*a),
{
    let mut buf = Vec::new();
    ark_serialize::CanonicalSerialize::serialize_uncompressed(&a.0, &mut buf).unwrap();
    buf
}

/// The canonical uncompressed encoding of a G1 point.
pub uninterp spec fn ser_g1_of(a: G1Point) -> Seq<u8>;

/// Relies on `CanonicalSerialize::serialize_uncompressed` for `Affine`:
/// the canonical encoding; writing to a `Vec` cannot fail.
#[verifier::external_body]
pub fn ser_g1(a: &G1Point) -> (r: Vec<u8>)
    ensures
        r@ == ser_g1_of(*a),
{
    let mut buf = Vec::new();
    ark_serialize::CanonicalSerialize::serialize_uncompressed(&a.0, &mut buf).unwrap();
    buf
}

/// The canonical uncompressed encoding of a G2 point.
pub uninterp spec fn ser_g2_of(a: G2Point) -> Seq<u8>;

/// Relies on `CanonicalSerialize::serialize_uncompressed` for `Affine`:
/// the canonical encoding; writing to a `Vec` cannot fail.
#[verifier::external_body]
pub fn ser_g2(a: &G2Point) -> (r: Vec<u8>)
    ensures
        r@ == ser_g2_of(*a),
{
    let mut buf = Vec::new();
    ark_serialize::CanonicalSerialize::serialize_uncompressed(&a.0, &mut buf).unwrap();
    buf
}

/// The multi-scalar multiplication of the given bases by the given
/// scalars, as an affine point.
pub uninterp spec fn msm_g1_of(bases: Seq<G1Point>, scalars: Seq<Scalar>) -> G1Point;

/// Relies on `VariableBaseMSM::msm_unchecked`: the inner product of the
/// scalars with the bases (the longer slice is chopped to the shorter,
/// which the precondition rules out), normalized to affine.
#[verifier::external_body]
pub fn msm_g1(bases: &Vec<G1Point>, scalars: &Vec<Scalar>) -> (r: G1Point)
    requires
        scalars@.len() <= bases@.len(),
    ensures
        r == msm_g1_of(bases@.take(scalars@.len() as int), scalars@),
{
    let b: Vec<ark_bn254::G1Affine> = bases.iter().map(|p| p.0).collect();
    let s: Vec<ark_bn254::Fr> = scalars.iter().map(|x| x.0).collect();
    G1Point(<ark_bn254::G1Projective as ark_ec::CurveGroup>::into_affine(
        <ark_bn254::G1Projective as ark_ec::VariableBaseMSM>::msm_unchecked(&b, &s),
    ))
}

/// The G1 generator multiplied by a scalar, as an affine point.
pub uninterp spec fn g1_gen_mul_of(s: Scalar) -> G1Point;

/// Relies on `AffineRepr::mul` applied to `G1Affine::generator`: the fixed
/// group generator scaled by the scalar, normalized to affine.
#[verifier::external_body]
pub fn g1_gen_mul(s: &Scalar) -> (r: G1Point)
    ensures
        r == g1_gen_mul_of(*s),
{
    G1Point(<ark_bn254::G1Projective as ark_ec::CurveGroup>::into_affine(<ark_bn254::G1Affine as core::ops::Mul<ark_bn254::Fr>>::mul(<ark_bn254::G1Affine as ark_ec::AffineRepr>::generator(), s.0)))
}

/// The G2 generator multiplied by a scalar, as an affine point.
pub uninterp spec fn g2_gen_mul_of(s: Scalar) -> G2Point;

/// Relies on `AffineRepr::mul` applied to `G2Affine::generator`: the fixed
/// group generator scaled by the scalar, normalized to affine.
#[verifier::external_body]
pub fn g2_gen_mul(s: &Scalar) -> (r: G2Point)
    ensures
        r == g2_gen_mul_of(*s),
{
    G2Point(<ark_bn254::G2Projective as ark_ec::CurveGroup>::into_affine(<ark_bn254::G2Affine as core::ops::Mul<ark_bn254::Fr>>::mul(<ark_bn254::G2Affine as ark_ec::AffineRepr>::generator(), s.0)))
}

/// A G1 point multiplied by a scalar, as an affine point.
pub uninterp spec fn g1_mul_of(p: G1Point, s: Scalar) -> G1Point;

/// Relies on `AffineRepr::mul`: the point scaled by the scalar,
/// normalized to affine.
#[verifier::external_body]
pub fn g1_mul(p: &G1Point, s: &Scalar) -> (r: G1Point)
    ensures
        r == g1_mul_of(*p, *s),
{
    G1Point(<ark_bn254::G1Projective as ark_ec::CurveGroup>::into_affine(<ark_bn254::G1Affine as core::ops::Mul<ark_bn254::Fr>>::mul(p.0, s.0)))
}

/// The group sum of two G1 points, as an affine point.
pub uninterp spec fn g1_add_of(a: G1Point, b: G1Point) -> G1Point;

/// Relies on `core::ops::Add` for the curve group: the group sum,
/// normalized to affine.
#[verifier::external_body]
pub fn g1_add(a: &G1Point, b: &G1Point) -> (r: G1Point)
    ensures
        r == g1_add_of(*a, *b),
{
    G1Point(<ark_bn254::G1Projective as ark_ec::CurveGroup>::into_affine(<ark_bn254::G1Affine as ark_ec::AffineRepr>::into_group(a.0) + b.0))
}

/// The group difference of two G1 points, as an affine point.
pub uninterp spec fn g1_sub_of(a: G1Point, b: G1Point) -> G1Point;

/// Relies on `core::ops::Sub` for the curve group: the group difference,
/// normalized to affine.
#[verifier::external_body]
pub fn g1_sub(a: &G1Point, b: &G1Point) -> (r: G1Point)
    ensures
        r == g1_sub_of(*a, *b),
{
    G1Point(<ark_bn254::G1Projective as ark_ec::CurveGroup>::into_affine(<ark_bn254::G1Affine as ark_ec::AffineRepr>::into_group(a.0) - b.0))
}

/// The BN254 pairing of a G1 point with a G2 point.
pub uninterp spec fn pairing_of(p: G1Point, q: G2Point) -> GtPoint;

/// Relies on `Pairing::pairing`: the bilinear map into the target group.
#[verifier::external_body]
pub fn pairing(p: &G1Point, q: &G2Point) -> (r: GtPoint)
    ensures
        r == pairing_of(*p, *q),
{
    GtPoint(<ark_bn254::Bn254 as ark_ec::pairing::Pairing>::pairing(p.0, q.0))
}

/// Relies on the `educe`-derived `PartialEq` for `PairingOutput`, which
/// compares the wrapped target-field element field-wise.
#[verifier::external_body]
pub fn gt_eq(a: &GtPoint, b: &GtPoint) -> (r: bool)
    ensures
        r == (*a == *b),
{
    a.0 == b.0
}

/// The Blake2b-512 digest of a byte string.
pub uninterp spec fn blake2b512_of(data: Seq<u8>) -> Seq<u8>;

/// Relies on `Digest::digest` for `Blake2b512`: the 64-byte Blake2b
/// digest of the input.
#[verifier::external_body]
pub fn blake2b512(data: &Vec<u8>) -> (r: Vec<u8>)
    ensures
        r@ == blake2b512_of(data@),
        r@.len() == 64,
{
    <blake2::Blake2b512 as blake2::Digest>::digest(data).to_vec()
}

/// The coefficients of the Euclidean quotient of the polynomial with the
/// given coefficients (low order first) by the linear divisor `X - z`,
/// with trailing zero coefficients trimmed.
pub uninterp spec fn poly_div_linear_of(coeffs: Seq<Scalar>, z: Scalar) -> Seq<Scalar>;

/// Relies on `DenseOrSparsePolynomial::divide` (through `Div` for
/// `DensePolynomial`): Euclidean division by `X - z`, which cannot fail
/// for a non-zero divisor.  The quotient's degree is below the dividend's.
#[verifier::external_body]
pub fn poly_div_linear(coeffs: &Vec<Scalar>, z: &Scalar) -> (r: Vec<Scalar>)
    ensures
        r@ == poly_div_linear_of(coeffs@, *z),
        r@.len() <= coeffs@.len(),
{
    let c: Vec<ark_bn254::Fr> = coeffs.iter().map(|x| x.0).collect();
    let p = <ark_poly::univariate::DensePolynomial<_> as ark_poly::DenseUVPolynomial<_>>::from_coefficients_vec(c);
    let d = <ark_poly::univariate::DensePolynomial<_> as ark_poly::DenseUVPolynomial<_>>::from_coefficients_slice(&[
        -z.0,
        ark_bn254::Fr::from(1u64),
    ]);
    (&p / &d).coeffs.into_iter().map(Scalar).collect()
}

/// The value at `z` of the polynomial with the given coefficients
/// (low order first).
pub uninterp spec fn poly_eval_of(coeffs: Seq<Scalar>, z: Scalar) -> Scalar;

/// Relies on `Polynomial::evaluate` for `DensePolynomial`: Horner
/// evaluation of the polynomial at the point.
#[verifier::external_body]
pub fn poly_eval(coeffs: &Vec<Scalar>, z: &Scalar) -> (r: Scalar)
    ensures
        r == poly_eval_of(coeffs@, *z),
{
    let c: Vec<ark_bn254::Fr> = coeffs.iter().map(|x| x.0).collect();
    let p = <ark_poly::univariate::DensePolynomial<_> as ark_poly::DenseUVPolynomial<_>>::from_coefficients_vec(c);
    Scalar(ark_poly::Polynomial::evaluate(&p, &z.0))
}

} // verus!
