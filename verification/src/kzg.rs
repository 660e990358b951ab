//! KZG polynomial commitments over BN254.
//!
//! Polynomials are coefficient vectors, low order first.  A commitment is
//! the multi-scalar multiplication of the coefficients against the G1
//! structured reference string; an opening at a point is the committed
//! Euclidean quotient by the linear divisor at that point; a batched
//! opening commits to the quotient of a random linear combination, whose
//! separation scalar must be drawn only after all commitments are fixed.
use vstd::prelude::*;

use crate::backend::{
    fr_add, fr_add_of, fr_from_u64, fr_from_u64_of, fr_mul, fr_mul_of, fr_rand, fr_sub, fr_sub_of,
    g1_gen_mul, g1_gen_mul_of, g2_gen_mul, g2_gen_mul_of, msm_g1, msm_g1_of, poly_div_linear,
    poly_div_linear_of, poly_eval, poly_eval_of, G1Point, G2Point, Scalar,
};
use crate::domain::{spec_geom, Domain};

verus! {

/// A copy of a scalar vector.
pub fn copy_scalars(v: &Vec<Scalar>) -> (r: Vec<Scalar>)
    ensures
        r@ == v@,
{
    let mut out: Vec<Scalar> = Vec::new();
    let n = v.len();
    let mut i: usize = 0;
    while i < n
        invariant
            i <= n,
            n == v@.len(),
            out@ == v@.take(i as int),
        decreases n - i,
    {
        out.push(v[i]);
        proof {
            assert(out@ == v@.take(i + 1 as int));
        }
        i = i + 1;
    }
    proof {
        assert(v@.take(n as int) == v@);
    }
    out
}

/// The coefficient of `p` at index `i`, zero beyond the stored length.
pub open spec fn spec_coeff_at(p: Seq<Scalar>, i: int) -> Scalar {
    if 0 <= i < p.len() {
        p[i]
    } else {
        fr_from_u64_of(0)
    }
}

/// The largest length among the coefficient vectors.
pub open spec fn spec_max_len(polys: Seq<Seq<Scalar>>) -> nat
    decreases polys.len(),
{
    if polys.len() == 0 {
        0
    } else {
        let rest = spec_max_len(polys.drop_last());
        if polys.last().len() > rest {
            polys.last().len()
        } else {
            rest
        }
    }
}

/// The `i`-th coefficient of the random linear combination of the first
/// `k` polynomials, accumulated exactly as the executable fold does: the
/// first polynomial enters unscaled, each later one scaled by its power of
/// the separation scalar, and only over its own stored coefficients.
pub open spec fn spec_lc_coeff(
    polys: Seq<Seq<Scalar>>,
    powers: Seq<Scalar>,
    k: nat,
    i: int,
) -> Scalar
    decreases k,
{
    if k <= 1 {
        spec_coeff_at(polys[0], i)
    } else {
        let prev = spec_lc_coeff(polys, powers, (k - 1) as nat, i);
        if 0 <= i < polys[k - 1].len() {
            fr_add_of(prev, fr_mul_of(polys[k - 1][i], powers[k - 1]))
        } else {
            prev
        }
    }
}

/// The random linear combination `p_0 + sep*p_1 + sep^2*p_2 + ...` as a
/// coefficient vector of the polynomials' maximal length.
pub open spec fn spec_batched_poly(polys: Seq<Seq<Scalar>>, sep: Scalar) -> Seq<Scalar> {
    Seq::new(
        spec_max_len(polys),
        |i: int|
            spec_lc_coeff(polys, spec_geom(fr_from_u64_of(1), sep, polys.len()), polys.len(), i),
    )
}

/// The powers `s^0, s^1, ..., s^(size-1)`.
pub fn powers_of_scalars(s: &Scalar, size: usize) -> (r: Vec<Scalar>)
    ensures
        r@ == spec_geom(fr_from_u64_of(1), *s, size as nat),
        r@.len() == size,
{
    let mut out: Vec<Scalar> = Vec::new();
    let mut cur: Scalar = fr_from_u64(1);
    let mut i: usize = 0;
    while i < size
        invariant
            i <= size,
            out@.len() == i,
            out@ == spec_geom(fr_from_u64_of(1), *s, i as nat),
            i < size ==> (if i == 0 {
                cur == fr_from_u64_of(1)
            } else {
                cur == fr_mul_of(out@.last(), *s)
            }),
        decreases size - i,
    {
        out.push(cur);
        cur = fr_mul(&cur, s);
        i = i + 1;
        proof {
            assert(out@ == spec_geom(fr_from_u64_of(1), *s, i as nat));
        }
    }
    out
}

/// The G1 half of the reference string: the generator scaled by each of
/// the first `max_power + 1` powers.
fn srs_g1(powers_of_tau: &Vec<Scalar>, max_power: usize) -> (r: Vec<G1Point>)
    requires
        max_power < usize::MAX,
        max_power + 1 <= powers_of_tau@.len(),
    ensures
        r@.len() == max_power + 1,
        forall|i: int| 0 <= i < r@.len() ==> r@[i] == g1_gen_mul_of(powers_of_tau@[i]),
{
    let mut out: Vec<G1Point> = Vec::new();
    let mut i: usize = 0;
    while i < max_power + 1
        invariant
            max_power < usize::MAX,
            i <= max_power + 1,
            max_power + 1 <= powers_of_tau@.len(),
            out@.len() == i,
            forall|j: int| 0 <= j < i ==> out@[j] == g1_gen_mul_of(powers_of_tau@[j]),
        decreases max_power + 1 - i,
    {
        out.push(g1_gen_mul(&powers_of_tau[i]));
        i = i + 1;
    }
    out
}

/// The G2 half of the reference string: the generator scaled by each of
/// the first `max_power + 1` powers.
fn srs_g2(powers_of_tau: &Vec<Scalar>, max_power: usize) -> (r: Vec<G2Point>)
    requires
        max_power < usize::MAX,
        max_power + 1 <= powers_of_tau@.len(),
    ensures
        r@.len() == max_power + 1,
        forall|i: int| 0 <= i < r@.len() ==> r@[i] == g2_gen_mul_of(powers_of_tau@[i]),
{
    let mut out: Vec<G2Point> = Vec::new();
    let mut i: usize = 0;
    while i < max_power + 1
        invariant
            max_power < usize::MAX,
            i <= max_power + 1,
            max_power + 1 <= powers_of_tau@.len(),
            out@.len() == i,
            forall|j: int| 0 <= j < i ==> out@[j] == g2_gen_mul_of(powers_of_tau@[j]),
        decreases max_power + 1 - i,
    {
        out.push(g2_gen_mul(&powers_of_tau[i]));
        i = i + 1;
    }
    out
}

/// The powers of the trapdoor that the reference string encodes.
pub open spec fn spec_powers_of_tau(tau: Scalar, n: nat) -> Seq<Scalar> {
    spec_geom(fr_from_u64_of(1), tau, n)
}

/// Whether the pair of reference strings encodes the powers of `tau`: one
/// more G2 power than G1 powers, as the batched openings need.
pub open spec fn spec_is_srs_pair(
    g1: Seq<G1Point>,
    g2: Seq<G2Point>,
    tau: Scalar,
    max_power_g1: nat,
) -> bool {
    let powers = spec_powers_of_tau(tau, max_power_g1 + 2);
    &&& g1.len() == max_power_g1 + 1
    &&& g2.len() == max_power_g1 + 2
    &&& (forall|i: int| 0 <= i < g1.len() ==> g1[i] == g1_gen_mul_of(powers[i]))
    &&& (forall|i: int| 0 <= i < g2.len() ==> g2[i] == g2_gen_mul_of(powers[i]))
}

/// Create the reference string from an explicit trapdoor.  Only for
/// deterministic testing: the trapdoor breaks the scheme if it leaks.
pub fn unsafe_setup_from_tau(max_power_g1: usize, tau: Scalar) -> (r: (
    Vec<G1Point>,
    Vec<G2Point>,
))
    requires
        max_power_g1 + 2 <= usize::MAX,
    ensures
        spec_is_srs_pair(r.0@, r.1@, tau, max_power_g1 as nat),
{
    let max_power_g2 = max_power_g1 + 1;
    let powers_of_tau_size = max_power_g2 + 1;
    let powers_of_tau = powers_of_scalars(&tau, powers_of_tau_size);
    let g1_srs = srs_g1(&powers_of_tau, max_power_g1);
    let g2_srs = srs_g2(&powers_of_tau, max_power_g2);
    (g1_srs, g2_srs)
}

/// Create the reference string from a random trapdoor, which is dropped
/// as soon as the powers are computed.
pub fn unsafe_setup_from_rng(max_power_g1: usize) -> (r: (Vec<G1Point>, Vec<G2Point>))
    requires
        max_power_g1 + 2 <= usize::MAX,
    ensures
        exists|tau: Scalar| spec_is_srs_pair(r.0@, r.1@, tau, max_power_g1 as nat),
{
    let tau = fr_rand();
    let r = unsafe_setup_from_tau(max_power_g1, tau);
    proof {
        assert(spec_is_srs_pair(r.0@, r.1@, tau, max_power_g1 as nat));
    }
    r
}

/// Minimal KZG functionality needed for the argument: commitments,
/// single openings, batched openings.
pub struct Kzg {
}

impl Kzg {
    /// Commit: the multi-scalar multiplication of the coefficients
    /// against the G1 reference string.  A polynomial beyond the
    /// reference string's degree bound is an internal sizing bug, ruled
    /// out by the precondition rather than reported at run time.
    pub fn commit(affine_srs: &Vec<G1Point>, poly: &Vec<Scalar>) -> (r: G1Point)
        requires
            poly@.len() <= affine_srs@.len(),
        ensures
            r == msm_g1_of(affine_srs@.take(poly@.len() as int), poly@),
    {
        msm_g1(affine_srs, poly)
    }

    /// Open `poly` at `challenge`: its value there, and a commitment to
    /// the quotient of `poly` by `X - challenge`.
    pub fn open(affine_srs: &Vec<G1Point>, poly: &Vec<Scalar>, challenge: &Scalar) -> (r: (
        Scalar,
        G1Point,
    ))
        requires
            poly@.len() <= affine_srs@.len(),
        ensures
            r.0 == poly_eval_of(poly@, *challenge),
            ({
                let q = poly_div_linear_of(poly@, *challenge);
                r.1 == msm_g1_of(affine_srs@.take(q.len() as int), q)
            }),
    {
        let q = poly_div_linear(poly, challenge);
        let proof = Self::commit(affine_srs, &q);
        (poly_eval(poly, challenge), proof)
    }

    /// One opening proof for all the polynomials at `fr_opening`: the
    /// committed quotient of their `fr_separation`-powered linear
    /// combination by the linear divisor at the opening point.
    pub fn batch_open(
        affine_srs: &Vec<G1Point>,
        poly_list: &Vec<Vec<Scalar>>,
        fr_opening: &Scalar,
        fr_separation: &Scalar,
    ) -> (r: G1Point)
        requires
            poly_list@.len() >= 1,
            forall|k: int| 0 <= k < poly_list@.len() ==> #[trigger] poly_list@[k]@.len()
                <= affine_srs@.len(),
        ensures
            ({
                let batched = spec_batched_poly(poly_list@.map_values(|p: Vec<Scalar>| p@), *fr_separation);
                let q = poly_div_linear_of(batched, *fr_opening);
                r == msm_g1_of(affine_srs@.take(q.len() as int), q)
            }),
    {
        let ghost polys = poly_list@.map_values(|p: Vec<Scalar>| p@);
        proof {
            assert(forall|j: int|
                0 <= j < polys.len() ==> polys[j] == #[trigger] poly_list@[j]@);
        }
        let num_polys = poly_list.len();
        let powers_of_sep = powers_of_scalars(fr_separation, num_polys);

        let mut max_len: usize = 0;
        let mut k: usize = 0;
        while k < num_polys
            invariant
                k <= num_polys,
                num_polys == polys.len(),
                polys == poly_list@.map_values(|p: Vec<Scalar>| p@),
                max_len == spec_max_len(polys.take(k as int)),
                max_len <= affine_srs@.len(),
                forall|j: int| 0 <= j < k ==> #[trigger] polys[j].len() <= max_len,
                forall|j: int| 0 <= j < num_polys ==> polys[j] == #[trigger] poly_list@[j]@,
                forall|j: int| 0 <= j < num_polys ==> #[trigger] poly_list@[j]@.len()
                    <= affine_srs@.len(),
            decreases num_polys - k,
        {
            if poly_list[k].len() > max_len {
                max_len = poly_list[k].len();
            }
            proof {
                assert(polys.take(k + 1 as int).drop_last() == polys.take(k as int));
            }
            k = k + 1;
        }
        proof {
            assert(polys.take(num_polys as int) == polys);
        }

        let mut batched: Vec<Scalar> = Vec::new();
        let mut i: usize = 0;
        while i < max_len
            invariant
                i <= max_len,
                num_polys == polys.len(),
                num_polys >= 1,
                polys == poly_list@.map_values(|p: Vec<Scalar>| p@),
                forall|j: int| 0 <= j < num_polys ==> polys[j] == #[trigger] poly_list@[j]@,
                max_len == spec_max_len(polys),
                forall|j: int| 0 <= j < num_polys ==> #[trigger] polys[j].len() <= max_len,
                powers_of_sep@ == spec_geom(fr_from_u64_of(1), *fr_separation, num_polys as nat),
                powers_of_sep@.len() == num_polys,
                max_len <= affine_srs@.len(),
                batched@.len() == i,
                forall|j: int|
                    0 <= j < i ==> batched@[j] == spec_lc_coeff(
                        polys,
                        powers_of_sep@,
                        num_polys as nat,
                        j,
                    ),
            decreases max_len - i,
        {
            let mut c: Scalar = if i < poly_list[0].len() {
                poly_list[0][i]
            } else {
                fr_from_u64(0)
            };
            let mut k: usize = 1;
            while k < num_polys
                invariant
                    1 <= k <= num_polys,
                    num_polys == polys.len(),
                    polys == poly_list@.map_values(|p: Vec<Scalar>| p@),
                    forall|j: int| 0 <= j < num_polys ==> polys[j] == #[trigger] poly_list@[j]@,
                    powers_of_sep@ == spec_geom(
                        fr_from_u64_of(1),
                        *fr_separation,
                        num_polys as nat,
                    ),
                    powers_of_sep@.len() == num_polys,
                    c == spec_lc_coeff(polys, powers_of_sep@, k as nat, i as int),
                decreases num_polys - k,
            {
                if i < poly_list[k].len() {
                    c = fr_add(&c, &fr_mul(&poly_list[k][i], &powers_of_sep[k]));
                }
                k = k + 1;
            }
            batched.push(c);
            i = i + 1;
        }
        proof {
            assert(batched@ =~= spec_batched_poly(polys, *fr_separation));
        }

        let q = poly_div_linear(&batched, fr_opening);
        Self::commit(affine_srs, &q)
    }
}

/// The coefficient vector of the vanishing polynomial `X^N - 1` of a
/// size-`N` domain.
pub open spec fn spec_vanishing_poly(n: nat) -> Seq<Scalar> {
    Seq::new(
        n + 1,
        |i: int|
            if i == 0 {
                fr_sub_of(fr_from_u64_of(0), fr_from_u64_of(1))
            } else if i == n {
                fr_from_u64_of(1)
            } else {
                fr_from_u64_of(0)
            },
    )
}

/// The KZG commitment to the domain's vanishing polynomial `X^N - 1`,
/// precomputed once and reusable across verifications.
pub fn vanishing_polynomial_commitment(affine_srs: &Vec<G1Point>, domain: &Domain) -> (r: G1Point)
    requires
        domain.wf(),
        domain.size + 1 <= affine_srs@.len(),
    ensures
        ({
            let v = spec_vanishing_poly(domain.size as nat);
            r == msm_g1_of(affine_srs@.take(v.len() as int), v)
        }),
{
    let n = domain.size as usize;
    let zero = fr_from_u64(0);
    let one = fr_from_u64(1);
    let minus_one = fr_sub(&zero, &one);
    let mut coeffs: Vec<Scalar> = Vec::new();
    coeffs.push(minus_one);
    let mut i: usize = 1;
    while i < n
        invariant
            1 <= i <= n,
            zero == fr_from_u64_of(0),
            coeffs@.len() == i,
            coeffs@[0] == fr_sub_of(fr_from_u64_of(0), fr_from_u64_of(1)),
            forall|j: int| 1 <= j < i ==> coeffs@[j] == fr_from_u64_of(0),
        decreases n - i,
    {
        coeffs.push(zero);
        i = i + 1;
    }
    coeffs.push(one);
    proof {
        assert(coeffs@ =~= spec_vanishing_poly(domain.size as nat));
    }
    Kzg::commit(affine_srs, &coeffs)
}

} // verus!
