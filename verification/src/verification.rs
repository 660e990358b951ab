//! The verifier of the rational-sumcheck argument.
//!
//! It replays the prover's transcript order exactly to recompute the five
//! challenges, reconstructs the two quotient evaluations the proof must
//! satisfy, and checks the two batched-opening pairing equations and the
//! grand-sum equality, in that fixed order; the first failing check
//! decides the rejection reason.  The whole outcome is a function of the
//! parameters, the statement and the proof, stated by `spec_verify`.
use vstd::prelude::*;

use crate::backend::{
    fr_add, fr_add_of, fr_eq, fr_from_u64, fr_from_u64_of, fr_inv_of, fr_inverse, fr_mul,
    fr_mul_of, fr_pow, fr_pow_of, fr_sub, fr_sub_of, g1_add, g1_add_of, g1_mul, g1_mul_of, g1_sub,
    g1_sub_of, gt_eq, pairing, pairing_of, G1Point, Scalar,
};
use crate::error::Error;
use crate::prover::{
    spec_beta, spec_delta, spec_denom, spec_epsilon, spec_gamma, spec_history_inputs, spec_zeta,
    Proof,
};
use crate::public_parameters::PublicParameters;
use crate::statement::Statement;
use crate::transcript::{FsTranscript, Label};

verus! {

/// The evaluation of the left domain's vanishing polynomial `X^N - 1` at
/// the evaluation challenge.
pub open spec fn spec_zl_at_delta(pp: PublicParameters, delta: Scalar) -> Scalar {
    fr_sub_of(fr_pow_of(delta, pp.size_left_values as u64), fr_from_u64_of(1))
}

/// The evaluation of the right domain's vanishing polynomial at the
/// evaluation challenge.
pub open spec fn spec_zr_at_delta(pp: PublicParameters, delta: Scalar) -> Scalar {
    fr_sub_of(fr_pow_of(delta, pp.size_right_values as u64), fr_from_u64_of(1))
}

/// The left quotient evaluation the proof's claims must equal:
/// `(L(d) * (beta + LV(d) + gamma * PM(d)) - PL(d)) / (d^NL - 1)`.
pub open spec fn spec_ql_at_delta(
    pp: PublicParameters,
    p: Proof,
    beta: Scalar,
    gamma: Scalar,
    delta: Scalar,
) -> Scalar {
    fr_mul_of(
        fr_sub_of(
            fr_mul_of(spec_denom(beta, p.lv_at_delta, gamma, p.pm_at_delta), p.l_at_delta),
            p.pl_at_delta,
        ),
        fr_inv_of(spec_zl_at_delta(pp, delta)),
    )
}

/// The right quotient evaluation the proof's claims must equal; on the
/// right the tag polynomial is the identity, so its value at the
/// challenge is the challenge itself.
pub open spec fn spec_qr_at_delta(
    pp: PublicParameters,
    p: Proof,
    beta: Scalar,
    gamma: Scalar,
    delta: Scalar,
) -> Scalar {
    fr_mul_of(
        fr_sub_of(
            fr_mul_of(spec_denom(beta, p.rv_at_delta, gamma, delta), p.r_at_delta),
            p.pr_at_delta,
        ),
        fr_inv_of(spec_zr_at_delta(pp, delta)),
    )
}

/// The point side of the batched opening at the evaluation challenge:
/// the epsilon-powered combination of the nine commitments.
pub open spec fn spec_batched_g1(
    pp: PublicParameters,
    st: Statement,
    p: Proof,
    epsilon: Scalar,
) -> G1Point {
    let e0 = fr_from_u64_of(1);
    let e1 = fr_mul_of(e0, epsilon);
    let e2 = fr_mul_of(e1, epsilon);
    let e3 = fr_mul_of(e2, epsilon);
    let e4 = fr_mul_of(e3, epsilon);
    let e5 = fr_mul_of(e4, epsilon);
    let e6 = fr_mul_of(e5, epsilon);
    let e7 = fr_mul_of(e6, epsilon);
    let e8 = fr_mul_of(e7, epsilon);
    g1_add_of(
        g1_add_of(
            g1_add_of(
                g1_add_of(
                    g1_add_of(
                        g1_add_of(
                            g1_add_of(
                                g1_add_of(
                                    g1_mul_of(p.g1_affine_l, e0),
                                    g1_mul_of(p.g1_affine_r, e1),
                                ),
                                g1_mul_of(p.g1_affine_ql, e2),
                            ),
                            g1_mul_of(p.g1_affine_qr, e3),
                        ),
                        g1_mul_of(st.g1_affine_left_values, e4),
                    ),
                    g1_mul_of(st.g1_affine_right_values, e5),
                ),
                g1_mul_of(pp.g1_affine_positions_left, e6),
            ),
            g1_mul_of(pp.g1_affine_positions_right, e7),
        ),
        g1_mul_of(pp.g1_affine_position_mappings, e8),
    )
}

/// The scalar side of the batched opening at the evaluation challenge:
/// the epsilon-powered combination of the nine claimed values, with the
/// two quotient values reconstructed rather than taken from the proof.
pub open spec fn spec_batched_fr(
    pp: PublicParameters,
    p: Proof,
    beta: Scalar,
    gamma: Scalar,
    delta: Scalar,
    epsilon: Scalar,
) -> Scalar {
    let e0 = fr_from_u64_of(1);
    let e1 = fr_mul_of(e0, epsilon);
    let e2 = fr_mul_of(e1, epsilon);
    let e3 = fr_mul_of(e2, epsilon);
    let e4 = fr_mul_of(e3, epsilon);
    let e5 = fr_mul_of(e4, epsilon);
    let e6 = fr_mul_of(e5, epsilon);
    let e7 = fr_mul_of(e6, epsilon);
    let e8 = fr_mul_of(e7, epsilon);
    fr_add_of(
        fr_add_of(
            fr_add_of(
                fr_add_of(
                    fr_add_of(
                        fr_add_of(
                            fr_add_of(
                                fr_add_of(
                                    fr_mul_of(p.l_at_delta, e0),
                                    fr_mul_of(p.r_at_delta, e1),
                                ),
                                fr_mul_of(spec_ql_at_delta(pp, p, beta, gamma, delta), e2),
                            ),
                            fr_mul_of(spec_qr_at_delta(pp, p, beta, gamma, delta), e3),
                        ),
                        fr_mul_of(p.lv_at_delta, e4),
                    ),
                    fr_mul_of(p.rv_at_delta, e5),
                ),
                fr_mul_of(p.pl_at_delta, e6),
            ),
            fr_mul_of(p.pr_at_delta, e7),
        ),
        fr_mul_of(p.pm_at_delta, e8),
    )
}

/// Whether the nine-polynomial batched opening at the evaluation
/// challenge satisfies its pairing equation.
pub open spec fn spec_pairing1_holds(pp: PublicParameters, st: Statement, p: Proof) -> bool {
    let pph = pp.hash_representation@;
    let sth = st.hash_representation@;
    let beta = spec_beta(pph, sth);
    let gamma = spec_gamma(pph, sth);
    let delta = spec_delta(pph, sth, p);
    let epsilon = spec_epsilon(pph, sth, p);
    let lhs = g1_add_of(
        g1_sub_of(
            spec_batched_g1(pp, st, p, epsilon),
            g1_mul_of(pp.g1_affine_srs@[0], spec_batched_fr(pp, p, beta, gamma, delta, epsilon)),
        ),
        g1_mul_of(p.batch_proof_at_rand_point, delta),
    );
    pairing_of(lhs, pp.g2_affine_srs@[0]) == pairing_of(
        p.batch_proof_at_rand_point,
        pp.g2_affine_srs@[1],
    )
}

/// Whether the batched opening of the two rational polynomials at zero
/// satisfies its pairing equation.
pub open spec fn spec_pairing2_holds(pp: PublicParameters, st: Statement, p: Proof) -> bool {
    let pph = pp.hash_representation@;
    let sth = st.hash_representation@;
    let zeta = spec_zeta(pph, sth, p);
    let lhs = g1_sub_of(
        g1_add_of(g1_mul_of(p.g1_affine_r, zeta), p.g1_affine_l),
        g1_mul_of(
            pp.g1_affine_srs@[0],
            fr_add_of(p.l_at_zero, fr_mul_of(p.r_at_zero, zeta)),
        ),
    );
    pairing_of(lhs, pp.g2_affine_srs@[0]) == pairing_of(
        p.batch_proof_at_zero,
        pp.g2_affine_srs@[1],
    )
}

/// Whether the grand-sum equality `L(0) * NL == R(0) * NR` holds, which
/// for challenges fixed after the commitments equates the two
/// reciprocal sums.
pub open spec fn spec_grand_sum_holds(pp: PublicParameters, p: Proof) -> bool {
    fr_mul_of(p.l_at_zero, fr_from_u64_of(pp.size_left_values as u64)) == fr_mul_of(
        p.r_at_zero,
        fr_from_u64_of(pp.size_right_values as u64),
    )
}

/// The verifier's outcome: the first failing check, in the fixed order,
/// decides the rejection reason; a proof passing all three is accepted.
pub open spec fn spec_verify(pp: PublicParameters, st: Statement, p: Proof) -> Result<(), Error> {
    let pph = pp.hash_representation@;
    let sth = st.hash_representation@;
    let delta = spec_delta(pph, sth, p);
    let zero = fr_from_u64_of(0);
    if spec_zl_at_delta(pp, delta) == zero || spec_zr_at_delta(pp, delta) == zero {
        Err(Error::FailedToInverseFieldElement)
    } else if !spec_pairing1_holds(pp, st, p) {
        Err(Error::Pairing1Failed)
    } else if !spec_pairing2_holds(pp, st, p) {
        Err(Error::Pairing2Failed)
    } else if !spec_grand_sum_holds(pp, p) {
        Err(Error::EqualityCheckFailed)
    } else {
        Ok(())
    }
}

/// Check a proof against a statement: replay the transcript, then check
/// the quotient relations under the batched opening at the evaluation
/// challenge, the batched opening at zero, and the grand-sum equality.
pub fn verify(pp: &PublicParameters, statement: &Statement, proof: &Proof) -> (r: Result<
    (),
    Error,
>)
    requires
        pp.wf(),
    ensures
        r == spec_verify(*pp, *statement, *proof),
{
    let ghost pph = pp.hash_representation@;
    let ghost sth = statement.hash_representation@;
    let mut transcript = FsTranscript::new();
    transcript.append_element_bytes(Label::PublicParameters, &pp.hash_representation);
    transcript.append_element_bytes(Label::Statement, &statement.hash_representation);
    proof {
        assert(transcript@ == spec_history_inputs(pph, sth));
    }
    let beta = transcript.squeeze_challenge(Label::ChallengeBeta);
    let gamma = transcript.squeeze_challenge(Label::ChallengeGamma);

    transcript.append_element_g1(Label::G1L, &proof.g1_affine_l);
    transcript.append_element_g1(Label::G1R, &proof.g1_affine_r);
    transcript.append_element_g1(Label::G1Ql, &proof.g1_affine_ql);
    transcript.append_element_g1(Label::G1Qr, &proof.g1_affine_qr);

    let delta = transcript.squeeze_challenge(Label::ChallengeDelta);
    let epsilon = transcript.squeeze_challenge(Label::ChallengeEpsilon);

    transcript.append_element_g1(Label::G1BatchProofAtRandPoint, &proof.batch_proof_at_rand_point);
    transcript.append_element_fr(Label::FrLAtDelta, &proof.l_at_delta);
    transcript.append_element_fr(Label::FrRAtDelta, &proof.r_at_delta);
    transcript.append_element_fr(Label::FrLvAtDelta, &proof.lv_at_delta);
    transcript.append_element_fr(Label::FrRvAtDelta, &proof.rv_at_delta);
    transcript.append_element_fr(Label::FrPlAtDelta, &proof.pl_at_delta);
    transcript.append_element_fr(Label::FrPrAtDelta, &proof.pr_at_delta);
    transcript.append_element_fr(Label::FrPmAtDelta, &proof.pm_at_delta);
    transcript.append_element_fr(Label::FrLAtZero, &proof.l_at_zero);
    transcript.append_element_fr(Label::FrRAtZero, &proof.r_at_zero);

    let zeta = transcript.squeeze_challenge(Label::ChallengeZeta);

    proof {
        assert(beta == spec_beta(pph, sth));
        assert(gamma == spec_gamma(pph, sth));
        assert(delta == spec_delta(pph, sth, *proof));
        assert(epsilon == spec_epsilon(pph, sth, *proof));
        assert(zeta == spec_zeta(pph, sth, *proof));
    }

    // Reconstruct the two quotient evaluations.
    let fr_one = fr_from_u64(1);
    let fr_zl_at_delta = fr_sub(&fr_pow(&delta, pp.size_left_values as u64), &fr_one);
    let fr_inv_zl_at_delta = match fr_inverse(&fr_zl_at_delta) {
        Some(v) => v,
        None => {
            return Err(Error::FailedToInverseFieldElement);
        },
    };
    let fr_zr_at_delta = fr_sub(&fr_pow(&delta, pp.size_right_values as u64), &fr_one);
    let fr_inv_zr_at_delta = match fr_inverse(&fr_zr_at_delta) {
        Some(v) => v,
        None => {
            return Err(Error::FailedToInverseFieldElement);
        },
    };
    let fr_ql_at_delta = fr_mul(
        &fr_sub(
            &fr_mul(
                &fr_add(&fr_add(&beta, &proof.lv_at_delta), &fr_mul(&gamma, &proof.pm_at_delta)),
                &proof.l_at_delta,
            ),
            &proof.pl_at_delta,
        ),
        &fr_inv_zl_at_delta,
    );
    let fr_qr_at_delta = fr_mul(
        &fr_sub(
            &fr_mul(
                &fr_add(&fr_add(&beta, &proof.rv_at_delta), &fr_mul(&gamma, &delta)),
                &proof.r_at_delta,
            ),
            &proof.pr_at_delta,
        ),
        &fr_inv_zr_at_delta,
    );

    // Pairing check of the batched opening at the evaluation challenge.
    let e1 = fr_mul(&fr_one, &epsilon);
    let e2 = fr_mul(&e1, &epsilon);
    let e3 = fr_mul(&e2, &epsilon);
    let e4 = fr_mul(&e3, &epsilon);
    let e5 = fr_mul(&e4, &epsilon);
    let e6 = fr_mul(&e5, &epsilon);
    let e7 = fr_mul(&e6, &epsilon);
    let e8 = fr_mul(&e7, &epsilon);

    let mut g1_batched = g1_mul(&proof.g1_affine_l, &fr_one);
    g1_batched = g1_add(&g1_batched, &g1_mul(&proof.g1_affine_r, &e1));
    g1_batched = g1_add(&g1_batched, &g1_mul(&proof.g1_affine_ql, &e2));
    g1_batched = g1_add(&g1_batched, &g1_mul(&proof.g1_affine_qr, &e3));
    g1_batched = g1_add(&g1_batched, &g1_mul(&statement.g1_affine_left_values, &e4));
    g1_batched = g1_add(&g1_batched, &g1_mul(&statement.g1_affine_right_values, &e5));
    g1_batched = g1_add(&g1_batched, &g1_mul(&pp.g1_affine_positions_left, &e6));
    g1_batched = g1_add(&g1_batched, &g1_mul(&pp.g1_affine_positions_right, &e7));
    g1_batched = g1_add(&g1_batched, &g1_mul(&pp.g1_affine_position_mappings, &e8));

    let mut fr_batched = fr_mul(&proof.l_at_delta, &fr_one);
    fr_batched = fr_add(&fr_batched, &fr_mul(&proof.r_at_delta, &e1));
    fr_batched = fr_add(&fr_batched, &fr_mul(&fr_ql_at_delta, &e2));
    fr_batched = fr_add(&fr_batched, &fr_mul(&fr_qr_at_delta, &e3));
    fr_batched = fr_add(&fr_batched, &fr_mul(&proof.lv_at_delta, &e4));
    fr_batched = fr_add(&fr_batched, &fr_mul(&proof.rv_at_delta, &e5));
    fr_batched = fr_add(&fr_batched, &fr_mul(&proof.pl_at_delta, &e6));
    fr_batched = fr_add(&fr_batched, &fr_mul(&proof.pr_at_delta, &e7));
    fr_batched = fr_add(&fr_batched, &fr_mul(&proof.pm_at_delta, &e8));

    let lhs_point = g1_add(
        &g1_sub(&g1_batched, &g1_mul(&pp.g1_affine_srs[0], &fr_batched)),
        &g1_mul(&proof.batch_proof_at_rand_point, &delta),
    );
    let pairing_left = pairing(&lhs_point, &pp.g2_affine_srs[0]);
    let pairing_right = pairing(&proof.batch_proof_at_rand_point, &pp.g2_affine_srs[1]);
    if !gt_eq(&pairing_left, &pairing_right) {
        return Err(Error::Pairing1Failed);
    }

    // Pairing check of the batched opening at zero.
    let tmp = g1_mul(&proof.g1_affine_r, &zeta);
    let tmp = g1_add(&tmp, &proof.g1_affine_l);
    let tmp = g1_sub(
        &tmp,
        &g1_mul(
            &pp.g1_affine_srs[0],
            &fr_add(&proof.l_at_zero, &fr_mul(&proof.r_at_zero, &zeta)),
        ),
    );
    let pairing_left = pairing(&tmp, &pp.g2_affine_srs[0]);
    let pairing_right = pairing(&proof.batch_proof_at_zero, &pp.g2_affine_srs[1]);
    if !gt_eq(&pairing_left, &pairing_right) {
        return Err(Error::Pairing2Failed);
    }

    // Grand-sum equality.
    let lhs = fr_mul(&proof.l_at_zero, &fr_from_u64(pp.size_left_values as u64));
    let rhs = fr_mul(&proof.r_at_zero, &fr_from_u64(pp.size_right_values as u64));
    if !fr_eq(&lhs, &rhs) {
        return Err(Error::EqualityCheckFailed);
    }

    Ok(())
}

} // verus!
