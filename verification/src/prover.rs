//! The prover of the rational-sumcheck argument.
//!
//! From the public parameters, a witness and its statement, the prover
//! derives the Fiat-Shamir challenges, builds the two rational
//! polynomials and their quotient polynomials, commits to all four, and
//! produces the two batched openings.  Every field of the returned proof
//! is pinned, up to the backend's named operations, to a function of the
//! inputs; the verifier recomputes its challenges through the very same
//! history functions, which keeps the two in lock-step.
use vstd::prelude::*;

use crate::backend::{
    fr_add, fr_add_of, fr_from_u64, fr_from_u64_of, fr_inv_of, fr_inverse, fr_mul, fr_mul_of,
    fr_sub, fr_sub_of, msm_g1_of, poly_div_linear_of, poly_eval, poly_eval_of, ser_g1_of,
    G1Point, Scalar,
};
use crate::domain::{
    divide_by_vanishing_poly_on_coset_in_place, domain_fft, domain_ifft, fft_of, ifft_of,
    roots_of_unity, spec_coset_vanishing_value,
};
use crate::error::Error;
use crate::kzg::{copy_scalars, spec_batched_poly, Kzg};
use crate::public_parameters::{spec_scatter_pairs, PublicParameters};
use crate::statement::Statement;
use crate::transcript::{
    spec_append_event, spec_vec_encoding, Event, FsTranscript, Label,
};
use crate::witness::Witness;

verus! {

/// A proof: the four commitments, the two batched openings, and the
/// claimed evaluations at the random point and at zero.
pub struct Proof {
    pub g1_affine_l: G1Point,
    pub g1_affine_r: G1Point,
    pub g1_affine_ql: G1Point,
    pub g1_affine_qr: G1Point,
    pub batch_proof_at_rand_point: G1Point,
    pub batch_proof_at_zero: G1Point,
    pub l_at_delta: Scalar,
    pub r_at_delta: Scalar,
    pub lv_at_delta: Scalar,
    pub rv_at_delta: Scalar,
    pub pl_at_delta: Scalar,
    pub pr_at_delta: Scalar,
    pub pm_at_delta: Scalar,
    pub l_at_zero: Scalar,
    pub r_at_zero: Scalar,
}

/// The rational denominator `beta + value + gamma * tag`.
pub open spec fn spec_denom(beta: Scalar, value: Scalar, gamma: Scalar, tag: Scalar) -> Scalar {
    fr_add_of(fr_add_of(beta, value), fr_mul_of(gamma, tag))
}

/// The history after the two binding hashes have been absorbed.
pub open spec fn spec_history_inputs(pph: Seq<u8>, sth: Seq<u8>) -> Seq<Event> {
    Seq::<Event>::empty().push(
        spec_append_event(Label::PublicParameters, spec_vec_encoding(pph)),
    ).push(spec_append_event(Label::Statement, spec_vec_encoding(sth)))
}

/// The first challenge, drawn over the two binding hashes.
pub open spec fn spec_beta(pph: Seq<u8>, sth: Seq<u8>) -> Scalar {
    FsTranscript::spec_challenge_fr(spec_history_inputs(pph, sth), Label::ChallengeBeta)
}

/// The history after the first challenge.
pub open spec fn spec_history_beta(pph: Seq<u8>, sth: Seq<u8>) -> Seq<Event> {
    FsTranscript::spec_after_squeeze(spec_history_inputs(pph, sth), Label::ChallengeBeta)
}

/// The second challenge.
pub open spec fn spec_gamma(pph: Seq<u8>, sth: Seq<u8>) -> Scalar {
    FsTranscript::spec_challenge_fr(spec_history_beta(pph, sth), Label::ChallengeGamma)
}

/// The history after the second challenge.
pub open spec fn spec_history_gamma(pph: Seq<u8>, sth: Seq<u8>) -> Seq<Event> {
    FsTranscript::spec_after_squeeze(spec_history_beta(pph, sth), Label::ChallengeGamma)
}

/// The history after the four commitments have been absorbed.
pub open spec fn spec_history_commitments(pph: Seq<u8>, sth: Seq<u8>, p: Proof) -> Seq<Event> {
    spec_history_gamma(pph, sth).push(
        spec_append_event(Label::G1L, ser_g1_of(p.g1_affine_l)),
    ).push(spec_append_event(Label::G1R, ser_g1_of(p.g1_affine_r))).push(
        spec_append_event(Label::G1Ql, ser_g1_of(p.g1_affine_ql)),
    ).push(spec_append_event(Label::G1Qr, ser_g1_of(p.g1_affine_qr)))
}

/// The evaluation challenge, drawn after the four commitments are fixed.
pub open spec fn spec_delta(pph: Seq<u8>, sth: Seq<u8>, p: Proof) -> Scalar {
    FsTranscript::spec_challenge_fr(spec_history_commitments(pph, sth, p), Label::ChallengeDelta)
}

/// The history after the evaluation challenge.
pub open spec fn spec_history_delta(pph: Seq<u8>, sth: Seq<u8>, p: Proof) -> Seq<Event> {
    FsTranscript::spec_after_squeeze(
        spec_history_commitments(pph, sth, p),
        Label::ChallengeDelta,
    )
}

/// The batching challenge for the opening at the evaluation point.
pub open spec fn spec_epsilon(pph: Seq<u8>, sth: Seq<u8>, p: Proof) -> Scalar {
    FsTranscript::spec_challenge_fr(spec_history_delta(pph, sth, p), Label::ChallengeEpsilon)
}

/// The history after the batching challenge.
pub open spec fn spec_history_epsilon(pph: Seq<u8>, sth: Seq<u8>, p: Proof) -> Seq<Event> {
    FsTranscript::spec_after_squeeze(spec_history_delta(pph, sth, p), Label::ChallengeEpsilon)
}

/// The history after the first batch proof and the nine claimed
/// evaluations have been absorbed, in their fixed order.
pub open spec fn spec_history_evals(pph: Seq<u8>, sth: Seq<u8>, p: Proof) -> Seq<Event> {
    spec_history_epsilon(pph, sth, p).push(
        spec_append_event(
            Label::G1BatchProofAtRandPoint,
            ser_g1_of(p.batch_proof_at_rand_point),
        ),
    ).push(
        spec_append_event(Label::FrLAtDelta, crate::backend::ser_fr_of(p.l_at_delta)),
    ).push(
        spec_append_event(Label::FrRAtDelta, crate::backend::ser_fr_of(p.r_at_delta)),
    ).push(
        spec_append_event(Label::FrLvAtDelta, crate::backend::ser_fr_of(p.lv_at_delta)),
    ).push(
        spec_append_event(Label::FrRvAtDelta, crate::backend::ser_fr_of(p.rv_at_delta)),
    ).push(
        spec_append_event(Label::FrPlAtDelta, crate::backend::ser_fr_of(p.pl_at_delta)),
    ).push(
        spec_append_event(Label::FrPrAtDelta, crate::backend::ser_fr_of(p.pr_at_delta)),
    ).push(
        spec_append_event(Label::FrPmAtDelta, crate::backend::ser_fr_of(p.pm_at_delta)),
    ).push(
        spec_append_event(Label::FrLAtZero, crate::backend::ser_fr_of(p.l_at_zero)),
    ).push(spec_append_event(Label::FrRAtZero, crate::backend::ser_fr_of(p.r_at_zero)))
}

/// The batching challenge for the opening at zero.
pub open spec fn spec_zeta(pph: Seq<u8>, sth: Seq<u8>, p: Proof) -> Scalar {
    FsTranscript::spec_challenge_fr(spec_history_evals(pph, sth, p), Label::ChallengeZeta)
}

/// The left rational pairs: each designated left position with the
/// inverse of its denominator `beta + value + gamma * mapping-tag`.
pub open spec fn spec_left_inv_pairs(
    pp: PublicParameters,
    w: Witness,
    beta: Scalar,
    gamma: Scalar,
) -> Seq<(usize, Scalar)> {
    pp.position_mappings@.map_values(
        |pr: (usize, Scalar)|
            (pr.0, fr_inv_of(spec_denom(beta, w.left_values@[pr.0 as int], gamma, pr.1))),
    )
}

/// The right rational pairs: each designated right position with the
/// inverse of its denominator, tagged by that position's own domain
/// element.
pub open spec fn spec_right_inv_pairs(
    pp: PublicParameters,
    w: Witness,
    beta: Scalar,
    gamma: Scalar,
) -> Seq<(usize, Scalar)> {
    pp.positions_right@.map_values(
        |p: usize|
            (
                p,
                fr_inv_of(
                    spec_denom(
                        beta,
                        w.right_values@[p as int],
                        gamma,
                        pp.domain_r.spec_elements()[p as int],
                    ),
                ),
            ),
    )
}

/// The coefficients of the left rational polynomial.
pub open spec fn spec_l_coeffs(
    pp: PublicParameters,
    w: Witness,
    beta: Scalar,
    gamma: Scalar,
) -> Seq<Scalar> {
    ifft_of(
        pp.domain_l.size,
        pp.domain_l.group_gen,
        pp.domain_l.offset,
        spec_scatter_pairs(
            spec_left_inv_pairs(pp, w, beta, gamma),
            pp.size_left_values as nat,
        ),
    )
}

/// The coefficients of the right rational polynomial.
pub open spec fn spec_r_coeffs(
    pp: PublicParameters,
    w: Witness,
    beta: Scalar,
    gamma: Scalar,
) -> Seq<Scalar> {
    ifft_of(
        pp.domain_r.size,
        pp.domain_r.group_gen,
        pp.domain_r.offset,
        spec_scatter_pairs(
            spec_right_inv_pairs(pp, w, beta, gamma),
            pp.size_right_values as nat,
        ),
    )
}

/// The pointwise quotient numerator on a coset:
/// `l * (beta + value + gamma * tag) - indicator`.
pub open spec fn spec_quotient_evals(
    l: Seq<Scalar>,
    v: Seq<Scalar>,
    ind: Seq<Scalar>,
    tags: Seq<Scalar>,
    beta: Scalar,
    gamma: Scalar,
) -> Seq<Scalar> {
    Seq::new(
        l.len(),
        |i: int|
            fr_sub_of(
                fr_mul_of(l[i], fr_add_of(fr_add_of(beta, v[i]), fr_mul_of(gamma, tags[i]))),
                ind[i],
            ),
    )
}

/// Every coefficient scaled by a constant.
pub open spec fn spec_scale(s: Seq<Scalar>, c: Scalar) -> Seq<Scalar> {
    Seq::new(s.len(), |i: int| fr_mul_of(s[i], c))
}

/// The coefficients of the left quotient polynomial: the numerator
/// evaluated on the left coset, interpolated back, and divided by the
/// constant value of the left vanishing polynomial on that coset.
pub open spec fn spec_ql_coeffs(
    pp: PublicParameters,
    w: Witness,
    beta: Scalar,
    gamma: Scalar,
) -> Seq<Scalar> {
    let cd = pp.domain_coset_l;
    let l_on_coset = fft_of(cd.size, cd.group_gen, cd.offset, spec_l_coeffs(pp, w, beta, gamma));
    let v_on_coset = fft_of(cd.size, cd.group_gen, cd.offset, w.poly_left_values@);
    let numerator = spec_quotient_evals(
        l_on_coset,
        v_on_coset,
        pp.coset_eval_list_positions_left@,
        pp.coset_eval_list_position_mappings@,
        beta,
        gamma,
    );
    spec_scale(
        ifft_of(cd.size, cd.group_gen, cd.offset, numerator),
        fr_inv_of(spec_coset_vanishing_value(pp.domain_l)),
    )
}

/// The coefficients of the right quotient polynomial.
pub open spec fn spec_qr_coeffs(
    pp: PublicParameters,
    w: Witness,
    beta: Scalar,
    gamma: Scalar,
) -> Seq<Scalar> {
    let cd = pp.domain_coset_r;
    let r_on_coset = fft_of(cd.size, cd.group_gen, cd.offset, spec_r_coeffs(pp, w, beta, gamma));
    let v_on_coset = fft_of(cd.size, cd.group_gen, cd.offset, w.poly_right_values@);
    let numerator = spec_quotient_evals(
        r_on_coset,
        v_on_coset,
        pp.coset_eval_list_positions_right@,
        pp.roots_of_unity_coset_r@,
        beta,
        gamma,
    );
    spec_scale(
        ifft_of(cd.size, cd.group_gen, cd.offset, numerator),
        fr_inv_of(spec_coset_vanishing_value(pp.domain_r)),
    )
}

/// Whether some rational denominator vanishes, which is the only way the
/// prover can fail.
pub open spec fn spec_prover_inversion_fails(
    pp: PublicParameters,
    w: Witness,
    beta: Scalar,
    gamma: Scalar,
) -> bool {
    let zero = fr_from_u64_of(0);
    ||| (exists|k: int|
        0 <= k < pp.position_mappings@.len() && spec_denom(
            beta,
            w.left_values@[(#[trigger] pp.position_mappings@[k]).0 as int],
            gamma,
            pp.position_mappings@[k].1,
        ) == zero)
    ||| spec_coset_vanishing_value(pp.domain_l) == zero
    ||| (exists|j: int|
        0 <= j < pp.positions_right@.len() && spec_denom(
            beta,
            w.right_values@[#[trigger] pp.positions_right@[j] as int],
            gamma,
            pp.domain_r.spec_elements()[pp.positions_right@[j] as int],
        ) == zero)
    ||| spec_coset_vanishing_value(pp.domain_r) == zero
}


/// What a returned proof is: every field is the stated function of the
/// parameters, the witness and the statement, through the backend's
/// named operations and the transcript-derived challenges.
pub open spec fn spec_prove_ok(
    pp: PublicParameters,
    witness: Witness,
    statement: Statement,
    p: Proof,
) -> bool {
    let pph = pp.hash_representation@;
    let sth = statement.hash_representation@;
    let beta = spec_beta(pph, sth);
    let gamma = spec_gamma(pph, sth);
    let delta = spec_delta(pph, sth, p);
    let epsilon = spec_epsilon(pph, sth, p);
    let zeta = spec_zeta(pph, sth, p);
    let zero = fr_from_u64_of(0);
    let l = spec_l_coeffs(pp, witness, beta, gamma);
    let rr = spec_r_coeffs(pp, witness, beta, gamma);
    let ql = spec_ql_coeffs(pp, witness, beta, gamma);
    let qr = spec_qr_coeffs(pp, witness, beta, gamma);
    let srs = pp.g1_affine_srs@;
    &&& p.g1_affine_l == msm_g1_of(srs.take(l.len() as int), l)
    &&& p.g1_affine_r == msm_g1_of(srs.take(rr.len() as int), rr)
    &&& p.g1_affine_ql == msm_g1_of(srs.take(ql.len() as int), ql)
    &&& p.g1_affine_qr == msm_g1_of(srs.take(qr.len() as int), qr)
    &&& (p.batch_proof_at_rand_point == {
        let q = poly_div_linear_of(
            spec_batched_poly(
                seq![
                    l,
                    rr,
                    ql,
                    qr,
                    witness.poly_left_values@,
                    witness.poly_right_values@,
                    pp.poly_positions_left@,
                    pp.poly_positions_right@,
                    pp.poly_position_mappings@,
                ],
                epsilon,
            ),
            delta,
        );
        msm_g1_of(srs.take(q.len() as int), q)
    })
    &&& (p.batch_proof_at_zero == {
        let q = poly_div_linear_of(spec_batched_poly(seq![l, rr], zeta), zero);
        msm_g1_of(srs.take(q.len() as int), q)
    })
    &&& p.l_at_delta == poly_eval_of(l, delta)
    &&& p.r_at_delta == poly_eval_of(rr, delta)
    &&& p.lv_at_delta == poly_eval_of(witness.poly_left_values@, delta)
    &&& p.rv_at_delta == poly_eval_of(witness.poly_right_values@, delta)
    &&& p.pl_at_delta == poly_eval_of(pp.poly_positions_left@, delta)
    &&& p.pr_at_delta == poly_eval_of(pp.poly_positions_right@, delta)
    &&& p.pm_at_delta == poly_eval_of(pp.poly_position_mappings@, delta)
    &&& p.l_at_zero == poly_eval_of(l, zero)
    &&& p.r_at_zero == poly_eval_of(rr, zero)
}

/// Proving is deterministic: two proofs of the same parameters, witness
/// and statement are equal field for field, since every field is a
/// function of those inputs alone.
pub proof fn lemma_prove_deterministic(
    pp: PublicParameters,
    witness: Witness,
    statement: Statement,
    p1: Proof,
    p2: Proof,
)
    requires
        spec_prove_ok(pp, witness, statement, p1),
        spec_prove_ok(pp, witness, statement, p2),
    ensures
        p1 == p2,
{
    let pph = pp.hash_representation@;
    let sth = statement.hash_representation@;
    assert(p1.g1_affine_l == p2.g1_affine_l);
    assert(p1.g1_affine_r == p2.g1_affine_r);
    assert(p1.g1_affine_ql == p2.g1_affine_ql);
    assert(p1.g1_affine_qr == p2.g1_affine_qr);
    assert(spec_history_commitments(pph, sth, p1) == spec_history_commitments(pph, sth, p2));
    assert(spec_delta(pph, sth, p1) == spec_delta(pph, sth, p2));
    assert(spec_epsilon(pph, sth, p1) == spec_epsilon(pph, sth, p2));
    assert(p1.batch_proof_at_rand_point == p2.batch_proof_at_rand_point);
    assert(p1.l_at_delta == p2.l_at_delta);
    assert(p1.r_at_delta == p2.r_at_delta);
    assert(p1.l_at_zero == p2.l_at_zero);
    assert(p1.r_at_zero == p2.r_at_zero);
    assert(spec_history_evals(pph, sth, p1) == spec_history_evals(pph, sth, p2));
    assert(spec_zeta(pph, sth, p1) == spec_zeta(pph, sth, p2));
    assert(p1.batch_proof_at_zero == p2.batch_proof_at_zero);
}

/// Produce a proof that the witness's left and right values agree at the
/// designated positions under the public mapping.
pub fn prove(pp: &PublicParameters, witness: &Witness, statement: &Statement) -> (r: Result<
    Proof,
    Error,
>)
    requires
        pp.wf(),
        witness.wf(*pp),
    ensures
        ({
            let beta = spec_beta(pp.hash_representation@, statement.hash_representation@);
            let gamma = spec_gamma(pp.hash_representation@, statement.hash_representation@);
            &&& (r is Err <==> spec_prover_inversion_fails(*pp, *witness, beta, gamma))
            &&& (r is Err ==> r == Err::<Proof, Error>(Error::FailedToInverseFieldElement))
            &&& (r is Ok ==> spec_prove_ok(*pp, *witness, *statement, r->Ok_0))
        }),
{
    let ghost pph = pp.hash_representation@;
    let ghost sth = statement.hash_representation@;
    let mut transcript = FsTranscript::new();
    transcript.append_element_bytes(Label::PublicParameters, &pp.hash_representation);
    transcript.append_element_bytes(Label::Statement, &statement.hash_representation);
    proof {
        assert(transcript@ == spec_history_inputs(pph, sth));
    }
    let beta = transcript.squeeze_challenge(Label::ChallengeBeta);
    let gamma = transcript.squeeze_challenge(Label::ChallengeGamma);
    proof {
        assert(beta == spec_beta(pph, sth));
        assert(gamma == spec_gamma(pph, sth));
        assert(transcript@ == spec_history_gamma(pph, sth));
    }

    // Left rational polynomial.
    let np = pp.position_mappings.len();
    let mut inv_pairs_l: Vec<(usize, Scalar)> = Vec::new();
    let mut k: usize = 0;
    while k < np
        invariant
            k <= np,
            pp.wf(),
            witness.wf(*pp),
            np == pp.position_mappings@.len(),
            pph == pp.hash_representation@,
            sth == statement.hash_representation@,
            beta == spec_beta(pph, sth),
            gamma == spec_gamma(pph, sth),
            inv_pairs_l@ == spec_left_inv_pairs(*pp, *witness, beta, gamma).take(k as int),
            forall|j: int|
                0 <= j < k ==> spec_denom(
                    beta,
                    witness.left_values@[(#[trigger] pp.position_mappings@[j]).0 as int],
                    gamma,
                    pp.position_mappings@[j].1,
                ) != fr_from_u64_of(0),
        decreases np - k,
    {
        let position = pp.position_mappings[k].0;
        let tag = pp.position_mappings[k].1;
        let denom = fr_add(&fr_add(&beta, &witness.left_values[position]), &fr_mul(&gamma, &tag));
        let inv = match fr_inverse(&denom) {
            Some(v) => v,
            None => {
                proof {
                    assert(spec_prover_inversion_fails(*pp, *witness, beta, gamma));
                }
                return Err(Error::FailedToInverseFieldElement);
            },
        };
        inv_pairs_l.push((position, inv));
        proof {
            assert(spec_left_inv_pairs(*pp, *witness, beta, gamma).take(k + 1 as int)
                =~= inv_pairs_l@);
        }
        k = k + 1;
    }
    proof {
        assert(spec_left_inv_pairs(*pp, *witness, beta, gamma).take(np as int)
            == spec_left_inv_pairs(*pp, *witness, beta, gamma));
    }
    let poly_eval_l = crate::public_parameters::scatter_pairs(&inv_pairs_l, pp.size_left_values);
    let poly_l = domain_ifft(&pp.domain_l, &poly_eval_l);
    let g1_affine_l = Kzg::commit(&pp.g1_affine_srs, &poly_l);

    // Left quotient polynomial.
    let coset_eval_list_l = domain_fft(&pp.domain_coset_l, &poly_l);
    let coset_eval_list_left_values = domain_fft(&pp.domain_coset_l, &witness.poly_left_values);
    let nl = pp.size_left_values;
    let mut coset_eval_list_ql: Vec<Scalar> = Vec::new();
    let mut i: usize = 0;
    while i < nl
        invariant
            i <= nl,
            pp.wf(),
            nl == pp.size_left_values,
            coset_eval_list_l@.len() == nl,
            coset_eval_list_left_values@.len() == nl,
            pp.coset_eval_list_positions_left@.len() == nl,
            pp.coset_eval_list_position_mappings@.len() == nl,
            coset_eval_list_ql@ == spec_quotient_evals(
                coset_eval_list_l@,
                coset_eval_list_left_values@,
                pp.coset_eval_list_positions_left@,
                pp.coset_eval_list_position_mappings@,
                beta,
                gamma,
            ).take(i as int),
        decreases nl - i,
    {
        let e = fr_sub(
            &fr_mul(
                &coset_eval_list_l[i],
                &fr_add(
                    &fr_add(&beta, &coset_eval_list_left_values[i]),
                    &fr_mul(&gamma, &pp.coset_eval_list_position_mappings[i]),
                ),
            ),
            &pp.coset_eval_list_positions_left[i],
        );
        coset_eval_list_ql.push(e);
        proof {
            assert(spec_quotient_evals(
                coset_eval_list_l@,
                coset_eval_list_left_values@,
                pp.coset_eval_list_positions_left@,
                pp.coset_eval_list_position_mappings@,
                beta,
                gamma,
            ).take(i + 1 as int) =~= coset_eval_list_ql@);
        }
        i = i + 1;
    }
    proof {
        let full = spec_quotient_evals(
            coset_eval_list_l@,
            coset_eval_list_left_values@,
            pp.coset_eval_list_positions_left@,
            pp.coset_eval_list_position_mappings@,
            beta,
            gamma,
        );
        assert(full.take(nl as int) == full);
    }
    let mut poly_ql = domain_ifft(&pp.domain_coset_l, &coset_eval_list_ql);
    match divide_by_vanishing_poly_on_coset_in_place(&pp.domain_l, &mut poly_ql) {
        Ok(u) => u,
        Err(e) => {
            return Err(e);
        },
    };
    proof {
        assert(poly_ql@ =~= spec_ql_coeffs(*pp, *witness, beta, gamma));
    }
    let g1_affine_ql = Kzg::commit(&pp.g1_affine_srs, &poly_ql);

    // Right rational polynomial.
    let roots_of_unity_r = roots_of_unity(&pp.domain_r);
    let nq = pp.positions_right.len();
    let mut inv_pairs_r: Vec<(usize, Scalar)> = Vec::new();
    let mut k: usize = 0;
    while k < nq
        invariant
            k <= nq,
            pp.wf(),
            witness.wf(*pp),
            nq == pp.positions_right@.len(),
            pph == pp.hash_representation@,
            sth == statement.hash_representation@,
            beta == spec_beta(pph, sth),
            gamma == spec_gamma(pph, sth),
            roots_of_unity_r@ == pp.domain_r.spec_elements(),
            roots_of_unity_r@.len() == pp.domain_r.size,
            inv_pairs_r@ == spec_right_inv_pairs(*pp, *witness, beta, gamma).take(k as int),
            forall|j: int|
                0 <= j < k ==> spec_denom(
                    beta,
                    witness.right_values@[#[trigger] pp.positions_right@[j] as int],
                    gamma,
                    pp.domain_r.spec_elements()[pp.positions_right@[j] as int],
                ) != fr_from_u64_of(0),
        decreases nq - k,
    {
        let position = pp.positions_right[k];
        let tag = roots_of_unity_r[position];
        let denom = fr_add(&fr_add(&beta, &witness.right_values[position]), &fr_mul(&gamma, &tag));
        let inv = match fr_inverse(&denom) {
            Some(v) => v,
            None => {
                proof {
                    assert(spec_prover_inversion_fails(*pp, *witness, beta, gamma));
                }
                return Err(Error::FailedToInverseFieldElement);
            },
        };
        inv_pairs_r.push((position, inv));
        proof {
            assert(spec_right_inv_pairs(*pp, *witness, beta, gamma).take(k + 1 as int)
                =~= inv_pairs_r@);
        }
        k = k + 1;
    }
    proof {
        assert(spec_right_inv_pairs(*pp, *witness, beta, gamma).take(nq as int)
            == spec_right_inv_pairs(*pp, *witness, beta, gamma));
        assert forall|k1: int, k2: int|
            0 <= k1 < inv_pairs_r@.len() && 0 <= k2 < inv_pairs_r@.len() && (
            #[trigger] inv_pairs_r@[k1]).0 == (#[trigger] inv_pairs_r@[k2]).0 implies
            inv_pairs_r@[k1].1 == inv_pairs_r@[k2].1 by {
            assert(inv_pairs_r@[k1] == spec_right_inv_pairs(*pp, *witness, beta, gamma)[k1]);
            assert(inv_pairs_r@[k2] == spec_right_inv_pairs(*pp, *witness, beta, gamma)[k2]);
        }
    }
    let poly_eval_r = crate::public_parameters::scatter_pairs(&inv_pairs_r, pp.size_right_values);
    let poly_r = domain_ifft(&pp.domain_r, &poly_eval_r);
    let g1_affine_r = Kzg::commit(&pp.g1_affine_srs, &poly_r);

    // Right quotient polynomial.
    let coset_eval_list_r = domain_fft(&pp.domain_coset_r, &poly_r);
    let coset_eval_list_right_values = domain_fft(&pp.domain_coset_r, &witness.poly_right_values);
    let nr = pp.size_right_values;
    let mut coset_eval_list_qr: Vec<Scalar> = Vec::new();
    let mut i: usize = 0;
    while i < nr
        invariant
            i <= nr,
            pp.wf(),
            nr == pp.size_right_values,
            coset_eval_list_r@.len() == nr,
            coset_eval_list_right_values@.len() == nr,
            pp.coset_eval_list_positions_right@.len() == nr,
            pp.roots_of_unity_coset_r@.len() == nr,
            coset_eval_list_qr@ == spec_quotient_evals(
                coset_eval_list_r@,
                coset_eval_list_right_values@,
                pp.coset_eval_list_positions_right@,
                pp.roots_of_unity_coset_r@,
                beta,
                gamma,
            ).take(i as int),
        decreases nr - i,
    {
        let e = fr_sub(
            &fr_mul(
                &coset_eval_list_r[i],
                &fr_add(
                    &fr_add(&beta, &coset_eval_list_right_values[i]),
                    &fr_mul(&gamma, &pp.roots_of_unity_coset_r[i]),
                ),
            ),
            &pp.coset_eval_list_positions_right[i],
        );
        coset_eval_list_qr.push(e);
        proof {
            assert(spec_quotient_evals(
                coset_eval_list_r@,
                coset_eval_list_right_values@,
                pp.coset_eval_list_positions_right@,
                pp.roots_of_unity_coset_r@,
                beta,
                gamma,
            ).take(i + 1 as int) =~= coset_eval_list_qr@);
        }
        i = i + 1;
    }
    proof {
        let full = spec_quotient_evals(
            coset_eval_list_r@,
            coset_eval_list_right_values@,
            pp.coset_eval_list_positions_right@,
            pp.roots_of_unity_coset_r@,
            beta,
            gamma,
        );
        assert(full.take(nr as int) == full);
    }
    let mut poly_qr = domain_ifft(&pp.domain_coset_r, &coset_eval_list_qr);
    match divide_by_vanishing_poly_on_coset_in_place(&pp.domain_r, &mut poly_qr) {
        Ok(u) => u,
        Err(e) => {
            return Err(e);
        },
    };
    proof {
        assert(poly_qr@ =~= spec_qr_coeffs(*pp, *witness, beta, gamma));
    }
    let g1_affine_qr = Kzg::commit(&pp.g1_affine_srs, &poly_qr);

    // Absorb the commitments, draw the evaluation and batching challenges.
    transcript.append_element_g1(Label::G1L, &g1_affine_l);
    transcript.append_element_g1(Label::G1R, &g1_affine_r);
    transcript.append_element_g1(Label::G1Ql, &g1_affine_ql);
    transcript.append_element_g1(Label::G1Qr, &g1_affine_qr);
    let delta = transcript.squeeze_challenge(Label::ChallengeDelta);
    let epsilon = transcript.squeeze_challenge(Label::ChallengeEpsilon);

    let mut poly_list: Vec<Vec<Scalar>> = Vec::new();
    poly_list.push(copy_scalars(&poly_l));
    poly_list.push(copy_scalars(&poly_r));
    poly_list.push(copy_scalars(&poly_ql));
    poly_list.push(copy_scalars(&poly_qr));
    poly_list.push(copy_scalars(&witness.poly_left_values));
    poly_list.push(copy_scalars(&witness.poly_right_values));
    poly_list.push(copy_scalars(&pp.poly_positions_left));
    poly_list.push(copy_scalars(&pp.poly_positions_right));
    poly_list.push(copy_scalars(&pp.poly_position_mappings));
    let batch_proof_at_rand_point = Kzg::batch_open(
        &pp.g1_affine_srs,
        &poly_list,
        &delta,
        &epsilon,
    );
    transcript.append_element_g1(Label::G1BatchProofAtRandPoint, &batch_proof_at_rand_point);

    let l_at_delta = poly_eval(&poly_l, &delta);
    let r_at_delta = poly_eval(&poly_r, &delta);
    let lv_at_delta = poly_eval(&witness.poly_left_values, &delta);
    let rv_at_delta = poly_eval(&witness.poly_right_values, &delta);
    let pl_at_delta = poly_eval(&pp.poly_positions_left, &delta);
    let pr_at_delta = poly_eval(&pp.poly_positions_right, &delta);
    let pm_at_delta = poly_eval(&pp.poly_position_mappings, &delta);

    let fr_zero = fr_from_u64(0);
    let l_at_zero = poly_eval(&poly_l, &fr_zero);
    let r_at_zero = poly_eval(&poly_r, &fr_zero);

    transcript.append_element_fr(Label::FrLAtDelta, &l_at_delta);
    transcript.append_element_fr(Label::FrRAtDelta, &r_at_delta);
    transcript.append_element_fr(Label::FrLvAtDelta, &lv_at_delta);
    transcript.append_element_fr(Label::FrRvAtDelta, &rv_at_delta);
    transcript.append_element_fr(Label::FrPlAtDelta, &pl_at_delta);
    transcript.append_element_fr(Label::FrPrAtDelta, &pr_at_delta);
    transcript.append_element_fr(Label::FrPmAtDelta, &pm_at_delta);
    transcript.append_element_fr(Label::FrLAtZero, &l_at_zero);
    transcript.append_element_fr(Label::FrRAtZero, &r_at_zero);

    let zeta = transcript.squeeze_challenge(Label::ChallengeZeta);

    let mut poly_list_zero: Vec<Vec<Scalar>> = Vec::new();
    poly_list_zero.push(copy_scalars(&poly_l));
    poly_list_zero.push(copy_scalars(&poly_r));
    let batch_proof_at_zero = Kzg::batch_open(&pp.g1_affine_srs, &poly_list_zero, &fr_zero, &zeta);

    let p = Proof {
        g1_affine_l,
        g1_affine_r,
        g1_affine_ql,
        g1_affine_qr,
        batch_proof_at_rand_point,
        batch_proof_at_zero,
        l_at_delta,
        r_at_delta,
        lv_at_delta,
        rv_at_delta,
        pl_at_delta,
        pr_at_delta,
        pm_at_delta,
        l_at_zero,
        r_at_zero,
    };
    proof {
        assert(delta == spec_delta(pph, sth, p));
        assert(epsilon == spec_epsilon(pph, sth, p));
        assert(zeta == spec_zeta(pph, sth, p));
        assert(poly_list@.map_values(|v: Vec<Scalar>| v@) =~= seq![
            spec_l_coeffs(*pp, *witness, beta, gamma),
            spec_r_coeffs(*pp, *witness, beta, gamma),
            spec_ql_coeffs(*pp, *witness, beta, gamma),
            spec_qr_coeffs(*pp, *witness, beta, gamma),
            witness.poly_left_values@,
            witness.poly_right_values@,
            pp.poly_positions_left@,
            pp.poly_positions_right@,
            pp.poly_position_mappings@,
        ]);
        assert(poly_list_zero@.map_values(|v: Vec<Scalar>| v@) =~= seq![
            spec_l_coeffs(*pp, *witness, beta, gamma),
            spec_r_coeffs(*pp, *witness, beta, gamma),
        ]);
    }
    Ok(p)
}

} // verus!
