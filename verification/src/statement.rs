//! The public statement: commitments to the two witness polynomials,
//! bound together by a hash.
use vstd::prelude::*;

use crate::backend::{blake2b512, blake2b512_of, msm_g1_of, ser_g1, ser_g1_of, G1Point};
use crate::error::Error;
use crate::kzg::Kzg;
use crate::public_parameters::PublicParameters;
use crate::witness::Witness;

verus! {

/// The public statement derived from a witness: the two value-polynomial
/// commitments and their binding hash.
pub struct Statement {
    pub g1_affine_left_values: G1Point,
    pub g1_affine_right_values: G1Point,
    pub hash_representation: Vec<u8>,
}

impl Witness {
    /// Commit to both value polynomials and hash the two commitments, in
    /// order, into the statement's binding hash.
    pub fn generate_statement(&self, pp: &PublicParameters) -> (r: Result<Statement, Error>)
        requires
            pp.wf(),
            self.wf(*pp),
        ensures
            r is Ok,
            ({
                let st = r->Ok_0;
                &&& st.g1_affine_left_values == msm_g1_of(
                    pp.g1_affine_srs@.take(pp.size_left_values as int),
                    self.poly_left_values@,
                )
                &&& st.g1_affine_right_values == msm_g1_of(
                    pp.g1_affine_srs@.take(pp.size_right_values as int),
                    self.poly_right_values@,
                )
                &&& st.hash_representation@ == blake2b512_of(
                    ser_g1_of(st.g1_affine_left_values) + ser_g1_of(st.g1_affine_right_values),
                )
            }),
    {
        let g1_affine_left_values = Kzg::commit(&pp.g1_affine_srs, &self.poly_left_values);
        let g1_affine_right_values = Kzg::commit(&pp.g1_affine_srs, &self.poly_right_values);

        let mut buf = ser_g1(&g1_affine_left_values);
        let mut e = ser_g1(&g1_affine_right_values);
        buf.append(&mut e);
        let hash_representation = blake2b512(&buf);

        Ok(Statement { g1_affine_left_values, g1_affine_right_values, hash_representation })
    }
}

} // verus!
