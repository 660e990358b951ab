//! The prover's private witness: the two value arrays and their
//! interpolations over the two domains.
use vstd::prelude::*;

use crate::backend::Scalar;
use crate::domain::{domain_ifft, fft_of, ifft_of};
use crate::kzg::copy_scalars;
use crate::error::Error;
use crate::public_parameters::PublicParameters;

verus! {

/// The private left and right value arrays, with the polynomials that
/// interpolate them over the left and right domains.
pub struct Witness {
    pub left_values: Vec<Scalar>,
    pub right_values: Vec<Scalar>,
    pub poly_left_values: Vec<Scalar>,
    pub poly_right_values: Vec<Scalar>,
}

impl Witness {
    /// The arrays and interpolations have exactly the sizes the public
    /// parameters fix.
    pub open spec fn wf(self, pp: PublicParameters) -> bool {
        &&& self.left_values@.len() == pp.size_left_values
        &&& self.right_values@.len() == pp.size_right_values
        &&& self.poly_left_values@.len() == pp.size_left_values
        &&& self.poly_right_values@.len() == pp.size_right_values
    }

    /// Build a witness from the private arrays, rejecting arrays whose
    /// lengths do not match the parameters, and interpolating each over
    /// its domain.  The two transforms are mutually inverse, so
    /// evaluating either interpolation over its domain reproduces the
    /// original value array, which the last two clauses state.
    pub fn new(pp: &PublicParameters, left_values: &Vec<Scalar>, right_values: &Vec<Scalar>) -> (r:
        Result<Witness, Error>)
        requires
            pp.wf(),
        ensures
            left_values@.len() != pp.size_left_values ==> r == Err::<Witness, Error>(
                Error::WrongNumberOfLeftValues(left_values@.len() as usize),
            ),
            left_values@.len() == pp.size_left_values && right_values@.len()
                != pp.size_right_values ==> r == Err::<Witness, Error>(
                Error::WrongNumberOfRightValues(right_values@.len() as usize),
            ),
            left_values@.len() == pp.size_left_values && right_values@.len()
                == pp.size_right_values ==> r is Ok && {
                let w = r->Ok_0;
                &&& w.wf(*pp)
                &&& w.left_values@ == left_values@
                &&& w.right_values@ == right_values@
                &&& w.poly_left_values@ == ifft_of(
                    pp.domain_l.size,
                    pp.domain_l.group_gen,
                    pp.domain_l.offset,
                    left_values@,
                )
                &&& w.poly_right_values@ == ifft_of(
                    pp.domain_r.size,
                    pp.domain_r.group_gen,
                    pp.domain_r.offset,
                    right_values@,
                )
                &&& fft_of(
                    pp.domain_l.size,
                    pp.domain_l.group_gen,
                    pp.domain_l.offset,
                    w.poly_left_values@,
                ) == left_values@
                &&& fft_of(
                    pp.domain_r.size,
                    pp.domain_r.group_gen,
                    pp.domain_r.offset,
                    w.poly_right_values@,
                ) == right_values@
            },
    {
        if left_values.len() != pp.size_left_values {
            return Err(Error::WrongNumberOfLeftValues(left_values.len()));
        }
        if right_values.len() != pp.size_right_values {
            return Err(Error::WrongNumberOfRightValues(right_values.len()));
        }
        let poly_left_values = domain_ifft(&pp.domain_l, left_values);
        let poly_right_values = domain_ifft(&pp.domain_r, right_values);
        Ok(
            Witness {
                left_values: copy_scalars(left_values),
                right_values: copy_scalars(right_values),
                poly_left_values,
                poly_right_values,
            },
        )
    }
}

} // verus!
