//! Power-of-two multiplicative evaluation domains.
//!
//! A domain of size `N` is the subgroup generated by a primitive `N`-th
//! root of unity, together with the precomputed constants the FFT needs.
//! The struct mirrors the backend's radix-2 domain field by field, so the
//! transform wrappers can hand it to the backend unchanged; the
//! well-formedness predicate ties every derived field to the defining ones
//! (size, generator, coset offset), which makes the named transform
//! results functions of those alone.
use vstd::prelude::*;

use crate::backend::{
    fr_from_u64, fr_from_u64_of, fr_inv_of, fr_inverse, fr_mul, fr_mul_of, fr_pow, fr_pow_of,
    fr_root_of_unity, fr_root_of_unity_of, fr_sub, fr_sub_of, Scalar,
};
use crate::error::Error;

verus! {

/// Whether `n` is a power of two.
pub open spec fn spec_is_pow2(n: nat) -> bool
    decreases n,
{
    if n == 0 {
        false
    } else if n == 1 {
        true
    } else {
        n % 2 == 0 && spec_is_pow2(n / 2)
    }
}

/// The largest domain size the scalar field supports: its multiplicative
/// group has 2-adicity 28, so power-of-two subgroups exist up to `2^28`.
pub const MAX_DOMAIN_SIZE: u64 = 0x10000000;

/// Runtime power-of-two test.
pub fn is_power_of_two(x: usize) -> (b: bool)
    ensures
        b == spec_is_pow2(x as nat),
{
    if x == 0 {
        return false;
    }
    let mut y: usize = x;
    loop
        invariant
            y >= 1,
            spec_is_pow2(x as nat) <==> spec_is_pow2(y as nat),
        decreases y,
    {
        if y == 1 {
            return true;
        }
        if y % 2 != 0 {
            return false;
        }
        y = y / 2;
    }
}

/// The geometric sequence `start, start*ratio, start*ratio^2, ...` of
/// length `n`, written over the backend's named field product.
pub open spec fn spec_geom(start: Scalar, ratio: Scalar, n: nat) -> Seq<Scalar>
    decreases n,
{
    if n == 0 {
        Seq::empty()
    } else if n == 1 {
        seq![start]
    } else {
        let p = spec_geom(start, ratio, (n - 1) as nat);
        p.push(fr_mul_of(p.last(), ratio))
    }
}

/// A power-of-two multiplicative evaluation domain, possibly shifted to a
/// coset by `offset`.
pub struct Domain {
    pub size: u64,
    pub size_as_fe: Scalar,
    pub size_inv: Scalar,
    pub group_gen: Scalar,
    pub group_gen_inv: Scalar,
    pub offset: Scalar,
    pub offset_inv: Scalar,
    pub offset_pow_size: Scalar,
}

impl Clone for Domain {
    fn clone(&self) -> (r: Domain)
        ensures
            r == *self,
    {
        Domain {
            size: self.size,
            size_as_fe: self.size_as_fe,
            size_inv: self.size_inv,
            group_gen: self.group_gen,
            group_gen_inv: self.group_gen_inv,
            offset: self.offset,
            offset_inv: self.offset_inv,
            offset_pow_size: self.offset_pow_size,
        }
    }
}

impl Copy for Domain {

}

impl Domain {
    /// Every derived field is the stated function of the size, the
    /// generator and the offset; a plain (non-coset) domain carries the
    /// literal unit offset fields the backend constructor writes.
    pub open spec fn wf(self) -> bool {
        &&& spec_is_pow2(self.size as nat)
        &&& 1 <= self.size <= MAX_DOMAIN_SIZE
        &&& self.size_as_fe == fr_from_u64_of(self.size)
        &&& self.size_as_fe != fr_from_u64_of(0)
        &&& self.size_inv == fr_inv_of(self.size_as_fe)
        &&& self.group_gen != fr_from_u64_of(0)
        &&& self.group_gen_inv == fr_inv_of(self.group_gen)
        &&& {
            ||| {
                &&& self.offset == fr_from_u64_of(1)
                &&& self.offset_inv == fr_from_u64_of(1)
                &&& self.offset_pow_size == fr_from_u64_of(1)
            }
            ||| {
                &&& self.offset != fr_from_u64_of(0)
                &&& self.offset_inv == fr_inv_of(self.offset)
                &&& self.offset_pow_size == fr_pow_of(self.offset, self.size)
            }
        }
    }

    /// The elements of the domain in index order:
    /// `offset * group_gen^i` for `i` below `size`.
    pub open spec fn spec_elements(self) -> Seq<Scalar> {
        spec_geom(self.offset, self.group_gen, self.size as nat)
    }
}

/// Whether `create_domain_with_generator` accepts the requested size.
pub open spec fn spec_valid_domain_size(size: usize) -> bool {
    spec_is_pow2(size as nat) && size <= MAX_DOMAIN_SIZE
}

/// Build a domain of the given power-of-two size around an explicitly
/// supplied subgroup generator.  The generator is taken on faith, exactly
/// as the backend's constructor takes it.
pub fn create_domain_with_generator(group_gen: Scalar, size: usize) -> (r: Result<Domain, Error>)
    ensures
        !spec_valid_domain_size(size) <==> r == Err::<Domain, Error>(
            Error::InvalidEvaluationDomainSize(size),
        ),
        spec_valid_domain_size(size) ==> {
            &&& (r is Err <==> fr_from_u64_of(size as u64) == fr_from_u64_of(0) || group_gen
                == fr_from_u64_of(0))
            &&& (r is Err ==> r == Err::<Domain, Error>(Error::FailedToInverseFieldElement))
            &&& (r is Ok ==> {
                let d = r->Ok_0;
                &&& d.wf()
                &&& d.size == size
                &&& d.group_gen == group_gen
                &&& d.offset == fr_from_u64_of(1)
            })
        },
{
    if !is_power_of_two(size) {
        return Err(Error::InvalidEvaluationDomainSize(size));
    }
    if size as u64 > MAX_DOMAIN_SIZE {
        return Err(Error::InvalidEvaluationDomainSize(size));
    }
    let size_as_fe = fr_from_u64(size as u64);
    let size_inv = match fr_inverse(&size_as_fe) {
        Some(v) => v,
        None => {
            return Err(Error::FailedToInverseFieldElement);
        },
    };
    let group_gen_inv = match fr_inverse(&group_gen) {
        Some(v) => v,
        None => {
            return Err(Error::FailedToInverseFieldElement);
        },
    };
    let one = fr_from_u64(1);
    Ok(Domain {
        size: size as u64,
        size_as_fe,
        size_inv,
        group_gen,
        group_gen_inv,
        offset: one,
        offset_inv: one,
        offset_pow_size: one,
    })
}

/// The generator `create_domain` settles on: the explicit one where it was
/// supplied, the field's canonical root of unity of that order otherwise.
pub open spec fn spec_domain_generator(gen: Option<Scalar>, size: usize) -> Scalar {
    match gen {
        Some(g) => g,
        None => fr_root_of_unity_of(size as u64),
    }
}

/// Build a domain of the given power-of-two size, deriving the subgroup
/// generator from the field when none is supplied.
pub fn create_domain(gen: Option<Scalar>, size: usize) -> (r: Result<Domain, Error>)
    ensures
        !spec_valid_domain_size(size) <==> r == Err::<Domain, Error>(
            Error::InvalidEvaluationDomainSize(size),
        ),
        spec_valid_domain_size(size) ==> {
            let g = spec_domain_generator(gen, size);
            &&& (r is Err <==> fr_from_u64_of(size as u64) == fr_from_u64_of(0) || g
                == fr_from_u64_of(0))
            &&& (r is Err ==> r == Err::<Domain, Error>(Error::FailedToInverseFieldElement))
            &&& (r is Ok ==> {
                let d = r->Ok_0;
                &&& d.wf()
                &&& d.size == size
                &&& d.group_gen == g
                &&& d.offset == fr_from_u64_of(1)
            })
        },
{
    if !is_power_of_two(size) {
        return Err(Error::InvalidEvaluationDomainSize(size));
    }
    if size as u64 > MAX_DOMAIN_SIZE {
        return Err(Error::InvalidEvaluationDomainSize(size));
    }
    let group_gen = match gen {
        Some(g) => g,
        None => {
            match fr_root_of_unity(size as u64) {
                Some(g) => g,
                None => {
                    // unreachable: the size was checked against the 2-adicity
                    return Err(Error::FailedToCreateEvaluationDomain);
                },
            }
        },
    };
    create_domain_with_generator(group_gen, size)
}

/// The domain's elements in index order.
pub fn roots_of_unity(domain: &Domain) -> (r: Vec<Scalar>)
    requires
        domain.wf(),
    ensures
        r@ == domain.spec_elements(),
        r@.len() == domain.size,
{
    let n = domain.size as usize;
    let mut out: Vec<Scalar> = Vec::new();
    let mut cur: Scalar = domain.offset;
    let mut i: usize = 0;
    while i < n
        invariant
            i <= n,
            n == domain.size,
            out@.len() == i,
            out@ == spec_geom(domain.offset, domain.group_gen, i as nat),
            i < n ==> (if i == 0 {
                cur == domain.offset
            } else {
                cur == fr_mul_of(out@.last(), domain.group_gen)
            }),
        decreases n - i,
    {
        out.push(cur);
        cur = fr_mul(&cur, &domain.group_gen);
        i = i + 1;
        proof {
            assert(out@ == spec_geom(domain.offset, domain.group_gen, i as nat));
        }
    }
    out
}

/// Shift the domain to the coset `offset * H`.  Mirrors the backend's
/// coset constructor: it fails exactly when the offset is not invertible.
pub fn coset(domain: &Domain, offset: Scalar) -> (r: Result<Domain, Error>)
    requires
        domain.wf(),
    ensures
        r is Ok <==> offset != fr_from_u64_of(0),
        r is Err ==> r == Err::<Domain, Error>(Error::FailedToCreateCosetOfEvaluationDomain),
        r is Ok ==> {
            let d = r->Ok_0;
            &&& d.wf()
            &&& d.size == domain.size
            &&& d.group_gen == domain.group_gen
            &&& d.offset == offset
            &&& d.offset_pow_size == fr_pow_of(offset, domain.size)
        },
{
    let offset_inv = match fr_inverse(&offset) {
        Some(v) => v,
        None => {
            return Err(Error::FailedToCreateCosetOfEvaluationDomain);
        },
    };
    Ok(Domain {
        size: domain.size,
        size_as_fe: domain.size_as_fe,
        size_inv: domain.size_inv,
        group_gen: domain.group_gen,
        group_gen_inv: domain.group_gen_inv,
        offset,
        offset_inv,
        offset_pow_size: fr_pow(&offset, domain.size),
    })
}

/// The value of the domain's vanishing polynomial `X^N - 1` at the
/// canonical coset offset; the coset quotient divides by this constant.
pub open spec fn spec_coset_vanishing_value(domain: Domain) -> Scalar {
    fr_sub_of(fr_pow_of(fr_from_u64_of(5), domain.size), fr_from_u64_of(1))
}

/// Divide, in evaluation/coefficient form, by the vanishing polynomial of
/// `domain` on the canonical coset (offset 5, the field's multiplicative
/// generator): on that coset `X^N - 1` is the non-zero constant
/// `5^N - 1`, so the division scales every entry by its inverse.
pub fn divide_by_vanishing_poly_on_coset_in_place(domain: &Domain, values: &mut Vec<Scalar>) -> (r:
    Result<(), Error>)
    ensures
        r is Ok <==> spec_coset_vanishing_value(*domain) != fr_from_u64_of(0),
        r is Err ==> r == Err::<(), Error>(Error::FailedToInverseFieldElement) && final(values)@
            == old(values)@,
        r is Ok ==> {
            let c = fr_inv_of(spec_coset_vanishing_value(*domain));
            &&& final(values)@.len() == old(values)@.len()
            &&& forall|i: int|
                0 <= i < final(values)@.len() ==> final(values)@[i] == fr_mul_of(
                    old(values)@[i],
                    c,
                )
        },
{
    let g = fr_from_u64(5);
    let one = fr_from_u64(1);
    let vanishing = fr_sub(&fr_pow(&g, domain.size), &one);
    let inv = match fr_inverse(&vanishing) {
        Some(v) => v,
        None => {
            return Err(Error::FailedToInverseFieldElement);
        },
    };
    let n = values.len();
    let mut i: usize = 0;
    while i < n
        invariant
            i <= n,
            n == values@.len(),
            values@.len() == old(values)@.len(),
            inv == fr_inv_of(spec_coset_vanishing_value(*domain)),
            forall|j: int| 0 <= j < i ==> values@[j] == fr_mul_of(old(values)@[j], inv),
            forall|j: int| i <= j < n ==> values@[j] == old(values)@[j],
        decreases n - i,
    {
        let v = fr_mul(&values[i], &inv);
        values.set(i, v);
        i = i + 1;
    }
    Ok(())
}

/// Build the subgroup of `original_domain` of the given order whose
/// generator is the element of the larger domain at index `segment_size`.
pub fn create_sub_domain(original_domain: &Domain, order: usize, segment_size: usize) -> (r: Result<
    Domain,
    Error,
>)
    requires
        original_domain.wf(),
    ensures
        segment_size == 0 ==> r == Err::<Domain, Error>(Error::InvalidSegmentSize(segment_size)),
        segment_size == 1 ==> r == Ok::<Domain, Error>(*original_domain),
        segment_size > 1 && !spec_valid_domain_size(order) ==> r == Err::<Domain, Error>(
            Error::InvalidEvaluationDomainSize(order),
        ),
        segment_size > 1 && spec_valid_domain_size(order) && segment_size
            > original_domain.size ==> r == Err::<Domain, Error>(
            Error::InvalidSegmentSize(segment_size),
        ),
        segment_size > 1 && spec_valid_domain_size(order) && 1 < segment_size
            < original_domain.size ==> {
            let g = original_domain.spec_elements()[segment_size as int];
            &&& (r is Err <==> fr_from_u64_of(order as u64) == fr_from_u64_of(0) || g
                == fr_from_u64_of(0))
            &&& (r is Err ==> r == Err::<Domain, Error>(Error::FailedToInverseFieldElement))
            &&& (r is Ok ==> {
                let d = r->Ok_0;
                &&& d.wf()
                &&& d.size == order
                &&& d.group_gen == g
                &&& d.offset == fr_from_u64_of(1)
            })
        },
        segment_size > 1 && spec_valid_domain_size(order) && segment_size
            == original_domain.size ==> {
            &&& (r is Err ==> r == Err::<Domain, Error>(Error::FailedToCreateEvaluationDomain))
            &&& (r is Ok <==> fr_from_u64_of(1) != fr_from_u64_of(0) && fr_root_of_unity_of(1)
                != fr_from_u64_of(0))
            &&& (r is Ok ==> r->Ok_0.wf() && r->Ok_0.size == 1)
        },
{
    if segment_size == 0 {
        return Err(Error::InvalidSegmentSize(segment_size));
    }
    if segment_size == 1 {
        return Ok(*original_domain);
    }
    if !is_power_of_two(order) {
        return Err(Error::InvalidEvaluationDomainSize(order));
    }
    if order as u64 > MAX_DOMAIN_SIZE {
        return Err(Error::InvalidEvaluationDomainSize(order));
    }
    let original_order = original_domain.size as usize;
    if segment_size > original_order {
        return Err(Error::InvalidSegmentSize(segment_size));
    }
    if segment_size == original_order {
        return match create_domain(None, 1) {
            Ok(d) => Ok(d),
            Err(_) => Err(Error::FailedToCreateEvaluationDomain),
        };
    }
    let elements = roots_of_unity(original_domain);
    let group_gen = elements[segment_size];
    let size_as_fe = fr_from_u64(order as u64);
    let size_inv = match fr_inverse(&size_as_fe) {
        Some(v) => v,
        None => {
            return Err(Error::FailedToInverseFieldElement);
        },
    };
    let group_gen_inv = match fr_inverse(&group_gen) {
        Some(v) => v,
        None => {
            return Err(Error::FailedToInverseFieldElement);
        },
    };
    let one = fr_from_u64(1);
    Ok(Domain {
        size: order as u64,
        size_as_fe,
        size_inv,
        group_gen,
        group_gen_inv,
        offset: one,
        offset_inv: one,
        offset_pow_size: one,
    })
}

/// The evaluations, over the domain of the given size, generator and
/// offset, of the polynomial with the given coefficients (low order
/// first, padded with zeros to the domain size).
pub uninterp spec fn fft_of(size: u64, gen: Scalar, offset: Scalar, coeffs: Seq<Scalar>) -> Seq<
    Scalar,
>;

/// The coefficients of the unique polynomial of degree below the domain
/// size that takes the given values on the domain of the given size,
/// generator and offset (padded with zeros to the domain size).
pub uninterp spec fn ifft_of(size: u64, gen: Scalar, offset: Scalar, evals: Seq<Scalar>) -> Seq<
    Scalar,
>;

/// The sequence padded with zero scalars up to length `n`.
pub open spec fn spec_pad(s: Seq<Scalar>, n: nat) -> Seq<Scalar> {
    if s.len() >= n {
        s
    } else {
        s + Seq::new((n - s.len()) as nat, |i: int| fr_from_u64_of(0))
    }
}

/// Relies on the backend's radix-2 FFT: evaluates the polynomial over the
/// (coset of the) domain.  The two transforms are mutually inverse on
/// vectors of the domain's length, which the second clause states.
#[verifier::external_body]
pub fn domain_fft(domain: &Domain, coeffs: &Vec<Scalar>) -> (r: Vec<Scalar>)
    requires
        domain.wf(),
        coeffs@.len() <= domain.size,
    ensures
        r@.len() == domain.size,
        r@ == fft_of(domain.size, domain.group_gen, domain.offset, coeffs@),
        ifft_of(domain.size, domain.group_gen, domain.offset, r@) == spec_pad(
            coeffs@,
            domain.size as nat,
        ),
{
    let ad = ark_poly::Radix2EvaluationDomain::<ark_bn254::Fr> {
        size: domain.size,
        log_size_of_group: domain.size.trailing_zeros(),
        size_as_field_element: domain.size_as_fe.0,
        size_inv: domain.size_inv.0,
        group_gen: domain.group_gen.0,
        group_gen_inv: domain.group_gen_inv.0,
        offset: domain.offset.0,
        offset_inv: domain.offset_inv.0,
        offset_pow_size: domain.offset_pow_size.0,
    };
    let c: Vec<ark_bn254::Fr> = coeffs.iter().map(|x| x.0).collect();
    let r = ark_poly::EvaluationDomain::fft(&ad, &c);
    r.into_iter().map(Scalar).collect()
}

/// Relies on the backend's radix-2 inverse FFT: interpolates the values
/// given over the (coset of the) domain.  The two transforms are mutually
/// inverse on vectors of the domain's length, which the second clause
/// states.
#[verifier::external_body]
pub fn domain_ifft(domain: &Domain, evals: &Vec<Scalar>) -> (r: Vec<Scalar>)
    requires
        domain.wf(),
        evals@.len() <= domain.size,
    ensures
        r@.len() == domain.size,
        r@ == ifft_of(domain.size, domain.group_gen, domain.offset, evals@),
        fft_of(domain.size, domain.group_gen, domain.offset, r@) == spec_pad(
            evals@,
            domain.size as nat,
        ),
{
    let ad = ark_poly::Radix2EvaluationDomain::<ark_bn254::Fr> {
        size: domain.size,
        log_size_of_group: domain.size.trailing_zeros(),
        size_as_field_element: domain.size_as_fe.0,
        size_inv: domain.size_inv.0,
        group_gen: domain.group_gen.0,
        group_gen_inv: domain.group_gen_inv.0,
        offset: domain.offset.0,
        offset_inv: domain.offset_inv.0,
        offset_pow_size: domain.offset_pow_size.0,
    };
    let e: Vec<ark_bn254::Fr> = evals.iter().map(|x| x.0).collect();
    let r = ark_poly::EvaluationDomain::ifft(&ad, &e);
    r.into_iter().map(Scalar).collect()
}

} // verus!
