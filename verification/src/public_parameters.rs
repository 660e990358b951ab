//! Public parameters: the one-time preprocessing for a statement shape.
//!
//! Built once by a validating builder and then shared read-only by prover
//! and verifier: the reference string, the two evaluation domains and
//! their canonical cosets, the indicator and mapping polynomials with
//! their commitments, and a binding hash over the canonical encodings of
//! all of it.
use vstd::prelude::*;

use crate::backend::{
    blake2b512, blake2b512_of, fr_from_u64, fr_from_u64_of, msm_g1_of, ser_fr, ser_fr_of, ser_g1,
    ser_g1_of, ser_g2, ser_g2_of, G1Point, G2Point, Scalar,
};
use crate::domain::{
    coset, create_domain, domain_fft, domain_ifft, fft_of, ifft_of, is_power_of_two, roots_of_unity,
    spec_domain_generator, spec_is_pow2, spec_valid_domain_size, Domain, MAX_DOMAIN_SIZE,
};
use crate::error::Error;
use crate::kzg::{unsafe_setup_from_tau, Kzg, spec_is_srs_pair};
use crate::transcript::{spec_u64_le, u64_to_le_bytes};
use vstd::std_specs::iter::IteratorSpec;
use std::collections::BTreeMap;

verus! {

broadcast use vstd::laws_cmp::group_laws_cmp;

/// Validate a size input: it must be a power of two, and within the
/// optional upper limit.
pub fn validate_input(input: usize, max_limit: Option<usize>) -> (r: Result<(), Error>)
    ensures
        !spec_is_pow2(input as nat) ==> r == Err::<(), Error>(
            Error::InputShouldBePowerOfTwo(input),
        ),
        spec_is_pow2(input as nat) && (max_limit is Some && input > max_limit->0) ==> r == Err::<
            (),
            Error,
        >(Error::InputIsTooLarge(input)),
        spec_is_pow2(input as nat) && !(max_limit is Some && input > max_limit->0) ==> r == Ok::<
            (),
            Error,
        >(()),
{
    if !is_power_of_two(input) {
        return Err(Error::InputShouldBePowerOfTwo(input));
    }
    match max_limit {
        Some(max) => {
            if input > max {
                return Err(Error::InputIsTooLarge(input));
            }
        },
        None => {},
    }
    Ok(())
}

/// Append a size to a canonical encoding, as eight little-endian bytes.
pub fn serialize_usize(input: usize, buf: &mut Vec<u8>)
    ensures
        final(buf)@ == old(buf)@ + spec_u64_le(input as u64),
{
    let bytes = u64_to_le_bytes(input as u64);
    let mut i: usize = 0;
    while i < 8
        invariant
            i <= 8,
            bytes@ == spec_u64_le(input as u64),
            bytes@.len() == 8,
            buf@ == old(buf)@ + bytes@.take(i as int),
        decreases 8 - i,
    {
        buf.push(bytes[i]);
        i = i + 1;
    }
    proof {
        assert(bytes@.take(8) == bytes@);
    }
}

/// The concatenated canonical encodings of a sequence of scalars.
pub open spec fn spec_ser_frs(s: Seq<Scalar>) -> Seq<u8>
    decreases s.len(),
{
    if s.len() == 0 {
        Seq::empty()
    } else {
        spec_ser_frs(s.drop_last()) + ser_fr_of(s.last())
    }
}

/// The concatenated canonical encodings of a sequence of G1 points.
pub open spec fn spec_ser_g1s(s: Seq<G1Point>) -> Seq<u8>
    decreases s.len(),
{
    if s.len() == 0 {
        Seq::empty()
    } else {
        spec_ser_g1s(s.drop_last()) + ser_g1_of(s.last())
    }
}

/// The concatenated canonical encodings of a sequence of G2 points.
pub open spec fn spec_ser_g2s(s: Seq<G2Point>) -> Seq<u8>
    decreases s.len(),
{
    if s.len() == 0 {
        Seq::empty()
    } else {
        spec_ser_g2s(s.drop_last()) + ser_g2_of(s.last())
    }
}

/// The concatenated little-endian encodings of a sequence of sizes.
pub open spec fn spec_ser_usizes(s: Seq<usize>) -> Seq<u8>
    decreases s.len(),
{
    if s.len() == 0 {
        Seq::empty()
    } else {
        spec_ser_usizes(s.drop_last()) + spec_u64_le(s.last() as u64)
    }
}

/// The concatenated encodings of a sequence of position/tag pairs.
pub open spec fn spec_ser_pairs(s: Seq<(usize, Scalar)>) -> Seq<u8>
    decreases s.len(),
{
    if s.len() == 0 {
        Seq::empty()
    } else {
        spec_ser_pairs(s.drop_last()) + spec_u64_le(s.last().0 as u64) + ser_fr_of(s.last().1)
    }
}

/// The canonical encoding of a domain: its size, then its seven scalar
/// constants in declaration order.
pub open spec fn spec_ser_domain(d: Domain) -> Seq<u8> {
    spec_u64_le(d.size) + ser_fr_of(d.size_as_fe) + ser_fr_of(d.size_inv) + ser_fr_of(d.group_gen)
        + ser_fr_of(d.group_gen_inv) + ser_fr_of(d.offset) + ser_fr_of(d.offset_inv) + ser_fr_of(
        d.offset_pow_size,
    )
}

/// Append the length-prefixed encodings of the scalars to the buffer.
fn encode_frs(buf: &mut Vec<u8>, v: &Vec<Scalar>)
    ensures
        final(buf)@ == old(buf)@ + spec_u64_le(v@.len() as u64) + spec_ser_frs(v@),
{
    serialize_usize(v.len(), buf);
    let n = v.len();
    let mut i: usize = 0;
    while i < n
        invariant
            i <= n,
            n == v@.len(),
            buf@ == old(buf)@ + spec_u64_le(v@.len() as u64) + spec_ser_frs(v@.take(i as int)),
        decreases n - i,
    {
        let mut e = ser_fr(&v[i]);
        buf.append(&mut e);
        proof {
            assert(v@.take(i + 1 as int).drop_last() == v@.take(i as int));
            assert(v@.take(i + 1 as int).last() == v@[i as int]);
        }
        i = i + 1;
    }
    proof {
        assert(v@.take(n as int) == v@);
    }
}

/// Append the length-prefixed encodings of the G1 points to the buffer.
fn encode_g1s(buf: &mut Vec<u8>, v: &Vec<G1Point>)
    ensures
        final(buf)@ == old(buf)@ + spec_u64_le(v@.len() as u64) + spec_ser_g1s(v@),
{
    serialize_usize(v.len(), buf);
    let n = v.len();
    let mut i: usize = 0;
    while i < n
        invariant
            i <= n,
            n == v@.len(),
            buf@ == old(buf)@ + spec_u64_le(v@.len() as u64) + spec_ser_g1s(v@.take(i as int)),
        decreases n - i,
    {
        let mut e = ser_g1(&v[i]);
        buf.append(&mut e);
        proof {
            assert(v@.take(i + 1 as int).drop_last() == v@.take(i as int));
            assert(v@.take(i + 1 as int).last() == v@[i as int]);
        }
        i = i + 1;
    }
    proof {
        assert(v@.take(n as int) == v@);
    }
}

/// Append the length-prefixed encodings of the G2 points to the buffer.
fn encode_g2s(buf: &mut Vec<u8>, v: &Vec<G2Point>)
    ensures
        final(buf)@ == old(buf)@ + spec_u64_le(v@.len() as u64) + spec_ser_g2s(v@),
{
    serialize_usize(v.len(), buf);
    let n = v.len();
    let mut i: usize = 0;
    while i < n
        invariant
            i <= n,
            n == v@.len(),
            buf@ == old(buf)@ + spec_u64_le(v@.len() as u64) + spec_ser_g2s(v@.take(i as int)),
        decreases n - i,
    {
        let mut e = ser_g2(&v[i]);
        buf.append(&mut e);
        proof {
            assert(v@.take(i + 1 as int).drop_last() == v@.take(i as int));
            assert(v@.take(i + 1 as int).last() == v@[i as int]);
        }
        i = i + 1;
    }
    proof {
        assert(v@.take(n as int) == v@);
    }
}

/// Append the length-prefixed encodings of the sizes to the buffer.
fn encode_usizes(buf: &mut Vec<u8>, v: &Vec<usize>)
    ensures
        final(buf)@ == old(buf)@ + spec_u64_le(v@.len() as u64) + spec_ser_usizes(v@),
{
    serialize_usize(v.len(), buf);
    let n = v.len();
    let mut i: usize = 0;
    while i < n
        invariant
            i <= n,
            n == v@.len(),
            buf@ == old(buf)@ + spec_u64_le(v@.len() as u64) + spec_ser_usizes(v@.take(i as int)),
        decreases n - i,
    {
        serialize_usize(v[i], buf);
        proof {
            assert(v@.take(i + 1 as int).drop_last() == v@.take(i as int));
            assert(v@.take(i + 1 as int).last() == v@[i as int]);
        }
        i = i + 1;
    }
    proof {
        assert(v@.take(n as int) == v@);
    }
}

/// Append the length-prefixed encodings of the position/tag pairs.
fn encode_pairs(buf: &mut Vec<u8>, v: &Vec<(usize, Scalar)>)
    ensures
        final(buf)@ == old(buf)@ + spec_u64_le(v@.len() as u64) + spec_ser_pairs(v@),
{
    serialize_usize(v.len(), buf);
    let n = v.len();
    let mut i: usize = 0;
    while i < n
        invariant
            i <= n,
            n == v@.len(),
            buf@ == old(buf)@ + spec_u64_le(v@.len() as u64) + spec_ser_pairs(v@.take(i as int)),
        decreases n - i,
    {
        serialize_usize(v[i].0, buf);
        let mut e = ser_fr(&v[i].1);
        buf.append(&mut e);
        proof {
            assert(v@.take(i + 1 as int).drop_last() == v@.take(i as int));
            assert(v@.take(i + 1 as int).last() == v@[i as int]);
        }
        i = i + 1;
    }
    proof {
        assert(v@.take(n as int) == v@);
    }
}

/// The position mapping as ordered key/value pairs, with the keys exactly
/// the map's keys, each exactly once.
fn btree_to_pairs(m: &BTreeMap<usize, usize>) -> (r: Vec<(usize, usize)>)
    ensures
        r@.len() == m@.dom().len(),
        forall|j: int|
            0 <= j < r@.len() ==> m@.contains_key(#[trigger] r@[j].0) && m@[r@[j].0] == r@[j].1,
        forall|k: usize| #[trigger]
            m@.contains_key(k) ==> exists|j: int| 0 <= j < r@.len() && r@[j].0 == k,
        forall|j1: int, j2: int|
            0 <= j1 < j2 < r@.len() ==> #[trigger] r@[j1].0 != #[trigger] r@[j2].0,
{
    let mut pairs: Vec<(usize, usize)> = Vec::new();
    let entries = m.iter();
    let ghost all = entries.remaining();
    for kv in it: entries
        invariant
            all == it.seq(),
            all.no_duplicates(),
            all.len() == m@.dom().len(),
            forall|j: int|
                0 <= j < all.len() ==> m@.contains_key(#[trigger] (*all[j].0)) && m@[*all[j].0]
                    == *all[j].1,
            forall|k: usize| #[trigger]
                m@.contains_key(k) ==> all.contains((&k, &m@[k])),
            pairs@.len() == it.index(),
            forall|j: int|
                0 <= j < pairs@.len() ==> pairs@[j] == (*all[j].0, *all[j].1),
    {
        pairs.push((*kv.0, *kv.1));
    }
    proof {
        assert forall|k: usize| #[trigger]
            m@.contains_key(k) implies exists|j: int|
            0 <= j < pairs@.len() && pairs@[j].0 == k by {
            let kv = (&k, &m@[k]);
            assert(all.contains(kv));
            let j = choose|j: int| 0 <= j < all.len() && all[j] == kv;
            assert(pairs@[j].0 == k);
        }
        assert forall|j1: int, j2: int|
            0 <= j1 < j2 < pairs@.len() implies #[trigger] pairs@[j1].0 != #[trigger] pairs@[j2].0 by {
            if pairs@[j1].0 == pairs@[j2].0 {
                assert(m@[pairs@[j1].0] == pairs@[j1].1);
                assert(m@[pairs@[j2].0] == pairs@[j2].1);
                assert(all[j1] == all[j2]);
                assert(false);
            }
        }
    }
    pairs
}

/// Whether some pair carries `i` as its position.
pub open spec fn spec_pair_has_key(pairs: Seq<(usize, Scalar)>, i: int) -> bool {
    exists|k: int| 0 <= k < pairs.len() && pairs[k].0 == i
}

/// An index of a pair carrying `i` as its position.
pub open spec fn spec_pair_index(pairs: Seq<(usize, Scalar)>, i: int) -> int {
    choose|k: int| 0 <= k < pairs.len() && pairs[k].0 == i
}

/// The length-`n` vector that carries, at each position named by a pair,
/// that pair's scalar, and zero everywhere else.  Well defined whenever
/// pairs with equal positions carry equal scalars.
pub open spec fn spec_scatter_pairs(pairs: Seq<(usize, Scalar)>, n: nat) -> Seq<Scalar> {
    Seq::new(
        n as nat,
        |i: int|
            if spec_pair_has_key(pairs, i) {
                pairs[spec_pair_index(pairs, i)].1
            } else {
                fr_from_u64_of(0)
            },
    )
}

/// The 0/1 indicator vector of the positions over a domain of size `n`.
pub open spec fn spec_indicator_evals(positions: Seq<usize>, n: nat) -> Seq<Scalar> {
    spec_scatter_pairs(positions.map_values(|p: usize| (p, fr_from_u64_of(1))), n)
}

/// Build the scatter vector of the pairs over length `n`.
pub fn scatter_pairs(pairs: &Vec<(usize, Scalar)>, n: usize) -> (r: Vec<Scalar>)
    requires
        forall|k: int| 0 <= k < pairs@.len() ==> (#[trigger] pairs@[k]).0 < n,
        forall|k1: int, k2: int|
            0 <= k1 < pairs@.len() && 0 <= k2 < pairs@.len() && (#[trigger] pairs@[k1]).0 == (
            #[trigger] pairs@[k2]).0 ==> pairs@[k1].1 == pairs@[k2].1,
    ensures
        r@ == spec_scatter_pairs(pairs@, n as nat),
        r@.len() == n,
{
    let zero = fr_from_u64(0);
    let mut v: Vec<Scalar> = Vec::new();
    let mut i: usize = 0;
    while i < n
        invariant
            i <= n,
            zero == fr_from_u64_of(0),
            v@.len() == i,
            forall|j: int| 0 <= j < i ==> v@[j] == fr_from_u64_of(0),
        decreases n - i,
    {
        v.push(zero);
        i = i + 1;
    }
    let m = pairs.len();
    let mut k: usize = 0;
    while k < m
        invariant
            k <= m,
            m == pairs@.len(),
            v@.len() == n,
            forall|k0: int| 0 <= k0 < pairs@.len() ==> (#[trigger] pairs@[k0]).0 < n,
            forall|k1: int, k2: int|
                0 <= k1 < pairs@.len() && 0 <= k2 < pairs@.len() && (#[trigger] pairs@[k1]).0 == (
                #[trigger] pairs@[k2]).0 ==> pairs@[k1].1 == pairs@[k2].1,
            forall|i0: int|
                0 <= i0 < n ==> v@[i0] == (if spec_pair_has_key(pairs@.take(k as int), i0) {
                    pairs@.take(k as int)[spec_pair_index(pairs@.take(k as int), i0)].1
                } else {
                    fr_from_u64_of(0)
                }),
        decreases m - k,
    {
        let idx = pairs[k].0;
        let tag = pairs[k].1;
        v.set(idx, tag);
        let ghost prev = pairs@.take(k as int);
        let ghost next = pairs@.take(k + 1 as int);
        proof {
            assert(next.drop_last() == prev);
            assert(next[k as int] == pairs@[k as int]);
            assert forall|i0: int|
                0 <= i0 < n implies v@[i0] == (if spec_pair_has_key(next, i0) {
                next[spec_pair_index(next, i0)].1
            } else {
                fr_from_u64_of(0)
            }) by {
                if i0 == idx {
                    assert(spec_pair_has_key(next, i0));
                    let j = spec_pair_index(next, i0);
                    assert(0 <= j < next.len() && next[j].0 == i0);
                    assert(next[j].1 == pairs@[k as int].1);
                } else {
                    if spec_pair_has_key(next, i0) {
                        let j = spec_pair_index(next, i0);
                        assert(0 <= j < next.len() && next[j].0 == i0);
                        assert(j != k);
                        assert(prev[j] == next[j]);
                        assert(spec_pair_has_key(prev, i0));
                        let j2 = spec_pair_index(prev, i0);
                        assert(prev[j2] == pairs@[j2]);
                        assert(next[j].1 == prev[j2].1);
                    } else {
                        assert(!spec_pair_has_key(prev, i0)) by {
                            if spec_pair_has_key(prev, i0) {
                                let j = spec_pair_index(prev, i0);
                                assert(next[j] == prev[j]);
                            }
                        }
                    }
                }
            }
        }
        k = k + 1;
    }
    proof {
        assert(pairs@.take(m as int) == pairs@);
        assert(v@ =~= spec_scatter_pairs(pairs@, n as nat));
    }
    v
}

/// Append the encoding of a domain to the buffer.
fn encode_domain(buf: &mut Vec<u8>, d: &Domain)
    ensures
        final(buf)@ == old(buf)@ + spec_ser_domain(*d),
{
    let mut e = u64_to_le_bytes(d.size);
    buf.append(&mut e);
    let mut e = ser_fr(&d.size_as_fe);
    buf.append(&mut e);
    let mut e = ser_fr(&d.size_inv);
    buf.append(&mut e);
    let mut e = ser_fr(&d.group_gen);
    buf.append(&mut e);
    let mut e = ser_fr(&d.group_gen_inv);
    buf.append(&mut e);
    let mut e = ser_fr(&d.offset);
    buf.append(&mut e);
    let mut e = ser_fr(&d.offset_inv);
    buf.append(&mut e);
    let mut e = ser_fr(&d.offset_pow_size);
    buf.append(&mut e);
}

/// The larger of the two sizes.
pub open spec fn spec_max_size(a: usize, b: usize) -> usize {
    if a > b {
        a
    } else {
        b
    }
}

/// One-time preprocessing for a statement shape, shared read-only by
/// prover and verifier.
pub struct PublicParameters {
    pub size_left_values: usize,
    pub size_right_values: usize,
    pub g1_affine_srs: Vec<G1Point>,
    pub g2_affine_srs: Vec<G2Point>,
    pub domain_l: Domain,
    pub domain_r: Domain,
    pub positions_left: Vec<usize>,
    pub positions_right: Vec<usize>,
    pub poly_positions_left: Vec<Scalar>,
    pub poly_positions_right: Vec<Scalar>,
    pub g1_affine_positions_left: G1Point,
    pub g1_affine_positions_right: G1Point,
    pub position_mappings: Vec<(usize, Scalar)>,
    pub poly_position_mappings: Vec<Scalar>,
    pub g1_affine_position_mappings: G1Point,
    pub domain_coset_l: Domain,
    pub domain_coset_r: Domain,
    pub coset_eval_list_positions_left: Vec<Scalar>,
    pub coset_eval_list_positions_right: Vec<Scalar>,
    pub coset_eval_list_position_mappings: Vec<Scalar>,
    pub roots_of_unity_coset_r: Vec<Scalar>,
    pub hash_representation: Vec<u8>,
}

impl PublicParameters {
    /// The shape every verified consumer relies on: valid power-of-two
    /// sizes, well-formed domains and cosets over them, a reference
    /// string long enough for every committed polynomial, designated
    /// positions in range with pairwise distinct left positions, each
    /// mapping tag the right domain's element at the mapped position, and
    /// every stored vector of its stated length.
    pub open spec fn wf(self) -> bool {
        let nl = self.size_left_values;
        let nr = self.size_right_values;
        let m = self.position_mappings@.len();
        &&& spec_valid_domain_size(nl)
        &&& spec_valid_domain_size(nr)
        &&& self.domain_l.wf() && self.domain_l.size == nl
        &&& self.domain_r.wf() && self.domain_r.size == nr
        &&& self.domain_coset_l.wf() && self.domain_coset_l.size == nl
            && self.domain_coset_l.group_gen == self.domain_l.group_gen
        &&& self.domain_coset_r.wf() && self.domain_coset_r.size == nr
            && self.domain_coset_r.group_gen == self.domain_r.group_gen
        &&& self.g1_affine_srs@.len() == spec_max_size(nl, nr) + 1
        &&& self.g2_affine_srs@.len() == spec_max_size(nl, nr) + 2
        &&& self.positions_left@.len() == m
        &&& self.positions_right@.len() == m
        &&& (forall|k: int|
            0 <= k < m ==> (#[trigger] self.position_mappings@[k]).0 == self.positions_left@[k])
        &&& (forall|k: int| 0 <= k < m ==> #[trigger] self.positions_left@[k] < nl)
        &&& (forall|k: int| 0 <= k < m ==> #[trigger] self.positions_right@[k] < nr)
        &&& (forall|k1: int, k2: int|
            0 <= k1 < k2 < m ==> #[trigger] self.positions_left@[k1] != #[trigger] self.positions_left@[k2])
        &&& (forall|k: int|
            0 <= k < m ==> (#[trigger] self.position_mappings@[k]).1
                == self.domain_r.spec_elements()[self.positions_right@[k] as int])
        &&& self.poly_positions_left@.len() == nl
        &&& self.poly_positions_right@.len() == nr
        &&& self.poly_position_mappings@.len() == nl
        &&& self.coset_eval_list_positions_left@.len() == nl
        &&& self.coset_eval_list_positions_right@.len() == nr
        &&& self.coset_eval_list_position_mappings@.len() == nl
        &&& self.roots_of_unity_coset_r@.len() == nr
    }

    /// The canonical encoding whose hash binds the public parameters:
    /// the sizes, the three position commitments, the four domains, both
    /// reference strings, the positions, the three derived polynomials,
    /// the tagged mapping, and the precomputed coset evaluations, in this
    /// fixed order.
    pub open spec fn spec_encoding(self) -> Seq<u8> {
        spec_u64_le(self.size_left_values as u64) + spec_u64_le(self.size_right_values as u64)
            + ser_g1_of(self.g1_affine_positions_left) + ser_g1_of(self.g1_affine_positions_right)
            + ser_g1_of(self.g1_affine_position_mappings) + spec_ser_domain(self.domain_l)
            + spec_ser_domain(self.domain_r) + spec_ser_domain(self.domain_coset_l)
            + spec_ser_domain(self.domain_coset_r) + spec_u64_le(self.g1_affine_srs@.len() as u64)
            + spec_ser_g1s(self.g1_affine_srs@) + spec_u64_le(self.g2_affine_srs@.len() as u64)
            + spec_ser_g2s(self.g2_affine_srs@) + spec_u64_le(self.positions_left@.len() as u64)
            + spec_ser_usizes(self.positions_left@) + spec_u64_le(
            self.positions_right@.len() as u64,
        ) + spec_ser_usizes(self.positions_right@) + spec_u64_le(
            self.poly_positions_left@.len() as u64,
        ) + spec_ser_frs(self.poly_positions_left@) + spec_u64_le(
            self.poly_positions_right@.len() as u64,
        ) + spec_ser_frs(self.poly_positions_right@) + spec_u64_le(
            self.position_mappings@.len() as u64,
        ) + spec_ser_pairs(self.position_mappings@) + spec_u64_le(
            self.poly_position_mappings@.len() as u64,
        ) + spec_ser_frs(self.poly_position_mappings@) + spec_u64_le(
            self.coset_eval_list_positions_left@.len() as u64,
        ) + spec_ser_frs(self.coset_eval_list_positions_left@) + spec_u64_le(
            self.coset_eval_list_positions_right@.len() as u64,
        ) + spec_ser_frs(self.coset_eval_list_positions_right@) + spec_u64_le(
            self.coset_eval_list_position_mappings@.len() as u64,
        ) + spec_ser_frs(self.coset_eval_list_position_mappings@) + spec_u64_le(
            self.roots_of_unity_coset_r@.len() as u64,
        ) + spec_ser_frs(self.roots_of_unity_coset_r@)
    }

    /// A fresh builder with every input unset.
    pub fn builder() -> (r: PublicParametersBuilder)
        ensures
            r.size_left_values is None,
            r.size_right_values is None,
            r.tau is None,
            r.domain_generator_l is None,
            r.domain_generator_r is None,
            r.position_mappings is None,
    {
        PublicParametersBuilder::default()
    }
}

/// The validating builder for `PublicParameters`: the two sizes and the
/// position mapping are required, the trapdoor and the domain generators
/// are optional.
pub struct PublicParametersBuilder {
    pub size_left_values: Option<usize>,
    pub size_right_values: Option<usize>,
    pub tau: Option<Scalar>,
    pub domain_generator_l: Option<Scalar>,
    pub domain_generator_r: Option<Scalar>,
    pub position_mappings: Option<BTreeMap<usize, usize>>,
}

impl PublicParametersBuilder {
    fn default() -> (r: Self)
        ensures
            r.size_left_values is None,
            r.size_right_values is None,
            r.tau is None,
            r.domain_generator_l is None,
            r.domain_generator_r is None,
            r.position_mappings is None,
    {
        Self {
            size_left_values: None,
            size_right_values: None,
            tau: None,
            domain_generator_l: None,
            domain_generator_r: None,
            position_mappings: None,
        }
    }

    /// Set the size of the left value array.
    pub fn size_left_values(self, size: usize) -> (r: Self)
        ensures
            r == (Self { size_left_values: Some(size), ..self }),
    {
        Self { size_left_values: Some(size), ..self }
    }

    /// Set the size of the right value array.
    pub fn size_right_values(self, size: usize) -> (r: Self)
        ensures
            r == (Self { size_right_values: Some(size), ..self }),
    {
        Self { size_right_values: Some(size), ..self }
    }

    /// Set an explicit trapdoor, for deterministic testing only.
    pub fn tau(self, tau: Scalar) -> (r: Self)
        ensures
            r == (Self { tau: Some(tau), ..self }),
    {
        Self { tau: Some(tau), ..self }
    }

    /// Set an explicit generator for the left domain.
    pub fn domain_generator_l(self, gen: Scalar) -> (r: Self)
        ensures
            r == (Self { domain_generator_l: Some(gen), ..self }),
    {
        Self { domain_generator_l: Some(gen), ..self }
    }

    /// Set an explicit generator for the right domain.
    pub fn domain_generator_r(self, gen: Scalar) -> (r: Self)
        ensures
            r == (Self { domain_generator_r: Some(gen), ..self }),
    {
        Self { domain_generator_r: Some(gen), ..self }
    }

    /// Set the mapping from left positions to right positions.
    pub fn position_mappings(self, mappings: &BTreeMap<usize, usize>) -> (r: Self)
        ensures
            r.position_mappings is Some && r.position_mappings->0@ == mappings@,
            r.size_left_values == self.size_left_values,
            r.size_right_values == self.size_right_values,
            r.tau == self.tau,
            r.domain_generator_l == self.domain_generator_l,
            r.domain_generator_r == self.domain_generator_r,
    {
        Self { position_mappings: Some(mappings.clone()), ..self }
    }

    /// Build the public parameters, validating the inputs in a fixed
    /// order: the sizes must be present, powers of two and within the
    /// field's 2-adicity, the mapping must be present, and the handful of
    /// field elements the construction inverts must be non-zero.  Every
    /// designated position must lie within its array, as the caller's
    /// obligation.
    #[verifier::rlimit(100)]
    pub fn build(self) -> (r: Result<PublicParameters, Error>)
        requires
            (self.size_left_values is Some && self.size_right_values is Some
                && self.position_mappings is Some) ==> forall|k: usize|
                self.position_mappings->0@.contains_key(k) ==> k < self.size_left_values->0
                    && #[trigger] self.position_mappings->0@[k] < self.size_right_values->0,
        ensures
            spec_build_error(self) is Some ==> r == Err::<PublicParameters, Error>(
                spec_build_error(self)->0,
            ),
            spec_build_error(self) is None ==> r is Ok && spec_build_ok(self, r->Ok_0),
    {
        let size_left_values = match self.size_left_values {
            Some(v) => v,
            None => {
                return Err(Error::MissingParameter("Left Element Size"));
            },
        };
        match validate_input(size_left_values, None) {
            Ok(u) => u,
            Err(e) => {
                return Err(e);
            },
        };
        let size_right_values = match self.size_right_values {
            Some(v) => v,
            None => {
                return Err(Error::MissingParameter("Right Element Size"));
            },
        };
        match validate_input(size_right_values, None) {
            Ok(u) => u,
            Err(e) => {
                return Err(e);
            },
        };

        let domain_l = match create_domain(self.domain_generator_l, size_left_values) {
            Ok(d) => d,
            Err(e) => {
                return Err(e);
            },
        };
        let domain_r = match create_domain(self.domain_generator_r, size_right_values) {
            Ok(d) => d,
            Err(e) => {
                return Err(e);
            },
        };

        let mappings = match self.position_mappings {
            Some(m) => m,
            None => {
                return Err(Error::IndexMappingCannotBeNone);
            },
        };

        let five = fr_from_u64(5);
        let domain_coset_l = match coset(&domain_l, five) {
            Ok(d) => d,
            Err(e) => {
                return Err(e);
            },
        };
        let domain_coset_r = match coset(&domain_r, five) {
            Ok(d) => d,
            Err(e) => {
                return Err(e);
            },
        };

        let pow_of_tau_g1 = if size_left_values > size_right_values {
            size_left_values
        } else {
            size_right_values
        };
        let tau = match self.tau {
            Some(t) => t,
            None => crate::backend::fr_rand(),
        };
        let (g1_affine_srs, g2_affine_srs) = unsafe_setup_from_tau(pow_of_tau_g1, tau);

        let pairs = btree_to_pairs(&mappings);
        let np = pairs.len();
        let mut positions_left: Vec<usize> = Vec::new();
        let mut positions_right: Vec<usize> = Vec::new();
        let mut k: usize = 0;
        while k < np
            invariant
                k <= np,
                np == pairs@.len(),
                positions_left@.len() == k,
                positions_right@.len() == k,
                forall|j: int| 0 <= j < k ==> #[trigger] positions_left@[j] == pairs@[j].0,
                forall|j: int| 0 <= j < k ==> #[trigger] positions_right@[j] == pairs@[j].1,
            decreases np - k,
        {
            positions_left.push(pairs[k].0);
            positions_right.push(pairs[k].1);
            k = k + 1;
        }

        proof {
            assert forall|j: int|
                0 <= j < np implies #[trigger] positions_left@[j] < size_left_values by {
                assert(mappings@.contains_key(pairs@[j].0));
            }
            assert forall|j: int|
                0 <= j < np implies #[trigger] positions_right@[j] < size_right_values by {
                assert(mappings@.contains_key(pairs@[j].0));
                assert(mappings@[pairs@[j].0] == pairs@[j].1);
            }
            assert forall|k0: usize| #[trigger]
                mappings@.contains_key(k0) implies exists|j: int|
                0 <= j < positions_left@.len() && positions_left@[j] == k0 by {
                let j = choose|j: int| 0 <= j < pairs@.len() && pairs@[j].0 == k0;
                assert(positions_left@[j] == k0);
            }
        }

        let one = fr_from_u64(1);
        let mut ind_pairs_l: Vec<(usize, Scalar)> = Vec::new();
        let mut k: usize = 0;
        while k < np
            invariant
                k <= np,
                np == positions_left@.len(),
                one == fr_from_u64_of(1),
                ind_pairs_l@ == positions_left@.take(k as int).map_values(
                    |p: usize| (p, fr_from_u64_of(1)),
                ),
                forall|j: int| 0 <= j < np ==> #[trigger] positions_left@[j] < size_left_values,
            decreases np - k,
        {
            ind_pairs_l.push((positions_left[k], one));
            proof {
                assert(positions_left@.take(k + 1 as int).map_values(
                    |p: usize| (p, fr_from_u64_of(1)),
                ) =~= ind_pairs_l@);
            }
            k = k + 1;
        }
        proof {
            assert(positions_left@.take(np as int) == positions_left@);
        }
        let eval_positions_left = scatter_pairs(&ind_pairs_l, size_left_values);
        let poly_positions_left = domain_ifft(&domain_l, &eval_positions_left);
        let g1_affine_positions_left = Kzg::commit(&g1_affine_srs, &poly_positions_left);

        let mut ind_pairs_r: Vec<(usize, Scalar)> = Vec::new();
        let mut k: usize = 0;
        while k < np
            invariant
                k <= np,
                np == positions_right@.len(),
                one == fr_from_u64_of(1),
                ind_pairs_r@ == positions_right@.take(k as int).map_values(
                    |p: usize| (p, fr_from_u64_of(1)),
                ),
                forall|j: int| 0 <= j < np ==> #[trigger] positions_right@[j] < size_right_values,
            decreases np - k,
        {
            ind_pairs_r.push((positions_right[k], one));
            proof {
                assert(positions_right@.take(k + 1 as int).map_values(
                    |p: usize| (p, fr_from_u64_of(1)),
                ) =~= ind_pairs_r@);
            }
            k = k + 1;
        }
        proof {
            assert(positions_right@.take(np as int) == positions_right@);
        }
        let eval_positions_right = scatter_pairs(&ind_pairs_r, size_right_values);
        let poly_positions_right = domain_ifft(&domain_r, &eval_positions_right);
        let g1_affine_positions_right = Kzg::commit(&g1_affine_srs, &poly_positions_right);

        let roots_r = roots_of_unity(&domain_r);
        let mut fr_pairs: Vec<(usize, Scalar)> = Vec::new();
        let mut k: usize = 0;
        while k < np
            invariant
                k <= np,
                np == positions_left@.len(),
                np == positions_right@.len(),
                roots_r@ == domain_r.spec_elements(),
                roots_r@.len() == domain_r.size,
                domain_r.size == size_right_values,
                fr_pairs@.len() == k,
                forall|j: int| 0 <= j < np ==> #[trigger] positions_right@[j] < size_right_values,
                forall|j: int|
                    0 <= j < k ==> #[trigger] fr_pairs@[j] == (
                        positions_left@[j],
                        domain_r.spec_elements()[positions_right@[j] as int],
                    ),
            decreases np - k,
        {
            fr_pairs.push((positions_left[k], roots_r[positions_right[k]]));
            k = k + 1;
        }

        proof {
            assert forall|k1: int, k2: int|
                0 <= k1 < fr_pairs@.len() && 0 <= k2 < fr_pairs@.len() && (
                #[trigger] fr_pairs@[k1]).0 == (#[trigger] fr_pairs@[k2]).0 implies fr_pairs@[k1].1
                == fr_pairs@[k2].1 by {
                if k1 != k2 {
                    assert(pairs@[k1].0 != pairs@[k2].0);
                }
            }
        }
        let eval_position_mappings = scatter_pairs(&fr_pairs, size_left_values);
        let poly_position_mappings = domain_ifft(&domain_l, &eval_position_mappings);
        let g1_affine_position_mappings = Kzg::commit(&g1_affine_srs, &poly_position_mappings);

        let coset_eval_list_positions_left = domain_fft(&domain_coset_l, &poly_positions_left);
        let coset_eval_list_positions_right = domain_fft(&domain_coset_r, &poly_positions_right);
        let coset_eval_list_position_mappings = domain_fft(&domain_coset_l, &poly_position_mappings);
        let roots_of_unity_coset_r = roots_of_unity(&domain_coset_r);

        let mut buf: Vec<u8> = Vec::new();
        serialize_usize(size_left_values, &mut buf);
        serialize_usize(size_right_values, &mut buf);
        let mut e = ser_g1(&g1_affine_positions_left);
        buf.append(&mut e);
        let mut e = ser_g1(&g1_affine_positions_right);
        buf.append(&mut e);
        let mut e = ser_g1(&g1_affine_position_mappings);
        buf.append(&mut e);
        encode_domain(&mut buf, &domain_l);
        encode_domain(&mut buf, &domain_r);
        encode_domain(&mut buf, &domain_coset_l);
        encode_domain(&mut buf, &domain_coset_r);
        encode_g1s(&mut buf, &g1_affine_srs);
        encode_g2s(&mut buf, &g2_affine_srs);
        encode_usizes(&mut buf, &positions_left);
        encode_usizes(&mut buf, &positions_right);
        encode_frs(&mut buf, &poly_positions_left);
        encode_frs(&mut buf, &poly_positions_right);
        encode_pairs(&mut buf, &fr_pairs);
        encode_frs(&mut buf, &poly_position_mappings);
        encode_frs(&mut buf, &coset_eval_list_positions_left);
        encode_frs(&mut buf, &coset_eval_list_positions_right);
        encode_frs(&mut buf, &coset_eval_list_position_mappings);
        encode_frs(&mut buf, &roots_of_unity_coset_r);
        let hash_representation = blake2b512(&buf);

        let pp = PublicParameters {
            size_left_values,
            size_right_values,
            g1_affine_srs,
            g2_affine_srs,
            domain_l,
            domain_r,
            positions_left,
            positions_right,
            poly_positions_left,
            poly_positions_right,
            g1_affine_positions_left,
            g1_affine_positions_right,
            position_mappings: fr_pairs,
            poly_position_mappings,
            g1_affine_position_mappings,
            domain_coset_l,
            domain_coset_r,
            coset_eval_list_positions_left,
            coset_eval_list_positions_right,
            coset_eval_list_position_mappings,
            roots_of_unity_coset_r,
            hash_representation,
        };
        proof {
            assert(buf@ =~= pp.spec_encoding());
            let max = spec_max_size(pp.size_left_values, pp.size_right_values);
            assert(spec_is_srs_pair(pp.g1_affine_srs@, pp.g2_affine_srs@, tau, max as nat));
            assert(exists|t: Scalar|
                spec_is_srs_pair(pp.g1_affine_srs@, pp.g2_affine_srs@, t, max as nat) && (
                self.tau is Some ==> t == self.tau->0));
            assert(pp.wf());
            assert(spec_build_ok(self, pp));
        }
        Ok(pp)
    }
}


/// What a successful build guarantees: a well-formed parameter set whose
/// every derived field is the stated function of the builder's inputs.
pub open spec fn spec_build_ok(b: PublicParametersBuilder, pp: PublicParameters) -> bool {
    let nl = b.size_left_values->0;
    let nr = b.size_right_values->0;
    let gl = spec_domain_generator(b.domain_generator_l, nl);
    let gr = spec_domain_generator(b.domain_generator_r, nr);
    let m = b.position_mappings->0@;
    let one = fr_from_u64_of(1);
    let five = fr_from_u64_of(5);
    &&& pp.wf()
    &&& pp.size_left_values == nl
    &&& pp.size_right_values == nr
    &&& pp.domain_l.group_gen == gl && pp.domain_l.offset == one
    &&& pp.domain_r.group_gen == gr && pp.domain_r.offset == one
    &&& pp.domain_coset_l.offset == five
    &&& pp.domain_coset_r.offset == five
    &&& (exists|t: Scalar|
        spec_is_srs_pair(
            pp.g1_affine_srs@,
            pp.g2_affine_srs@,
            t,
            spec_max_size(nl, nr) as nat,
        ) && (b.tau is Some ==> t == b.tau->0))
    &&& pp.positions_left@.len() == m.dom().len()
    &&& (forall|j: int|
        0 <= j < pp.positions_left@.len() ==> m.contains_key(
            #[trigger] pp.positions_left@[j],
        ) && m[pp.positions_left@[j]] == pp.positions_right@[j])
    &&& (forall|k: usize| #[trigger]
        m.contains_key(k) ==> exists|j: int|
            0 <= j < pp.positions_left@.len() && pp.positions_left@[j] == k)
    &&& pp.poly_positions_left@ == ifft_of(
        nl as u64,
        gl,
        one,
        spec_indicator_evals(pp.positions_left@, nl as nat),
    )
    &&& pp.poly_positions_right@ == ifft_of(
        nr as u64,
        gr,
        one,
        spec_indicator_evals(pp.positions_right@, nr as nat),
    )
    &&& pp.poly_position_mappings@ == ifft_of(
        nl as u64,
        gl,
        one,
        spec_scatter_pairs(pp.position_mappings@, nl as nat),
    )
    &&& pp.g1_affine_positions_left == msm_g1_of(
        pp.g1_affine_srs@.take(nl as int),
        pp.poly_positions_left@,
    )
    &&& pp.g1_affine_positions_right == msm_g1_of(
        pp.g1_affine_srs@.take(nr as int),
        pp.poly_positions_right@,
    )
    &&& pp.g1_affine_position_mappings == msm_g1_of(
        pp.g1_affine_srs@.take(nl as int),
        pp.poly_position_mappings@,
    )
    &&& pp.coset_eval_list_positions_left@ == fft_of(
        nl as u64,
        gl,
        five,
        pp.poly_positions_left@,
    )
    &&& pp.coset_eval_list_positions_right@ == fft_of(
        nr as u64,
        gr,
        five,
        pp.poly_positions_right@,
    )
    &&& pp.coset_eval_list_position_mappings@ == fft_of(
        nl as u64,
        gl,
        five,
        pp.poly_position_mappings@,
    )
    &&& pp.roots_of_unity_coset_r@ == pp.domain_coset_r.spec_elements()
    &&& pp.hash_representation@ == blake2b512_of(pp.spec_encoding())
}

/// The error the builder reports, in its fixed checking order: the
/// missing or ill-shaped input, or the algebraic failure, if any.
pub open spec fn spec_build_error(b: PublicParametersBuilder) -> Option<Error> {
    let nl = b.size_left_values->0;
    let nr = b.size_right_values->0;
    let gl = spec_domain_generator(b.domain_generator_l, nl);
    let gr = spec_domain_generator(b.domain_generator_r, nr);
    let zero = fr_from_u64_of(0);
    if b.size_left_values is None {
        Some(Error::MissingParameter("Left Element Size"))
    } else if !spec_is_pow2(nl as nat) {
        Some(Error::InputShouldBePowerOfTwo(nl))
    } else if b.size_right_values is None {
        Some(Error::MissingParameter("Right Element Size"))
    } else if !spec_is_pow2(nr as nat) {
        Some(Error::InputShouldBePowerOfTwo(nr))
    } else if nl > MAX_DOMAIN_SIZE {
        Some(Error::InvalidEvaluationDomainSize(nl))
    } else if fr_from_u64_of(nl as u64) == zero || gl == zero {
        Some(Error::FailedToInverseFieldElement)
    } else if nr > MAX_DOMAIN_SIZE {
        Some(Error::InvalidEvaluationDomainSize(nr))
    } else if fr_from_u64_of(nr as u64) == zero || gr == zero {
        Some(Error::FailedToInverseFieldElement)
    } else if b.position_mappings is None {
        Some(Error::IndexMappingCannotBeNone)
    } else if fr_from_u64_of(5) == zero {
        Some(Error::FailedToCreateCosetOfEvaluationDomain)
    } else {
        None
    }
}


} // verus!
