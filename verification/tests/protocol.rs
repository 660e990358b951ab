use std::collections::BTreeMap;

use ark_isep::backend::{fr_eq, fr_from_u64, fr_rand, fr_root_of_unity, Scalar};
use ark_isep::error::Error;
use ark_isep::prover::prove;
use ark_isep::public_parameters::PublicParameters;
use ark_isep::verification::verify;
use ark_isep::witness::Witness;

#[test]
fn end_to_end() {
    let mut mappings = BTreeMap::new();
    mappings.insert(0usize, 0usize);
    mappings.insert(2, 4);
    mappings.insert(4, 8);
    mappings.insert(6, 12);
    let pp = PublicParameters::builder()
        .size_left_values(8)
        .size_right_values(16)
        .position_mappings(&mappings)
        .build()
        .unwrap();

    // Correct verification.
    let left_witness_values: Vec<Scalar> = (0..8).map(|_| fr_rand()).collect();
    let mut right_witness_values: Vec<Scalar> = (0..16).map(|_| fr_rand()).collect();
    right_witness_values[0] = left_witness_values[0];
    right_witness_values[4] = left_witness_values[2];
    right_witness_values[8] = left_witness_values[4];
    right_witness_values[12] = left_witness_values[6];

    let witness = Witness::new(&pp, &left_witness_values, &right_witness_values).unwrap();
    let statement = witness.generate_statement(&pp).unwrap();

    let proof = prove(&pp, &witness, &statement).unwrap();
    verify(&pp, &statement, &proof).unwrap();

    // Wrong common witness value.
    let mut left_witness_values = left_witness_values;
    left_witness_values[4] = fr_from_u64(42);
    right_witness_values[8] = fr_from_u64(12);

    let witness = Witness::new(&pp, &left_witness_values, &right_witness_values).unwrap();
    let statement = witness.generate_statement(&pp).unwrap();

    let proof = prove(&pp, &witness, &statement).unwrap();
    assert!(verify(&pp, &statement, &proof).is_err());
}

fn build_pp(
    size_left: usize,
    size_right: usize,
    mappings: &BTreeMap<usize, usize>,
) -> PublicParameters {
    PublicParameters::builder()
        .size_left_values(size_left)
        .size_right_values(size_right)
        .position_mappings(mappings)
        .build()
        .unwrap()
}

#[test]
fn boundary_sizes_full_coverage() {
    // The smallest shape: both arrays of size two, identity mapping over
    // every position.
    let mut mappings = BTreeMap::new();
    mappings.insert(0usize, 0usize);
    mappings.insert(1, 1);
    let pp = build_pp(2, 2, &mappings);

    let left: Vec<Scalar> = (0..2).map(|_| fr_rand()).collect();
    let right = left.clone();
    let witness = Witness::new(&pp, &left, &right).unwrap();
    let statement = witness.generate_statement(&pp).unwrap();
    let proof = prove(&pp, &witness, &statement).unwrap();
    verify(&pp, &statement, &proof).unwrap();
}

#[test]
fn concrete_scenario_accepts_then_rejects() {
    let mut mappings = BTreeMap::new();
    mappings.insert(0usize, 0usize);
    mappings.insert(2, 4);
    mappings.insert(4, 8);
    mappings.insert(6, 12);
    let pp = build_pp(8, 16, &mappings);

    let left: Vec<Scalar> = (0..8).map(|_| fr_rand()).collect();
    let mut right: Vec<Scalar> = (0..16).map(|_| fr_rand()).collect();
    right[0] = left[0];
    right[4] = left[2];
    right[8] = left[4];
    right[12] = left[6];

    let witness = Witness::new(&pp, &left, &right).unwrap();
    let statement = witness.generate_statement(&pp).unwrap();
    let proof = prove(&pp, &witness, &statement).unwrap();
    assert!(verify(&pp, &statement, &proof).is_ok());

    // Break one designated pair and re-derive everything.
    let mut bad_left = left.clone();
    bad_left[4] = fr_rand();
    let witness = Witness::new(&pp, &bad_left, &right).unwrap();
    let statement = witness.generate_statement(&pp).unwrap();
    let proof = prove(&pp, &witness, &statement).unwrap();
    assert!(verify(&pp, &statement, &proof).is_err());
}

#[test]
fn soundness_each_designated_pair() {
    // Mutating any single designated pair must be rejected.
    let mut mappings = BTreeMap::new();
    mappings.insert(0usize, 0usize);
    mappings.insert(2, 4);
    mappings.insert(4, 8);
    mappings.insert(6, 12);
    let pp = build_pp(8, 16, &mappings);

    let left: Vec<Scalar> = (0..8).map(|_| fr_rand()).collect();
    let mut right: Vec<Scalar> = (0..16).map(|_| fr_rand()).collect();
    for (&k, &v) in mappings.iter() {
        right[v] = left[k];
    }

    for (&k, _) in mappings.iter() {
        let mut bad_left = left.clone();
        bad_left[k] = fr_rand();
        let witness = Witness::new(&pp, &bad_left, &right).unwrap();
        let statement = witness.generate_statement(&pp).unwrap();
        let proof = prove(&pp, &witness, &statement).unwrap();
        assert!(verify(&pp, &statement, &proof).is_err());
    }
}

#[test]
fn completeness_independent_of_undesignated_values() {
    // Positions outside the mapping may disagree freely.
    let mut mappings = BTreeMap::new();
    mappings.insert(1usize, 3usize);
    let pp = build_pp(4, 4, &mappings);

    let left: Vec<Scalar> = (0..4).map(|_| fr_rand()).collect();
    let mut right: Vec<Scalar> = (0..4).map(|_| fr_rand()).collect();
    right[3] = left[1];

    let witness = Witness::new(&pp, &left, &right).unwrap();
    let statement = witness.generate_statement(&pp).unwrap();
    let proof = prove(&pp, &witness, &statement).unwrap();
    assert!(verify(&pp, &statement, &proof).is_ok());
}

#[test]
fn builder_missing_inputs() {
    let r = PublicParameters::builder().build();
    assert!(matches!(r, Err(Error::MissingParameter(_))));

    let r = PublicParameters::builder().size_left_values(8).build();
    assert!(matches!(r, Err(Error::MissingParameter(_))));

    let r = PublicParameters::builder()
        .size_left_values(8)
        .size_right_values(16)
        .build();
    assert!(matches!(r, Err(Error::IndexMappingCannotBeNone)));
}

#[test]
fn builder_rejects_non_power_of_two() {
    let mappings = BTreeMap::new();
    let r = PublicParameters::builder()
        .size_left_values(6)
        .size_right_values(16)
        .position_mappings(&mappings)
        .build();
    assert!(matches!(r, Err(Error::InputShouldBePowerOfTwo(6))));

    let r = PublicParameters::builder()
        .size_left_values(8)
        .size_right_values(0)
        .position_mappings(&mappings)
        .build();
    assert!(matches!(r, Err(Error::InputShouldBePowerOfTwo(0))));
}

#[test]
fn witness_rejects_wrong_lengths() {
    let mut mappings = BTreeMap::new();
    mappings.insert(0usize, 0usize);
    let pp = build_pp(4, 4, &mappings);

    let left: Vec<Scalar> = (0..3).map(|_| fr_rand()).collect();
    let right: Vec<Scalar> = (0..4).map(|_| fr_rand()).collect();
    let r = Witness::new(&pp, &left, &right);
    assert!(matches!(r, Err(Error::WrongNumberOfLeftValues(3))));

    let left: Vec<Scalar> = (0..4).map(|_| fr_rand()).collect();
    let right: Vec<Scalar> = (0..5).map(|_| fr_rand()).collect();
    let r = Witness::new(&pp, &left, &right);
    assert!(matches!(r, Err(Error::WrongNumberOfRightValues(5))));
}

#[test]
fn statement_binds_commitments() {
    let mut mappings = BTreeMap::new();
    mappings.insert(0usize, 0usize);
    let pp = build_pp(4, 4, &mappings);

    let left: Vec<Scalar> = (0..4).map(|_| fr_rand()).collect();
    let mut right: Vec<Scalar> = (0..4).map(|_| fr_rand()).collect();
    right[0] = left[0];

    let w1 = Witness::new(&pp, &left, &right).unwrap();
    let s1 = w1.generate_statement(&pp).unwrap();
    let s2 = w1.generate_statement(&pp).unwrap();
    assert_eq!(s1.hash_representation, s2.hash_representation);

    let mut other_left = left.clone();
    other_left[1] = fr_rand();
    let w2 = Witness::new(&pp, &other_left, &right).unwrap();
    let s3 = w2.generate_statement(&pp).unwrap();
    assert_ne!(s1.hash_representation, s3.hash_representation);
}

#[test]
fn deterministic_setup_reproduces_parameters() {
    // With an explicit trapdoor and identical inputs the whole
    // preprocessing, including its binding hash, is reproducible.
    let mut mappings = BTreeMap::new();
    mappings.insert(1usize, 2usize);
    let tau = fr_from_u64(123456789);
    let pp1 = PublicParameters::builder()
        .size_left_values(4)
        .size_right_values(8)
        .tau(tau)
        .position_mappings(&mappings)
        .build()
        .unwrap();
    let pp2 = PublicParameters::builder()
        .size_left_values(4)
        .size_right_values(8)
        .tau(tau)
        .position_mappings(&mappings)
        .build()
        .unwrap();
    assert_eq!(pp1.hash_representation, pp2.hash_representation);
    assert_eq!(pp1.positions_left, vec![1]);
    assert_eq!(pp1.positions_right, vec![2]);
    assert!(fr_eq(&pp1.domain_l.group_gen, &pp2.domain_l.group_gen));
}

#[test]
fn explicit_domain_generators_match_defaults() {
    let mut mappings = BTreeMap::new();
    mappings.insert(0usize, 0usize);
    let tau = fr_from_u64(777);
    let gl = fr_root_of_unity(4).unwrap();
    let gr = fr_root_of_unity(8).unwrap();
    let pp1 = PublicParameters::builder()
        .size_left_values(4)
        .size_right_values(8)
        .tau(tau)
        .domain_generator_l(gl)
        .domain_generator_r(gr)
        .position_mappings(&mappings)
        .build()
        .unwrap();
    let pp2 = PublicParameters::builder()
        .size_left_values(4)
        .size_right_values(8)
        .tau(tau)
        .position_mappings(&mappings)
        .build()
        .unwrap();
    assert_eq!(pp1.hash_representation, pp2.hash_representation);
}

#[test]
fn tampered_proof_fields_are_rejected() {
    let mut mappings = BTreeMap::new();
    mappings.insert(0usize, 0usize);
    mappings.insert(1, 2);
    let pp = build_pp(4, 4, &mappings);

    let left: Vec<Scalar> = (0..4).map(|_| fr_rand()).collect();
    let mut right: Vec<Scalar> = (0..4).map(|_| fr_rand()).collect();
    right[0] = left[0];
    right[2] = left[1];
    let witness = Witness::new(&pp, &left, &right).unwrap();
    let statement = witness.generate_statement(&pp).unwrap();
    let proof = prove(&pp, &witness, &statement).unwrap();
    assert!(verify(&pp, &statement, &proof).is_ok());

    // A wrong claimed evaluation breaks the first batched opening.
    let mut bad = prove(&pp, &witness, &statement).unwrap();
    bad.l_at_delta = fr_rand();
    assert!(matches!(
        verify(&pp, &statement, &bad),
        Err(Error::Pairing1Failed)
    ));

    // A wrong opening proof at zero breaks the second pairing check.
    let mut bad = prove(&pp, &witness, &statement).unwrap();
    bad.batch_proof_at_zero = bad.batch_proof_at_rand_point;
    assert!(matches!(
        verify(&pp, &statement, &bad),
        Err(Error::Pairing2Failed)
    ));
}
