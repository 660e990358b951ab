use ark_isep::backend::{
    blake2b512, fr_add, fr_eq, fr_from_u64, fr_inverse, fr_mul, fr_pow, fr_rand, fr_sub, g1_add,
    g1_mul, g1_sub, gt_eq, pairing, poly_div_linear, poly_eval, ser_fr, ser_g1, Scalar,
};
use ark_isep::domain::{
    coset, create_domain, create_domain_with_generator, create_sub_domain,
    divide_by_vanishing_poly_on_coset_in_place, domain_fft, domain_ifft, is_power_of_two,
    roots_of_unity,
};
use ark_isep::error::Error;
use ark_isep::kzg::{
    powers_of_scalars, unsafe_setup_from_rng, unsafe_setup_from_tau,
    vanishing_polynomial_commitment, Kzg,
};
use ark_isep::public_parameters::{serialize_usize, validate_input};
use ark_serialize::CanonicalSerialize;
use blake2::Digest;

#[test]
fn test_coset() {
    let domain_1 = create_domain(None, 16).unwrap();
    let domain_2 = create_sub_domain(&domain_1, 4, 4).unwrap();
    let enc = |v: &Vec<Scalar>| -> Vec<Vec<u8>> { v.iter().map(|e| ser_fr(e)).collect() };
    println!("domain_1 elements: {:?}", enc(&roots_of_unity(&domain_1)));
    println!("domain_2 elements: {:?}", enc(&roots_of_unity(&domain_2)));

    let five = fr_from_u64(5);
    let domain_1_coset = coset(&domain_1, five).unwrap();
    let domain_2_coset = coset(&domain_2, five).unwrap();
    println!("domain_1 coset: {:?}", enc(&roots_of_unity(&domain_1_coset)));
    println!("domain_2 coset: {:?}", enc(&roots_of_unity(&domain_2_coset)));
}

#[test]
fn fft_round_trip_and_evaluation() {
    let domain = create_domain(None, 8).unwrap();
    let coeffs: Vec<Scalar> = (0..8).map(|_| fr_rand()).collect();
    let evals = domain_fft(&domain, &coeffs);
    let back = domain_ifft(&domain, &evals);
    assert_eq!(back.len(), 8);
    for i in 0..8 {
        assert!(fr_eq(&back[i], &coeffs[i]));
    }
    // Evaluating the polynomial at each domain element reproduces the
    // evaluation vector.
    let elements = roots_of_unity(&domain);
    for i in 0..8 {
        assert!(fr_eq(&poly_eval(&coeffs, &elements[i]), &evals[i]));
    }
}

#[test]
fn ifft_interpolates() {
    let domain = create_domain(None, 4).unwrap();
    let values: Vec<Scalar> = (0..4).map(|_| fr_rand()).collect();
    let poly = domain_ifft(&domain, &values);
    let elements = roots_of_unity(&domain);
    for i in 0..4 {
        assert!(fr_eq(&poly_eval(&poly, &elements[i]), &values[i]));
    }
}

#[test]
fn domain_creation_errors() {
    assert!(matches!(
        create_domain(None, 3),
        Err(Error::InvalidEvaluationDomainSize(3))
    ));
    assert!(matches!(
        create_domain(None, 1 << 29),
        Err(Error::InvalidEvaluationDomainSize(_))
    ));
    assert!(matches!(
        create_domain_with_generator(fr_from_u64(7), 12),
        Err(Error::InvalidEvaluationDomainSize(12))
    ));
    assert!(matches!(
        create_sub_domain(&create_domain(None, 16).unwrap(), 4, 0),
        Err(Error::InvalidSegmentSize(0))
    ));
    assert!(matches!(
        create_sub_domain(&create_domain(None, 16).unwrap(), 4, 32),
        Err(Error::InvalidSegmentSize(32))
    ));
}

#[test]
fn validate_input_cases() {
    assert!(validate_input(8, None).is_ok());
    assert!(matches!(
        validate_input(9, None),
        Err(Error::InputShouldBePowerOfTwo(9))
    ));
    assert!(matches!(
        validate_input(16, Some(8)),
        Err(Error::InputIsTooLarge(16))
    ));
    assert!(validate_input(8, Some(8)).is_ok());
    assert!(is_power_of_two(1));
    assert!(!is_power_of_two(0));
    assert!(!is_power_of_two(12));
}

#[test]
fn serialize_usize_little_endian() {
    let mut buf = Vec::new();
    serialize_usize(0x0102030405060708usize, &mut buf);
    assert_eq!(buf, vec![0x08, 0x07, 0x06, 0x05, 0x04, 0x03, 0x02, 0x01]);
}

#[test]
fn powers_and_field_ops() {
    let s = fr_from_u64(3);
    let powers = powers_of_scalars(&s, 4);
    assert!(fr_eq(&powers[0], &fr_from_u64(1)));
    assert!(fr_eq(&powers[1], &fr_from_u64(3)));
    assert!(fr_eq(&powers[2], &fr_from_u64(9)));
    assert!(fr_eq(&powers[3], &fr_from_u64(27)));

    assert!(fr_eq(
        &fr_add(&fr_from_u64(2), &fr_from_u64(3)),
        &fr_from_u64(5)
    ));
    assert!(fr_eq(
        &fr_sub(&fr_from_u64(7), &fr_from_u64(3)),
        &fr_from_u64(4)
    ));
    assert!(fr_eq(
        &fr_mul(&fr_from_u64(6), &fr_from_u64(7)),
        &fr_from_u64(42)
    ));
    assert!(fr_eq(&fr_pow(&fr_from_u64(2), 10), &fr_from_u64(1024)));
    let inv3 = fr_inverse(&fr_from_u64(3)).unwrap();
    assert!(fr_eq(&fr_mul(&inv3, &fr_from_u64(3)), &fr_from_u64(1)));
    assert!(fr_inverse(&fr_from_u64(0)).is_none());
}

#[test]
fn poly_division_by_linear() {
    // (x - 2)(x - 3) = x^2 - 5x + 6 divided by (x - 2) is (x - 3).
    let zero = fr_from_u64(0);
    let coeffs = vec![
        fr_from_u64(6),
        fr_sub(&zero, &fr_from_u64(5)),
        fr_from_u64(1),
    ];
    let q = poly_div_linear(&coeffs, &fr_from_u64(2));
    assert_eq!(q.len(), 2);
    assert!(fr_eq(&q[0], &fr_sub(&zero, &fr_from_u64(3))));
    assert!(fr_eq(&q[1], &fr_from_u64(1)));
}

#[test]
fn kzg_open_satisfies_pairing_equation() {
    let (g1_srs, g2_srs) = unsafe_setup_from_rng(8);
    let poly: Vec<Scalar> = (0..8).map(|_| fr_rand()).collect();
    let commitment = Kzg::commit(&g1_srs, &poly);
    let z = fr_rand();
    let (y, pi) = Kzg::open(&g1_srs, &poly, &z);
    assert!(fr_eq(&y, &poly_eval(&poly, &z)));

    // e(C - y*[1]G1 + z*pi, G2_0) == e(pi, G2_1)
    let lhs = g1_add(
        &g1_sub(&commitment, &g1_mul(&g1_srs[0], &y)),
        &g1_mul(&pi, &z),
    );
    assert!(gt_eq(&pairing(&lhs, &g2_srs[0]), &pairing(&pi, &g2_srs[1])));

    // A wrong claimed value must fail the equation.
    let bad_y = fr_add(&y, &fr_from_u64(1));
    let bad_lhs = g1_add(
        &g1_sub(&commitment, &g1_mul(&g1_srs[0], &bad_y)),
        &g1_mul(&pi, &z),
    );
    assert!(!gt_eq(
        &pairing(&bad_lhs, &g2_srs[0]),
        &pairing(&pi, &g2_srs[1])
    ));
}

#[test]
fn kzg_batch_open_satisfies_pairing_equation() {
    let (g1_srs, g2_srs) = unsafe_setup_from_tau(8, fr_from_u64(987654321));
    let p0: Vec<Scalar> = (0..8).map(|_| fr_rand()).collect();
    let p1: Vec<Scalar> = (0..5).map(|_| fr_rand()).collect();
    let p2: Vec<Scalar> = (0..8).map(|_| fr_rand()).collect();
    let polys = vec![p0.clone(), p1.clone(), p2.clone()];
    let z = fr_rand();
    let sep = fr_rand();
    let pi = Kzg::batch_open(&g1_srs, &polys, &z, &sep);

    // e(sum sep^k*C_k - [sum sep^k*y_k]G1 + z*pi, G2_0) == e(pi, G2_1)
    let cs = [
        Kzg::commit(&g1_srs, &p0),
        Kzg::commit(&g1_srs, &p1),
        Kzg::commit(&g1_srs, &p2),
    ];
    let ys = [
        poly_eval(&p0, &z),
        poly_eval(&p1, &z),
        poly_eval(&p2, &z),
    ];
    let powers = powers_of_scalars(&sep, 3);
    let mut acc = g1_mul(&cs[0], &powers[0]);
    let mut acc_y = fr_mul(&ys[0], &powers[0]);
    for k in 1..3 {
        acc = g1_add(&acc, &g1_mul(&cs[k], &powers[k]));
        acc_y = fr_add(&acc_y, &fr_mul(&ys[k], &powers[k]));
    }
    let lhs = g1_add(&g1_sub(&acc, &g1_mul(&g1_srs[0], &acc_y)), &g1_mul(&pi, &z));
    assert!(gt_eq(&pairing(&lhs, &g2_srs[0]), &pairing(&pi, &g2_srs[1])));
}

#[test]
fn commitment_matches_generator_multiple() {
    // Committing to the constant polynomial [s] is s times the first
    // reference-string element.
    let (g1_srs, _) = unsafe_setup_from_rng(4);
    let s = fr_rand();
    let c = Kzg::commit(&g1_srs, &vec![s]);
    assert_eq!(ser_g1(&c), ser_g1(&g1_mul(&g1_srs[0], &s)));
}

#[test]
fn vanishing_commitment_matches_manual_coefficients() {
    let (g1_srs, _) = unsafe_setup_from_rng(8);
    let domain = create_domain(None, 8).unwrap();
    let c = vanishing_polynomial_commitment(&g1_srs, &domain);
    let zero = fr_from_u64(0);
    let mut coeffs = vec![fr_sub(&zero, &fr_from_u64(1))];
    for _ in 1..8 {
        coeffs.push(zero);
    }
    coeffs.push(fr_from_u64(1));
    assert_eq!(ser_g1(&c), ser_g1(&Kzg::commit(&g1_srs, &coeffs)));
}

#[test]
fn coset_division_scales_by_vanishing_value() {
    let domain = create_domain(None, 4).unwrap();
    let mut values: Vec<Scalar> = (0..4).map(|_| fr_rand()).collect();
    let before = values.clone();
    divide_by_vanishing_poly_on_coset_in_place(&domain, &mut values).unwrap();
    // 5^4 - 1 is the constant value of X^4 - 1 on the coset 5*H.
    let v = fr_sub(&fr_pow(&fr_from_u64(5), 4), &fr_from_u64(1));
    for i in 0..4 {
        assert!(fr_eq(&fr_mul(&values[i], &v), &before[i]));
    }
}

#[test]
fn blake2b_matches_reference_implementation() {
    let data = vec![1u8, 2, 3, 4, 5];
    let ours = blake2b512(&data);
    let reference = blake2::Blake2b512::digest(&data).to_vec();
    assert_eq!(ours, reference);
    let other = blake2b512(&vec![1u8, 2, 3, 4, 6]);
    assert_ne!(ours, other);
}

#[test]
fn scalar_serialization_matches_backend() {
    let ours = ser_fr(&fr_from_u64(123456));
    let mut reference = Vec::new();
    ark_bn254::Fr::from(123456u64)
        .serialize_uncompressed(&mut reference)
        .unwrap();
    assert_eq!(ours, reference);
}
