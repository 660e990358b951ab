use ark_isep::backend::{fr_eq, fr_from_u64, ser_fr};
use ark_isep::transcript::{FsTranscript, Label};

#[test]
fn identical_append_sequences_yield_identical_challenges() {
    let a = fr_from_u64(11);
    let b = fr_from_u64(22);

    let mut t1 = FsTranscript::new();
    t1.append_element_fr(Label::Statement, &a);
    t1.append_element_fr(Label::PublicParameters, &b);
    let c1 = t1.squeeze_challenge(Label::ChallengeBeta);

    let mut t2 = FsTranscript::new();
    t2.append_element_fr(Label::Statement, &a);
    t2.append_element_fr(Label::PublicParameters, &b);
    let c2 = t2.squeeze_challenge(Label::ChallengeBeta);

    assert!(fr_eq(&c1, &c2));

    // The re-appended challenge keeps both transcripts in lock-step.
    let d1 = t1.squeeze_challenge(Label::ChallengeGamma);
    let d2 = t2.squeeze_challenge(Label::ChallengeGamma);
    assert!(fr_eq(&d1, &d2));
    assert!(!fr_eq(&c1, &d1));
}

#[test]
fn permuted_append_order_changes_challenges() {
    let a = fr_from_u64(11);
    let b = fr_from_u64(22);

    let mut t1 = FsTranscript::new();
    t1.append_element_fr(Label::Statement, &a);
    t1.append_element_fr(Label::PublicParameters, &b);
    let c1 = t1.squeeze_challenge(Label::ChallengeBeta);

    let mut t2 = FsTranscript::new();
    t2.append_element_fr(Label::PublicParameters, &b);
    t2.append_element_fr(Label::Statement, &a);
    let c2 = t2.squeeze_challenge(Label::ChallengeBeta);

    assert!(!fr_eq(&c1, &c2));
}

#[test]
fn different_appended_values_change_challenges() {
    let mut t1 = FsTranscript::new();
    t1.append_element_fr(Label::Statement, &fr_from_u64(1));
    let c1 = t1.squeeze_challenge(Label::ChallengeBeta);

    let mut t2 = FsTranscript::new();
    t2.append_element_fr(Label::Statement, &fr_from_u64(2));
    let c2 = t2.squeeze_challenge(Label::ChallengeBeta);

    assert!(!fr_eq(&c1, &c2));
}

#[test]
fn different_challenge_labels_differ() {
    let mut t1 = FsTranscript::new();
    let c1 = t1.squeeze_challenge(Label::ChallengeBeta);
    let mut t2 = FsTranscript::new();
    let c2 = t2.squeeze_challenge(Label::ChallengeGamma);
    assert!(!fr_eq(&c1, &c2));
}

#[test]
fn labels_are_pairwise_distinct_byte_strings() {
    let labels = [
        Label::ChallengeBeta,
        Label::ChallengeGamma,
        Label::ChallengeDelta,
        Label::ChallengeEpsilon,
        Label::ChallengeZeta,
        Label::PublicParameters,
        Label::Statement,
        Label::G1L,
        Label::G1R,
        Label::G1Ql,
        Label::G1Qr,
        Label::G1BatchProofAtRandPoint,
        Label::FrLAtZero,
        Label::FrRAtZero,
        Label::FrLAtDelta,
        Label::FrRAtDelta,
        Label::FrLvAtDelta,
        Label::FrRvAtDelta,
        Label::FrPlAtDelta,
        Label::FrPrAtDelta,
        Label::FrPmAtDelta,
    ];
    for i in 0..labels.len() {
        for j in 0..labels.len() {
            if i != j {
                assert_ne!(labels[i].as_bytes(), labels[j].as_bytes());
            }
        }
    }
    assert_eq!(Label::ChallengeBeta.as_bytes(), "beta".as_bytes());
}

#[test]
fn squeezed_challenge_is_the_reduced_draw() {
    // A challenge squeezed twice from identically built transcripts has
    // one canonical encoding.
    let mut t1 = FsTranscript::new();
    let mut t2 = FsTranscript::new();
    let c1 = t1.squeeze_challenge(Label::ChallengeDelta);
    let c2 = t2.squeeze_challenge(Label::ChallengeDelta);
    assert_eq!(ser_fr(&c1), ser_fr(&c2));
}
