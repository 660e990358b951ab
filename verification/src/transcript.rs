//! Fiat-Shamir transcript.
//!
//! A thin, modeled layer over the backend transcript.  The model is the
//! sequence of events absorbed so far: each append and each challenge
//! draw is one event, tagged with its label.  The backend transcript is
//! deterministic, so the bytes a challenge yields are a function of the
//! event history and the label alone; that function is given a name, and
//! every squeezed field element is pinned to it.  Labels are fixed and
//! pairwise distinct as byte strings, so the event model is faithful to
//! the byte-level state.
use vstd::prelude::*;
use vstd::string::StringSliceAdditionalSpecFns;

use crate::backend::{
    fr_from_le_bytes_mod_order, fr_from_le_mod_of, ser_fr, ser_fr_of, ser_g1, ser_g1_of, G1Point,
    Scalar,
};

verus! {

#[verifier::external_type_specification]
#[verifier::external_body]
pub struct ExMerlinTranscript(merlin::Transcript);

/// The fixed transcript labels, one per distinct protocol message or
/// challenge.
#[derive(Clone, Copy, Debug)]
pub enum Label {
    ChallengeBeta,
    ChallengeGamma,
    ChallengeDelta,
    ChallengeEpsilon,
    ChallengeZeta,
    PublicParameters,
    Statement,
    G1L,
    G1R,
    G1Ql,
    G1Qr,
    G1BatchProofAtRandPoint,
    FrLAtZero,
    FrRAtZero,
    FrLAtDelta,
    FrRAtDelta,
    FrLvAtDelta,
    FrRvAtDelta,
    FrPlAtDelta,
    FrPrAtDelta,
    FrPmAtDelta,
}

impl Label {
    /// The label's byte string; the variants map to pairwise distinct
    /// byte strings.
    pub open spec fn spec_bytes(self) -> Seq<u8> {
        match self {
            Label::ChallengeBeta => "beta".spec_bytes(),
            Label::ChallengeGamma => "gamma".spec_bytes(),
            Label::ChallengeDelta => "delta".spec_bytes(),
            Label::ChallengeEpsilon => "epsilon".spec_bytes(),
            Label::ChallengeZeta => "zeta".spec_bytes(),
            Label::PublicParameters => "common_inputs".spec_bytes(),
            Label::Statement => "statement".spec_bytes(),
            Label::G1L => "g1_l".spec_bytes(),
            Label::G1R => "g1_r".spec_bytes(),
            Label::G1Ql => "g1_ql".spec_bytes(),
            Label::G1Qr => "g1_qr".spec_bytes(),
            Label::G1BatchProofAtRandPoint => "g1_batch_proof_at_rand_point".spec_bytes(),
            Label::FrLAtZero => "fr_l_at_zero".spec_bytes(),
            Label::FrRAtZero => "fr_r_at_zero".spec_bytes(),
            Label::FrLAtDelta => "fr_l_at_delta".spec_bytes(),
            Label::FrRAtDelta => "fr_r_at_delta".spec_bytes(),
            Label::FrLvAtDelta => "fr_ql_at_delta".spec_bytes(),
            Label::FrRvAtDelta => "fr_qr_at_delta".spec_bytes(),
            Label::FrPlAtDelta => "fr_pl_at_delta".spec_bytes(),
            Label::FrPrAtDelta => "fr_pr_at_delta".spec_bytes(),
            Label::FrPmAtDelta => "fr_pm_at_delta".spec_bytes(),
        }
    }

    /// The label's byte string.
    pub fn as_bytes(&self) -> (r: &'static [u8])
        ensures
            r@ == self.spec_bytes(),
    {
        match self {
            Label::ChallengeBeta => "beta".as_bytes(),
            Label::ChallengeGamma => "gamma".as_bytes(),
            Label::ChallengeDelta => "delta".as_bytes(),
            Label::ChallengeEpsilon => "epsilon".as_bytes(),
            Label::ChallengeZeta => "zeta".as_bytes(),
            Label::PublicParameters => "common_inputs".as_bytes(),
            Label::Statement => "statement".as_bytes(),
            Label::G1L => "g1_l".as_bytes(),
            Label::G1R => "g1_r".as_bytes(),
            Label::G1Ql => "g1_ql".as_bytes(),
            Label::G1Qr => "g1_qr".as_bytes(),
            Label::G1BatchProofAtRandPoint => "g1_batch_proof_at_rand_point".as_bytes(),
            Label::FrLAtZero => "fr_l_at_zero".as_bytes(),
            Label::FrRAtZero => "fr_r_at_zero".as_bytes(),
            Label::FrLAtDelta => "fr_l_at_delta".as_bytes(),
            Label::FrRAtDelta => "fr_r_at_delta".as_bytes(),
            Label::FrLvAtDelta => "fr_ql_at_delta".as_bytes(),
            Label::FrRvAtDelta => "fr_qr_at_delta".as_bytes(),
            Label::FrPlAtDelta => "fr_pl_at_delta".as_bytes(),
            Label::FrPrAtDelta => "fr_pr_at_delta".as_bytes(),
            Label::FrPmAtDelta => "fr_pm_at_delta".as_bytes(),
        }
    }
}

/// One absorbed event: a challenge draw `(true, label, empty)` or an
/// appended message `(false, label, payload)`.
pub type Event = (bool, Label, Seq<u8>);

/// The event of appending `payload` under `label`.
pub open spec fn spec_append_event(label: Label, payload: Seq<u8>) -> Event {
    (false, label, payload)
}

/// The event of drawing a challenge under `label`.
pub open spec fn spec_challenge_event(label: Label) -> Event {
    (true, label, Seq::<u8>::empty())
}

/// The 64 bytes the backend transcript yields for a challenge under
/// `label` after absorbing exactly the events in `history`: the backend
/// is deterministic, so they are a function of these alone.
pub uninterp spec fn challenge_bytes_of(history: Seq<Event>, label: Label) -> Seq<u8>;

/// A Fiat-Shamir transcript: the backend state plus the ghost history of
/// the events absorbed into it.
pub struct FsTranscript {
    inner: merlin::Transcript,
    history: Ghost<Seq<Event>>,
}

impl View for FsTranscript {
    type V = Seq<Event>;

    closed spec fn view(&self) -> Seq<Event> {
        self.history@
    }
}

impl FsTranscript {
    /// Relies on `merlin::Transcript::new`: a fresh transcript under the
    /// protocol's fixed domain separator, with nothing absorbed yet.
    #[verifier::external_body]
    pub fn new() -> (r: FsTranscript)
        ensures
            r@ == Seq::<Event>::empty(),
    {
        FsTranscript {
            inner: merlin::Transcript::new("Init SegLookup Transcript".as_bytes()),
            history: Ghost(vstd::pervasive::arbitrary()),
        }
    }

    /// Relies on `merlin::Transcript::append_message`: absorbs
    /// `label || message` into the state, deterministically.
    #[verifier::external_body]
    fn raw_append(&mut self, label: Label, message: &[u8])
        ensures
            final(self)@ == old(self)@.push(spec_append_event(label, message@)),
    {
        self.inner.append_message(label.as_bytes(), message);
    }

    /// Relies on `merlin::Transcript::challenge_bytes`: draws 64 bytes
    /// that are a deterministic function of the absorbed history and the
    /// label, and advances the state by that draw.
    #[verifier::external_body]
    fn raw_challenge_bytes(&mut self, label: Label) -> (r: Vec<u8>)
        ensures
            r@ == challenge_bytes_of(old(self)@, label),
            r@.len() == 64,
            final(self)@ == old(self)@.push(spec_challenge_event(label)),
    {
        let mut bytes = [0u8; 64];
        self.inner.challenge_bytes(label.as_bytes(), &mut bytes);
        bytes.to_vec()
    }

    /// Append a scalar under the label, in its canonical encoding.
    pub fn append_element_fr(&mut self, label: Label, element: &Scalar)
        ensures
            final(self)@ == old(self)@.push(spec_append_event(label, ser_fr_of(*element))),
    {
        let buf = ser_fr(element);
        self.raw_append(label, buf.as_slice());
    }

    /// Append a G1 point under the label, in its canonical encoding.
    pub fn append_element_g1(&mut self, label: Label, element: &G1Point)
        ensures
            final(self)@ == old(self)@.push(spec_append_event(label, ser_g1_of(*element))),
    {
        let buf = ser_g1(element);
        self.raw_append(label, buf.as_slice());
    }

    /// Append a byte string under the label, in the canonical encoding of
    /// a byte vector: its length as eight little-endian bytes, then the
    /// bytes.
    pub fn append_element_bytes(&mut self, label: Label, element: &Vec<u8>)
        ensures
            final(self)@ == old(self)@.push(spec_append_event(label, spec_vec_encoding(element@))),
    {
        let mut buf = u64_to_le_bytes(element.len() as u64);
        let mut i: usize = 0;
        let n = element.len();
        while i < n
            invariant
                i <= n,
                n == element@.len(),
                buf@ == spec_u64_le(n as u64) + element@.take(i as int),
            decreases n - i,
        {
            buf.push(element[i]);
            proof {
                assert(buf@ == spec_u64_le(n as u64) + element@.take(i + 1 as int));
            }
            i = i + 1;
        }
        proof {
            assert(element@.take(n as int) == element@);
        }
        self.raw_append(label, buf.as_slice());
    }

    /// The scalar squeezed for a challenge under `label` from a given
    /// history: the 64 drawn bytes reduced into the field.
    pub open spec fn spec_challenge_fr(history: Seq<Event>, label: Label) -> Scalar {
        fr_from_le_mod_of(challenge_bytes_of(history, label))
    }

    /// The history after a squeeze under `label`: the draw, then the
    /// derived challenge re-appended under the same label.
    pub open spec fn spec_after_squeeze(history: Seq<Event>, label: Label) -> Seq<Event> {
        history.push(spec_challenge_event(label)).push(
            spec_append_event(label, ser_fr_of(Self::spec_challenge_fr(history, label))),
        )
    }

    /// Draw a field-element challenge under the label and immediately
    /// re-append it under the same label, keeping both sides in lock-step.
    pub fn squeeze_challenge(&mut self, label: Label) -> (r: Scalar)
        ensures
            r == Self::spec_challenge_fr(old(self)@, label),
            final(self)@ == Self::spec_after_squeeze(old(self)@, label),
    {
        let bytes = self.raw_challenge_bytes(label);
        let challenge = fr_from_le_bytes_mod_order(bytes.as_slice());
        self.append_element_fr(label, &challenge);
        challenge
    }
}

impl Default for FsTranscript {
    /// A fresh transcript.
    fn default() -> (r: FsTranscript)
        ensures
            r@ == Seq::<Event>::empty(),
    {
        FsTranscript::new()
    }
}

/// The canonical encoding of a byte vector: its length as eight
/// little-endian bytes, then the bytes themselves.
pub open spec fn spec_vec_encoding(b: Seq<u8>) -> Seq<u8> {
    spec_u64_le(b.len() as u64) + b
}

/// The eight little-endian bytes of a 64-bit integer.
pub open spec fn spec_u64_le(x: u64) -> Seq<u8> {
    seq![
        (x & 0xff) as u8,
        ((x >> 8) & 0xff) as u8,
        ((x >> 16) & 0xff) as u8,
        ((x >> 24) & 0xff) as u8,
        ((x >> 32) & 0xff) as u8,
        ((x >> 40) & 0xff) as u8,
        ((x >> 48) & 0xff) as u8,
        ((x >> 56) & 0xff) as u8,
    ]
}

/// The eight little-endian bytes of a 64-bit integer.
pub fn u64_to_le_bytes(x: u64) -> (r: Vec<u8>)
    ensures
        r@ == spec_u64_le(x),
{
    let mut out: Vec<u8> = Vec::new();
    out.push((x & 0xff) as u8);
    out.push(((x >> 8) & 0xff) as u8);
    out.push(((x >> 16) & 0xff) as u8);
    out.push(((x >> 24) & 0xff) as u8);
    out.push(((x >> 32) & 0xff) as u8);
    out.push(((x >> 40) & 0xff) as u8);
    out.push(((x >> 48) & 0xff) as u8);
    out.push(((x >> 56) & 0xff) as u8);
    proof {
        assert(out@ =~= spec_u64_le(x));
    }
    out
}

/// Identical histories yield identical squeezed challenges: the squeeze
/// is a function of the absorbed events and the label alone.
pub proof fn lemma_challenge_deterministic(h1: Seq<Event>, h2: Seq<Event>, label: Label)
    requires
        h1 == h2,
    ensures
        FsTranscript::spec_challenge_fr(h1, label) == FsTranscript::spec_challenge_fr(h2, label),
        FsTranscript::spec_after_squeeze(h1, label) == FsTranscript::spec_after_squeeze(h2, label),
{
}

} // verus!
