//! Error taxonomy of the argument system.
//!
//! Shape errors are detected at the call site; algebraic failures signal a
//! collision or a construction bug; the three verification failures are the
//! normal rejection outcomes, in the fixed order the verifier checks them.
use vstd::prelude::*;

verus! {

#[derive(Debug)]
pub enum Error {
    MissingParameter(&'static str),
    InvalidEvaluationDomainSize(usize),
    InvalidSegmentSize(usize),
    InputShouldBePowerOfTwo(usize),
    InputIsTooLarge(usize),
    FailedToCreateEvaluationDomain,
    FailedToInverseFieldElement,
    LeftIndicesCannotBeNone,
    RightIndicesCannotBeNone,
    IndexMappingCannotBeNone,
    WrongNumberOfLeftValues(usize),
    WrongNumberOfRightValues(usize),
    FailedToSerializeElement,
    RemainderAfterDivisionIsNonZero,
    FailedToCreateCosetOfEvaluationDomain,
    Pairing1Failed,
    Pairing2Failed,
    EqualityCheckFailed,
}

} // verus!
