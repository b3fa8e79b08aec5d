//! Failures that the operations of a session report.

use vstd::prelude::*;

verus! {

/// Why an operation on a session, a challenge or a username was refused.
#[derive(Clone, Copy, Debug, PartialEq, Eq, Structural)]
pub enum Error {
    GameNotFound,
    NotPlayer,
    AlreadyCommitted,
    BothPlayersNotCommitted,
    GameAlreadyEnded,
    InvalidProof,
    ProofVerificationFailed,
    InvalidMoveSequence,
    UsernameAlreadyTaken,
    UsernameTooLong,
    ChallengeNotFound,
    ChallengeExpired,
    CannotChallengeSelf,
    UsernameTooShort,
    InvalidUsernameFormat,
    UsernameReserved,
    AlreadyRevealed,
    CommitmentMismatch,
    InvalidPublicInputs,
}

impl Error {
    /// The number under which the error is reported to callers.
    pub open spec fn spec_code(self) -> u32 {
        match self {
            Error::GameNotFound => 1,
            Error::NotPlayer => 2,
            Error::AlreadyCommitted => 3,
            Error::BothPlayersNotCommitted => 4,
            Error::GameAlreadyEnded => 5,
            Error::InvalidProof => 6,
            Error::ProofVerificationFailed => 7,
            Error::InvalidMoveSequence => 8,
            Error::UsernameAlreadyTaken => 9,
            Error::UsernameTooLong => 10,
            Error::ChallengeNotFound => 11,
            Error::ChallengeExpired => 12,
            Error::CannotChallengeSelf => 13,
            Error::UsernameTooShort => 14,
            Error::InvalidUsernameFormat => 15,
            Error::UsernameReserved => 16,
            Error::AlreadyRevealed => 17,
            Error::CommitmentMismatch => 18,
            Error::InvalidPublicInputs => 19,
        }
    }

    /// The number under which the error is reported to callers.
    #[verifier::when_used_as_spec(spec_code)]
    pub fn code(self) -> (c: u32)
        ensures
            c == self.spec_code(),
    {
        match self {
            Error::GameNotFound => 1,
            Error::NotPlayer => 2,
            Error::AlreadyCommitted => 3,
            Error::BothPlayersNotCommitted => 4,
            Error::GameAlreadyEnded => 5,
            Error::InvalidProof => 6,
            Error::ProofVerificationFailed => 7,
            Error::InvalidMoveSequence => 8,
            Error::UsernameAlreadyTaken => 9,
            Error::UsernameTooLong => 10,
            Error::ChallengeNotFound => 11,
            Error::ChallengeExpired => 12,
            Error::CannotChallengeSelf => 13,
            Error::UsernameTooShort => 14,
            Error::InvalidUsernameFormat => 15,
            Error::UsernameReserved => 16,
            Error::AlreadyRevealed => 17,
            Error::CommitmentMismatch => 18,
            Error::InvalidPublicInputs => 19,
        }
    }
}

/// Why the proof gateway refused a proof.
#[derive(Clone, Copy, Debug, PartialEq, Eq, Structural)]
pub enum ClashError {
    CommitmentExists,
    NullifierUsed,
    VerificationFailed,
}

impl ClashError {
    /// The number under which the error is reported to callers.
    pub open spec fn spec_code(self) -> u32 {
        match self {
            ClashError::CommitmentExists => 1,
            ClashError::NullifierUsed => 2,
            ClashError::VerificationFailed => 3,
        }
    }

    /// The number under which the error is reported to callers.
    #[verifier::when_used_as_spec(spec_code)]
    pub fn code(self) -> (c: u32)
        ensures
            c == self.spec_code(),
    {
        match self {
            ClashError::CommitmentExists => 1,
            ClashError::NullifierUsed => 2,
            ClashError::VerificationFailed => 3,
        }
    }
}

} // verus!
