//! The reasons for which a submission is refused.

use vstd::prelude::*;

verus! {

/// Why a contract call is refused.
#[derive(Debug, Clone, Copy, PartialEq, Eq, Structural)]
pub enum Error {
    InvalidSince,
    InvalidOutputTypeHash,
    InvalidOutputLockHash,
    InvalidAggregatorIndex,
    InvalidChallengerIndex,
    InvalidChallengeContext,
    InvalidWitness,
    IncorrectCapacity,
    InvalidAccountCount,
    InvalidAccountIndex,
    InvalidAccountScript,
    InvalidAccountNonce,
    InvalidDepositAmount,
    InvalidGlobalState,
    InvalidAccountMerkleProof,
    InvalidBlockMerkleProof,
    InvalidAggregator,
    InvalidTxRoot,
    InvalidAccountRoot,
    InvalidSignature,
    IncorrectAgIndex,
    TryRevertRevertedBlock,
    InvalidNewAccountRoot,
    InvalidScript,
    InvalidChallengeCell,
}

impl Error {
    /// The exit code under which the chain reports each error.
    pub open spec fn spec_code(self) -> i8 {
        match self {
            Error::InvalidSince => -5i8,
            Error::InvalidOutputTypeHash => -6i8,
            Error::InvalidOutputLockHash => -7i8,
            Error::InvalidAggregatorIndex => -8i8,
            Error::InvalidChallengerIndex => -9i8,
            Error::InvalidChallengeContext => -10i8,
            Error::InvalidWitness => -11i8,
            Error::IncorrectCapacity => -12i8,
            Error::InvalidAccountCount => -110i8,
            Error::InvalidAccountIndex => -13i8,
            Error::InvalidAccountScript => -14i8,
            Error::InvalidAccountNonce => -15i8,
            Error::InvalidDepositAmount => -16i8,
            Error::InvalidGlobalState => -17i8,
            Error::InvalidAccountMerkleProof => -18i8,
            Error::InvalidBlockMerkleProof => -19i8,
            Error::InvalidAggregator => -20i8,
            Error::InvalidTxRoot => -21i8,
            Error::InvalidAccountRoot => -22i8,
            Error::InvalidSignature => -23i8,
            Error::IncorrectAgIndex => -27i8,
            Error::TryRevertRevertedBlock => -33i8,
            Error::InvalidNewAccountRoot => -36i8,
            Error::InvalidScript => -38i8,
            Error::InvalidChallengeCell => -39i8,
        }
    }

    /// The exit code under which the chain reports this error.
    pub fn code(self) -> (code: i8)
        ensures
            code == self.spec_code(),
    {
        match self {
            Error::InvalidSince => -5,
            Error::InvalidOutputTypeHash => -6,
            Error::InvalidOutputLockHash => -7,
            Error::InvalidAggregatorIndex => -8,
            Error::InvalidChallengerIndex => -9,
            Error::InvalidChallengeContext => -10,
            Error::InvalidWitness => -11,
            Error::IncorrectCapacity => -12,
            Error::InvalidAccountCount => -110,
            Error::InvalidAccountIndex => -13,
            Error::InvalidAccountScript => -14,
            Error::InvalidAccountNonce => -15,
            Error::InvalidDepositAmount => -16,
            Error::InvalidGlobalState => -17,
            Error::InvalidAccountMerkleProof => -18,
            Error::InvalidBlockMerkleProof => -19,
            Error::InvalidAggregator => -20,
            Error::InvalidTxRoot => -21,
            Error::InvalidAccountRoot => -22,
            Error::InvalidSignature => -23,
            Error::IncorrectAgIndex => -27,
            Error::TryRevertRevertedBlock => -33,
            Error::InvalidNewAccountRoot => -36,
            Error::InvalidScript => -38,
            Error::InvalidChallengeCell => -39,
        }
    }
}

} // verus!
