//! Failures that the programs report to the runtime.
use vstd::prelude::*;
use vstd::std_specs::convert::FromSpec;

verus! {

/// The failures that the programs of this crate return.
///
/// Each variant stands for the runtime error of the same name; `Custom`
/// carries a program-specific code, such as the code of a
/// [`FundraiserError`].
#[derive(Clone, Copy, Debug, PartialEq, Eq, Structural)]
pub enum ProgramError {
    Custom(u32),
    InvalidInstructionData,
    InvalidAccountData,
    MissingRequiredSignature,
    AccountAlreadyInitialized,
    UninitializedAccount,
    NotEnoughAccountKeys,
    IllegalOwner,
}

/// The fundraiser's own failures.
#[derive(Clone, Copy, Debug, PartialEq, Eq, Structural)]
pub enum FundraiserError {
    /// The amount to raise has not been met.
    TargetNotMet,
    /// The amount to raise has been achieved.
    TargetMet,
    /// The contribution is too big.
    ContributionTooBig,
    /// The contribution is too small.
    ContributionTooSmall,
    /// The maximum amount to contribute has been reached.
    MaximumContributionsReached,
    /// The fundraiser has not ended yet.
    FundraiserNotEnded,
    /// The fundraiser has ended.
    FundraiserEnded,
    /// Invalid total amount: it should be bigger than 3.
    InvalidAmount,
}

impl FundraiserError {
    /// The code of the error: its position in the declaration, from 0.
    pub open spec fn spec_code(self) -> u32 {
        match self {
            FundraiserError::TargetNotMet => 0,
            FundraiserError::TargetMet => 1,
            FundraiserError::ContributionTooBig => 2,
            FundraiserError::ContributionTooSmall => 3,
            FundraiserError::MaximumContributionsReached => 4,
            FundraiserError::FundraiserNotEnded => 5,
            FundraiserError::FundraiserEnded => 6,
            FundraiserError::InvalidAmount => 7,
        }
    }

    /// The code that the error carries as a custom program error.
    pub fn code(&self) -> (c: u32)
        ensures
            c == self.spec_code(),
    {
        match self {
            FundraiserError::TargetNotMet => 0,
            FundraiserError::TargetMet => 1,
            FundraiserError::ContributionTooBig => 2,
            FundraiserError::ContributionTooSmall => 3,
            FundraiserError::MaximumContributionsReached => 4,
            FundraiserError::FundraiserNotEnded => 5,
            FundraiserError::FundraiserEnded => 6,
            FundraiserError::InvalidAmount => 7,
        }
    }
}

impl From<FundraiserError> for ProgramError {
    fn from(e: FundraiserError) -> (r: ProgramError) {
        ProgramError::Custom(e.code())
    }
}

impl vstd::std_specs::convert::FromSpecImpl<FundraiserError> for ProgramError {
    open spec fn obeys_from_spec() -> bool {
        true
    }

    open spec fn from_spec(e: FundraiserError) -> ProgramError {
        ProgramError::Custom(e.spec_code())
    }
}

/// Distinct fundraiser errors reach the runtime as distinct program errors.
pub proof fn lemma_fundraiser_codes_distinct(a: FundraiserError, b: FundraiserError)
    requires
        a != b,
    ensures
        ProgramError::from_spec(a) != ProgramError::from_spec(b),
        a.spec_code() != b.spec_code(),
{
}

} // verus!
