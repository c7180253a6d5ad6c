//! The failure codes that the escrow program hands back to its host.

use vstd::prelude::*;
use vstd::std_specs::convert::FromSpecImpl;
use vstd::std_specs::convert::TryFromSpecImpl;

verus! {

/// The reasons for which the host sees an instruction fail.
///
/// `Custom` carries a code of the program's own; the other variants are the
/// host's built-in reasons.
#[derive(Clone, Copy, Debug, PartialEq, Eq, Structural)]
pub enum ProgramError {
    Custom(u32),
    InvalidArgument,
    InvalidInstructionData,
    InvalidAccountData,
    AccountDataTooSmall,
    InsufficientFunds,
    IncorrectProgramId,
    MissingRequiredSignature,
    AccountAlreadyInitialized,
    UninitializedAccount,
    NotEnoughAccountKeys,
    AccountBorrowFailed,
    MaxSeedLengthExceeded,
    InvalidSeeds,
    BorshIoError,
    AccountNotRentExempt,
    UnsupportedSysvar,
    IllegalOwner,
    MaxAccountsDataAllocationsExceeded,
    InvalidRealloc,
    MaxInstructionTraceLengthExceeded,
    BuiltinProgramsMustConsumeComputeUnits,
    InvalidAccountOwner,
    ArithmeticOverflow,
    Immutable,
    IncorrectAuthority,
}

/// The failures that the account checks of this program report.
#[derive(Clone, Copy, Debug, PartialEq, Eq, Structural)]
pub enum PinocchioError {
    /// Lamport balance below rent-exempt threshold.
    NotRentExempt,
    /// Account is not a signer.
    NotSigner,
    /// Account owner is invalid.
    InvalidOwner,
    /// Account is not owned by the program.
    NotProgramOwner,
    /// Account data is invalid.
    InvalidAccountData,
    /// Account address is invalid.
    InvalidAddress,
}

impl PinocchioError {
    /// The position of the variant in the enumeration, which is the code that the
    /// host sees.
    pub open spec fn spec_code(self) -> u32 {
        match self {
            PinocchioError::NotRentExempt => 0,
            PinocchioError::NotSigner => 1,
            PinocchioError::InvalidOwner => 2,
            PinocchioError::NotProgramOwner => 3,
            PinocchioError::InvalidAccountData => 4,
            PinocchioError::InvalidAddress => 5,
        }
    }

    /// The variant that stands at position `code`, if there is one.
    pub open spec fn spec_of_code(code: u32) -> Option<PinocchioError> {
        if code == 0 {
            Some(PinocchioError::NotRentExempt)
        } else if code == 1 {
            Some(PinocchioError::NotSigner)
        } else if code == 2 {
            Some(PinocchioError::InvalidOwner)
        } else if code == 3 {
            Some(PinocchioError::NotProgramOwner)
        } else if code == 4 {
            Some(PinocchioError::InvalidAccountData)
        } else if code == 5 {
            Some(PinocchioError::InvalidAddress)
        } else {
            None
        }
    }

    /// The line that the program logs for this failure.
    pub open spec fn spec_to_str(self) -> Seq<char> {
        match self {
            PinocchioError::NotRentExempt => "Error: Lamport balance below rent-exempt threshold"@,
            PinocchioError::NotSigner => "Error: Account is not a signer"@,
            PinocchioError::InvalidOwner => "Error: Account owner is invalid"@,
            PinocchioError::NotProgramOwner => "Error: Account is not owned by the program"@,
            PinocchioError::InvalidAccountData => "Error: Account data is invalid"@,
            PinocchioError::InvalidAddress => "Error: Account Address is invalid"@,
        }
    }

    /// The sentence that describes this failure to a person.
    pub open spec fn spec_message(self) -> Seq<char> {
        match self {
            PinocchioError::NotRentExempt => "Lamport balance below rent-exempt threshold"@,
            PinocchioError::NotSigner => "Account is not a signer"@,
            PinocchioError::InvalidOwner => "Account owner is invalid"@,
            PinocchioError::NotProgramOwner => "Account is not owned by the program"@,
            PinocchioError::InvalidAccountData => "Account data is invalid"@,
            PinocchioError::InvalidAddress => "Account Address is invalid"@,
        }
    }

    /// The code under which the host reports this failure.
    pub fn code(&self) -> (code: u32)
        ensures
            code == self.spec_code(),
            PinocchioError::spec_of_code(code) == Some(*self),
    {
        match self {
            PinocchioError::NotRentExempt => 0,
            PinocchioError::NotSigner => 1,
            PinocchioError::InvalidOwner => 2,
            PinocchioError::NotProgramOwner => 3,
            PinocchioError::InvalidAccountData => 4,
            PinocchioError::InvalidAddress => 5,
        }
    }

    /// The line that the program logs for this failure.
    pub fn to_str(&self) -> (text: &'static str)
        ensures
            text@ == self.spec_to_str(),
    {
        match self {
            PinocchioError::NotRentExempt => "Error: Lamport balance below rent-exempt threshold",
            PinocchioError::NotSigner => "Error: Account is not a signer",
            PinocchioError::InvalidOwner => "Error: Account owner is invalid",
            PinocchioError::NotProgramOwner => "Error: Account is not owned by the program",
            PinocchioError::InvalidAccountData => "Error: Account data is invalid",
            PinocchioError::InvalidAddress => "Error: Account Address is invalid",
        }
    }

    /// The sentence that describes this failure to a person.
    pub fn message(&self) -> (text: &'static str)
        ensures
            text@ == self.spec_message(),
    {
        match self {
            PinocchioError::NotRentExempt => "Lamport balance below rent-exempt threshold",
            PinocchioError::NotSigner => "Account is not a signer",
            PinocchioError::InvalidOwner => "Account owner is invalid",
            PinocchioError::NotProgramOwner => "Account is not owned by the program",
            PinocchioError::InvalidAccountData => "Account data is invalid",
            PinocchioError::InvalidAddress => "Account Address is invalid",
        }
    }
}

impl From<PinocchioError> for ProgramError {
    /// A failure of the program's own reaches the host as `Custom` with its code.
    fn from(e: PinocchioError) -> (r: ProgramError) {
        ProgramError::Custom(e.code())
    }
}

impl FromSpecImpl<PinocchioError> for ProgramError {
    open spec fn obeys_from_spec() -> bool {
        true
    }

    open spec fn from_spec(e: PinocchioError) -> ProgramError {
        ProgramError::Custom(e.spec_code())
    }
}

impl TryFrom<u32> for PinocchioError {
    type Error = ProgramError;

    /// The failure that the code stands for; a code that stands for none is an
    /// invalid argument.
    fn try_from(error: u32) -> (r: Result<PinocchioError, ProgramError>) {
        match error {
            0 => Ok(PinocchioError::NotRentExempt),
            1 => Ok(PinocchioError::NotSigner),
            2 => Ok(PinocchioError::InvalidOwner),
            3 => Ok(PinocchioError::NotProgramOwner),
            4 => Ok(PinocchioError::InvalidAccountData),
            5 => Ok(PinocchioError::InvalidAddress),
            _ => Err(ProgramError::InvalidArgument),
        }
    }
}

impl TryFromSpecImpl<u32> for PinocchioError {
    open spec fn obeys_try_from_spec() -> bool {
        true
    }

    open spec fn try_from_spec(error: u32) -> Result<PinocchioError, ProgramError> {
        match PinocchioError::spec_of_code(error) {
            Some(e) => Ok(e),
            None => Err(ProgramError::InvalidArgument),
        }
    }
}

/// Every failure of the program is found again from the code under which the host
/// reports it, and a code above the last variant stands for none.
pub proof fn lemma_code_round_trip(e: PinocchioError, code: u32)
    ensures
        PinocchioError::spec_of_code(e.spec_code()) == Some(e),
        PinocchioError::spec_of_code(code) matches Some(f) ==> f.spec_code() == code,
        PinocchioError::spec_of_code(code) is None <==> code > 5,
{
}

} // verus!
