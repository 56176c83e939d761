//! The program's errors and the numbers under which the runtime reports them.
use vstd::prelude::*;

verus! {

/// The program's own failures. The runtime reports each as a custom error whose number is
/// [`EscrowError::custom_code`]; clients map the number back to a message.
#[derive(Clone, Copy, Debug, PartialEq, Eq, Structural)]
pub enum EscrowError {
    MissingRequiredSignature,
    InvalidProgram,
    InvalidOwner,
    InvalidAccountData,
    InvalidInstruction,
    InvalidAmount,
    InvalidAddress,
    InvalidEscrowState,
}

impl EscrowError {
    /// The stable number of each error.
    pub open spec fn code_of(self) -> u32 {
        match self {
            EscrowError::MissingRequiredSignature => 0,
            EscrowError::InvalidProgram => 1,
            EscrowError::InvalidOwner => 2,
            EscrowError::InvalidAccountData => 3,
            EscrowError::InvalidInstruction => 4,
            EscrowError::InvalidAmount => 5,
            EscrowError::InvalidAddress => 6,
            EscrowError::InvalidEscrowState => 7,
        }
    }

    /// The number under which the runtime reports this error (`Custom(code)`).
    pub fn custom_code(&self) -> (code: u32)
        ensures
            code == self.code_of(),
    {
        match self {
            EscrowError::MissingRequiredSignature => 0,
            EscrowError::InvalidProgram => 1,
            EscrowError::InvalidOwner => 2,
            EscrowError::InvalidAccountData => 3,
            EscrowError::InvalidInstruction => 4,
            EscrowError::InvalidAmount => 5,
            EscrowError::InvalidAddress => 6,
            EscrowError::InvalidEscrowState => 7,
        }
    }
}

/// Distinct errors are reported under distinct numbers, all below 8, so a client can always
/// tell which error the program raised.
pub proof fn lemma_codes_distinct(a: EscrowError, b: EscrowError)
    ensures
        a.code_of() < 8,
        a != b ==> a.code_of() != b.code_of(),
{
}

/// Why an instruction failed, as far as the program decides it.
#[derive(Clone, Copy, Debug, PartialEq, Eq, Structural)]
pub enum ProgramError {
    /// One of the program's own errors, reported as a custom error code.
    Custom(EscrowError),
    /// Fewer accounts were passed than the instruction names.
    NotEnoughAccountKeys,
    /// No bump seed gives an address off the curve; the address search aborts the program.
    NoViableBump,
    /// An argument is out of range; the rent-exempt minimum cannot be computed.
    InvalidArgument,
    /// A failure that the runtime or another program reported, as its error number.
    Runtime(u64),
}

impl From<EscrowError> for ProgramError {
    fn from(value: EscrowError) -> (r: ProgramError) {
        ProgramError::Custom(value)
    }
}

impl vstd::std_specs::convert::FromSpecImpl<EscrowError> for ProgramError {
    open spec fn obeys_from_spec() -> bool {
        true
    }

    open spec fn from_spec(value: EscrowError) -> ProgramError {
        ProgramError::Custom(value)
    }
}

/// The failure that carries one of the program's own errors.
pub open spec fn fail<T>(e: EscrowError) -> Result<T, ProgramError> {
    Err(ProgramError::Custom(e))
}

} // verus!
