//! The ways in which an instruction can be refused.

use vstd::prelude::*;
use vstd::std_specs::convert::FromSpecImpl;

verus! {

/// A refusal that is particular to quadratic-funding rounds.
#[derive(Clone, Copy, Debug, PartialEq, Eq, Structural)]
pub enum QFError {
    /// An owner, or an authority that signs for a vault, is not the expected one.
    OwnerMismatch,
    /// The round is not in the state that the instruction needs.
    RoundStatusError,
    /// The token account is not the round's vault.
    VaultMismatch,
    /// The project belongs to another round.
    RoundMismatch,
    /// The project has withdrawn already.
    ProjectAlreadyWithdraw,
    /// The account given as the system program is another.
    UnexpectedSystemProgramID,
    /// The account given as the token program is another.
    UnexpectedTokenProgramID,
    /// The account given as the associated token account program is another.
    UnexpectedAssociatedTokenAccountProgram,
    /// The voter record is not the one of this project and contributor.
    VoterMismatch,
}

impl QFError {
    /// The number that stands for the error outside the program.
    pub open spec fn code_spec(self) -> u32 {
        match self {
            QFError::OwnerMismatch => 0,
            QFError::RoundStatusError => 1,
            QFError::VaultMismatch => 2,
            QFError::RoundMismatch => 3,
            QFError::ProjectAlreadyWithdraw => 4,
            QFError::UnexpectedSystemProgramID => 5,
            QFError::UnexpectedTokenProgramID => 6,
            QFError::UnexpectedAssociatedTokenAccountProgram => 7,
            QFError::VoterMismatch => 8,
        }
    }

    /// The error that a number stands for, if any.
    pub open spec fn from_code_spec(code: u32) -> Option<QFError> {
        if code == 0 {
            Some(QFError::OwnerMismatch)
        } else if code == 1 {
            Some(QFError::RoundStatusError)
        } else if code == 2 {
            Some(QFError::VaultMismatch)
        } else if code == 3 {
            Some(QFError::RoundMismatch)
        } else if code == 4 {
            Some(QFError::ProjectAlreadyWithdraw)
        } else if code == 5 {
            Some(QFError::UnexpectedSystemProgramID)
        } else if code == 6 {
            Some(QFError::UnexpectedTokenProgramID)
        } else if code == 7 {
            Some(QFError::UnexpectedAssociatedTokenAccountProgram)
        } else if code == 8 {
            Some(QFError::VoterMismatch)
        } else {
            None
        }
    }

    /// The number that stands for the error outside the program.
    pub fn code(&self) -> (code: u32)
        ensures
            code == self.code_spec(),
    {
        match self {
            QFError::OwnerMismatch => 0,
            QFError::RoundStatusError => 1,
            QFError::VaultMismatch => 2,
            QFError::RoundMismatch => 3,
            QFError::ProjectAlreadyWithdraw => 4,
            QFError::UnexpectedSystemProgramID => 5,
            QFError::UnexpectedTokenProgramID => 6,
            QFError::UnexpectedAssociatedTokenAccountProgram => 7,
            QFError::VoterMismatch => 8,
        }
    }

    /// The error that `code` stands for, if any.
    pub fn from_code(code: u32) -> (error: Option<QFError>)
        ensures
            error == QFError::from_code_spec(code),
    {
        match code {
            0 => Some(QFError::OwnerMismatch),
            1 => Some(QFError::RoundStatusError),
            2 => Some(QFError::VaultMismatch),
            3 => Some(QFError::RoundMismatch),
            4 => Some(QFError::ProjectAlreadyWithdraw),
            5 => Some(QFError::UnexpectedSystemProgramID),
            6 => Some(QFError::UnexpectedTokenProgramID),
            7 => Some(QFError::UnexpectedAssociatedTokenAccountProgram),
            8 => Some(QFError::VoterMismatch),
            _ => None,
        }
    }

    /// The name under which the codes of this type are decoded.
    pub fn type_of() -> (name: &'static str)
        ensures
            name@ == "QFError"@,
    {
        "QFError"
    }

    /// The sentence that explains the error to a person.
    pub open spec fn message_spec(self) -> Seq<char> {
        match self {
            QFError::OwnerMismatch => "owner mismatch"@,
            QFError::RoundStatusError => "round status does not expected"@,
            QFError::VaultMismatch => "vault does not match"@,
            QFError::RoundMismatch => "round does not match"@,
            QFError::ProjectAlreadyWithdraw => "project has already withdraw"@,
            QFError::UnexpectedSystemProgramID => "unexpected system program id"@,
            QFError::UnexpectedTokenProgramID => "unexpected token program id"@,
            QFError::UnexpectedAssociatedTokenAccountProgram => {
                "unexpected asoociated token account program id"@
            },
            QFError::VoterMismatch => "voter mismatch"@,
        }
    }

    /// The sentence that explains the error to a person.
    pub fn message(&self) -> (text: &'static str)
        ensures
            text@ == self.message_spec(),
    {
        match self {
            QFError::OwnerMismatch => "owner mismatch",
            QFError::RoundStatusError => "round status does not expected",
            QFError::VaultMismatch => "vault does not match",
            QFError::RoundMismatch => "round does not match",
            QFError::ProjectAlreadyWithdraw => "project has already withdraw",
            QFError::UnexpectedSystemProgramID => "unexpected system program id",
            QFError::UnexpectedTokenProgramID => "unexpected token program id",
            QFError::UnexpectedAssociatedTokenAccountProgram => {
                "unexpected asoociated token account program id"
            },
            QFError::VoterMismatch => "voter mismatch",
        }
    }
}

/// Every error has a code, and the code gives the error back.
pub proof fn lemma_code_round_trip(error: QFError)
    ensures
        QFError::from_code_spec(error.code_spec()) == Some(error),
{
}

/// A number that stands for an error is that error's code.
pub proof fn lemma_from_code_is_inverse(code: u32)
    ensures
        QFError::from_code_spec(code) matches Some(error) ==> error.code_spec() == code,
        QFError::from_code_spec(code) is None <==> code > 8,
{
}

/// The reason for which an instruction was refused.
#[derive(Clone, Copy, Debug, PartialEq, Eq, Structural)]
pub enum ProgramError {
    /// A refusal particular to the program, by its code.
    Custom(u32),
    /// An argument of the instruction is not what it must be.
    InvalidArgument,
    /// The instruction's bytes do not decode.
    InvalidInstructionData,
    /// An account's bytes do not decode as the record expected there.
    InvalidAccountData,
    /// There is nothing to pay out.
    InsufficientFunds,
    /// An account does not belong to this program.
    IncorrectProgramId,
    /// An account that must have signed has not.
    MissingRequiredSignature,
    /// The record to create exists already.
    AccountAlreadyInitialized,
    /// The record to use was never created.
    UninitializedAccount,
    /// The instruction came with too few accounts.
    NotEnoughAccountKeys,
    /// The seeds yield no address that the program can sign for.
    InvalidSeeds,
    /// The account's balance does not exempt it from rent.
    AccountNotRentExempt,
    /// A checked operation failed: a number left the range in which it is
    /// kept, or a division was by zero.
    ArithmeticOverflow,
}

impl From<QFError> for ProgramError {
    fn from(error: QFError) -> (converted: ProgramError) {
        ProgramError::Custom(error.code())
    }
}

impl FromSpecImpl<QFError> for ProgramError {
    open spec fn obeys_from_spec() -> bool {
        true
    }

    open spec fn from_spec(error: QFError) -> ProgramError {
        ProgramError::Custom(error.code_spec())
    }
}

/// The refusal that stands for `error`.
pub open spec fn custom(error: QFError) -> ProgramError {
    ProgramError::Custom(error.code_spec())
}

} // verus!
