use quadratic_funding::error::{ProgramError, QFError};

const ALL: [QFError; 9] = [
    QFError::OwnerMismatch,
    QFError::RoundStatusError,
    QFError::VaultMismatch,
    QFError::RoundMismatch,
    QFError::ProjectAlreadyWithdraw,
    QFError::UnexpectedSystemProgramID,
    QFError::UnexpectedTokenProgramID,
    QFError::UnexpectedAssociatedTokenAccountProgram,
    QFError::VoterMismatch,
];

#[test]
fn codes_count_from_zero_in_order() {
    for (i, e) in ALL.iter().enumerate() {
        assert_eq!(e.code(), i as u32);
    }
}

#[test]
fn from_code_is_the_inverse_of_code() {
    for e in ALL.iter() {
        assert_eq!(QFError::from_code(e.code()), Some(*e));
    }
    assert_eq!(QFError::from_code(9), None);
    assert_eq!(QFError::from_code(u32::MAX), None);
}

#[test]
fn program_error_carries_the_code() {
    assert_eq!(ProgramError::from(QFError::OwnerMismatch), ProgramError::Custom(0));
    assert_eq!(ProgramError::from(QFError::ProjectAlreadyWithdraw), ProgramError::Custom(4));
    assert_eq!(ProgramError::from(QFError::VoterMismatch), ProgramError::Custom(8));
    let converted: ProgramError = QFError::RoundStatusError.into();
    assert_eq!(converted, ProgramError::Custom(1));
}

#[test]
fn messages_are_the_sentences_of_the_errors() {
    assert_eq!(QFError::OwnerMismatch.message(), "owner mismatch");
    assert_eq!(QFError::RoundStatusError.message(), "round status does not expected");
    assert_eq!(QFError::VaultMismatch.message(), "vault does not match");
    assert_eq!(QFError::RoundMismatch.message(), "round does not match");
    assert_eq!(QFError::ProjectAlreadyWithdraw.message(), "project has already withdraw");
    assert_eq!(QFError::UnexpectedSystemProgramID.message(), "unexpected system program id");
    assert_eq!(QFError::UnexpectedTokenProgramID.message(), "unexpected token program id");
    assert_eq!(
        QFError::UnexpectedAssociatedTokenAccountProgram.message(),
        "unexpected asoociated token account program id"
    );
    assert_eq!(QFError::VoterMismatch.message(), "voter mismatch");
}

#[test]
fn type_name_is_the_enums() {
    assert_eq!(QFError::type_of(), "QFError");
}
