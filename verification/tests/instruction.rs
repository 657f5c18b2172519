use quadratic_funding::error::ProgramError;
use quadratic_funding::instruction::QFInstruction;

#[test]
fn tags_without_payload_take_one_byte() {
    assert_eq!(QFInstruction::StartRound.pack(), vec![0]);
    assert_eq!(QFInstruction::RegisterProject.pack(), vec![2]);
    assert_eq!(QFInstruction::InitVoter.pack(), vec![3]);
    assert_eq!(QFInstruction::Withdraw.pack(), vec![5]);
    assert_eq!(QFInstruction::EndRound.pack(), vec![6]);
    assert_eq!(QFInstruction::WithdrawFee.pack(), vec![7]);
}

#[test]
fn donate_packs_amount_little_endian_then_decimals() {
    let packed = QFInstruction::Donate { amount: 0x0102030405060708, decimals: 9 }.pack();
    assert_eq!(packed, vec![1, 8, 7, 6, 5, 4, 3, 2, 1, 9]);
}

#[test]
fn vote_packs_amount_little_endian_then_decimals() {
    let packed = QFInstruction::Vote { amount: 1000, decimals: 6 }.pack();
    assert_eq!(packed, vec![4, 0xe8, 0x03, 0, 0, 0, 0, 0, 0, 6]);
    let most = QFInstruction::Vote { amount: u64::MAX, decimals: 255 }.pack();
    assert_eq!(most, vec![4, 255, 255, 255, 255, 255, 255, 255, 255, 255]);
}

#[test]
fn unpack_reads_each_tag() {
    assert_eq!(QFInstruction::unpack(&[0]), Ok(QFInstruction::StartRound));
    assert_eq!(QFInstruction::unpack(&[2]), Ok(QFInstruction::RegisterProject));
    assert_eq!(QFInstruction::unpack(&[3]), Ok(QFInstruction::InitVoter));
    assert_eq!(QFInstruction::unpack(&[5]), Ok(QFInstruction::Withdraw));
    assert_eq!(QFInstruction::unpack(&[6]), Ok(QFInstruction::EndRound));
    assert_eq!(QFInstruction::unpack(&[7]), Ok(QFInstruction::WithdrawFee));
    assert_eq!(
        QFInstruction::unpack(&[1, 0xdc, 0x05, 0, 0, 0, 0, 0, 0, 9]),
        Ok(QFInstruction::Donate { amount: 1500, decimals: 9 })
    );
    assert_eq!(
        QFInstruction::unpack(&[4, 0, 0, 0, 0, 0, 0, 0, 0x80, 0]),
        Ok(QFInstruction::Vote { amount: 1 << 63, decimals: 0 })
    );
}

#[test]
fn unpack_refuses_an_empty_buffer() {
    assert_eq!(QFInstruction::unpack(&[]), Err(ProgramError::InvalidInstructionData));
}

#[test]
fn unpack_refuses_an_unknown_tag() {
    assert_eq!(QFInstruction::unpack(&[8]), Err(ProgramError::InvalidInstructionData));
    assert_eq!(QFInstruction::unpack(&[255, 0, 0]), Err(ProgramError::InvalidInstructionData));
}

#[test]
fn unpack_refuses_a_short_payload() {
    for tag in [1u8, 4u8] {
        for len in 0..9usize {
            let mut input = vec![tag];
            input.extend(std::iter::repeat(7u8).take(len));
            assert_eq!(
                QFInstruction::unpack(&input),
                Err(ProgramError::InvalidInstructionData)
            );
        }
    }
}

#[test]
fn unpack_ignores_what_follows_the_instruction() {
    assert_eq!(QFInstruction::unpack(&[6, 1, 2, 3]), Ok(QFInstruction::EndRound));
    assert_eq!(
        QFInstruction::unpack(&[1, 1, 0, 0, 0, 0, 0, 0, 0, 2, 99, 98]),
        Ok(QFInstruction::Donate { amount: 1, decimals: 2 })
    );
}

#[test]
fn unpack_is_the_inverse_of_pack() {
    let all = [
        QFInstruction::StartRound,
        QFInstruction::Donate { amount: 0, decimals: 0 },
        QFInstruction::Donate { amount: 123_456_789_012, decimals: 9 },
        QFInstruction::RegisterProject,
        QFInstruction::InitVoter,
        QFInstruction::Vote { amount: u64::MAX, decimals: 255 },
        QFInstruction::Vote { amount: 256, decimals: 1 },
        QFInstruction::Withdraw,
        QFInstruction::EndRound,
        QFInstruction::WithdrawFee,
    ];
    for i in all.iter() {
        assert_eq!(QFInstruction::unpack(&i.pack()), Ok(*i));
    }
}
