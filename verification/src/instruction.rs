//! The eight instructions of the program and their encoding: a tag byte, and
//! for a donation or a vote the amount and the token's decimals.

use crate::bytes::{
    lemma_u64_from_le_bound, lemma_u64_le_bytes_round_trip, lemma_u64_le_round_trip, push_u64,
    read_u64, u64_from_le, u64_to_le,
};
use crate::error::ProgramError;
use vstd::prelude::*;

verus! {

/// An instruction to the program.
#[derive(Clone, Copy, Debug, PartialEq, Eq, Structural)]
pub enum QFInstruction {
    /// Starts a round on a fresh record.
    StartRound,
    /// Adds `amount` to the round's fund.
    Donate { amount: u64, decimals: u8 },
    /// Registers a project with a round.
    RegisterProject,
    /// Creates the record of one contributor to one project.
    InitVoter,
    /// Contributes `amount` to a project.
    Vote { amount: u64, decimals: u8 },
    /// Pays a project its contributions and its share of the fund.
    Withdraw,
    /// Ends a round.
    EndRound,
    /// Pays the round's owner the fees collected.
    WithdrawFee,
}

/// The instruction that `input` encodes: the tag in the first byte, and after
/// the tag of a donation or a vote eight bytes of amount and one of decimals.
pub open spec fn unpack_spec(input: Seq<u8>) -> Result<QFInstruction, ProgramError> {
    if input.len() == 0 {
        Err(ProgramError::InvalidInstructionData)
    } else if input[0] == 0 {
        Ok(QFInstruction::StartRound)
    } else if input[0] == 1 || input[0] == 4 {
        if input.len() < 10 {
            Err(ProgramError::InvalidInstructionData)
        } else if input[0] == 1 {
            Ok(
                QFInstruction::Donate {
                    amount: u64_from_le(input.subrange(1, 9)) as u64,
                    decimals: input[9],
                },
            )
        } else {
            Ok(
                QFInstruction::Vote {
                    amount: u64_from_le(input.subrange(1, 9)) as u64,
                    decimals: input[9],
                },
            )
        }
    } else if input[0] == 2 {
        Ok(QFInstruction::RegisterProject)
    } else if input[0] == 3 {
        Ok(QFInstruction::InitVoter)
    } else if input[0] == 5 {
        Ok(QFInstruction::Withdraw)
    } else if input[0] == 6 {
        Ok(QFInstruction::EndRound)
    } else if input[0] == 7 {
        Ok(QFInstruction::WithdrawFee)
    } else {
        Err(ProgramError::InvalidInstructionData)
    }
}

/// The bytes that encode `instruction`, with none to spare.
pub open spec fn pack_spec(instruction: QFInstruction) -> Seq<u8> {
    match instruction {
        QFInstruction::StartRound => seq![0u8],
        QFInstruction::Donate { amount, decimals } => seq![1u8] + u64_to_le(amount) + seq![
            decimals,
        ],
        QFInstruction::RegisterProject => seq![2u8],
        QFInstruction::InitVoter => seq![3u8],
        QFInstruction::Vote { amount, decimals } => seq![4u8] + u64_to_le(amount) + seq![decimals],
        QFInstruction::Withdraw => seq![5u8],
        QFInstruction::EndRound => seq![6u8],
        QFInstruction::WithdrawFee => seq![7u8],
    }
}

impl QFInstruction {
    /// Decodes an instruction. Bytes after the instruction are ignored.
    pub fn unpack(input: &[u8]) -> (decoded: Result<QFInstruction, ProgramError>)
        ensures
            decoded == unpack_spec(input@),
    {
        if input.len() == 0 {
            return Err(ProgramError::InvalidInstructionData);
        }
        let tag: u8 = input[0];
        match tag {
            0 => Ok(QFInstruction::StartRound),
            1 | 4 => {
                if input.len() < 10 {
                    return Err(ProgramError::InvalidInstructionData);
                }
                let amount: u64 = read_u64(input, 1);
                let decimals: u8 = input[9];
                if tag == 1 {
                    Ok(QFInstruction::Donate { amount, decimals })
                } else {
                    Ok(QFInstruction::Vote { amount, decimals })
                }
            },
            2 => Ok(QFInstruction::RegisterProject),
            3 => Ok(QFInstruction::InitVoter),
            5 => Ok(QFInstruction::Withdraw),
            6 => Ok(QFInstruction::EndRound),
            7 => Ok(QFInstruction::WithdrawFee),
            _ => Err(ProgramError::InvalidInstructionData),
        }
    }

    /// Encodes the instruction in as few bytes as it takes.
    pub fn pack(&self) -> (buf: Vec<u8>)
        ensures
            buf@ == pack_spec(*self),
    {
        let mut buf: Vec<u8> = Vec::new();
        match self {
            QFInstruction::StartRound => buf.push(0),
            QFInstruction::Donate { amount, decimals } => {
                buf.push(1);
                push_u64(&mut buf, *amount);
                buf.push(*decimals);
            },
            QFInstruction::RegisterProject => buf.push(2),
            QFInstruction::InitVoter => buf.push(3),
            QFInstruction::Vote { amount, decimals } => {
                buf.push(4);
                push_u64(&mut buf, *amount);
                buf.push(*decimals);
            },
            QFInstruction::Withdraw => buf.push(5),
            QFInstruction::EndRound => buf.push(6),
            QFInstruction::WithdrawFee => buf.push(7),
        }
        assert(buf@ =~= pack_spec(*self));
        buf
    }
}

/// The instruction is a donation or a vote.
pub open spec fn carries_amount(instruction: QFInstruction) -> bool {
    instruction is Donate || instruction is Vote
}

/// An encoded instruction takes one byte, or ten where it carries an amount.
pub proof fn lemma_pack_len(instruction: QFInstruction)
    ensures
        carries_amount(instruction) ==> pack_spec(instruction).len() == 10,
        !carries_amount(instruction) ==> pack_spec(instruction).len() == 1,
{
    match instruction {
        QFInstruction::Donate { amount, .. } => lemma_u64_le_round_trip(amount),
        QFInstruction::Vote { amount, .. } => lemma_u64_le_round_trip(amount),
        _ => {},
    }
}

/// Decoding is the inverse of encoding, whatever bytes follow the encoding.
pub proof fn lemma_unpack_pack(instruction: QFInstruction, rest: Seq<u8>)
    ensures
        unpack_spec(pack_spec(instruction) + rest) == Ok::<QFInstruction, ProgramError>(
            instruction,
        ),
{
    let input = pack_spec(instruction) + rest;
    match instruction {
        QFInstruction::Donate { amount, decimals } => {
            lemma_u64_le_round_trip(amount);
            assert(input.subrange(1, 9) =~= u64_to_le(amount));
        },
        QFInstruction::Vote { amount, decimals } => {
            lemma_u64_le_round_trip(amount);
            assert(input.subrange(1, 9) =~= u64_to_le(amount));
        },
        _ => {},
    }
}

/// Encoding is the inverse of decoding: what decodes starts with the encoding
/// of what it decodes to.
pub proof fn lemma_pack_unpack(input: Seq<u8>)
    ensures
        unpack_spec(input) matches Ok(instruction) ==> pack_spec(instruction).is_prefix_of(
            input,
        ),
{
    if let Ok(instruction) = unpack_spec(input) {
        if input[0] == 1 || input[0] == 4 {
            lemma_u64_from_le_bound(input.subrange(1, 9));
            lemma_u64_le_bytes_round_trip(input.subrange(1, 9));
            assert(pack_spec(instruction) =~= input.subrange(0, 10));
        } else {
            assert(pack_spec(instruction) =~= input.subrange(0, 1));
        }
    }
}

} // verus!
