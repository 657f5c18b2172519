use quadratic_funding::error::ProgramError;
use quadratic_funding::pubkey::Pubkey;
use quadratic_funding::state::{Project, Round, RoundStatus, Voter};
use quadratic_funding::uint::U256;

fn key(n: u8) -> Pubkey {
    Pubkey::new_from_array([n; 32])
}

fn round() -> Round {
    Round {
        status: RoundStatus::Ongoing,
        fund: 1500,
        fee: 140,
        vault: key(3),
        owner: key(4),
        area: U256 { w0: 5, w1: 6, w2: 7, w3: 8 },
    }
}

fn project() -> Project {
    Project {
        round: key(1),
        owner: key(2),
        withdraw: true,
        votes: 1300,
        area: U256::from_u128(2500 * 1_000_000_000_000),
        area_sqrt: U256::from_u128(50 * 1_000_000_000_000),
    }
}

fn voter() -> Voter {
    Voter { is_initialized: true, votes: 400, votes_sqrt: U256::from_u128(20 * 1_000_000_000_000) }
}

#[test]
fn lengths_are_fixed() {
    assert_eq!(Round::LEN, 113);
    assert_eq!(Project::LEN, 137);
    assert_eq!(Voter::LEN, 41);
    assert_eq!(round().to_bytes().len(), 113);
    assert_eq!(project().to_bytes().len(), 137);
    assert_eq!(voter().to_bytes().len(), 41);
}

#[test]
fn status_default_is_uninitialized() {
    assert_eq!(RoundStatus::default(), RoundStatus::Uninitialized);
}

#[test]
fn status_bytes() {
    assert_eq!(RoundStatus::Uninitialized.to_primitive(), 0);
    assert_eq!(RoundStatus::Ongoing.to_primitive(), 1);
    assert_eq!(RoundStatus::Finished.to_primitive(), 2);
    assert_eq!(RoundStatus::try_from_primitive(0), Some(RoundStatus::Uninitialized));
    assert_eq!(RoundStatus::try_from_primitive(1), Some(RoundStatus::Ongoing));
    assert_eq!(RoundStatus::try_from_primitive(2), Some(RoundStatus::Finished));
    assert_eq!(RoundStatus::try_from_primitive(3), None);
}

#[test]
fn round_layout() {
    let bytes = round().to_bytes();
    assert_eq!(bytes[0], 1);
    assert_eq!(&bytes[1..9], &1500u64.to_le_bytes());
    assert_eq!(&bytes[9..17], &140u64.to_le_bytes());
    assert_eq!(&bytes[17..49], &[3u8; 32]);
    assert_eq!(&bytes[49..81], &[4u8; 32]);
    assert_eq!(&bytes[81..89], &5u64.to_le_bytes());
    assert_eq!(&bytes[89..97], &6u64.to_le_bytes());
    assert_eq!(&bytes[97..105], &7u64.to_le_bytes());
    assert_eq!(&bytes[105..113], &8u64.to_le_bytes());
}

#[test]
fn project_layout() {
    let bytes = project().to_bytes();
    assert_eq!(&bytes[0..32], &[1u8; 32]);
    assert_eq!(&bytes[32..64], &[2u8; 32]);
    assert_eq!(bytes[64], 1);
    assert_eq!(&bytes[65..73], &1300u64.to_le_bytes());
    assert_eq!(&bytes[73..89], &(2500u128 * 1_000_000_000_000).to_le_bytes());
    assert_eq!(&bytes[89..105], &[0u8; 16]);
    assert_eq!(&bytes[105..121], &(50u128 * 1_000_000_000_000).to_le_bytes());
    assert_eq!(&bytes[121..137], &[0u8; 16]);
}

#[test]
fn voter_layout() {
    let bytes = voter().to_bytes();
    assert_eq!(bytes[0], 1);
    assert_eq!(&bytes[1..9], &400u64.to_le_bytes());
    assert_eq!(&bytes[9..25], &(20u128 * 1_000_000_000_000).to_le_bytes());
    assert_eq!(&bytes[25..41], &[0u8; 16]);
}

#[test]
fn area_bytes_are_those_of_the_wide_integer() {
    let x = U256 { w0: 0x0102030405060708, w1: 0x1112131415161718, w2: 0x2122232425262728, w3: 0x3132333435363738 };
    let mut ours = Vec::new();
    x.push_le(&mut ours);
    let theirs = spl_math::uint::U256([x.w0, x.w1, x.w2, x.w3]);
    let mut expected = [0u8; 32];
    theirs.to_little_endian(&mut expected);
    assert_eq!(ours, expected.to_vec());
    assert_eq!(U256::read_le(&expected, 0), x);
    assert_eq!(spl_math::uint::U256::from_little_endian(&ours).0, [x.w0, x.w1, x.w2, x.w3]);
}

#[test]
fn records_decode_to_what_was_encoded() {
    assert_eq!(Round::unpack_from_slice(&round().to_bytes()), Ok(round()));
    assert_eq!(Project::unpack_from_slice(&project().to_bytes()), Ok(project()));
    assert_eq!(Voter::unpack_from_slice(&voter().to_bytes()), Ok(voter()));
    assert_eq!(Round::unpack(&round().to_bytes()), Ok(round()));
    assert_eq!(Project::unpack(&project().to_bytes()), Ok(project()));
    assert_eq!(Voter::unpack(&voter().to_bytes()), Ok(voter()));
}

#[test]
fn bytes_encode_to_what_was_decoded() {
    let mut src = vec![0u8; 113];
    for i in 0..113 {
        src[i] = (i * 7 + 3) as u8;
    }
    src[0] = 2;
    assert_eq!(Round::unpack_from_slice(&src).unwrap().to_bytes(), src);
    let mut src = vec![0u8; 137];
    for i in 0..137 {
        src[i] = (i * 5 + 1) as u8;
    }
    src[64] = 0;
    assert_eq!(Project::unpack_from_slice(&src).unwrap().to_bytes(), src);
    let mut src = vec![0u8; 41];
    for i in 0..41 {
        src[i] = (i * 11 + 2) as u8;
    }
    src[0] = 1;
    assert_eq!(Voter::unpack_from_slice(&src).unwrap().to_bytes(), src);
}

#[test]
fn wrong_length_is_invalid_account_data() {
    for len in [0usize, 1, 112, 114, 137, 41] {
        assert_eq!(Round::unpack_from_slice(&vec![0u8; len]), Err(ProgramError::InvalidAccountData));
        assert_eq!(Round::unpack_unchecked(&vec![0u8; len]), Err(ProgramError::InvalidAccountData));
        assert_eq!(Round::unpack(&vec![1u8; len]), Err(ProgramError::InvalidAccountData));
    }
    for len in [0usize, 136, 138, 113, 41] {
        assert_eq!(Project::unpack_from_slice(&vec![0u8; len]), Err(ProgramError::InvalidAccountData));
        assert_eq!(Project::unpack(&vec![1u8; len]), Err(ProgramError::InvalidAccountData));
    }
    for len in [0usize, 40, 42, 113, 137] {
        assert_eq!(Voter::unpack_from_slice(&vec![0u8; len]), Err(ProgramError::InvalidAccountData));
        assert_eq!(Voter::unpack(&vec![1u8; len]), Err(ProgramError::InvalidAccountData));
    }
}

#[test]
fn unknown_status_byte_is_invalid_account_data() {
    let mut src = round().to_bytes();
    src[0] = 3;
    assert_eq!(Round::unpack_from_slice(&src), Err(ProgramError::InvalidAccountData));
    src[0] = 255;
    assert_eq!(Round::unpack(&src), Err(ProgramError::InvalidAccountData));
}

#[test]
fn flag_byte_other_than_zero_or_one_is_invalid_account_data() {
    let mut src = project().to_bytes();
    src[64] = 2;
    assert_eq!(Project::unpack_from_slice(&src), Err(ProgramError::InvalidAccountData));
    let mut src = voter().to_bytes();
    src[0] = 2;
    assert_eq!(Voter::unpack_from_slice(&src), Err(ProgramError::InvalidAccountData));
    assert_eq!(Voter::unpack(&src), Err(ProgramError::InvalidAccountData));
}

#[test]
fn zeroed_buffers_hold_fresh_records() {
    let round = Round::unpack_unchecked(&vec![0u8; 113]).unwrap();
    assert!(!round.is_initialized());
    assert_eq!(round.status, RoundStatus::Uninitialized);
    let project = Project::unpack_unchecked(&vec![0u8; 137]).unwrap();
    assert!(!project.is_initialized());
    assert_eq!(project.round, Pubkey::default());
    let voter = Voter::unpack_unchecked(&vec![0u8; 41]).unwrap();
    assert!(!voter.is_initialized());
    assert_eq!(Round::unpack(&vec![0u8; 113]), Err(ProgramError::UninitializedAccount));
    assert_eq!(Project::unpack(&vec![0u8; 137]), Err(ProgramError::UninitializedAccount));
    assert_eq!(Voter::unpack(&vec![0u8; 41]), Err(ProgramError::UninitializedAccount));
}

#[test]
fn initialized_predicates() {
    assert!(round().is_initialized());
    assert!(Round { status: RoundStatus::Finished, ..round() }.is_initialized());
    assert!(!Round { status: RoundStatus::Uninitialized, ..round() }.is_initialized());
    assert!(project().is_initialized());
    assert!(!Project { round: Pubkey::default(), ..project() }.is_initialized());
    assert!(voter().is_initialized());
    assert!(!Voter { is_initialized: false, ..voter() }.is_initialized());
}

#[test]
fn pack_into_slice_overwrites_the_buffer() {
    let mut dst = vec![0xaau8; 113];
    round().pack_into_slice(&mut dst);
    assert_eq!(dst, round().to_bytes());
    let mut dst = vec![0xaau8; 137];
    project().pack_into_slice(&mut dst);
    assert_eq!(dst, project().to_bytes());
    let mut dst = vec![0xaau8; 41];
    voter().pack_into_slice(&mut dst);
    assert_eq!(dst, voter().to_bytes());
}

#[test]
fn pack_refuses_a_buffer_of_another_length() {
    let mut dst = vec![0xaau8; 112];
    assert_eq!(Round::pack(round(), &mut dst), Err(ProgramError::InvalidAccountData));
    assert_eq!(dst, vec![0xaau8; 112]);
    let mut dst = vec![0u8; 113];
    assert_eq!(Round::pack(round(), &mut dst), Ok(()));
    assert_eq!(dst, round().to_bytes());
    let mut dst = vec![0xaau8; 138];
    assert_eq!(Project::pack(project(), &mut dst), Err(ProgramError::InvalidAccountData));
    assert_eq!(dst, vec![0xaau8; 138]);
    let mut dst = vec![0u8; 137];
    assert_eq!(Project::pack(project(), &mut dst), Ok(()));
    assert_eq!(dst, project().to_bytes());
    let mut dst = vec![0xaau8; 0];
    assert_eq!(Voter::pack(voter(), &mut dst), Err(ProgramError::InvalidAccountData));
    let mut dst = vec![0u8; 41];
    assert_eq!(Voter::pack(voter(), &mut dst), Ok(()));
    assert_eq!(dst, voter().to_bytes());
}

#[test]
fn default_records_are_fresh_and_encode_to_zeros() {
    assert_eq!(Round::default().to_bytes(), vec![0u8; 113]);
    assert_eq!(Project::default().to_bytes(), vec![0u8; 137]);
    assert_eq!(Voter::default().to_bytes(), vec![0u8; 41]);
    assert!(!Round::default().is_initialized());
    assert!(!Project::default().is_initialized());
    assert!(!Voter::default().is_initialized());
    assert_eq!(Round::unpack_unchecked(&vec![0u8; 113]), Ok(Round::default()));
    assert_eq!(Project::unpack_unchecked(&vec![0u8; 137]), Ok(Project::default()));
    assert_eq!(Voter::unpack_unchecked(&vec![0u8; 41]), Ok(Voter::default()));
    assert_eq!(U256::default(), U256::zero());
    assert_eq!(Pubkey::default().to_bytes(), [0u8; 32]);
}
