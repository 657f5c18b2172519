use quadratic_funding::account::{AccountInfo, Rent};
use quadratic_funding::invocation::Invocation;
use quadratic_funding::error::{ProgramError, QFError};
use quadratic_funding::processor::Processor;
use quadratic_funding::pubkey::{
    associated_token_program_id, find_round_authority, find_voter_address, rent_sysvar_id,
    system_program_id, token_program_id, Pubkey,
};
use quadratic_funding::state::{Project, Round, RoundStatus, Voter};
use quadratic_funding::uint::U256;

const ONE: u128 = 1_000_000_000_000;

fn key(n: u8) -> Pubkey {
    Pubkey::new_from_array([n; 32])
}

fn program() -> Pubkey {
    key(42)
}

fn rent() -> Rent {
    Rent { round_minimum_balance: 100, project_minimum_balance: 200, voter_minimum_balance: 300 }
}

fn plain(key: Pubkey) -> AccountInfo {
    AccountInfo { key, is_signer: false, lamports: 0, data: Vec::new(), owner: system_program_id() }
}

fn signer(key: Pubkey) -> AccountInfo {
    AccountInfo { is_signer: true, ..plain(key) }
}

fn record(key: Pubkey, data: Vec<u8>) -> AccountInfo {
    AccountInfo { key, is_signer: false, lamports: 1000, data, owner: program() }
}

fn custom(e: QFError) -> ProgramError {
    ProgramError::Custom(e.code())
}

fn round(status: RoundStatus) -> Round {
    Round {
        status,
        fund: 1500,
        fee: 0,
        vault: key(4),
        owner: key(2),
        area: U256::from_u128(2500 * ONE),
    }
}

fn project() -> Project {
    Project {
        round: key(1),
        owner: key(7),
        withdraw: false,
        votes: 1300,
        area: U256::from_u128(2500 * ONE),
        area_sqrt: U256::from_u128(50 * ONE),
    }
}

fn voter() -> Voter {
    Voter { is_initialized: true, votes: 400, votes_sqrt: U256::from_u128(20 * ONE) }
}

fn authority() -> Pubkey {
    find_round_authority(&key(1), &program()).unwrap().0
}

fn voter_key() -> Pubkey {
    find_voter_address(&key(6), &key(8), &program()).unwrap().0
}

/// Applies `change` to good accounts and expects `error` and no change.
fn refused(
    good: &Vec<AccountInfo>,
    change: impl Fn(&mut Vec<AccountInfo>),
    run: impl Fn(&mut Vec<AccountInfo>) -> Result<Vec<Invocation>, ProgramError>,
    error: ProgramError,
) {
    let mut accounts = good.clone();
    change(&mut accounts);
    let before = accounts.clone();
    assert_eq!(run(&mut accounts), Err(error));
    assert_eq!(accounts, before);
}

fn start_round_accounts() -> Vec<AccountInfo> {
    vec![
        record(key(1), vec![0; 113]),
        plain(key(2)),
        plain(associated_token_program_id()),
        signer(key(3)),
        plain(key(4)),
        plain(authority()),
        plain(key(5)),
        plain(system_program_id()),
        plain(token_program_id()),
        plain(rent_sysvar_id()),
    ]
}

#[test]
fn start_round_refusals() {
    let good = start_round_accounts();
    let run = |a: &mut Vec<AccountInfo>| Processor::process_start_round(&program(), a, &rent());
    assert!(run(&mut good.clone()).is_ok());
    refused(&good, |a| { a.pop(); }, run, ProgramError::NotEnoughAccountKeys);
    refused(&good, |a| a.clear(), run, ProgramError::NotEnoughAccountKeys);
    refused(&good, |a| a[9].key = key(99), run, ProgramError::InvalidArgument);
    refused(&good, |a| a[0].owner = key(99), run, ProgramError::IncorrectProgramId);
    refused(&good, |a| a[0].data = vec![0; 112], run, ProgramError::InvalidAccountData);
    refused(&good, |a| a[0].data = vec![0; 137], run, ProgramError::InvalidAccountData);
    refused(&good, |a| a[0].lamports = 99, run, ProgramError::AccountNotRentExempt);
    refused(&good, |a| a[0].data[0] = 9, run, ProgramError::InvalidAccountData);
    refused(&good, |a| a[0].data[0] = 1, run, ProgramError::AccountAlreadyInitialized);
    refused(&good, |a| a[0].data[0] = 2, run, ProgramError::AccountAlreadyInitialized);
    refused(&good, |a| a[2].key = key(99), run, custom(QFError::UnexpectedTokenProgramID));
    refused(&good, |a| a[5].key = key(99), run, custom(QFError::OwnerMismatch));
    refused(&good, |a| a[7].key = key(99), run, custom(QFError::UnexpectedSystemProgramID));
    refused(&good, |a| a[8].key = key(99), run, custom(QFError::UnexpectedTokenProgramID));
    let mut exact = good.clone();
    exact[0].lamports = 100;
    assert!(run(&mut exact).is_ok());
}

#[test]
fn start_round_goes_by_the_first_reason() {
    let good = start_round_accounts();
    let run = |a: &mut Vec<AccountInfo>| Processor::process_start_round(&program(), a, &rent());
    refused(
        &good,
        |a| {
            a[9].key = key(99);
            a[0].owner = key(99);
        },
        run,
        ProgramError::InvalidArgument,
    );
    refused(
        &good,
        |a| {
            a[0].data[0] = 1;
            a[5].key = key(99);
            a[8].key = key(99);
        },
        run,
        ProgramError::AccountAlreadyInitialized,
    );
    refused(
        &good,
        |a| {
            a[5].key = key(99);
            a[7].key = key(99);
        },
        run,
        custom(QFError::OwnerMismatch),
    );
}

#[test]
fn start_round_keeps_nothing_of_the_fresh_record() {
    let mut accounts = start_round_accounts();
    for i in 1..113 {
        accounts[0].data[i] = 7;
    }
    Processor::process_start_round(&program(), &mut accounts, &rent()).unwrap();
    assert_eq!(
        Round::unpack(&accounts[0].data),
        Ok(Round {
            status: RoundStatus::Ongoing,
            fund: 0,
            fee: 0,
            vault: key(4),
            owner: key(2),
            area: U256::zero(),
        })
    );
}

#[test]
fn start_round_with_authority_goes_by_the_authority_given() {
    let good = start_round_accounts();
    let found = find_round_authority(&key(1), &program());
    let mut accounts = good.clone();
    assert!(Processor::start_round_with_authority(&program(), &mut accounts, &rent(), found).is_ok());
    let mut accounts = good.clone();
    assert_eq!(
        Processor::start_round_with_authority(&program(), &mut accounts, &rent(), None),
        Err(ProgramError::InvalidSeeds)
    );
    assert_eq!(accounts, good);
    assert_eq!(
        Processor::start_round_with_authority(&program(), &mut accounts, &rent(), Some((key(77), 1))),
        Err(custom(QFError::OwnerMismatch))
    );
    accounts[5].key = key(77);
    assert!(Processor::start_round_with_authority(&program(), &mut accounts, &rent(), Some((key(77), 1))).is_ok());
}

fn donate_accounts() -> Vec<AccountInfo> {
    vec![
        record(key(1), round(RoundStatus::Ongoing).to_bytes()),
        plain(key(11)),
        plain(key(5)),
        plain(key(4)),
        signer(key(10)),
        plain(token_program_id()),
    ]
}

#[test]
fn donate_refusals() {
    let good = donate_accounts();
    let run = |a: &mut Vec<AccountInfo>| Processor::process_donate(&program(), a, 10, 9);
    assert!(run(&mut good.clone()).is_ok());
    refused(&good, |a| { a.pop(); }, run, ProgramError::NotEnoughAccountKeys);
    refused(&good, |a| a[0].owner = key(99), run, ProgramError::IncorrectProgramId);
    refused(&good, |a| a[0].data = vec![1; 10], run, ProgramError::InvalidAccountData);
    refused(&good, |a| a[0].data[0] = 3, run, ProgramError::InvalidAccountData);
    refused(&good, |a| a[0].data[0] = 0, run, ProgramError::UninitializedAccount);
    refused(&good, |a| a[0].data[0] = 2, run, custom(QFError::RoundStatusError));
    refused(&good, |a| a[3].key = key(99), run, custom(QFError::VaultMismatch));
    refused(&good, |a| a[5].key = key(99), run, custom(QFError::UnexpectedTokenProgramID));
    let most = |a: &mut Vec<AccountInfo>| Processor::process_donate(&program(), a, u64::MAX - 1499, 9);
    refused(&good, |_| {}, most, ProgramError::ArithmeticOverflow);
    let mut accounts = good.clone();
    Processor::process_donate(&program(), &mut accounts, u64::MAX - 1500, 9).unwrap();
    assert_eq!(Round::unpack(&accounts[0].data).unwrap().fund, u64::MAX);
}

fn register_accounts() -> Vec<AccountInfo> {
    vec![
        record(key(6), vec![0; 137]),
        record(key(1), round(RoundStatus::Ongoing).to_bytes()),
        plain(key(7)),
        plain(rent_sysvar_id()),
    ]
}

#[test]
fn register_project_refusals() {
    let good = register_accounts();
    let run = |a: &mut Vec<AccountInfo>| Processor::process_register_project(&program(), a, &rent());
    assert!(run(&mut good.clone()).is_ok());
    refused(&good, |a| { a.pop(); }, run, ProgramError::NotEnoughAccountKeys);
    refused(&good, |a| a[3].key = key(99), run, ProgramError::InvalidArgument);
    refused(&good, |a| a[1].owner = key(99), run, ProgramError::IncorrectProgramId);
    refused(&good, |a| a[1].data = vec![0; 113], run, ProgramError::UninitializedAccount);
    refused(&good, |a| a[1].data = vec![0; 3], run, ProgramError::InvalidAccountData);
    refused(&good, |a| a[1].data[0] = 2, run, custom(QFError::RoundStatusError));
    refused(&good, |a| a[0].owner = key(99), run, ProgramError::IncorrectProgramId);
    refused(&good, |a| a[0].data = vec![0; 136], run, ProgramError::InvalidAccountData);
    refused(&good, |a| a[0].data[64] = 2, run, ProgramError::InvalidAccountData);
    refused(&good, |a| a[0].data[0] = 1, run, ProgramError::AccountAlreadyInitialized);
    refused(&good, |a| a[0].data[31] = 1, run, ProgramError::AccountAlreadyInitialized);
    refused(&good, |a| a[0].lamports = 199, run, ProgramError::AccountNotRentExempt);
    let mut exact = good.clone();
    exact[0].lamports = 200;
    assert!(run(&mut exact).is_ok());
}

#[test]
fn register_project_keeps_nothing_of_the_fresh_record() {
    let mut accounts = register_accounts();
    accounts[0].data[64] = 1;
    for i in 32..64 {
        accounts[0].data[i] = 9;
    }
    for i in 65..137 {
        accounts[0].data[i] = 9;
    }
    Processor::process_register_project(&program(), &mut accounts, &rent()).unwrap();
    assert_eq!(
        Project::unpack(&accounts[0].data),
        Ok(Project {
            round: key(1),
            owner: key(7),
            withdraw: false,
            votes: 0,
            area: U256::zero(),
            area_sqrt: U256::zero(),
        })
    );
    assert_eq!(accounts[1], register_accounts()[1]);
}

#[test]
fn first_vote_on_a_project_registered_over_old_bytes_counts_from_nothing() {
    let mut accounts = register_accounts();
    accounts[0].data[105] = 7;
    Processor::process_register_project(&program(), &mut accounts, &rent()).unwrap();
    let holder = find_voter_address(&key(6), &key(8), &program()).unwrap().0;
    let fresh = Voter { is_initialized: true, votes: 0, votes_sqrt: U256::zero() };
    let mut accounts = vec![
        record(key(1), Round { area: U256::zero(), ..round(RoundStatus::Ongoing) }.to_bytes()),
        accounts[0].clone(),
        record(holder, fresh.to_bytes()),
        plain(key(8)),
        plain(key(5)),
        plain(key(4)),
        signer(key(10)),
        plain(token_program_id()),
    ];
    Processor::process_vote(&program(), &mut accounts, 400, 9).unwrap();
    let project = Project::unpack(&accounts[1].data).unwrap();
    assert_eq!(project.area_sqrt, U256::from_u128(20 * ONE));
    assert_eq!(project.area, U256::from_u128(400 * ONE));
    assert_eq!(Round::unpack(&accounts[0].data).unwrap().area, U256::from_u128(400 * ONE));
}

#[test]
fn register_project_replayed_on_the_written_record_is_refused() {
    let mut accounts = register_accounts();
    Processor::process_register_project(&program(), &mut accounts, &rent()).unwrap();
    let written = accounts.clone();
    assert_eq!(
        Processor::process_register_project(&program(), &mut accounts, &rent()),
        Err(ProgramError::AccountAlreadyInitialized)
    );
    assert_eq!(accounts, written);
}

fn init_voter_accounts() -> Vec<AccountInfo> {
    vec![
        plain(voter_key()),
        plain(key(8)),
        record(key(6), project().to_bytes()),
        signer(key(3)),
        plain(system_program_id()),
        plain(rent_sysvar_id()),
    ]
}

#[test]
fn init_voter_refusals() {
    let good = init_voter_accounts();
    let run = |a: &mut Vec<AccountInfo>| Processor::process_init_voter(&program(), a, &rent());
    assert!(run(&mut good.clone()).is_ok());
    refused(&good, |a| { a.pop(); }, run, ProgramError::NotEnoughAccountKeys);
    refused(&good, |a| a[5].key = key(99), run, ProgramError::InvalidArgument);
    refused(&good, |a| a[2].owner = key(99), run, ProgramError::IncorrectProgramId);
    refused(&good, |a| a[2].data = vec![0; 137], run, ProgramError::UninitializedAccount);
    refused(&good, |a| a[2].data = vec![0; 41], run, ProgramError::InvalidAccountData);
    refused(&good, |a| a[0].key = key(99), run, custom(QFError::VoterMismatch));
    refused(&good, |a| a[1].key = key(9), run, custom(QFError::VoterMismatch));
    refused(&good, |a| a[2].key = key(9), run, custom(QFError::VoterMismatch));
    let wrong_program = |a: &mut Vec<AccountInfo>| {
        a[2].owner = key(43);
        Processor::process_init_voter(&key(43), a, &rent())
    };
    let mut accounts = good.clone();
    assert_eq!(wrong_program(&mut accounts), Err(custom(QFError::VoterMismatch)));
}

#[test]
fn init_voter_asks_for_what_the_record_lacks() {
    let lamports_of = |calls: &Vec<Invocation>| match &calls[0] {
        Invocation::SystemTransfer { lamports, .. } => Some(*lamports),
        _ => None,
    };
    let mut accounts = init_voter_accounts();
    let calls = Processor::process_init_voter(&program(), &accounts, &rent()).unwrap();
    assert_eq!(calls.len(), 3);
    assert_eq!(lamports_of(&calls), Some(300));
    accounts[0].lamports = 299;
    let calls = Processor::process_init_voter(&program(), &accounts, &rent()).unwrap();
    assert_eq!(lamports_of(&calls), Some(1));
    accounts[0].lamports = 300;
    let calls = Processor::process_init_voter(&program(), &accounts, &rent()).unwrap();
    assert_eq!(calls.len(), 2);
    assert_eq!(lamports_of(&calls), None);
    accounts[0].lamports = u64::MAX;
    let calls = Processor::process_init_voter(&program(), &accounts, &rent()).unwrap();
    assert_eq!(calls.len(), 2);
    accounts[0].lamports = 0;
    let free = Rent { voter_minimum_balance: 0, ..rent() };
    let calls = Processor::process_init_voter(&program(), &accounts, &free).unwrap();
    assert_eq!(lamports_of(&calls), Some(1));
}

#[test]
fn init_voter_with_address_goes_by_the_address_given() {
    let good = init_voter_accounts();
    assert_eq!(
        Processor::init_voter_with_address(&program(), &good, &rent(), None),
        Err(ProgramError::InvalidSeeds)
    );
    assert_eq!(
        Processor::init_voter_with_address(&program(), &good, &rent(), Some((key(77), 3))),
        Err(custom(QFError::VoterMismatch))
    );
    let mut accounts = good.clone();
    accounts[0].key = key(77);
    let calls = Processor::init_voter_with_address(&program(), &accounts, &rent(), Some((key(77), 3))).unwrap();
    match &calls[1] {
        Invocation::Allocate { account, space, seeds } => {
            assert_eq!(*account, key(77));
            assert_eq!(*space, 41);
            assert_eq!(seeds.keys, vec![key(6), key(8)]);
            assert_eq!(seeds.bump, 3);
        }
        _ => panic!("unexpected call"),
    }
}

fn allocated_accounts() -> Vec<AccountInfo> {
    let mut accounts = init_voter_accounts();
    accounts[0] = record(voter_key(), vec![0; 41]);
    accounts
}

#[test]
fn complete_init_voter_refusals() {
    let good = allocated_accounts();
    let run = |a: &mut Vec<AccountInfo>| {
        Processor::complete_init_voter(&program(), a).map(|_| Vec::new())
    };
    assert!(run(&mut good.clone()).is_ok());
    refused(&good, |a| { a.pop(); }, run, ProgramError::NotEnoughAccountKeys);
    refused(&good, |a| a.clear(), run, ProgramError::NotEnoughAccountKeys);
    refused(&good, |a| a[5].key = key(99), run, ProgramError::InvalidArgument);
    refused(&good, |a| a[2].owner = key(99), run, ProgramError::IncorrectProgramId);
    refused(&good, |a| a[2].data = vec![0; 137], run, ProgramError::UninitializedAccount);
    refused(&good, |a| a[0].key = key(99), run, custom(QFError::VoterMismatch));
    refused(&good, |a| a[1].key = key(9), run, custom(QFError::VoterMismatch));
    refused(&good, |a| a[0].owner = system_program_id(), run, ProgramError::IncorrectProgramId);
    for data in [vec![], vec![0u8; 40], vec![0u8; 42], vec![2u8; 41]] {
        refused(&good, |a| a[0].data = data.clone(), run, ProgramError::InvalidAccountData);
    }
    refused(
        &good,
        |a| a[0].data = voter().to_bytes(),
        run,
        ProgramError::AccountAlreadyInitialized,
    );
}

#[test]
fn complete_init_voter_writes_a_created_record_with_no_votes() {
    let mut accounts = allocated_accounts();
    for i in 1..41 {
        accounts[0].data[i] = 9;
    }
    let before = accounts.clone();
    assert_eq!(Processor::complete_init_voter(&program(), &mut accounts), Ok(()));
    assert_eq!(
        Voter::unpack(&accounts[0].data),
        Ok(Voter { is_initialized: true, votes: 0, votes_sqrt: U256::zero() })
    );
    assert_eq!(accounts[1..], before[1..]);
    assert_eq!(accounts[0].key, before[0].key);
    assert_eq!(accounts[0].owner, before[0].owner);
    assert_eq!(accounts[0].lamports, before[0].lamports);
    assert_eq!(
        Processor::complete_init_voter(&program(), &mut accounts),
        Err(ProgramError::AccountAlreadyInitialized)
    );
}

#[test]
fn complete_init_voter_with_address_goes_by_the_address_given() {
    let good = allocated_accounts();
    let mut accounts = good.clone();
    assert_eq!(
        Processor::complete_init_voter_with_address(&program(), &mut accounts, None),
        Err(ProgramError::InvalidSeeds)
    );
    assert_eq!(
        Processor::complete_init_voter_with_address(&program(), &mut accounts, Some((key(77), 3))),
        Err(custom(QFError::VoterMismatch))
    );
    assert_eq!(accounts, good);
    accounts[0].key = key(77);
    assert_eq!(
        Processor::complete_init_voter_with_address(&program(), &mut accounts, Some((key(77), 3))),
        Ok(())
    );
    assert!(Voter::unpack(&accounts[0].data).unwrap().is_initialized);
}

#[test]
fn check_init_voter_gives_the_bump_of_the_address() {
    let good = init_voter_accounts();
    let found = find_voter_address(&key(6), &key(8), &program());
    assert_eq!(Processor::check_init_voter(&program(), &good, found), Ok(found.unwrap().1));
    assert_eq!(
        Processor::check_init_voter(&program(), &good, None),
        Err(ProgramError::InvalidSeeds)
    );
    assert_eq!(
        Processor::check_init_voter(&program(), &good, Some((key(77), 3))),
        Err(custom(QFError::VoterMismatch))
    );
}

fn vote_accounts() -> Vec<AccountInfo> {
    vec![
        record(key(1), round(RoundStatus::Ongoing).to_bytes()),
        record(key(6), project().to_bytes()),
        record(voter_key(), voter().to_bytes()),
        plain(key(8)),
        plain(key(5)),
        plain(key(4)),
        signer(key(10)),
        plain(token_program_id()),
    ]
}

#[test]
fn vote_refusals() {
    let good = vote_accounts();
    let run = |a: &mut Vec<AccountInfo>| Processor::process_vote(&program(), a, 500, 9);
    assert!(run(&mut good.clone()).is_ok());
    refused(&good, |a| { a.pop(); }, run, ProgramError::NotEnoughAccountKeys);
    refused(&good, |a| a[0].owner = key(99), run, ProgramError::IncorrectProgramId);
    refused(&good, |a| a[0].data = vec![0; 113], run, ProgramError::UninitializedAccount);
    refused(&good, |a| a[0].data[0] = 2, run, custom(QFError::RoundStatusError));
    refused(&good, |a| a[5].key = key(99), run, custom(QFError::VaultMismatch));
    refused(&good, |a| a[1].owner = key(99), run, ProgramError::IncorrectProgramId);
    refused(&good, |a| a[1].data = vec![0; 137], run, ProgramError::UninitializedAccount);
    refused(&good, |a| a[1].data[64] = 7, run, ProgramError::InvalidAccountData);
    refused(&good, |a| a[1].data[0] = 9, run, custom(QFError::RoundMismatch));
    refused(&good, |a| a[0].key = key(9), run, custom(QFError::RoundMismatch));
    refused(&good, |a| a[2].owner = key(99), run, ProgramError::IncorrectProgramId);
    refused(&good, |a| a[2].key = key(99), run, custom(QFError::VoterMismatch));
    refused(&good, |a| a[3].key = key(9), run, custom(QFError::VoterMismatch));
    refused(&good, |a| a[2].data = vec![0; 41], run, ProgramError::UninitializedAccount);
    refused(&good, |a| a[2].data = vec![0; 4], run, ProgramError::InvalidAccountData);
    refused(&good, |a| a[7].key = key(99), run, custom(QFError::UnexpectedTokenProgramID));
    let most = |a: &mut Vec<AccountInfo>| Processor::process_vote(&program(), a, u64::MAX - 1299, 9);
    refused(&good, |_| {}, most, ProgramError::ArithmeticOverflow);
    refused(
        &good,
        |a| a[0].data = Round { area: U256::from_u64(1), ..round(RoundStatus::Ongoing) }.to_bytes(),
        run,
        ProgramError::ArithmeticOverflow,
    );
    refused(
        &good,
        |a| a[2].data = Voter { votes_sqrt: U256::from_u128(51 * ONE), ..voter() }.to_bytes(),
        run,
        ProgramError::ArithmeticOverflow,
    );
}

#[test]
fn vote_with_address_goes_by_the_address_given() {
    let good = vote_accounts();
    let mut accounts = good.clone();
    assert_eq!(
        Processor::vote_with_address(&program(), &mut accounts, 500, 9, None),
        Err(ProgramError::InvalidSeeds)
    );
    assert_eq!(
        Processor::vote_with_address(&program(), &mut accounts, 500, 9, Some((key(77), 0))),
        Err(custom(QFError::VoterMismatch))
    );
    assert_eq!(accounts, good);
    accounts[2].key = key(77);
    assert!(Processor::vote_with_address(&program(), &mut accounts, 500, 9, Some((key(77), 0))).is_ok());
    assert_eq!(Voter::unpack(&accounts[2].data).unwrap().votes, 900);
    assert_eq!(Voter::unpack(&accounts[2].data).unwrap().votes_sqrt, U256::from_u128(30 * ONE));
    assert_eq!(Project::unpack(&accounts[1].data).unwrap().area_sqrt, U256::from_u128(60 * ONE));
    assert_eq!(Project::unpack(&accounts[1].data).unwrap().area, U256::from_u128(3600 * ONE));
    assert_eq!(Round::unpack(&accounts[0].data).unwrap().area, U256::from_u128(3600 * ONE));
}

fn withdraw_accounts() -> Vec<AccountInfo> {
    vec![
        record(key(1), round(RoundStatus::Finished).to_bytes()),
        plain(key(4)),
        plain(authority()),
        record(key(6), project().to_bytes()),
        signer(key(7)),
        plain(key(12)),
        plain(token_program_id()),
    ]
}

#[test]
fn withdraw_refusals() {
    let good = withdraw_accounts();
    let run = |a: &mut Vec<AccountInfo>| Processor::process_withdraw(&program(), a);
    assert!(run(&mut good.clone()).is_ok());
    refused(&good, |a| { a.pop(); }, run, ProgramError::NotEnoughAccountKeys);
    refused(&good, |a| a[0].owner = key(99), run, ProgramError::IncorrectProgramId);
    refused(&good, |a| a[0].data = vec![0; 113], run, ProgramError::UninitializedAccount);
    refused(&good, |a| a[0].data[0] = 1, run, custom(QFError::RoundStatusError));
    refused(&good, |a| a[3].owner = key(99), run, ProgramError::IncorrectProgramId);
    refused(&good, |a| a[3].data = vec![0; 137], run, ProgramError::UninitializedAccount);
    refused(&good, |a| a[3].data = vec![0; 1], run, ProgramError::InvalidAccountData);
    refused(&good, |a| a[3].data[0] = 9, run, custom(QFError::RoundMismatch));
    refused(&good, |a| a[3].data[64] = 1, run, custom(QFError::ProjectAlreadyWithdraw));
    refused(&good, |a| a[4].is_signer = false, run, ProgramError::MissingRequiredSignature);
    refused(&good, |a| a[4].key = key(99), run, custom(QFError::OwnerMismatch));
    refused(&good, |a| a[1].key = key(99), run, custom(QFError::VaultMismatch));
    refused(&good, |a| a[1].key = key(12), run, custom(QFError::VaultMismatch));
    refused(&good, |a| a[6].key = key(99), run, custom(QFError::UnexpectedTokenProgramID));
    refused(&good, |a| a[2].key = key(99), run, custom(QFError::OwnerMismatch));
    refused(
        &good,
        |a| a[0].data = Round { area: U256::zero(), ..round(RoundStatus::Finished) }.to_bytes(),
        run,
        ProgramError::ArithmeticOverflow,
    );
    refused(
        &good,
        |a| a[0].data = Round { fee: u64::MAX - 139, ..round(RoundStatus::Finished) }.to_bytes(),
        run,
        ProgramError::ArithmeticOverflow,
    );
    let mut accounts = good.clone();
    accounts[0].data = Round { fee: u64::MAX - 140, ..round(RoundStatus::Finished) }.to_bytes();
    assert!(run(&mut accounts).is_ok());
    assert_eq!(Round::unpack(&accounts[0].data).unwrap().fee, u64::MAX);
}

#[test]
fn withdraw_checks_signature_before_owner() {
    let good = withdraw_accounts();
    let run = |a: &mut Vec<AccountInfo>| Processor::process_withdraw(&program(), a);
    refused(
        &good,
        |a| {
            a[4].is_signer = false;
            a[4].key = key(99);
        },
        run,
        ProgramError::MissingRequiredSignature,
    );
}

#[test]
fn withdraw_with_authority_goes_by_the_authority_given() {
    let good = withdraw_accounts();
    let mut accounts = good.clone();
    assert_eq!(
        Processor::withdraw_with_authority(&program(), &mut accounts, None),
        Err(ProgramError::InvalidSeeds)
    );
    assert_eq!(
        Processor::withdraw_with_authority(&program(), &mut accounts, Some((key(77), 5))),
        Err(custom(QFError::OwnerMismatch))
    );
    assert_eq!(accounts, good);
    accounts[2].key = key(77);
    let calls = Processor::withdraw_with_authority(&program(), &mut accounts, Some((key(77), 5))).unwrap();
    match &calls[0] {
        Invocation::Transfer { source, destination, authority, amount, seeds } => {
            assert_eq!(*source, round(RoundStatus::Finished).vault);
            assert_eq!(*destination, key(12));
            assert_eq!(*authority, key(77));
            assert_eq!(*amount, 2660);
            assert_eq!(seeds.keys, vec![key(1)]);
            assert_eq!(seeds.bump, 5);
        }
        _ => panic!("unexpected call"),
    }
    assert_eq!(calls.len(), 1);
}

fn end_round_accounts() -> Vec<AccountInfo> {
    vec![record(key(1), round(RoundStatus::Ongoing).to_bytes()), signer(key(2))]
}

#[test]
fn end_round_refusals() {
    let good = end_round_accounts();
    let run = |a: &mut Vec<AccountInfo>| Processor::process_end_round(&program(), a);
    assert_eq!(run(&mut good.clone()), Ok(vec![]));
    refused(&good, |a| { a.pop(); }, run, ProgramError::NotEnoughAccountKeys);
    refused(&good, |a| a[0].owner = key(99), run, ProgramError::IncorrectProgramId);
    refused(&good, |a| a[0].data = vec![0; 113], run, ProgramError::UninitializedAccount);
    refused(&good, |a| a[0].data = vec![1; 114], run, ProgramError::InvalidAccountData);
    refused(&good, |a| a[0].data[0] = 2, run, custom(QFError::RoundStatusError));
    refused(&good, |a| a[1].key = key(99), run, custom(QFError::OwnerMismatch));
    refused(&good, |a| a[1].is_signer = false, run, ProgramError::MissingRequiredSignature);
    refused(
        &good,
        |a| {
            a[1].key = key(99);
            a[1].is_signer = false;
        },
        run,
        custom(QFError::OwnerMismatch),
    );
}

#[test]
fn end_round_changes_the_status_only() {
    let mut accounts = end_round_accounts();
    Processor::process_end_round(&program(), &mut accounts).unwrap();
    assert_eq!(Round::unpack(&accounts[0].data), Ok(round(RoundStatus::Finished)));
    assert_eq!(accounts[1], signer(key(2)));
    assert_eq!(accounts[0].lamports, 1000);
    assert_eq!(accounts[0].key, key(1));
}

fn withdraw_fee_accounts() -> Vec<AccountInfo> {
    vec![
        record(key(1), Round { fee: 140, ..round(RoundStatus::Finished) }.to_bytes()),
        signer(key(2)),
        plain(key(4)),
        plain(authority()),
        plain(key(12)),
        plain(token_program_id()),
    ]
}

#[test]
fn withdraw_fee_refusals() {
    let good = withdraw_fee_accounts();
    let run = |a: &mut Vec<AccountInfo>| Processor::process_withdraw_fee(&program(), a);
    assert!(run(&mut good.clone()).is_ok());
    refused(&good, |a| { a.pop(); }, run, ProgramError::NotEnoughAccountKeys);
    refused(&good, |a| a[0].owner = key(99), run, ProgramError::IncorrectProgramId);
    refused(&good, |a| a[0].data = vec![0; 113], run, ProgramError::UninitializedAccount);
    refused(&good, |a| a[0].data[0] = 1, run, custom(QFError::RoundStatusError));
    refused(&good, |a| a[0].data[9] = 0, run, ProgramError::InsufficientFunds);
    refused(&good, |a| a[1].key = key(99), run, custom(QFError::OwnerMismatch));
    refused(&good, |a| a[1].is_signer = false, run, ProgramError::MissingRequiredSignature);
    refused(&good, |a| a[2].key = key(99), run, custom(QFError::VaultMismatch));
    refused(&good, |a| a[5].key = key(99), run, custom(QFError::UnexpectedTokenProgramID));
    refused(&good, |a| a[3].key = key(99), run, custom(QFError::OwnerMismatch));
}

#[test]
fn withdraw_fee_with_authority_goes_by_the_authority_given() {
    let good = withdraw_fee_accounts();
    let mut accounts = good.clone();
    assert_eq!(
        Processor::withdraw_fee_with_authority(&program(), &mut accounts, None),
        Err(ProgramError::InvalidSeeds)
    );
    assert_eq!(
        Processor::withdraw_fee_with_authority(&program(), &mut accounts, Some((key(77), 5))),
        Err(custom(QFError::OwnerMismatch))
    );
    assert_eq!(accounts, good);
    accounts[3].key = key(77);
    let calls = Processor::withdraw_fee_with_authority(&program(), &mut accounts, Some((key(77), 5))).unwrap();
    match &calls[0] {
        Invocation::Transfer { source, destination, authority, amount, seeds } => {
            assert_eq!(*source, key(4));
            assert_eq!(*destination, key(12));
            assert_eq!(*authority, key(77));
            assert_eq!(*amount, 140);
            assert_eq!(seeds.keys, vec![key(1)]);
            assert_eq!(seeds.bump, 5);
        }
        _ => panic!("unexpected call"),
    }
    assert_eq!(Round::unpack(&accounts[0].data), Ok(round(RoundStatus::Finished)));
}

#[test]
fn process_refuses_what_does_not_decode() {
    let good = end_round_accounts();
    for input in [vec![], vec![8u8], vec![1u8, 0, 0], vec![4u8, 1, 2, 3, 4, 5, 6, 7, 8]] {
        let mut accounts = good.clone();
        assert_eq!(
            Processor::process(&program(), &mut accounts, &input, &rent()),
            Err(ProgramError::InvalidInstructionData)
        );
        assert_eq!(accounts, good);
    }
}

#[test]
fn process_dispatches_by_the_tag() {
    let mut accounts = end_round_accounts();
    assert_eq!(Processor::process(&program(), &mut accounts, &[6], &rent()), Ok(vec![]));
    assert_eq!(Round::unpack(&accounts[0].data).unwrap().status, RoundStatus::Finished);
    let mut accounts = donate_accounts();
    let calls = Processor::process(&program(), &mut accounts, &[1, 10, 0, 0, 0, 0, 0, 0, 0, 2], &rent()).unwrap();
    assert_eq!(
        calls,
        vec![Invocation::TransferChecked {
            source: key(11),
            mint: key(5),
            destination: key(4),
            authority: key(10),
            amount: 10,
            decimals: 2,
        }]
    );
    assert_eq!(Round::unpack(&accounts[0].data).unwrap().fund, 1510);
    let mut accounts = withdraw_fee_accounts();
    assert!(Processor::process(&program(), &mut accounts, &[7], &rent()).is_ok());
    assert_eq!(Round::unpack(&accounts[0].data).unwrap().fee, 0);
    let mut accounts = withdraw_accounts();
    assert!(Processor::process(&program(), &mut accounts, &[5], &rent()).is_ok());
    assert!(Project::unpack(&accounts[3].data).unwrap().withdraw);
    let mut accounts = vote_accounts();
    assert!(Processor::process(&program(), &mut accounts, &[4, 0, 0, 0, 0, 0, 0, 0, 0, 0], &rent()).is_ok());
    assert_eq!(accounts, vote_accounts());
    let mut accounts = end_round_accounts();
    assert_eq!(
        Processor::process(&program(), &mut accounts, &[0], &rent()),
        Err(ProgramError::NotEnoughAccountKeys)
    );
}
