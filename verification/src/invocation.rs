//! What the program asks of the host in return for an instruction: calls of
//! the token programs and of the system program, each with the instruction
//! that carries it.

use crate::bytes::u64_to_le;
use crate::error::ProgramError;
use crate::pubkey::{
    associated_token_program_id, associated_token_program_key, keys_view, program_address,
    rent_sysvar_key, system_program_key, token_program_id, token_program_key,
    try_find_program_address, Pubkey,
};
use vstd::prelude::*;

verus! {

/// The seeds with which the program signs for an address of its own: the
/// bytes of each key, then the bump byte.
#[derive(Clone, Debug, PartialEq, Eq)]
pub struct SignerSeeds {
    pub keys: Vec<Pubkey>,
    pub bump: u8,
}

/// What `SignerSeeds` holds.
pub struct SignerSeedsView {
    pub keys: Seq<Seq<u8>>,
    pub bump: u8,
}

impl View for SignerSeeds {
    type V = SignerSeedsView;

    open spec fn view(&self) -> SignerSeedsView {
        SignerSeedsView { keys: keys_view(self.keys@), bump: self.bump }
    }
}

/// A call of another program that the host is to make on the program's
/// behalf. Where one fails, the host drops the whole instruction.
#[derive(Clone, Debug, PartialEq, Eq)]
pub enum Invocation {
    /// Create the token account of `wallet` for `mint`, at `funder`'s cost.
    CreateAssociatedTokenAccount { funder: Pubkey, wallet: Pubkey, mint: Pubkey },
    /// Move `amount` tokens of `mint`, whose decimals are `decimals`, from
    /// `source` to `destination`; `authority` has signed.
    TransferChecked {
        source: Pubkey,
        mint: Pubkey,
        destination: Pubkey,
        authority: Pubkey,
        amount: u64,
        decimals: u8,
    },
    /// Move `amount` tokens from `source` to `destination`; the program signs
    /// for `authority` with `seeds`.
    Transfer {
        source: Pubkey,
        destination: Pubkey,
        authority: Pubkey,
        amount: u64,
        seeds: SignerSeeds,
    },
    /// Move `lamports` from `from` to `to`.
    SystemTransfer { from: Pubkey, to: Pubkey, lamports: u64 },
    /// Give `account` `space` zero bytes; the program signs for it with `seeds`.
    Allocate { account: Pubkey, space: u64, seeds: SignerSeeds },
    /// Hand `account` to the program `owner`; the program signs for it with
    /// `seeds`.
    Assign { account: Pubkey, owner: Pubkey, seeds: SignerSeeds },
}

/// What an `Invocation` holds.
pub enum InvocationView {
    CreateAssociatedTokenAccount { funder: Seq<u8>, wallet: Seq<u8>, mint: Seq<u8> },
    TransferChecked {
        source: Seq<u8>,
        mint: Seq<u8>,
        destination: Seq<u8>,
        authority: Seq<u8>,
        amount: u64,
        decimals: u8,
    },
    Transfer {
        source: Seq<u8>,
        destination: Seq<u8>,
        authority: Seq<u8>,
        amount: u64,
        seeds: SignerSeedsView,
    },
    SystemTransfer { from: Seq<u8>, to: Seq<u8>, lamports: u64 },
    Allocate { account: Seq<u8>, space: u64, seeds: SignerSeedsView },
    Assign { account: Seq<u8>, owner: Seq<u8>, seeds: SignerSeedsView },
}

impl View for Invocation {
    type V = InvocationView;

    open spec fn view(&self) -> InvocationView {
        match *self {
            Invocation::CreateAssociatedTokenAccount { funder, wallet, mint } => {
                InvocationView::CreateAssociatedTokenAccount {
                    funder: funder@,
                    wallet: wallet@,
                    mint: mint@,
                }
            },
            Invocation::TransferChecked {
                source,
                mint,
                destination,
                authority,
                amount,
                decimals,
            } => InvocationView::TransferChecked {
                source: source@,
                mint: mint@,
                destination: destination@,
                authority: authority@,
                amount,
                decimals,
            },
            Invocation::Transfer { source, destination, authority, amount, seeds } => {
                InvocationView::Transfer {
                    source: source@,
                    destination: destination@,
                    authority: authority@,
                    amount,
                    seeds: seeds@,
                }
            },
            Invocation::SystemTransfer { from, to, lamports } => InvocationView::SystemTransfer {
                from: from@,
                to: to@,
                lamports,
            },
            Invocation::Allocate { account, space, seeds } => InvocationView::Allocate {
                account: account@,
                space,
                seeds: seeds@,
            },
            Invocation::Assign { account, owner, seeds } => InvocationView::Assign {
                account: account@,
                owner: owner@,
                seeds: seeds@,
            },
        }
    }
}

/// What each invocation of a list holds, in order.
pub open spec fn invocations_view(invocations: Seq<Invocation>) -> Seq<InvocationView> {
    Seq::new(invocations.len(), |i: int| invocations[i]@)
}

/// The seeds with which an invocation is signed for, if it is.
pub open spec fn signing_seeds(invocation: InvocationView) -> Option<SignerSeedsView> {
    match invocation {
        InvocationView::Transfer { seeds, .. } => Some(seeds),
        InvocationView::Allocate { seeds, .. } => Some(seeds),
        InvocationView::Assign { seeds, .. } => Some(seeds),
        _ => None,
    }
}

/// The view of optional seeds.
pub open spec fn option_seeds(seeds: Option<&SignerSeeds>) -> Option<SignerSeedsView> {
    match seeds {
        Some(s) => Some(s@),
        None => None,
    }
}

/// What an instruction says of one account that it names.
#[derive(Clone, Copy, Debug, PartialEq, Eq)]
pub struct AccountMeta {
    pub pubkey: Pubkey,
    /// Whether the account must have signed.
    pub is_signer: bool,
    /// Whether the instruction may change the account.
    pub is_writable: bool,
}

/// What an `AccountMeta` holds.
pub struct AccountMetaView {
    pub pubkey: Seq<u8>,
    pub is_signer: bool,
    pub is_writable: bool,
}

impl View for AccountMeta {
    type V = AccountMetaView;

    open spec fn view(&self) -> AccountMetaView {
        AccountMetaView {
            pubkey: self.pubkey@,
            is_signer: self.is_signer,
            is_writable: self.is_writable,
        }
    }
}

impl AccountMeta {
    /// What an instruction says of the account at `pubkey`.
    pub fn new(pubkey: [u8; 32], is_signer: bool, is_writable: bool) -> (meta: AccountMeta)
        ensures
            meta@ == (AccountMetaView { pubkey: pubkey@, is_signer, is_writable }),
    {
        AccountMeta { pubkey: Pubkey { bytes: pubkey }, is_signer, is_writable }
    }
}

/// An instruction to another program: the program, the accounts that it is
/// to work on, and the bytes that tell it what to do.
#[derive(Clone, Debug, PartialEq, Eq)]
pub struct Instruction {
    pub program_id: Pubkey,
    pub accounts: Vec<AccountMeta>,
    pub data: Vec<u8>,
}

/// What an `Instruction` holds.
pub struct InstructionView {
    pub program_id: Seq<u8>,
    pub accounts: Seq<AccountMetaView>,
    pub data: Seq<u8>,
}

impl View for Instruction {
    type V = InstructionView;

    open spec fn view(&self) -> InstructionView {
        InstructionView {
            program_id: self.program_id@,
            accounts: metas_view(self.accounts@),
            data: self.data@,
        }
    }
}

/// What each account of a list says, in order.
pub open spec fn metas_view(accounts: Seq<AccountMeta>) -> Seq<AccountMetaView> {
    Seq::new(accounts.len(), |i: int| accounts[i]@)
}

impl Instruction {
    /// The instruction to the program at `program_id`.
    pub fn new(program_id: [u8; 32], accounts: Vec<AccountMeta>, data: Vec<u8>) -> (built:
        Instruction)
        ensures
            built@ == (InstructionView {
                program_id: program_id@,
                accounts: metas_view(accounts@),
                data: data@,
            }),
    {
        Instruction { program_id: Pubkey { bytes: program_id }, accounts, data }
    }
}

/// The view of an optional instruction.
pub open spec fn option_instruction(built: Option<Instruction>) -> Option<InstructionView> {
    match built {
        Some(instruction) => Some(instruction@),
        None => None,
    }
}

/// The view of an instruction or the reason for which there is none.
pub open spec fn instruction_result(built: Result<Instruction, ProgramError>) -> Result<
    InstructionView,
    ProgramError,
> {
    match built {
        Ok(instruction) => Ok(instruction@),
        Err(e) => Err(e),
    }
}

/// What an instruction says of the account at `pubkey`.
pub open spec fn meta(pubkey: Seq<u8>, is_signer: bool, is_writable: bool) -> AccountMetaView {
    AccountMetaView { pubkey, is_signer, is_writable }
}

/// The instruction that has the token program move `amount` tokens of `mint`,
/// with `decimals` decimals, from `source` to `destination` at the word of
/// `authority`: the two token accounts may change, the mint may not, and
/// `authority` comes a second time as the one that has signed. The bytes are
/// the tag 12, the amount, least significant byte first, and the decimals.
pub open spec fn token_transfer_checked(
    source: Seq<u8>,
    mint: Seq<u8>,
    destination: Seq<u8>,
    authority: Seq<u8>,
    amount: u64,
    decimals: u8,
) -> InstructionView {
    InstructionView {
        program_id: token_program_key(),
        accounts: seq![
            meta(source, false, true),
            meta(mint, false, false),
            meta(destination, false, true),
            meta(authority, false, false),
            meta(authority, true, false),
        ],
        data: seq![12u8] + u64_to_le(amount) + seq![decimals],
    }
}

/// The instruction that has the token program move `amount` tokens from
/// `source` to `destination` at the word of `authority`: the two token
/// accounts may change, and `authority` comes a second time as the one that
/// has signed. The bytes are the tag 3 and the amount, least significant byte
/// first.
pub open spec fn token_transfer(
    source: Seq<u8>,
    destination: Seq<u8>,
    authority: Seq<u8>,
    amount: u64,
) -> InstructionView {
    InstructionView {
        program_id: token_program_key(),
        accounts: seq![
            meta(source, false, true),
            meta(destination, false, true),
            meta(authority, false, false),
            meta(authority, true, false),
        ],
        data: seq![3u8] + u64_to_le(amount),
    }
}

/// The address of the token account of `wallet` for `mint`, with its bump
/// byte: the one that the associated token account program signs for under
/// the wallet, the token program and the mint.
pub open spec fn associated_token_address(wallet: Seq<u8>, mint: Seq<u8>) -> Option<
    (Seq<u8>, u8),
> {
    program_address(seq![wallet, token_program_key(), mint], associated_token_program_key())
}

/// The instruction that has the associated token account program create the
/// token account of `wallet` for `mint` at `funder`'s cost: `funder` signs
/// and pays, the token account is the one thing else that may change, and the
/// wallet, the mint, the system program, the token program and the rent
/// parameters follow. It carries no bytes.
pub open spec fn associated_token_account_creation(
    funder: Seq<u8>,
    wallet: Seq<u8>,
    mint: Seq<u8>,
) -> InstructionView {
    InstructionView {
        program_id: associated_token_program_key(),
        accounts: seq![
            meta(funder, true, true),
            meta(associated_token_address(wallet, mint)->Some_0.0, false, true),
            meta(wallet, false, false),
            meta(mint, false, false),
            meta(system_program_key(), false, false),
            meta(token_program_key(), false, false),
            meta(rent_sysvar_key(), false, false),
        ],
        data: Seq::empty(),
    }
}

/// The instruction with which `solana_program` has the system program move
/// `lamports` from `from` to `to`.
pub uninterp spec fn system_transfer(from: Seq<u8>, to: Seq<u8>, lamports: u64) -> InstructionView;

/// The instruction with which `solana_program` has the system program give
/// `account` `space` bytes.
pub uninterp spec fn system_allocate(account: Seq<u8>, space: u64) -> InstructionView;

/// The instruction with which `solana_program` has the system program hand
/// `account` to the program `owner`.
pub uninterp spec fn system_assign(account: Seq<u8>, owner: Seq<u8>) -> InstructionView;

/// Calls `spl_token::instruction::transfer_checked` for the token program,
/// with `authority` as the one signer. It refuses no program but a foreign
/// one, so for the token program it always makes the instruction: the
/// accounts in the order given, the authority not marked as signer where
/// signers are listed, then each signer, and the bytes that the instruction's
/// `pack` writes.
#[verifier::external_body]
fn spl_token_transfer_checked(
    source: &Pubkey,
    mint: &Pubkey,
    destination: &Pubkey,
    authority: &Pubkey,
    amount: u64,
    decimals: u8,
) -> (built: Option<Instruction>)
    ensures
        option_instruction(built) == Some(
            token_transfer_checked(source@, mint@, destination@, authority@, amount, decimals),
        ),
{
    let (s, m, d) = (source.bytes.into(), mint.bytes.into(), destination.bytes.into());
    let (a, t) = (authority.bytes.into(), spl_token::id());
    match spl_token::instruction::transfer_checked(&t, &s, &m, &d, &a, &[&a], amount, decimals) {
        Ok(i) => {
            let metas = i.accounts.iter().map(
                |x| AccountMeta::new(x.pubkey.to_bytes(), x.is_signer, x.is_writable),
            );
            Some(Instruction::new(i.program_id.to_bytes(), metas.collect(), i.data))
        },
        Err(_) => None,
    }
}

/// Calls `spl_token::instruction::transfer` for the token program, with
/// `authority` as the one signer. It refuses no program but a foreign one, so
/// for the token program it always makes the instruction: the accounts in
/// the order given, the authority not marked as signer where signers are
/// listed, then each signer, and the bytes that the instruction's `pack`
/// writes.
#[verifier::external_body]
fn spl_token_transfer(
    source: &Pubkey,
    destination: &Pubkey,
    authority: &Pubkey,
    amount: u64,
) -> (built: Option<Instruction>)
    ensures
        option_instruction(built) == Some(
            token_transfer(source@, destination@, authority@, amount),
        ),
{
    let (s, d, a) = (source.bytes.into(), destination.bytes.into(), authority.bytes.into());
    match spl_token::instruction::transfer(&spl_token::id(), &s, &d, &a, &[&a], amount) {
        Ok(i) => {
            let metas = i.accounts.iter().map(
                |x| AccountMeta::new(x.pubkey.to_bytes(), x.is_signer, x.is_writable),
            );
            Some(Instruction::new(i.program_id.to_bytes(), metas.collect(), i.data))
        },
        Err(_) => None,
    }
}

/// Calls `spl_associated_token_account::create_associated_token_account`,
/// which derives the address of the token account from the wallet, the token
/// program and the mint, and ends the program where there is none. The
/// instruction is for the associated token account program, names the seven
/// accounts that the library lists, and carries no bytes.
#[verifier::external_body]
#[allow(deprecated)]
fn spl_create_associated_token_account(
    funder: &Pubkey,
    wallet: &Pubkey,
    mint: &Pubkey,
) -> (built: Instruction)
    requires
        associated_token_address(wallet@, mint@) is Some,
    ensures
        built@ == associated_token_account_creation(funder@, wallet@, mint@),
{
    let (f, w, m) = (funder.bytes.into(), wallet.bytes.into(), mint.bytes.into());
    let i = spl_associated_token_account::create_associated_token_account(&f, &w, &m);
    let metas = i.accounts.iter().map(
        |x| AccountMeta::new(x.pubkey.to_bytes(), x.is_signer, x.is_writable),
    );
    Instruction::new(i.program_id.to_bytes(), metas.collect(), i.data)
}

/// Calls `solana_program::system_instruction::transfer`. The instruction
/// depends on the arguments alone and is named `system_transfer`.
#[verifier::external_body]
fn system_instruction_transfer(from: &Pubkey, to: &Pubkey, lamports: u64) -> (built: Instruction)
    ensures
        built@ == system_transfer(from@, to@, lamports),
{
    let (f, t) = (from.bytes.into(), to.bytes.into());
    let i = solana_program::system_instruction::transfer(&f, &t, lamports);
    let metas = i.accounts.iter().map(
        |x| AccountMeta::new(x.pubkey.to_bytes(), x.is_signer, x.is_writable),
    );
    Instruction::new(i.program_id.to_bytes(), metas.collect(), i.data)
}

/// Calls `solana_program::system_instruction::allocate`. The instruction
/// depends on the arguments alone and is named `system_allocate`.
#[verifier::external_body]
fn system_instruction_allocate(account: &Pubkey, space: u64) -> (built: Instruction)
    ensures
        built@ == system_allocate(account@, space),
{
    let i = solana_program::system_instruction::allocate(&account.bytes.into(), space);
    let metas = i.accounts.iter().map(
        |x| AccountMeta::new(x.pubkey.to_bytes(), x.is_signer, x.is_writable),
    );
    Instruction::new(i.program_id.to_bytes(), metas.collect(), i.data)
}

/// Calls `solana_program::system_instruction::assign`. The instruction
/// depends on the arguments alone and is named `system_assign`.
#[verifier::external_body]
fn system_instruction_assign(account: &Pubkey, owner: &Pubkey) -> (built: Instruction)
    ensures
        built@ == system_assign(account@, owner@),
{
    let (a, o) = (account.bytes.into(), owner.bytes.into());
    let i = solana_program::system_instruction::assign(&a, &o);
    let metas = i.accounts.iter().map(
        |x| AccountMeta::new(x.pubkey.to_bytes(), x.is_signer, x.is_writable),
    );
    Instruction::new(i.program_id.to_bytes(), metas.collect(), i.data)
}

/// The instruction that carries `invocation` to its program. The creation of
/// a token account has none where its address cannot be derived.
pub open spec fn instruction_of(invocation: InvocationView) -> Result<
    InstructionView,
    ProgramError,
> {
    match invocation {
        InvocationView::CreateAssociatedTokenAccount { funder, wallet, mint } => {
            if associated_token_address(wallet, mint) is Some {
                Ok(associated_token_account_creation(funder, wallet, mint))
            } else {
                Err(ProgramError::InvalidSeeds)
            }
        },
        InvocationView::TransferChecked {
            source,
            mint,
            destination,
            authority,
            amount,
            decimals,
        } => Ok(token_transfer_checked(source, mint, destination, authority, amount, decimals)),
        InvocationView::Transfer { source, destination, authority, amount, seeds } => Ok(
            token_transfer(source, destination, authority, amount),
        ),
        InvocationView::SystemTransfer { from, to, lamports } => Ok(
            system_transfer(from, to, lamports),
        ),
        InvocationView::Allocate { account, space, seeds } => Ok(system_allocate(account, space)),
        InvocationView::Assign { account, owner, seeds } => Ok(system_assign(account, owner)),
    }
}

impl Invocation {
    /// The instruction that carries the invocation to its program.
    pub fn instruction(&self) -> (built: Result<Instruction, ProgramError>)
        ensures
            instruction_result(built) == instruction_of(self@),
    {
        match self {
            Invocation::CreateAssociatedTokenAccount { funder, wallet, mint } => {
                let mut seeds: Vec<Pubkey> = Vec::new();
                seeds.push(*wallet);
                seeds.push(token_program_id());
                seeds.push(*mint);
                assert(keys_view(seeds@) =~= seq![wallet@, token_program_key(), mint@]);
                match try_find_program_address(&seeds, &associated_token_program_id()) {
                    Some(_) => Ok(spl_create_associated_token_account(funder, wallet, mint)),
                    None => Err(ProgramError::InvalidSeeds),
                }
            },
            Invocation::TransferChecked {
                source,
                mint,
                destination,
                authority,
                amount,
                decimals,
            } => match spl_token_transfer_checked(
                source,
                mint,
                destination,
                authority,
                *amount,
                *decimals,
            ) {
                Some(instruction) => Ok(instruction),
                // never taken: the token library refuses none for its own program
                None => Err(ProgramError::IncorrectProgramId),
            },
            Invocation::Transfer { source, destination, authority, amount, seeds } => {
                match spl_token_transfer(source, destination, authority, *amount) {
                    Some(instruction) => Ok(instruction),
                    // never taken, as above
                    None => Err(ProgramError::IncorrectProgramId),
                }
            },
            Invocation::SystemTransfer { from, to, lamports } => Ok(
                system_instruction_transfer(from, to, *lamports),
            ),
            Invocation::Allocate { account, space, seeds } => Ok(
                system_instruction_allocate(account, *space),
            ),
            Invocation::Assign { account, owner, seeds } => Ok(
                system_instruction_assign(account, owner),
            ),
        }
    }

    /// The seeds with which the program signs for the invocation, if it does.
    pub fn signer_seeds(&self) -> (seeds: Option<&SignerSeeds>)
        ensures
            option_seeds(seeds) == signing_seeds(self@),
    {
        match self {
            Invocation::Transfer { seeds, .. } => Some(seeds),
            Invocation::Allocate { seeds, .. } => Some(seeds),
            Invocation::Assign { seeds, .. } => Some(seeds),
            _ => None,
        }
    }
}

} // verus!
