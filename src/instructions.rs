use solana_system_interface::instruction as system_ix;
use solana_sdk::pubkey::Pubkey;
use spl_token::instruction as token_ix;
use vstd::prelude::*;

verus! {

/// One account that an instruction reads or writes.
#[derive(Debug, Clone, Copy, PartialEq, Eq)]
pub struct AccountRef {
    pub pubkey: [u8; 32],
    pub is_signer: bool,
    pub is_writable: bool,
}

/// An instruction as plain values: the program that runs it, its accounts in
/// order, and its data.
#[derive(Debug, Clone)]
pub struct InstructionParts {
    pub program_id: [u8; 32],
    pub accounts: Vec<AccountRef>,
    pub data: Vec<u8>,
}

/// The address that the associated token account of `wallet` for `mint` has,
/// or `None` in the improbable case that no bump seed gives one.
pub uninterp spec fn associated_address(wallet: Seq<u8>, mint: Seq<u8>) -> Option<Seq<u8>>;

/// The eight bytes of `x`, least significant first.
pub open spec fn le_bytes(x: u64) -> Seq<u8> {
    seq![
        (x % 0x100) as u8,
        ((x / 0x100) % 0x100) as u8,
        ((x / 0x1_0000) % 0x100) as u8,
        ((x / 0x100_0000) % 0x100) as u8,
        ((x / 0x1_0000_0000) % 0x100) as u8,
        ((x / 0x100_0000_0000) % 0x100) as u8,
        ((x / 0x1_0000_0000_0000) % 0x100) as u8,
        ((x / 0x100_0000_0000_0000) % 0x100) as u8,
    ]
}

/// The system program's address: 32 zero bytes.
pub open spec fn system_program_id() -> Seq<u8> {
    Seq::new(32, |i: int| 0u8)
}

/// The token program's address, `TokenkegQfeZyiNwAJbNbGKPFXCWuBvf9Ss623VQ5DA`.
pub open spec fn token_program_id() -> Seq<u8> {
    seq![
        6u8, 221, 246, 225, 215, 101, 161, 147, 217, 203, 225, 70, 206, 235, 121, 172,
        28, 180, 133, 237, 95, 91, 55, 145, 58, 140, 245, 133, 126, 255, 0, 169,
    ]
}

/// The rent sysvar's address, `SysvarRent111111111111111111111111111111111`.
pub open spec fn rent_sysvar_id() -> Seq<u8> {
    seq![
        6u8, 167, 213, 23, 25, 44, 92, 81, 33, 140, 201, 76, 61, 74, 241, 127,
        88, 218, 238, 8, 155, 161, 253, 68, 227, 219, 217, 138, 0, 0, 0, 0,
    ]
}

/// `a` is the account `key` with the given flags.
pub open spec fn account_is(a: AccountRef, key: Seq<u8>, is_signer: bool, is_writable: bool) -> bool {
    a.pubkey@ == key && a.is_signer == is_signer && a.is_writable == is_writable
}

/// Relies on `solana_system_interface::instruction::transfer`: the system
/// program's transfer, with the sender as writable signer, the receiver as
/// writable, and the data `2u32` then `lamports`, both little-endian.
#[verifier::external_body]
pub(crate) fn system_transfer(from: [u8; 32], to: [u8; 32], lamports: u64) -> (r: InstructionParts)
    ensures
        r.program_id@ == system_program_id(),
        r.accounts@.len() == 2,
        account_is(r.accounts@[0], from@, true, true),
        account_is(r.accounts@[1], to@, false, true),
        r.data@ == seq![2u8, 0, 0, 0] + le_bytes(lamports),
{
    let i = system_ix::transfer(&from.into(), &to.into(), lamports);
    let accounts = i.accounts.iter().map(|m| AccountRef {
        pubkey: m.pubkey.to_bytes(), is_signer: m.is_signer, is_writable: m.is_writable,
    }).collect();
    InstructionParts { program_id: i.program_id.to_bytes(), accounts, data: i.data }
}

/// Relies on `spl_token::id`: the token program's address.
#[verifier::external_body]
pub(crate) fn token_program() -> (r: [u8; 32])
    ensures
        r@ == token_program_id(),
{
    spl_token::id().to_bytes()
}

/// Relies on `spl_token::instruction::initialize_mint` with no freeze authority:
/// it refuses any program but the token program; else it names the mint as
/// writable and the rent sysvar as read-only, with the data `0`, `decimals`,
/// the authority's bytes, `0`.
#[verifier::external_body]
pub(crate) fn token_initialize_mint(program: [u8; 32], mint: [u8; 32], authority: [u8; 32], decimals: u8)
    -> (r: Option<InstructionParts>)
    ensures
        r is Some <==> program@ == token_program_id(),
        r matches Some(i) ==> i.program_id == program && i.accounts@.len() == 2
            && account_is(i.accounts@[0], mint@, false, true)
            && account_is(i.accounts@[1], rent_sysvar_id(), false, false)
            && i.data@ == seq![0u8, decimals] + authority@ + seq![0u8],
{
    let i = token_ix::initialize_mint(&program.into(), &mint.into(), &authority.into(), None, decimals).ok()?;
    let accounts = i.accounts.iter().map(|m| AccountRef {
        pubkey: m.pubkey.to_bytes(), is_signer: m.is_signer, is_writable: m.is_writable,
    }).collect();
    Some(InstructionParts { program_id: i.program_id.to_bytes(), accounts, data: i.data })
}

/// Relies on `spl_token::instruction::mint_to` with no multisig signers: it
/// refuses any program but the token program; else it names the mint and the
/// destination as writable and the authority as read-only signer, with the
/// data `7` then `amount` little-endian.
#[verifier::external_body]
pub(crate) fn token_mint_to(program: [u8; 32], mint: [u8; 32], destination: [u8; 32], authority: [u8; 32], amount: u64)
    -> (r: Option<InstructionParts>)
    ensures
        r is Some <==> program@ == token_program_id(),
        r matches Some(i) ==> i.program_id == program && i.accounts@.len() == 3
            && account_is(i.accounts@[0], mint@, false, true)
            && account_is(i.accounts@[1], destination@, false, true)
            && account_is(i.accounts@[2], authority@, true, false)
            && i.data@ == seq![7u8] + le_bytes(amount),
{
    let i = token_ix::mint_to(&program.into(), &mint.into(), &destination.into(), &authority.into(), &[], amount).ok()?;
    let accounts = i.accounts.iter().map(|m| AccountRef {
        pubkey: m.pubkey.to_bytes(), is_signer: m.is_signer, is_writable: m.is_writable,
    }).collect();
    Some(InstructionParts { program_id: i.program_id.to_bytes(), accounts, data: i.data })
}

/// Relies on `spl_token::instruction::transfer` with no multisig signers: it
/// refuses any program but the token program; else it names the source and
/// the destination as writable and the owner as read-only signer, with the
/// data `3` then `amount` little-endian.
#[verifier::external_body]
pub(crate) fn token_transfer(program: [u8; 32], source: [u8; 32], destination: [u8; 32], owner: [u8; 32], amount: u64)
    -> (r: Option<InstructionParts>)
    ensures
        r is Some <==> program@ == token_program_id(),
        r matches Some(i) ==> i.program_id == program && i.accounts@.len() == 3
            && account_is(i.accounts@[0], source@, false, true)
            && account_is(i.accounts@[1], destination@, false, true)
            && account_is(i.accounts@[2], owner@, true, false)
            && i.data@ == seq![3u8] + le_bytes(amount),
{
    let i = token_ix::transfer(&program.into(), &source.into(), &destination.into(), &owner.into(), &[], amount).ok()?;
    let accounts = i.accounts.iter().map(|m| AccountRef {
        pubkey: m.pubkey.to_bytes(), is_signer: m.is_signer, is_writable: m.is_writable,
    }).collect();
    Some(InstructionParts { program_id: i.program_id.to_bytes(), accounts, data: i.data })
}

/// Relies on `Pubkey::try_find_program_address` with the seeds and program
/// that `spl_associated_token_account::get_associated_token_address` uses
/// (wallet, token program, mint; under the associated token program): the
/// address of the associated token account of `wallet` for `mint`, which
/// depends on the two addresses alone, or `None` where no bump seed gives one.
#[verifier::external_body]
pub(crate) fn associated_token_address(wallet: [u8; 32], mint: [u8; 32]) -> (r: Option<[u8; 32]>)
    ensures
        r matches Some(a) ==> associated_address(wallet@, mint@) == Some(a@),
        r is None ==> associated_address(wallet@, mint@) is None,
{
    let token = spl_token::id().to_bytes();
    let seeds: [&[u8]; 3] = [&wallet, &token, &mint];
    let program = spl_associated_token_account::id();
    Pubkey::try_find_program_address(&seeds, &program).map(|(a, _)| a.to_bytes())
}

} // verus!
