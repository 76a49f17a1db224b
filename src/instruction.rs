//! Cross-program transfer instructions, as plain values.
use anchor_lang::solana_program::system_instruction;
use anchor_lang::prelude::Pubkey;
use vstd::prelude::*;

use crate::key::Key;

verus! {

/// One account that an instruction names, with its access.
#[derive(Clone, Copy, PartialEq, Eq, Debug)]
pub struct AccountRef {
    pub key: Key,
    pub is_signer: bool,
    pub is_writable: bool,
}

/// An instruction for another program: the program, the accounts it reads or
/// writes, and its data.
#[derive(Clone, PartialEq, Eq, Debug)]
pub struct CpiInstruction {
    pub program_id: Key,
    pub accounts: Vec<AccountRef>,
    pub data: Vec<u8>,
}

/// The `n` low bytes of `v`, least significant first.
pub open spec fn le_bytes(v: nat, n: nat) -> Seq<u8>
    decreases n,
{
    if n == 0 {
        seq![]
    } else {
        seq![(v % 256) as u8] + le_bytes(v / 256, (n - 1) as nat)
    }
}

/// The 8-byte little-endian form of `v`.
pub fn u64_le_bytes(v: u64) -> (r: Vec<u8>)
    ensures
        r@ == le_bytes(v as nat, 8),
{
    let mut r: Vec<u8> = Vec::new();
    let mut x: u64 = v;
    let mut i: usize = 0;
    while i < 8
        invariant
            i <= 8,
            r@ + le_bytes(x as nat, (8 - i) as nat) == le_bytes(v as nat, 8),
        decreases 8 - i,
    {
        let ghost before = r@;
        r.push((x % 256) as u8);
        proof {
            assert(le_bytes(x as nat, (8 - i) as nat) == seq![(x % 256) as u8] + le_bytes(
                (x / 256) as nat,
                (8 - i - 1) as nat,
            ));
            assert(r@ + le_bytes((x / 256) as nat, (8 - i - 1) as nat) =~= before + le_bytes(
                x as nat,
                (8 - i) as nat,
            ));
        }
        x = x / 256;
        i = i + 1;
    }
    assert(r@ =~= r@ + le_bytes(x as nat, 0));
    r
}

/// The key of the system program: 32 zero bytes.
pub open spec fn system_program_key() -> Seq<u8> {
    Seq::new(32, |i: int| 0u8)
}

/// The data of the system program's transfer: variant index 2 as a 4-byte
/// little-endian integer, then the lamports as 8 little-endian bytes.
pub open spec fn system_transfer_data(lamports: u64) -> Seq<u8> {
    seq![2u8, 0u8, 0u8, 0u8] + le_bytes(lamports as nat, 8)
}

/// Relies on `system_instruction::transfer`: an instruction for the system
/// program, with the source as writable signer, the destination as writable,
/// and the bincode form of `SystemInstruction::Transfer { lamports }` as data.
#[verifier::external_body]
pub(crate) fn system_transfer(from: &Key, to: &Key, lamports: u64) -> (r: CpiInstruction)
    ensures
        r.program_id@ == system_program_key(),
        r.accounts@ == seq![
            AccountRef { key: *from, is_signer: true, is_writable: true },
            AccountRef { key: *to, is_signer: false, is_writable: true },
        ],
        r.data@ == system_transfer_data(lamports),
{
    let ix = system_instruction::transfer(
        &Pubkey::new_from_array(from.bytes),
        &Pubkey::new_from_array(to.bytes),
        lamports,
    );
    let accounts = ix.accounts.iter().map(|m| AccountRef {
        key: Key { bytes: m.pubkey.to_bytes() },
        is_signer: m.is_signer,
        is_writable: m.is_writable,
    }).collect();
    CpiInstruction { program_id: Key { bytes: ix.program_id.to_bytes() }, accounts, data: ix.data }
}

/// Operation tag of a token program's plain `Transfer`.
pub const TOKEN_TRANSFER_TAG: u8 = 3;

/// The data of a token transfer: the tag, then the amount as 8 little-endian bytes.
pub open spec fn token_transfer_data(amount: u64) -> Seq<u8> {
    seq![TOKEN_TRANSFER_TAG] + le_bytes(amount as nat, 8)
}

/// A token transfer of `amount` from `source` to `destination`, signed by
/// `authority`, addressed to `token_program`. The layout is the same for both
/// token programs, so one builder serves both.
pub fn token_transfer(token_program: &Key, source: &Key, destination: &Key, authority: &Key, amount: u64) -> (r:
    CpiInstruction)
    ensures
        r.program_id == *token_program,
        r.accounts@ == seq![
            AccountRef { key: *source, is_signer: false, is_writable: true },
            AccountRef { key: *destination, is_signer: false, is_writable: true },
            AccountRef { key: *authority, is_signer: true, is_writable: false },
        ],
        r.data@ == token_transfer_data(amount),
{
    let mut data: Vec<u8> = Vec::new();
    data.push(TOKEN_TRANSFER_TAG);
    let mut amount_bytes = u64_le_bytes(amount);
    data.append(&mut amount_bytes);
    assert(data@ =~= token_transfer_data(amount));
    let mut accounts: Vec<AccountRef> = Vec::new();
    accounts.push(AccountRef { key: *source, is_signer: false, is_writable: true });
    accounts.push(AccountRef { key: *destination, is_signer: false, is_writable: true });
    accounts.push(AccountRef { key: *authority, is_signer: true, is_writable: false });
    assert(accounts@ =~= seq![
        AccountRef { key: *source, is_signer: false, is_writable: true },
        AccountRef { key: *destination, is_signer: false, is_writable: true },
        AccountRef { key: *authority, is_signer: true, is_writable: false },
    ]);
    CpiInstruction { program_id: *token_program, accounts, data }
}

} // verus!
