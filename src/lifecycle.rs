//! The tip jar's requests: create, donate (native or token), withdraw, delete.
//!
//! Each request gets the accounts it touches as plain values and answers with
//! the record to store, the balances to set, or the transfer instructions to
//! run. The host runs each request as one unit of work: an error leaves
//! everything as it was.
use vstd::prelude::*;
use vstd::utf8::encode_utf8;

use crate::address::{check_tip_jar_address, derive_tip_jar_address, derived_tip_jar, is_tip_jar_address};
use crate::error::CustomError;
use crate::fee::{fee_fits, fee_of, net_of, split_fee};
use crate::instruction::{
    system_program_key, system_transfer, system_transfer_data, token_transfer, token_transfer_data,
    AccountRef, CpiInstruction,
};
use crate::key::Key;
use crate::token::{check_token_records, token_records_valid, TokenRecord};

verus! {

/// Longest name, in bytes.
pub const MAX_NAME_LEN: usize = 50;

/// Longest description, in bytes.
pub const MAX_DESCRIPTION_LEN: usize = 200;

/// The stored record of a tip jar.
#[derive(Clone, PartialEq, Eq, Debug)]
pub struct TipJar {
    pub owner: Key,
    pub name: String,
    pub description: String,
    pub created_at: i64,
    pub bump: u8,
}

/// A tip jar account as a request finds it: its address, its record if one is
/// stored there, and its balance.
#[derive(Clone, PartialEq, Eq, Debug)]
pub struct JarAccount {
    pub address: Key,
    pub record: Option<TipJar>,
    pub lamports: u64,
}

/// Accounts and host values of a create request.
#[derive(Clone, PartialEq, Eq, Debug)]
pub struct CreateTipJar {
    pub program_id: Key,
    /// The signer, who becomes the owner.
    pub user: Key,
    pub tip_jar: JarAccount,
    /// The host clock when the request runs.
    pub now: i64,
}

/// Accounts of a native donation.
#[derive(Clone, PartialEq, Eq, Debug)]
pub struct Donate {
    pub program_id: Key,
    pub donor: Key,
    pub tip_jar: JarAccount,
    /// Where the fee goes; fixed by the deployment.
    pub fee_recipient: Key,
}

/// Accounts of a token donation.
#[derive(Clone, PartialEq, Eq, Debug)]
pub struct DonateToken {
    pub program_id: Key,
    pub donor: Key,
    pub tip_jar: JarAccount,
    pub donor_token: TokenRecord,
    pub fee_token: TokenRecord,
    pub jar_token: TokenRecord,
}

/// Accounts and host values of a withdrawal.
#[derive(Clone, PartialEq, Eq, Debug)]
pub struct Withdraw {
    pub program_id: Key,
    pub user: Key,
    pub user_lamports: u64,
    pub tip_jar: JarAccount,
    /// The least balance the host keeps an account of this size for.
    pub minimum_retained: u64,
}

/// Accounts of a delete request.
#[derive(Clone, PartialEq, Eq, Debug)]
pub struct DeleteTipJar {
    pub program_id: Key,
    pub user: Key,
    pub user_lamports: u64,
    pub tip_jar: JarAccount,
}

/// Balances after a withdrawal.
#[derive(Clone, Copy, PartialEq, Eq, Debug, Structural)]
pub struct Balances {
    pub tip_jar: u64,
    pub user: u64,
}

/// Length of a text in bytes, as it is stored.
pub open spec fn byte_len(s: Seq<char>) -> usize {
    encode_utf8(s).len() as usize
}

/// The account holds a record, and its address is the one that the record's
/// owner and bump give.
pub open spec fn jar_loads(account: JarAccount, program_id: Seq<u8>) -> bool {
    match account.record {
        Some(j) => is_tip_jar_address(account.address@, j.owner@, j.bump, program_id),
        None => false,
    }
}

/// Reads the tip jar of `account`, rejecting one whose stored bump does not
/// reproduce its address.
pub fn load_tip_jar<'a>(account: &'a JarAccount, program_id: &Key) -> (r: Result<&'a TipJar, CustomError>)
    ensures
        r is Ok <==> jar_loads(*account, program_id@),
        r matches Ok(j) ==> account.record == Some(*j),
        r matches Err(e) ==> e == CustomError::NotFound,
{
    match &account.record {
        Some(j) => {
            if check_tip_jar_address(&account.address, &j.owner, j.bump, program_id) {
                Ok(j)
            } else {
                Err(CustomError::NotFound)
            }
        },
        None => Err(CustomError::NotFound),
    }
}

/// Fails with `Unauthorized` unless `acting` is the tip jar's owner.
pub fn authorize(acting: &Key, jar: &TipJar) -> (r: Result<(), CustomError>)
    ensures
        r is Ok <==> acting@ == jar.owner@,
        r matches Err(e) ==> e == CustomError::Unauthorized,
{
    if acting.same_as(&jar.owner) {
        Ok(())
    } else {
        Err(CustomError::Unauthorized)
    }
}

/// Why a create request fails, if it does.
pub open spec fn create_error(ctx: CreateTipJar, name: Seq<char>, description: Seq<char>) -> Option<
    CustomError,
> {
    match derived_tip_jar(ctx.user@, ctx.program_id@) {
        None => Some(CustomError::NotFound),
        Some((a, _)) => if a != ctx.tip_jar.address@ {
            Some(CustomError::NotFound)
        } else if ctx.tip_jar.record is Some {
            Some(CustomError::AlreadyExists)
        } else if byte_len(name) > MAX_NAME_LEN {
            Some(CustomError::NameTooLong)
        } else if byte_len(description) > MAX_DESCRIPTION_LEN {
            Some(CustomError::DescriptionTooLong)
        } else {
            None
        },
    }
}

/// `jar` is what a successful create request stores.
pub open spec fn created_by(ctx: CreateTipJar, name: Seq<char>, description: Seq<char>, jar: TipJar) -> bool {
    &&& create_error(ctx, name, description) is None
    &&& jar.owner == ctx.user
    &&& jar.name@ == name
    &&& jar.description@ == description
    &&& jar.created_at == ctx.now
    &&& derived_tip_jar(ctx.user@, ctx.program_id@) == Some((ctx.tip_jar.address@, jar.bump))
    &&& is_tip_jar_address(ctx.tip_jar.address@, jar.owner@, jar.bump, ctx.program_id@)
}

/// Creates the record of the signer's tip jar at its derived address.
pub fn create_tip_jar(ctx: &CreateTipJar, name: String, description: String) -> (r: Result<
    TipJar,
    CustomError,
>)
    ensures
        match create_error(*ctx, name@, description@) {
            Some(e) => r == Err::<TipJar, CustomError>(e),
            None => r matches Ok(j) && created_by(*ctx, name@, description@, j),
        },
{
    let (address, bump) = match derive_tip_jar_address(&ctx.user, &ctx.program_id) {
        Some(found) => found,
        None => return Err(CustomError::NotFound),
    };
    if !address.same_as(&ctx.tip_jar.address) {
        return Err(CustomError::NotFound);
    }
    if ctx.tip_jar.record.is_some() {
        return Err(CustomError::AlreadyExists);
    }
    let name_len = name.as_str().len();
    if name_len > MAX_NAME_LEN {
        return Err(CustomError::NameTooLong);
    }
    let description_len = description.as_str().len();
    if description_len > MAX_DESCRIPTION_LEN {
        return Err(CustomError::DescriptionTooLong);
    }
    Ok(TipJar { owner: ctx.user, name, description, created_at: ctx.now, bump })
}

/// A tip jar that a create request stored reads back at its address with
/// the owner, name, description and creation time that the request gave.
pub proof fn lemma_created_jar_reads_back(
    ctx: CreateTipJar,
    name: Seq<char>,
    description: Seq<char>,
    jar: TipJar,
    lamports: u64,
)
    requires
        created_by(ctx, name, description, jar),
    ensures
        jar_loads(JarAccount { address: ctx.tip_jar.address, record: Some(jar), lamports }, ctx.program_id@),
        jar.owner == ctx.user,
        jar.name@ == name,
        jar.description@ == description,
        jar.created_at >= ctx.now,
{
}

/// Once a create request has stored a tip jar, a second create request of the
/// same owner fails with `AlreadyExists`: derivation gives the same address
/// again, and a record is there.
pub proof fn lemma_create_twice_fails(
    first: CreateTipJar,
    name: Seq<char>,
    description: Seq<char>,
    jar: TipJar,
    second: CreateTipJar,
    name2: Seq<char>,
    description2: Seq<char>,
)
    requires
        created_by(first, name, description, jar),
        second.program_id == first.program_id,
        second.user == first.user,
        second.tip_jar.address == first.tip_jar.address,
        second.tip_jar.record == Some(jar),
    ensures
        create_error(second, name2, description2) == Some(CustomError::AlreadyExists),
{
}

/// `ix` is the system program's transfer of `lamports` from `from` to `to`.
pub open spec fn is_native_transfer(ix: CpiInstruction, from: Key, to: Key, lamports: int) -> bool {
    &&& ix.program_id@ == system_program_key()
    &&& ix.accounts@ == seq![
        AccountRef { key: from, is_signer: true, is_writable: true },
        AccountRef { key: to, is_signer: false, is_writable: true },
    ]
    &&& 0 <= lamports <= u64::MAX
    &&& ix.data@ == system_transfer_data(lamports as u64)
}

/// Donates `amount` lamports: the fee goes to the fee recipient and the rest
/// to the tip jar, as two system transfers from the donor. Anyone may donate.
pub fn donate(ctx: &Donate, amount: u64) -> (r: Result<Vec<CpiInstruction>, CustomError>)
    ensures
        r is Ok <==> jar_loads(ctx.tip_jar, ctx.program_id@) && fee_fits(amount as int),
        !jar_loads(ctx.tip_jar, ctx.program_id@) ==> r == Err::<Vec<CpiInstruction>, CustomError>(
            CustomError::NotFound,
        ),
        jar_loads(ctx.tip_jar, ctx.program_id@) && !fee_fits(amount as int) ==> r == Err::<
            Vec<CpiInstruction>,
            CustomError,
        >(CustomError::CalculationOverflow),
        r matches Ok(ixs) ==> ixs@.len() == 2 && is_native_transfer(
            ixs@[0],
            ctx.donor,
            ctx.fee_recipient,
            fee_of(amount as int),
        ) && is_native_transfer(ixs@[1], ctx.donor, ctx.tip_jar.address, net_of(amount as int)),
{
    load_tip_jar(&ctx.tip_jar, &ctx.program_id)?;
    let (fee, net) = split_fee(amount)?;
    let mut ixs: Vec<CpiInstruction> = Vec::new();
    ixs.push(system_transfer(&ctx.donor, &ctx.fee_recipient, fee));
    ixs.push(system_transfer(&ctx.donor, &ctx.tip_jar.address, net));
    Ok(ixs)
}

/// `ix` is a token transfer of `amount` from `source` to `destination` under
/// `token_program`, signed by `authority`.
pub open spec fn is_token_transfer(
    ix: CpiInstruction,
    token_program: Key,
    source: Key,
    destination: Key,
    authority: Key,
    amount: int,
) -> bool {
    &&& ix.program_id == token_program
    &&& ix.accounts@ == seq![
        AccountRef { key: source, is_signer: false, is_writable: true },
        AccountRef { key: destination, is_signer: false, is_writable: true },
        AccountRef { key: authority, is_signer: true, is_writable: false },
    ]
    &&& 0 <= amount <= u64::MAX
    &&& ix.data@ == token_transfer_data(amount as u64)
}

/// The asset records of a token donation are all of `mint`, and the donor's is the donor's.
pub open spec fn donation_records_valid(ctx: DonateToken, mint: Key) -> bool {
    token_records_valid(
        ctx.donor@,
        ctx.donor_token.data@,
        ctx.fee_token.data@,
        ctx.jar_token.data@,
        mint@,
    )
}

/// Donates `amount` of the token `mint`, held under `token_program` (either
/// token standard): the three asset records are checked first, then the fee
/// goes to the fee recipient's record and the rest to the tip jar's record.
pub fn donate_token(ctx: &DonateToken, amount: u64, mint: &Key, token_program: &Key) -> (r: Result<
    Vec<CpiInstruction>,
    CustomError,
>)
    ensures
        r is Ok <==> donation_records_valid(*ctx, *mint) && jar_loads(ctx.tip_jar, ctx.program_id@)
            && fee_fits(amount as int),
        !donation_records_valid(*ctx, *mint) ==> r == Err::<Vec<CpiInstruction>, CustomError>(
            CustomError::Unauthorized,
        ),
        donation_records_valid(*ctx, *mint) && !jar_loads(ctx.tip_jar, ctx.program_id@) ==> r
            == Err::<Vec<CpiInstruction>, CustomError>(CustomError::NotFound),
        donation_records_valid(*ctx, *mint) && jar_loads(ctx.tip_jar, ctx.program_id@) && !fee_fits(
            amount as int,
        ) ==> r == Err::<Vec<CpiInstruction>, CustomError>(CustomError::CalculationOverflow),
        r matches Ok(ixs) ==> ixs@.len() == 2 && is_token_transfer(
            ixs@[0],
            *token_program,
            ctx.donor_token.key,
            ctx.fee_token.key,
            ctx.donor,
            fee_of(amount as int),
        ) && is_token_transfer(
            ixs@[1],
            *token_program,
            ctx.donor_token.key,
            ctx.jar_token.key,
            ctx.donor,
            net_of(amount as int),
        ),
{
    check_token_records(&ctx.donor, &ctx.donor_token, &ctx.fee_token, &ctx.jar_token, mint)?;
    load_tip_jar(&ctx.tip_jar, &ctx.program_id)?;
    let (fee, net) = split_fee(amount)?;
    let mut ixs: Vec<CpiInstruction> = Vec::new();
    ixs.push(token_transfer(token_program, &ctx.donor_token.key, &ctx.fee_token.key, &ctx.donor, fee));
    ixs.push(token_transfer(token_program, &ctx.donor_token.key, &ctx.jar_token.key, &ctx.donor, net));
    Ok(ixs)
}

/// The owner of the tip jar of `account`, if it loads.
pub open spec fn jar_owner(account: JarAccount) -> Seq<u8> {
    match account.record {
        Some(j) => j.owner@,
        None => seq![],
    }
}

/// What a withdrawal moves: the request, capped by the surplus over the
/// retention minimum.
pub open spec fn withdrawable(amount: int, lamports: int, minimum: int) -> int {
    if amount < lamports - minimum {
        amount
    } else {
        lamports - minimum
    }
}

/// Why a withdrawal fails, if it does.
pub open spec fn withdraw_error(ctx: Withdraw, amount: u64) -> Option<CustomError> {
    if !jar_loads(ctx.tip_jar, ctx.program_id@) {
        Some(CustomError::NotFound)
    } else if ctx.user@ != jar_owner(ctx.tip_jar) {
        Some(CustomError::Unauthorized)
    } else if ctx.tip_jar.lamports <= ctx.minimum_retained {
        Some(CustomError::InsufficientBalance)
    } else if ctx.user_lamports + withdrawable(
        amount as int,
        ctx.tip_jar.lamports as int,
        ctx.minimum_retained as int,
    ) > u64::MAX {
        Some(CustomError::CalculationOverflow)
    } else {
        None
    }
}

/// The owner takes up to `amount` lamports out of the tip jar, never taking it
/// below the retention minimum.
pub fn withdraw(ctx: &Withdraw, amount: u64) -> (r: Result<Balances, CustomError>)
    ensures
        match withdraw_error(*ctx, amount) {
            Some(e) => r == Err::<Balances, CustomError>(e),
            None => r == Ok::<Balances, CustomError>(
                Balances {
                    tip_jar: (ctx.tip_jar.lamports - withdrawable(
                        amount as int,
                        ctx.tip_jar.lamports as int,
                        ctx.minimum_retained as int,
                    )) as u64,
                    user: (ctx.user_lamports + withdrawable(
                        amount as int,
                        ctx.tip_jar.lamports as int,
                        ctx.minimum_retained as int,
                    )) as u64,
                },
            ),
        },
        r matches Ok(b) ==> b.tip_jar >= ctx.minimum_retained && ctx.tip_jar.lamports - b.tip_jar
            <= amount && b.tip_jar <= ctx.tip_jar.lamports && b.user - ctx.user_lamports
            == ctx.tip_jar.lamports - b.tip_jar,
        jar_loads(ctx.tip_jar, ctx.program_id@) && ctx.user@ != jar_owner(ctx.tip_jar) ==> r
            == Err::<Balances, CustomError>(CustomError::Unauthorized),
{
    let jar = load_tip_jar(&ctx.tip_jar, &ctx.program_id)?;
    authorize(&ctx.user, jar)?;
    let lamports = ctx.tip_jar.lamports;
    if lamports <= ctx.minimum_retained {
        return Err(CustomError::InsufficientBalance);
    }
    let surplus = lamports - ctx.minimum_retained;
    let moved = if amount < surplus {
        amount
    } else {
        surplus
    };
    let user = match ctx.user_lamports.checked_add(moved) {
        Some(v) => v,
        None => return Err(CustomError::CalculationOverflow),
    };
    Ok(Balances { tip_jar: lamports - moved, user })
}

/// Why a delete request fails, if it does.
pub open spec fn delete_error(ctx: DeleteTipJar) -> Option<CustomError> {
    if !jar_loads(ctx.tip_jar, ctx.program_id@) {
        Some(CustomError::NotFound)
    } else if ctx.user@ != jar_owner(ctx.tip_jar) {
        Some(CustomError::Unauthorized)
    } else if ctx.user_lamports + ctx.tip_jar.lamports > u64::MAX {
        Some(CustomError::CalculationOverflow)
    } else {
        None
    }
}

/// The owner closes the tip jar: its whole balance goes to the owner and the
/// record is erased.
pub fn delete(ctx: &DeleteTipJar) -> (r: Result<Balances, CustomError>)
    ensures
        match delete_error(*ctx) {
            Some(e) => r == Err::<Balances, CustomError>(e),
            None => r == Ok::<Balances, CustomError>(
                Balances { tip_jar: 0, user: (ctx.user_lamports + ctx.tip_jar.lamports) as u64 },
            ),
        },
        jar_loads(ctx.tip_jar, ctx.program_id@) && ctx.user@ != jar_owner(ctx.tip_jar) ==> r
            == Err::<Balances, CustomError>(CustomError::Unauthorized),
{
    let jar = load_tip_jar(&ctx.tip_jar, &ctx.program_id)?;
    authorize(&ctx.user, jar)?;
    match ctx.user_lamports.checked_add(ctx.tip_jar.lamports) {
        Some(user) => Ok(Balances { tip_jar: 0, user }),
        None => Err(CustomError::CalculationOverflow),
    }
}

} // verus!
