use anchor_lang::prelude::Pubkey;
use anchor_lang::solana_program::system_instruction;
use tip_jar::address::{check_tip_jar_address, derive_tip_jar_address};
use tip_jar::error::CustomError;
use tip_jar::fee::split_fee;
use tip_jar::instruction::{token_transfer, u64_le_bytes, AccountRef};
use tip_jar::key::Key;
use tip_jar::lifecycle::{
    create_tip_jar, delete, donate, donate_token, load_tip_jar, Balances, CreateTipJar, DeleteTipJar, Donate,
    DonateToken, JarAccount, TipJar, Withdraw,
};
use tip_jar::token::{check_token_records, TokenRecord};

fn key(b: u8) -> Key {
    Key::new([b; 32])
}

fn program() -> Key {
    key(200)
}

fn jar_of(owner: Key, lamports: u64) -> JarAccount {
    let (address, bump) = derive_tip_jar_address(&owner, &program()).unwrap();
    JarAccount {
        address,
        record: Some(TipJar {
            owner,
            name: "jar".to_string(),
            description: "tips".to_string(),
            created_at: 5,
            bump,
        }),
        lamports,
    }
}

fn record(key_byte: u8, mint: Key, owner: Key) -> TokenRecord {
    let mut data = Vec::new();
    data.extend_from_slice(&mint.bytes);
    data.extend_from_slice(&owner.bytes);
    data.extend_from_slice(&[0u8; 101]);
    TokenRecord { key: key(key_byte), data }
}

fn token_ctx(donor: Key, mint: Key) -> DonateToken {
    DonateToken {
        program_id: program(),
        donor,
        tip_jar: jar_of(key(1), 1_000_000),
        donor_token: record(10, mint, donor),
        fee_token: record(11, mint, key(99)),
        jar_token: record(12, mint, key(98)),
    }
}

#[test]
fn fee_of_thousand() {
    assert_eq!(split_fee(1000), Ok((100, 900)));
}

#[test]
fn fee_of_small_amount_is_zero() {
    assert_eq!(split_fee(5), Ok((0, 5)));
    assert_eq!(split_fee(9), Ok((0, 9)));
    assert_eq!(split_fee(10), Ok((1, 9)));
    assert_eq!(split_fee(0), Ok((0, 0)));
}

#[test]
fn fee_overflow_near_max() {
    assert_eq!(split_fee(u64::MAX), Err(CustomError::CalculationOverflow));
    assert_eq!(split_fee(u64::MAX / 10 + 1), Err(CustomError::CalculationOverflow));
    let top = u64::MAX / 10;
    assert_eq!(split_fee(top), Ok((top / 10, top - top / 10)));
}

#[test]
fn fee_and_net_add_up() {
    for amount in [1u64, 7, 99, 101, 12345, 999_999_999, 1_844_674_407_370_955_161] {
        let (fee, net) = split_fee(amount).unwrap();
        assert_eq!(fee + net, amount);
        assert_eq!(fee as u128, (amount as u128 * 10) / 100);
    }
}

#[test]
fn derivation_is_repeatable_and_matches_search() {
    let owner = key(1);
    let first = derive_tip_jar_address(&owner, &program()).unwrap();
    let second = derive_tip_jar_address(&owner, &program()).unwrap();
    assert_eq!(first, second);
    let pid = Pubkey::new_from_array(program().bytes);
    let (expected, bump) = Pubkey::find_program_address(&[b"tipjar", &owner.bytes], &pid);
    assert_eq!(first, (Key::new(expected.to_bytes()), bump));
    assert_ne!(first.0, owner);
}

#[test]
fn distinct_owners_get_distinct_addresses() {
    let mut seen: Vec<Key> = Vec::new();
    for b in 0u8..20 {
        let (a, _) = derive_tip_jar_address(&key(b), &program()).unwrap();
        assert!(!seen.contains(&a));
        seen.push(a);
    }
}

#[test]
fn stored_bump_recomputes_address() {
    let owner = key(3);
    let (a, bump) = derive_tip_jar_address(&owner, &program()).unwrap();
    assert!(check_tip_jar_address(&a, &owner, bump, &program()));
    assert!(!check_tip_jar_address(&a, &key(4), bump, &program()));
    assert!(!check_tip_jar_address(&key(9), &owner, bump, &program()));
    assert!(!check_tip_jar_address(&a, &owner, bump.wrapping_sub(1), &program()));
}

#[test]
fn le_bytes_of_amount() {
    assert_eq!(u64_le_bytes(0x0102030405060708), vec![8, 7, 6, 5, 4, 3, 2, 1]);
    assert_eq!(u64_le_bytes(u64::MAX), vec![255; 8]);
}

#[test]
fn token_transfer_layout() {
    let ix = token_transfer(&key(50), &key(1), &key(2), &key(3), 1000);
    assert_eq!(ix.program_id, key(50));
    assert_eq!(ix.data, vec![3, 232, 3, 0, 0, 0, 0, 0, 0]);
    assert_eq!(
        ix.accounts,
        vec![
            AccountRef { key: key(1), is_signer: false, is_writable: true },
            AccountRef { key: key(2), is_signer: false, is_writable: true },
            AccountRef { key: key(3), is_signer: true, is_writable: false },
        ]
    );
}

#[test]
fn create_then_read() {
    let user = key(1);
    let (address, bump) = derive_tip_jar_address(&user, &program()).unwrap();
    let ctx = CreateTipJar {
        program_id: program(),
        user,
        tip_jar: JarAccount { address, record: None, lamports: 0 },
        now: 1_700_000_000,
    };
    let jar = create_tip_jar(&ctx, "coffee".to_string(), "buy me one".to_string()).unwrap();
    assert_eq!(jar.owner, user);
    assert_eq!(jar.name, "coffee");
    assert_eq!(jar.description, "buy me one");
    assert!(jar.created_at >= 1_700_000_000);
    assert_eq!(jar.bump, bump);
    let stored = JarAccount { address, record: Some(jar.clone()), lamports: 0 };
    assert_eq!(load_tip_jar(&stored, &program()), Ok(&jar));
}

#[test]
fn create_twice_fails() {
    let user = key(2);
    let (address, _) = derive_tip_jar_address(&user, &program()).unwrap();
    let mut ctx = CreateTipJar {
        program_id: program(),
        user,
        tip_jar: JarAccount { address, record: None, lamports: 0 },
        now: 10,
    };
    let jar = create_tip_jar(&ctx, "a".to_string(), "b".to_string()).unwrap();
    ctx.tip_jar.record = Some(jar);
    assert_eq!(create_tip_jar(&ctx, "a".to_string(), "b".to_string()), Err(CustomError::AlreadyExists));
}

#[test]
fn create_rejects_long_texts_and_wrong_address() {
    let user = key(2);
    let (address, _) = derive_tip_jar_address(&user, &program()).unwrap();
    let ctx = CreateTipJar {
        program_id: program(),
        user,
        tip_jar: JarAccount { address, record: None, lamports: 0 },
        now: 10,
    };
    assert!(create_tip_jar(&ctx, "n".repeat(50), "d".repeat(200)).is_ok());
    assert_eq!(create_tip_jar(&ctx, "n".repeat(51), "d".to_string()), Err(CustomError::NameTooLong));
    assert_eq!(
        create_tip_jar(&ctx, "n".to_string(), "d".repeat(201)),
        Err(CustomError::DescriptionTooLong)
    );
    let other = CreateTipJar { tip_jar: JarAccount { address: key(77), record: None, lamports: 0 }, ..ctx };
    assert_eq!(create_tip_jar(&other, "n".to_string(), "d".to_string()), Err(CustomError::NotFound));
}

#[test]
fn donate_splits_into_two_system_transfers() {
    let donor = key(5);
    let jar = jar_of(key(1), 0);
    let ctx = Donate { program_id: program(), donor, tip_jar: jar.clone(), fee_recipient: key(66) };
    let ixs = donate(&ctx, 1000).unwrap();
    assert_eq!(ixs.len(), 2);
    let fee_ix = system_instruction::transfer(
        &Pubkey::new_from_array(donor.bytes),
        &Pubkey::new_from_array(key(66).bytes),
        100,
    );
    let net_ix = system_instruction::transfer(
        &Pubkey::new_from_array(donor.bytes),
        &Pubkey::new_from_array(jar.address.bytes),
        900,
    );
    assert_eq!(ixs[0].data, fee_ix.data);
    assert_eq!(ixs[1].data, net_ix.data);
    assert_eq!(ixs[0].program_id, Key::new([0; 32]));
    assert_eq!(ixs[1].accounts[1].key, jar.address);
    assert_eq!(ixs[0].accounts[1].key, key(66));
    assert_eq!(ixs[1].data, [vec![2, 0, 0, 0], 900u64.to_le_bytes().to_vec()].concat());
}

#[test]
fn donate_errors() {
    let mut ctx = Donate { program_id: program(), donor: key(5), tip_jar: jar_of(key(1), 0), fee_recipient: key(66) };
    assert_eq!(donate(&ctx, u64::MAX), Err(CustomError::CalculationOverflow));
    ctx.tip_jar.address = key(44);
    assert_eq!(donate(&ctx, 1000), Err(CustomError::NotFound));
    ctx.tip_jar.record = None;
    assert_eq!(donate(&ctx, 1000), Err(CustomError::NotFound));
}

#[test]
fn donate_token_moves_fee_and_net() {
    let ctx = token_ctx(key(5), key(30));
    let ixs = donate_token(&ctx, 1000, &key(30), &key(40)).unwrap();
    assert_eq!(ixs.len(), 2);
    assert_eq!(ixs[0], token_transfer(&key(40), &key(10), &key(11), &key(5), 100));
    assert_eq!(ixs[1], token_transfer(&key(40), &key(10), &key(12), &key(5), 900));
}

#[test]
fn donate_token_rejects_mismatched_records() {
    let mint = key(30);
    let base = token_ctx(key(5), mint);
    let mut c = base.clone();
    c.donor_token = record(10, key(31), key(5));
    assert_eq!(donate_token(&c, 1000, &mint, &key(40)), Err(CustomError::Unauthorized));
    let mut c = base.clone();
    c.fee_token = record(11, key(31), key(99));
    assert_eq!(donate_token(&c, 1000, &mint, &key(40)), Err(CustomError::Unauthorized));
    let mut c = base.clone();
    c.jar_token = record(12, key(31), key(98));
    assert_eq!(donate_token(&c, 1000, &mint, &key(40)), Err(CustomError::Unauthorized));
    let mut c = base.clone();
    c.donor_token = record(10, mint, key(6));
    assert_eq!(donate_token(&c, 1000, &mint, &key(40)), Err(CustomError::Unauthorized));
    let mut c = base.clone();
    c.jar_token.data.truncate(63);
    assert_eq!(donate_token(&c, 1000, &mint, &key(40)), Err(CustomError::Unauthorized));
    assert_eq!(donate_token(&base, 1000, &key(32), &key(40)), Err(CustomError::Unauthorized));
}

#[test]
fn token_records_check_directly() {
    let mint = key(30);
    let donor = key(5);
    let ok = check_token_records(&donor, &record(1, mint, donor), &record(2, mint, key(8)), &record(3, mint, key(9)), &mint);
    assert_eq!(ok, Ok(()));
    let short = TokenRecord { key: key(1), data: vec![30; 40] };
    let bad = check_token_records(&donor, &short, &record(2, mint, key(8)), &record(3, mint, key(9)), &mint);
    assert_eq!(bad, Err(CustomError::Unauthorized));
}

#[test]
fn donate_token_overflow() {
    let ctx = token_ctx(key(5), key(30));
    assert_eq!(donate_token(&ctx, u64::MAX, &key(30), &key(40)), Err(CustomError::CalculationOverflow));
}

fn withdraw_ctx(user: Key, jar_lamports: u64) -> Withdraw {
    Withdraw {
        program_id: program(),
        user,
        user_lamports: 50,
        tip_jar: jar_of(key(1), jar_lamports),
        minimum_retained: 1000,
    }
}

#[test]
fn withdraw_capped_by_amount() {
    let r = tip_jar::lifecycle::withdraw(&withdraw_ctx(key(1), 5000), 300);
    assert_eq!(r, Ok(Balances { tip_jar: 4700, user: 350 }));
}

#[test]
fn withdraw_capped_by_surplus() {
    let r = tip_jar::lifecycle::withdraw(&withdraw_ctx(key(1), 5000), 10_000);
    assert_eq!(r, Ok(Balances { tip_jar: 1000, user: 4050 }));
}

#[test]
fn withdraw_by_non_owner_fails() {
    let r = tip_jar::lifecycle::withdraw(&withdraw_ctx(key(2), 5000), 300);
    assert_eq!(r, Err(CustomError::Unauthorized));
}

#[test]
fn withdraw_at_minimum_fails() {
    let r = tip_jar::lifecycle::withdraw(&withdraw_ctx(key(1), 1000), 1);
    assert_eq!(r, Err(CustomError::InsufficientBalance));
    let r = tip_jar::lifecycle::withdraw(&withdraw_ctx(key(1), 10), 1);
    assert_eq!(r, Err(CustomError::InsufficientBalance));
}

#[test]
fn withdraw_overflow_and_missing_jar() {
    let mut ctx = withdraw_ctx(key(1), 5000);
    ctx.user_lamports = u64::MAX;
    assert_eq!(tip_jar::lifecycle::withdraw(&ctx, 1), Err(CustomError::CalculationOverflow));
    ctx.tip_jar.record = None;
    assert_eq!(tip_jar::lifecycle::withdraw(&ctx, 1), Err(CustomError::NotFound));
}

#[test]
fn delete_returns_whole_balance() {
    let ctx = DeleteTipJar { program_id: program(), user: key(1), user_lamports: 10, tip_jar: jar_of(key(1), 2000) };
    assert_eq!(delete(&ctx), Ok(Balances { tip_jar: 0, user: 2010 }));
}

#[test]
fn delete_by_non_owner_fails() {
    let ctx = DeleteTipJar { program_id: program(), user: key(2), user_lamports: 10, tip_jar: jar_of(key(1), 2000) };
    assert_eq!(delete(&ctx), Err(CustomError::Unauthorized));
    let over = DeleteTipJar { user: key(1), user_lamports: u64::MAX, ..ctx };
    assert_eq!(delete(&over), Err(CustomError::CalculationOverflow));
}
