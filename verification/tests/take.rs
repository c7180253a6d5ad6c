#![allow(dead_code)]

use blueshift_escrow::errors::ProgramError;
use blueshift_escrow::helpers::AssociatedTokenAccount;
use blueshift_escrow::ledger::{Account, Ledger};
use blueshift_escrow::pubkey::Pubkey;
use blueshift_escrow::runtime::AccountMeta;
use blueshift_escrow::state::Escrow;
use blueshift_escrow::token::{ASSOCIATED_TOKEN_PROGRAM_ID, SYSTEM_PROGRAM_ID, TOKEN_PROGRAM_ID};
use blueshift_escrow::ID;

const PROGRAM_ID: Pubkey = ID;
const ATOKEN_PROGRAM_ID: Pubkey = ASSOCIATED_TOKEN_PROGRAM_ID;

fn key(n: u8) -> Pubkey {
    let mut k = [0u8; 32];
    k[0] = n;
    k[31] = 0x5a;
    k
}

fn meta(pubkey: Pubkey, is_signer: bool) -> AccountMeta {
    AccountMeta { pubkey, is_signer, is_writable: true }
}

fn meta_readonly(pubkey: Pubkey, is_signer: bool) -> AccountMeta {
    AccountMeta { pubkey, is_signer, is_writable: false }
}

fn account(lamports: u64, owner: &Pubkey) -> Account {
    Account { lamports, owner: *owner, data: Vec::new() }
}

fn create_mint_account(mint_authority: &Pubkey, decimals: u8) -> Account {
    let mut data = vec![0u8; 82];
    data[0] = 1;
    data[4..36].copy_from_slice(mint_authority);
    data[44] = decimals;
    data[45] = 1;
    Account { lamports: 1_000_000, owner: TOKEN_PROGRAM_ID, data }
}

fn create_token_account(owner: &Pubkey, mint: &Pubkey, amount: u64) -> Account {
    let mut data = vec![0u8; 165];
    data[0..32].copy_from_slice(mint);
    data[32..64].copy_from_slice(owner);
    data[64..72].copy_from_slice(&amount.to_le_bytes());
    data[108] = 1;
    Account { lamports: 2_000_000, owner: TOKEN_PROGRAM_ID, data }
}

fn create_escrow_account(
    seed: u64,
    maker: &Pubkey,
    mint_a: &Pubkey,
    mint_b: &Pubkey,
    receive: u64,
    bump: u8,
) -> Account {
    const ESCROW_SIZE: usize = 8 + 32 + 32 + 32 + 8 + 1;
    let mut escrow_data = vec![0u8; ESCROW_SIZE];
    let mut offset = 0;
    escrow_data[offset..offset + 8].copy_from_slice(&seed.to_le_bytes());
    offset += 8;
    escrow_data[offset..offset + 32].copy_from_slice(maker.as_ref());
    offset += 32;
    escrow_data[offset..offset + 32].copy_from_slice(mint_a.as_ref());
    offset += 32;
    escrow_data[offset..offset + 32].copy_from_slice(mint_b.as_ref());
    offset += 32;
    escrow_data[offset..offset + 8].copy_from_slice(&receive.to_le_bytes());
    offset += 8;
    escrow_data[offset] = bump;
    Account { lamports: 10_000_000, owner: PROGRAM_ID, data: escrow_data }
}

fn derive_escrow_pda(maker: &Pubkey, seed: u64) -> (Pubkey, u8) {
    Escrow::find_address(maker, seed).unwrap()
}

fn derive_associated_token_account(owner: &Pubkey, mint: &Pubkey) -> Pubkey {
    AssociatedTokenAccount::address(owner, &TOKEN_PROGRAM_ID, mint).unwrap()
}

fn token_balance(ledger: &Ledger, key: &Pubkey) -> u64 {
    let data = ledger.account(key).data;
    u64::from_le_bytes(data[64..72].try_into().unwrap())
}

fn ledger_of(accounts: Vec<(Pubkey, Account)>) -> Ledger {
    let mut ledger = Ledger::new();
    for (k, a) in accounts {
        ledger.set_account(&k, a);
    }
    ledger
}

fn snapshot(ledger: &Ledger, keys: &[Pubkey]) -> Vec<Account> {
    keys.iter().map(|k| ledger.account(k)).collect()
}

fn make_data(seed: u64, receive: u64, amount: u64) -> Vec<u8> {
    let mut instruction_data = vec![0u8];
    instruction_data.extend_from_slice(&seed.to_le_bytes());
    instruction_data.extend_from_slice(&receive.to_le_bytes());
    instruction_data.extend_from_slice(&amount.to_le_bytes());
    instruction_data
}

fn create_make_instruction(
    maker: &Pubkey,
    escrow: &Pubkey,
    mint_a: &Pubkey,
    mint_b: &Pubkey,
    maker_ata_a: &Pubkey,
    vault: &Pubkey,
    seed: u64,
    receive: u64,
    amount: u64,
) -> (Vec<AccountMeta>, Vec<u8>) {
    (
        vec![
            meta(*maker, true),
            meta(*escrow, false),
            meta_readonly(*mint_a, false),
            meta_readonly(*mint_b, false),
            meta(*maker_ata_a, false),
            meta(*vault, false),
            meta_readonly(SYSTEM_PROGRAM_ID, false),
            meta_readonly(TOKEN_PROGRAM_ID, false),
            meta_readonly(PROGRAM_ID, false),
        ],
        make_data(seed, receive, amount),
    )
}

fn create_take_instruction(
    taker: &Pubkey,
    maker: &Pubkey,
    escrow: &Pubkey,
    mint_a: &Pubkey,
    mint_b: &Pubkey,
    vault: &Pubkey,
    taker_ata_a: &Pubkey,
    taker_ata_b: &Pubkey,
    maker_ata_b: &Pubkey,
) -> (Vec<AccountMeta>, Vec<u8>) {
    (
        vec![
            meta(*taker, true),
            meta(*maker, false),
            meta(*escrow, false),
            meta_readonly(*mint_a, false),
            meta_readonly(*mint_b, false),
            meta(*vault, false),
            meta(*taker_ata_a, false),
            meta(*taker_ata_b, false),
            meta(*maker_ata_b, false),
            meta_readonly(SYSTEM_PROGRAM_ID, false),
            meta_readonly(TOKEN_PROGRAM_ID, false),
            meta_readonly(ATOKEN_PROGRAM_ID, false),
        ],
        vec![1u8],
    )
}

fn create_refund_instruction(
    maker: &Pubkey,
    escrow: &Pubkey,
    mint_a: &Pubkey,
    vault: &Pubkey,
    maker_ata_a: &Pubkey,
) -> (Vec<AccountMeta>, Vec<u8>) {
    (
        vec![
            meta(*maker, true),
            meta(*escrow, false),
            meta_readonly(*mint_a, false),
            meta(*vault, false),
            meta(*maker_ata_a, false),
            meta_readonly(SYSTEM_PROGRAM_ID, false),
            meta_readonly(TOKEN_PROGRAM_ID, false),
            meta_readonly(ATOKEN_PROGRAM_ID, false),
        ],
        vec![2u8],
    )
}

#[test]
fn test_take_instruction_success() {
    let seed = 54321u64;
    let receive_amount = 2000u64;
    let deposit_amount = 1500u64;

    let maker = key(1);
    let taker = key(5);
    let mint_authority = key(2);
    let mint_a = key(3);
    let mint_b = key(4);

    let (escrow, bump) = derive_escrow_pda(&maker, seed);
    let vault = derive_associated_token_account(&escrow, &mint_a);
    let taker_ata_a = derive_associated_token_account(&taker, &mint_a);
    let taker_ata_b = derive_associated_token_account(&taker, &mint_b);
    let maker_ata_b = derive_associated_token_account(&maker, &mint_b);

    let (metas, data) = create_take_instruction(
        &taker,
        &maker,
        &escrow,
        &mint_a,
        &mint_b,
        &vault,
        &taker_ata_a,
        &taker_ata_b,
        &maker_ata_b,
    );

    let mut ledger = ledger_of(vec![
        (taker, account(10_000_000, &SYSTEM_PROGRAM_ID)),
        (maker, account(10_000_000, &SYSTEM_PROGRAM_ID)),
        (escrow, create_escrow_account(seed, &maker, &mint_a, &mint_b, receive_amount, bump)),
        (mint_a, create_mint_account(&mint_authority, 9)),
        (mint_b, create_mint_account(&mint_authority, 6)),
        (vault, create_token_account(&escrow, &mint_a, deposit_amount)),
        (taker_ata_a, create_token_account(&taker, &mint_a, 0)),
        (taker_ata_b, create_token_account(&taker, &mint_b, 3000)),
        (maker_ata_b, create_token_account(&maker, &mint_b, 0)),
        (TOKEN_PROGRAM_ID, account(1_000_000, &key(200))),
        (ATOKEN_PROGRAM_ID, account(1_000_000, &key(200))),
    ]);

    let result = ledger.process_instruction(&metas, &data);
    assert_eq!(result, Ok(()));
    assert_eq!(ledger.account(&taker_ata_a).owner, TOKEN_PROGRAM_ID);
    assert_eq!(ledger.account(&maker_ata_b).owner, TOKEN_PROGRAM_ID);
    assert_eq!(token_balance(&ledger, &taker_ata_a), 1500);
    assert_eq!(token_balance(&ledger, &maker_ata_b), 2000);
    assert_eq!(token_balance(&ledger, &taker_ata_b), 1000);
}

#[test]
fn test_take_instruction_minimum_amounts() {
    let seed = 99999u64;
    let receive_amount = 1u64;
    let deposit_amount = 1u64;

    let maker = key(1);
    let taker = key(5);
    let mint_authority = key(2);
    let mint_a = key(3);
    let mint_b = key(4);

    let (escrow, bump) = derive_escrow_pda(&maker, seed);
    let vault = derive_associated_token_account(&escrow, &mint_a);
    let taker_ata_a = derive_associated_token_account(&taker, &mint_a);
    let taker_ata_b = derive_associated_token_account(&taker, &mint_b);
    let maker_ata_b = derive_associated_token_account(&maker, &mint_b);

    let (metas, data) = create_take_instruction(
        &taker,
        &maker,
        &escrow,
        &mint_a,
        &mint_b,
        &vault,
        &taker_ata_a,
        &taker_ata_b,
        &maker_ata_b,
    );

    let mut ledger = ledger_of(vec![
        (taker, account(10_000_000, &SYSTEM_PROGRAM_ID)),
        (maker, account(10_000_000, &SYSTEM_PROGRAM_ID)),
        (escrow, create_escrow_account(seed, &maker, &mint_a, &mint_b, receive_amount, bump)),
        (mint_a, create_mint_account(&mint_authority, 9)),
        (mint_b, create_mint_account(&mint_authority, 6)),
        (vault, create_token_account(&escrow, &mint_a, deposit_amount)),
        (taker_ata_a, create_token_account(&taker, &mint_a, 0)),
        (taker_ata_b, create_token_account(&taker, &mint_b, 1)),
        (maker_ata_b, create_token_account(&maker, &mint_b, 0)),
        (TOKEN_PROGRAM_ID, account(1_000_000, &key(200))),
        (ATOKEN_PROGRAM_ID, account(1_000_000, &key(200))),
    ]);

    let result = ledger.process_instruction(&metas, &data);
    assert_eq!(result, Ok(()));
    assert_eq!(ledger.account(&taker_ata_a).owner, TOKEN_PROGRAM_ID);
    assert_eq!(ledger.account(&maker_ata_b).owner, TOKEN_PROGRAM_ID);
    assert_eq!(ledger.account(&vault).lamports, 0);
    assert_eq!(ledger.account(&escrow).lamports, 0);
    assert_eq!(token_balance(&ledger, &taker_ata_a), 1);
    assert_eq!(token_balance(&ledger, &maker_ata_b), 1);
    assert_eq!(token_balance(&ledger, &taker_ata_b), 0);
}

#[test]
fn test_take_instruction_large_amounts() {
    let seed = 88888u64;
    let receive_amount = 1_000_000_000_000_000u64;
    let deposit_amount = 500_000_000_000_000u64;

    let maker = key(1);
    let taker = key(5);
    let mint_authority = key(2);
    let mint_a = key(3);
    let mint_b = key(4);

    let (escrow, bump) = derive_escrow_pda(&maker, seed);
    let vault = derive_associated_token_account(&escrow, &mint_a);
    let taker_ata_a = derive_associated_token_account(&taker, &mint_a);
    let taker_ata_b = derive_associated_token_account(&taker, &mint_b);
    let maker_ata_b = derive_associated_token_account(&maker, &mint_b);

    let (metas, data) = create_take_instruction(
        &taker,
        &maker,
        &escrow,
        &mint_a,
        &mint_b,
        &vault,
        &taker_ata_a,
        &taker_ata_b,
        &maker_ata_b,
    );

    let mut ledger = ledger_of(vec![
        (taker, account(10_000_000, &SYSTEM_PROGRAM_ID)),
        (maker, account(10_000_000, &SYSTEM_PROGRAM_ID)),
        (escrow, create_escrow_account(seed, &maker, &mint_a, &mint_b, receive_amount, bump)),
        (mint_a, create_mint_account(&mint_authority, 9)),
        (mint_b, create_mint_account(&mint_authority, 6)),
        (vault, create_token_account(&escrow, &mint_a, deposit_amount)),
        (taker_ata_a, create_token_account(&taker, &mint_a, 0)),
        (taker_ata_b, create_token_account(&taker, &mint_b, 2_000_000_000_000_000u64)),
        (maker_ata_b, create_token_account(&maker, &mint_b, 0)),
        (TOKEN_PROGRAM_ID, account(1_000_000, &key(200))),
        (ATOKEN_PROGRAM_ID, account(1_000_000, &key(200))),
    ]);

    let result = ledger.process_instruction(&metas, &data);
    assert_eq!(result, Ok(()));
    assert_eq!(ledger.account(&taker_ata_a).owner, TOKEN_PROGRAM_ID);
    assert_eq!(ledger.account(&maker_ata_b).owner, TOKEN_PROGRAM_ID);
    assert_eq!(ledger.account(&vault).lamports, 0);
    assert_eq!(ledger.account(&escrow).lamports, 0);
    assert_eq!(token_balance(&ledger, &taker_ata_a), 500_000_000_000_000);
    assert_eq!(token_balance(&ledger, &maker_ata_b), 1_000_000_000_000_000);
    assert_eq!(token_balance(&ledger, &taker_ata_b), 1_000_000_000_000_000);
}

#[test]
fn test_take_instruction_invalid_escrow_pda() {
    let seed = 12345u64;
    let receive_amount = 2000u64;
    let deposit_amount = 1500u64;

    let maker = key(1);
    let taker = key(5);
    let mint_authority = key(2);
    let mint_a = key(3);
    let mint_b = key(4);

    let (correct_escrow, bump) = derive_escrow_pda(&maker, seed);
    let vault = derive_associated_token_account(&correct_escrow, &mint_a);
    let taker_ata_a = derive_associated_token_account(&taker, &mint_a);
    let taker_ata_b = derive_associated_token_account(&taker, &mint_b);
    let maker_ata_b = derive_associated_token_account(&maker, &mint_b);

    let invalid_escrow = key(99);

    let (metas, data) = create_take_instruction(
        &taker,
        &maker,
        &invalid_escrow,
        &mint_a,
        &mint_b,
        &vault,
        &taker_ata_a,
        &taker_ata_b,
        &maker_ata_b,
    );

    let mut ledger = ledger_of(vec![
        (taker, account(10_000_000, &SYSTEM_PROGRAM_ID)),
        (maker, account(10_000_000, &SYSTEM_PROGRAM_ID)),
        (
            invalid_escrow,
            create_escrow_account(seed, &maker, &mint_a, &mint_b, receive_amount, bump),
        ),
        (mint_a, create_mint_account(&mint_authority, 9)),
        (mint_b, create_mint_account(&mint_authority, 6)),
        (vault, create_token_account(&correct_escrow, &mint_a, deposit_amount)),
        (taker_ata_a, create_token_account(&taker, &mint_a, 0)),
        (taker_ata_b, create_token_account(&taker, &mint_b, 3000)),
        (maker_ata_b, create_token_account(&maker, &mint_b, 0)),
        (TOKEN_PROGRAM_ID, account(1_000_000, &key(200))),
        (ATOKEN_PROGRAM_ID, account(1_000_000, &key(200))),
    ]);
    let keys = [taker, maker, invalid_escrow, vault, taker_ata_a, taker_ata_b, maker_ata_b];
    let before = snapshot(&ledger, &keys);

    let result = ledger.process_instruction(&metas, &data);
    assert_eq!(result, Err(ProgramError::InvalidAccountOwner));
    assert_eq!(snapshot(&ledger, &keys), before);
}

struct Parties {
    maker: Pubkey,
    taker: Pubkey,
    mint_a: Pubkey,
    mint_b: Pubkey,
    escrow: Pubkey,
    maker_ata_a: Pubkey,
    vault: Pubkey,
    taker_ata_a: Pubkey,
    taker_ata_b: Pubkey,
    maker_ata_b: Pubkey,
}

fn parties(seed: u64) -> Parties {
    let maker = key(1);
    let taker = key(5);
    let mint_a = key(3);
    let mint_b = key(4);
    let (escrow, _) = derive_escrow_pda(&maker, seed);
    Parties {
        maker,
        taker,
        mint_a,
        mint_b,
        escrow,
        maker_ata_a: derive_associated_token_account(&maker, &mint_a),
        vault: derive_associated_token_account(&escrow, &mint_a),
        taker_ata_a: derive_associated_token_account(&taker, &mint_a),
        taker_ata_b: derive_associated_token_account(&taker, &mint_b),
        maker_ata_b: derive_associated_token_account(&maker, &mint_b),
    }
}

fn make_of(p: &Parties, seed: u64, receive: u64, amount: u64) -> (Vec<AccountMeta>, Vec<u8>) {
    create_make_instruction(
        &p.maker,
        &p.escrow,
        &p.mint_a,
        &p.mint_b,
        &p.maker_ata_a,
        &p.vault,
        seed,
        receive,
        amount,
    )
}

fn take_of(p: &Parties) -> (Vec<AccountMeta>, Vec<u8>) {
    create_take_instruction(
        &p.taker,
        &p.maker,
        &p.escrow,
        &p.mint_a,
        &p.mint_b,
        &p.vault,
        &p.taker_ata_a,
        &p.taker_ata_b,
        &p.maker_ata_b,
    )
}

fn refund_of(p: &Parties) -> (Vec<AccountMeta>, Vec<u8>) {
    create_refund_instruction(&p.maker, &p.escrow, &p.mint_a, &p.vault, &p.maker_ata_a)
}

fn fresh_ledger(p: &Parties, maker_a: u64, taker_b: u64) -> Ledger {
    ledger_of(vec![
        (p.taker, account(10_000_000, &SYSTEM_PROGRAM_ID)),
        (p.maker, account(10_000_000, &SYSTEM_PROGRAM_ID)),
        (p.mint_a, create_mint_account(&key(2), 9)),
        (p.mint_b, create_mint_account(&key(2), 6)),
        (p.maker_ata_a, create_token_account(&p.maker, &p.mint_a, maker_a)),
        (p.taker_ata_b, create_token_account(&p.taker, &p.mint_b, taker_b)),
    ])
}

#[test]
fn maker_deposits_500_for_1000_and_a_taker_takes() {
    let seed = 42u64;
    let p = parties(seed);
    let mut ledger = fresh_ledger(&p, 800, 1000);
    ledger.set_account(&p.taker_ata_a, create_token_account(&p.taker, &p.mint_a, 30));
    ledger.set_account(&p.maker_ata_b, create_token_account(&p.maker, &p.mint_b, 7));

    let (metas, data) = make_of(&p, seed, 1000, 500);
    assert_eq!(ledger.process_instruction(&metas, &data), Ok(()));
    let maker_lamports_after_make = ledger.account(&p.maker).lamports;
    assert_eq!(maker_lamports_after_make, 10_000_000 - 1_677_360 - 2_039_280);
    assert_eq!(token_balance(&ledger, &p.maker_ata_a), 300);
    assert_eq!(token_balance(&ledger, &p.vault), 500);

    let (metas, data) = take_of(&p);
    assert_eq!(ledger.process_instruction(&metas, &data), Ok(()));

    assert_eq!(token_balance(&ledger, &p.taker_ata_a), 30 + 500);
    assert_eq!(token_balance(&ledger, &p.maker_ata_b), 7 + 1000);
    assert_eq!(token_balance(&ledger, &p.taker_ata_b), 0);
    assert_eq!(ledger.account(&p.escrow), account(0, &SYSTEM_PROGRAM_ID));
    assert_eq!(ledger.account(&p.vault), account(0, &SYSTEM_PROGRAM_ID));
    assert_eq!(ledger.account(&p.maker).lamports, 10_000_000);
    assert_eq!(ledger.account(&p.taker).lamports, 10_000_000);
}

#[test]
fn take_opens_the_receiving_accounts_at_the_takers_cost() {
    let seed = 43u64;
    let p = parties(seed);
    let mut ledger = fresh_ledger(&p, 500, 1000);
    let (metas, data) = make_of(&p, seed, 1000, 500);
    assert_eq!(ledger.process_instruction(&metas, &data), Ok(()));

    let (metas, data) = take_of(&p);
    assert_eq!(ledger.process_instruction(&metas, &data), Ok(()));

    assert_eq!(token_balance(&ledger, &p.taker_ata_a), 500);
    assert_eq!(token_balance(&ledger, &p.maker_ata_b), 1000);
    assert_eq!(ledger.account(&p.taker_ata_a).lamports, 2_039_280);
    assert_eq!(ledger.account(&p.maker_ata_b).lamports, 2_039_280);
    assert_eq!(ledger.account(&p.taker).lamports, 10_000_000 - 2 * 2_039_280);
    assert_eq!(ledger.account(&p.maker).lamports, 10_000_000);
    let expected = {
        let mut a = create_token_account(&p.maker, &p.mint_b, 1000);
        a.lamports = 2_039_280;
        a
    };
    assert_eq!(ledger.account(&p.maker_ata_b), expected);
}

#[test]
fn take_by_a_taker_who_holds_too_little_changes_nothing() {
    let seed = 44u64;
    let p = parties(seed);
    let mut ledger = fresh_ledger(&p, 500, 999);
    let (metas, data) = make_of(&p, seed, 1000, 500);
    assert_eq!(ledger.process_instruction(&metas, &data), Ok(()));
    let keys = [
        p.taker,
        p.maker,
        p.escrow,
        p.vault,
        p.maker_ata_a,
        p.taker_ata_a,
        p.taker_ata_b,
        p.maker_ata_b,
    ];
    let before = snapshot(&ledger, &keys);

    let (metas, data) = take_of(&p);
    assert_eq!(ledger.process_instruction(&metas, &data), Err(ProgramError::Custom(1)));
    assert_eq!(snapshot(&ledger, &keys), before);
}

#[test]
fn take_twice_fails_the_second_time() {
    let seed = 45u64;
    let p = parties(seed);
    let mut ledger = fresh_ledger(&p, 500, 5000);
    let (metas, data) = make_of(&p, seed, 1000, 500);
    assert_eq!(ledger.process_instruction(&metas, &data), Ok(()));
    let (metas, data) = take_of(&p);
    assert_eq!(ledger.process_instruction(&metas, &data), Ok(()));
    // The escrow account is gone: it is no account of the program's any more.
    assert_eq!(ledger.process_instruction(&metas, &data), Err(ProgramError::Custom(2)));
    let (metas, data) = refund_of(&p);
    assert_eq!(ledger.process_instruction(&metas, &data), Err(ProgramError::Custom(2)));
    assert_eq!(token_balance(&ledger, &p.taker_ata_a), 500);
    assert_eq!(token_balance(&ledger, &p.maker_ata_b), 1000);
}

#[test]
fn take_with_too_few_accounts_is_refused() {
    let seed = 46u64;
    let p = parties(seed);
    let mut ledger = fresh_ledger(&p, 500, 5000);
    let (metas, data) = make_of(&p, seed, 1000, 500);
    assert_eq!(ledger.process_instruction(&metas, &data), Ok(()));
    let (metas, data) = take_of(&p);
    assert_eq!(
        ledger.process_instruction(&metas[..11], &data),
        Err(ProgramError::NotEnoughAccountKeys)
    );
    assert_eq!(ledger.process_instruction(&metas, &data), Ok(()));
}

#[test]
fn take_without_the_takers_signature_is_refused() {
    let seed = 47u64;
    let p = parties(seed);
    let mut ledger = fresh_ledger(&p, 500, 5000);
    let (metas, data) = make_of(&p, seed, 1000, 500);
    assert_eq!(ledger.process_instruction(&metas, &data), Ok(()));
    let (mut metas, data) = take_of(&p);
    metas[0].is_signer = false;
    assert_eq!(ledger.process_instruction(&metas, &data), Err(ProgramError::Custom(1)));
}

#[test]
fn take_that_names_another_maker_is_refused() {
    let seed = 48u64;
    let p = parties(seed);
    let mut ledger = fresh_ledger(&p, 500, 5000);
    let (metas, data) = make_of(&p, seed, 1000, 500);
    assert_eq!(ledger.process_instruction(&metas, &data), Ok(()));
    let (mut metas, data) = take_of(&p);
    metas[1].pubkey = key(66);
    assert_eq!(ledger.process_instruction(&metas, &data), Err(ProgramError::InvalidAccountOwner));
}

#[test]
fn take_from_an_escrow_account_without_a_record_is_refused() {
    let seed = 49u64;
    let p = parties(seed);
    let mut ledger = fresh_ledger(&p, 500, 5000);
    let mut short = create_escrow_account(seed, &p.maker, &p.mint_a, &p.mint_b, 1000, 255);
    short.data.truncate(112);
    ledger.set_account(&p.escrow, short);
    ledger.set_account(&p.vault, create_token_account(&p.escrow, &p.mint_a, 500));
    let (metas, data) = take_of(&p);
    assert_eq!(ledger.process_instruction(&metas, &data), Err(ProgramError::InvalidAccountData));
}

#[test]
fn take_from_a_custody_account_at_another_address_is_refused() {
    let seed = 50u64;
    let p = parties(seed);
    let mut ledger = fresh_ledger(&p, 500, 5000);
    let (metas, data) = make_of(&p, seed, 1000, 500);
    assert_eq!(ledger.process_instruction(&metas, &data), Ok(()));
    let elsewhere = key(67);
    ledger.set_account(&elsewhere, create_token_account(&p.escrow, &p.mint_a, 500));
    let (mut metas, data) = take_of(&p);
    metas[5].pubkey = elsewhere;
    assert_eq!(ledger.process_instruction(&metas, &data), Err(ProgramError::Custom(5)));
}

#[test]
fn take_ignores_what_follows_the_discriminator() {
    let seed = 51u64;
    let p = parties(seed);
    let mut ledger = fresh_ledger(&p, 500, 5000);
    let (metas, data) = make_of(&p, seed, 1000, 500);
    assert_eq!(ledger.process_instruction(&metas, &data), Ok(()));
    let (metas, _) = take_of(&p);
    assert_eq!(ledger.process_instruction(&metas, &[1u8, 9, 9, 9]), Ok(()));
    assert_eq!(token_balance(&ledger, &p.taker_ata_a), 500);
}
