use blueshift_escrow::account::AccountInfo;
use blueshift_escrow::action::{Action, Plan};
use blueshift_escrow::errors::ProgramError;
use blueshift_escrow::helpers::AssociatedTokenAccount;
use blueshift_escrow::instructions::make::{Make, MakeAccounts, MakeInstructionData};
use blueshift_escrow::instructions::refund::{Refund, RefundAccounts};
use blueshift_escrow::instructions::take::{Take, TakeAccounts};
use blueshift_escrow::instructions::load_record;
use blueshift_escrow::processor::process_instruction;
use blueshift_escrow::pubkey::Pubkey;
use blueshift_escrow::state::{DerivedAuthority, Escrow};
use blueshift_escrow::token::{
    new_token_data, set_token_amount, ASSOCIATED_TOKEN_PROGRAM_ID, SYSTEM_PROGRAM_ID,
    TOKEN_PROGRAM_ID,
};
use blueshift_escrow::ID;

fn key(n: u8) -> Pubkey {
    let mut k = [0u8; 32];
    k[0] = n;
    k[31] = 0x5a;
    k
}

fn info(key: Pubkey, owner: Pubkey, data: Vec<u8>, is_signer: bool) -> AccountInfo {
    AccountInfo { key, owner, lamports: 1_000_000, data, is_signer, is_writable: true }
}

fn absent(key: Pubkey) -> AccountInfo {
    AccountInfo {
        key,
        owner: SYSTEM_PROGRAM_ID,
        lamports: 0,
        data: vec![],
        is_signer: false,
        is_writable: true,
    }
}

fn token(key: Pubkey, owner: &Pubkey, mint: &Pubkey, amount: u64) -> AccountInfo {
    let mut data = new_token_data(mint, owner);
    set_token_amount(&mut data, amount);
    info(key, TOKEN_PROGRAM_ID, data, false)
}

fn mint(key: Pubkey) -> AccountInfo {
    info(key, TOKEN_PROGRAM_ID, vec![0; 82], false)
}

fn ata(owner: &Pubkey, mint: &Pubkey) -> Pubkey {
    AssociatedTokenAccount::address(owner, &TOKEN_PROGRAM_ID, mint).unwrap()
}

struct World {
    maker: Pubkey,
    taker: Pubkey,
    mint_a: Pubkey,
    mint_b: Pubkey,
    escrow: Pubkey,
    bump: u8,
    vault: Pubkey,
    maker_ata_a: Pubkey,
    maker_ata_b: Pubkey,
    taker_ata_a: Pubkey,
    taker_ata_b: Pubkey,
}

const SEED: u64 = 12345;

fn world() -> World {
    let maker = key(1);
    let taker = key(5);
    let mint_a = key(3);
    let mint_b = key(4);
    let (escrow, bump) = Escrow::find_address(&maker, SEED).unwrap();
    World {
        maker,
        taker,
        mint_a,
        mint_b,
        escrow,
        bump,
        vault: ata(&escrow, &mint_a),
        maker_ata_a: ata(&maker, &mint_a),
        maker_ata_b: ata(&maker, &mint_b),
        taker_ata_a: ata(&taker, &mint_a),
        taker_ata_b: ata(&taker, &mint_b),
    }
}

fn programs() -> Vec<AccountInfo> {
    vec![
        info(SYSTEM_PROGRAM_ID, key(201), vec![], false),
        info(TOKEN_PROGRAM_ID, key(200), vec![], false),
        info(ASSOCIATED_TOKEN_PROGRAM_ID, key(200), vec![], false),
    ]
}

fn make_accounts(w: &World) -> Vec<AccountInfo> {
    let mut list = vec![
        info(w.maker, SYSTEM_PROGRAM_ID, vec![], true),
        absent(w.escrow),
        mint(w.mint_a),
        mint(w.mint_b),
        token(w.maker_ata_a, &w.maker, &w.mint_a, 1000),
        absent(w.vault),
    ];
    list.extend(programs());
    list
}

fn record(w: &World, receive: u64) -> Escrow {
    Escrow {
        seed: SEED,
        maker: w.maker,
        mint_a: w.mint_a,
        mint_b: w.mint_b,
        receive,
        bump: w.bump,
    }
}

fn take_accounts(w: &World, receive: u64, held: u64) -> Vec<AccountInfo> {
    let mut list = vec![
        info(w.taker, SYSTEM_PROGRAM_ID, vec![], true),
        info(w.maker, SYSTEM_PROGRAM_ID, vec![], false),
        info(w.escrow, ID, record(w, receive).to_bytes(), false),
        mint(w.mint_a),
        mint(w.mint_b),
        token(w.vault, &w.escrow, &w.mint_a, held),
        absent(w.taker_ata_a),
        token(w.taker_ata_b, &w.taker, &w.mint_b, 3000),
        token(w.maker_ata_b, &w.maker, &w.mint_b, 0),
    ];
    list.extend(programs());
    list
}

fn refund_accounts(w: &World, held: u64) -> Vec<AccountInfo> {
    let mut list = vec![
        info(w.maker, SYSTEM_PROGRAM_ID, vec![], true),
        info(w.escrow, ID, record(w, 1000).to_bytes(), false),
        mint(w.mint_a),
        token(w.vault, &w.escrow, &w.mint_a, held),
        token(w.maker_ata_a, &w.maker, &w.mint_a, 300),
    ];
    list.extend(programs());
    list
}

fn make_data(seed: u64, receive: u64, amount: u64) -> Vec<u8> {
    let mut data = vec![0u8];
    data.extend_from_slice(&seed.to_le_bytes());
    data.extend_from_slice(&receive.to_le_bytes());
    data.extend_from_slice(&amount.to_le_bytes());
    data
}

#[test]
fn the_plan_of_a_make() {
    let w = world();
    let accounts = make_accounts(&w);
    let plan = process_instruction(&accounts, &make_data(SEED, 1000, 500)).unwrap();
    assert_eq!(
        plan,
        Plan {
            authority: DerivedAuthority { maker: w.maker, seed: SEED, bump: w.bump },
            actions: vec![
                Action::CreateAccount { from: w.maker, to: w.escrow, space: 113, owner: ID },
                Action::WriteRecord { account: w.escrow, record: record(&w, 1000) },
                Action::CreateAssociatedAccount {
                    funder: w.maker,
                    account: w.vault,
                    wallet: w.escrow,
                    mint: w.mint_a,
                },
                Action::Transfer {
                    from: w.maker_ata_a,
                    to: w.vault,
                    authority: w.maker,
                    amount: 500,
                },
            ],
        }
    );
}

#[test]
fn a_make_keeps_a_custody_account_that_is_there() {
    let w = world();
    let mut accounts = make_accounts(&w);
    accounts[5] = token(w.vault, &w.escrow, &w.mint_a, 0);
    let plan = process_instruction(&accounts, &make_data(SEED, 1000, 500)).unwrap();
    assert_eq!(plan.actions.len(), 3);
    assert_eq!(
        plan.actions[2],
        Action::Transfer { from: w.maker_ata_a, to: w.vault, authority: w.maker, amount: 500 }
    );
}

#[test]
fn the_parts_of_a_make() {
    let w = world();
    let accounts = make_accounts(&w);
    let data = make_data(SEED, 1000, 500);

    let checked = MakeAccounts::try_from(&accounts[..]).ok().unwrap();
    assert_eq!(checked.maker.key, w.maker);
    assert_eq!(checked.escrow.key, w.escrow);
    assert_eq!(checked.mint_a.key, w.mint_a);
    assert_eq!(checked.mint_b.key, w.mint_b);
    assert_eq!(checked.maker_ata_a.key, w.maker_ata_a);
    assert_eq!(checked.vault.key, w.vault);
    assert_eq!(checked.system_program.key, SYSTEM_PROGRAM_ID);
    assert_eq!(checked.token_program.key, TOKEN_PROGRAM_ID);

    assert_eq!(
        MakeInstructionData::try_from(&data[1..]),
        Ok(MakeInstructionData { seed: SEED, receive: 1000, amount: 500 })
    );
    assert_eq!(
        MakeInstructionData::try_from(&data[1..24]),
        Err(ProgramError::InvalidInstructionData)
    );
    assert_eq!(
        MakeInstructionData::try_from(&make_data(SEED, 1000, 0)[1..]),
        Err(ProgramError::InvalidInstructionData)
    );
    let mut longer = data.clone();
    longer.push(0);
    assert_eq!(
        MakeInstructionData::try_from(&longer[1..]),
        Err(ProgramError::InvalidInstructionData)
    );

    let make = Make::try_from((&data[1..], &accounts[..])).ok().unwrap();
    assert_eq!(make.bump, w.bump);
    assert_eq!(make.instruction_data, MakeInstructionData { seed: SEED, receive: 1000, amount: 500 });
    assert_eq!(make.process(), process_instruction(&accounts, &data).unwrap());
    assert_eq!(Make::DISCRIMINATOR, 0);
    assert_eq!(Take::DISCRIMINATOR, 1);
    assert_eq!(Refund::DISCRIMINATOR, 2);
}

#[test]
fn the_plan_of_a_take() {
    let w = world();
    let accounts = take_accounts(&w, 2000, 1500);
    let plan = process_instruction(&accounts, &[1]).unwrap();
    assert_eq!(
        plan,
        Plan {
            authority: DerivedAuthority { maker: w.maker, seed: SEED, bump: w.bump },
            actions: vec![
                Action::CreateAssociatedAccount {
                    funder: w.taker,
                    account: w.taker_ata_a,
                    wallet: w.taker,
                    mint: w.mint_a,
                },
                Action::Transfer {
                    from: w.taker_ata_b,
                    to: w.maker_ata_b,
                    authority: w.taker,
                    amount: 2000,
                },
                Action::Transfer {
                    from: w.vault,
                    to: w.taker_ata_a,
                    authority: w.escrow,
                    amount: 1500,
                },
                Action::CloseAccount {
                    account: w.vault,
                    destination: w.maker,
                    authority: w.escrow,
                },
                Action::CloseRecord { account: w.escrow, destination: w.maker },
            ],
        }
    );

    let checked = TakeAccounts::try_from(&accounts[..]).ok().unwrap();
    assert_eq!(checked.taker.key, w.taker);
    assert_eq!(checked.maker_ata_b.key, w.maker_ata_b);
    let take = Take::try_from(&accounts[..]).ok().unwrap();
    assert_eq!(take.process(), Ok(plan));
}

#[test]
fn a_take_opens_the_makers_account_at_the_takers_cost() {
    let w = world();
    let mut accounts = take_accounts(&w, 2000, 1500);
    accounts[8] = absent(w.maker_ata_b);
    let plan = process_instruction(&accounts, &[1]).unwrap();
    assert_eq!(plan.actions.len(), 6);
    assert_eq!(
        plan.actions[1],
        Action::CreateAssociatedAccount {
            funder: w.taker,
            account: w.maker_ata_b,
            wallet: w.maker,
            mint: w.mint_b,
        }
    );
}

#[test]
fn the_plan_of_a_refund() {
    let w = world();
    let accounts = refund_accounts(&w, 500);
    let plan = process_instruction(&accounts, &[2]).unwrap();
    assert_eq!(
        plan,
        Plan {
            authority: DerivedAuthority { maker: w.maker, seed: SEED, bump: w.bump },
            actions: vec![
                Action::Transfer {
                    from: w.vault,
                    to: w.maker_ata_a,
                    authority: w.escrow,
                    amount: 500,
                },
                Action::CloseAccount {
                    account: w.vault,
                    destination: w.maker,
                    authority: w.escrow,
                },
                Action::CloseRecord { account: w.escrow, destination: w.maker },
            ],
        }
    );

    let checked = RefundAccounts::try_from(&accounts[..]).ok().unwrap();
    assert_eq!(checked.maker.key, w.maker);
    assert_eq!(checked.escrow.key, w.escrow);
    assert_eq!(checked.mint_a.key, w.mint_a);
    assert_eq!(checked.vault.key, w.vault);
    assert_eq!(checked.maker_ata_a.key, w.maker_ata_a);
    assert_eq!(checked.system_program.key, SYSTEM_PROGRAM_ID);
    assert_eq!(checked.token_program.key, TOKEN_PROGRAM_ID);
    let refund = Refund::try_from(&accounts[..]).ok().unwrap();
    assert_eq!(refund.process(), Ok(plan));
}

#[test]
fn a_refund_opens_the_makers_account_where_there_is_none() {
    let w = world();
    let mut accounts = refund_accounts(&w, 500);
    accounts[4] = absent(w.maker_ata_a);
    let plan = process_instruction(&accounts, &[2]).unwrap();
    assert_eq!(plan.actions.len(), 4);
    assert_eq!(
        plan.actions[0],
        Action::CreateAssociatedAccount {
            funder: w.maker,
            account: w.maker_ata_a,
            wallet: w.maker,
            mint: w.mint_a,
        }
    );
}

#[test]
fn a_refund_of_a_custody_account_without_a_record_is_refused() {
    let w = world();
    let mut accounts = refund_accounts(&w, 500);
    accounts[3].data.truncate(100);
    let refund = Refund::try_from(&accounts[..]).ok().unwrap();
    assert_eq!(refund.process(), Err(ProgramError::InvalidAccountData));
}

#[test]
fn the_record_is_held_against_the_address_before_anything_else() {
    let w = world();
    let good = info(w.escrow, ID, record(&w, 1000).to_bytes(), false);
    assert_eq!(load_record(&good, &w.maker), Ok(record(&w, 1000)));

    assert_eq!(load_record(&good, &w.taker), Err(ProgramError::InvalidAccountOwner));

    let moved = info(key(60), ID, record(&w, 1000).to_bytes(), false);
    assert_eq!(load_record(&moved, &w.maker), Err(ProgramError::InvalidAccountOwner));

    let mut other_bump = record(&w, 1000);
    other_bump.bump = w.bump.wrapping_sub(1);
    let rebumped = info(w.escrow, ID, other_bump.to_bytes(), false);
    assert_eq!(load_record(&rebumped, &w.maker), Err(ProgramError::InvalidAccountOwner));

    let mut other_seed = record(&w, 1000);
    other_seed.seed += 1;
    let reseeded = info(w.escrow, ID, other_seed.to_bytes(), false);
    assert_eq!(load_record(&reseeded, &w.maker), Err(ProgramError::InvalidAccountOwner));

    let mut short = good.clone();
    short.data.pop();
    assert_eq!(load_record(&short, &w.maker), Err(ProgramError::InvalidAccountData));
}

#[test]
fn what_else_a_record_says_does_not_matter_to_its_identity() {
    let w = world();
    let mut forged = record(&w, 1);
    forged.maker = w.taker;
    forged.mint_a = key(90);
    forged.mint_b = key(91);
    let mut accounts = refund_accounts(&w, 500);
    accounts[1].data = forged.to_bytes();
    assert!(process_instruction(&accounts, &[2]).is_ok());

    accounts[1].key = key(61);
    accounts[3] = token(ata(&key(61), &w.mint_a), &key(61), &w.mint_a, 500);
    assert_eq!(process_instruction(&accounts, &[2]), Err(ProgramError::InvalidAccountOwner));
}
