use escrow::error::EscrowError;
use escrow::model::{AccountView, CustodyAccount, Env, Rents, StoredAccount, World};
use escrow::processor::process_instruction;
use escrow::state::RECORD_LEN;
use escrow::vault::{Deposit, DepositInstructionData, VaultEnv, VaultWorld};

fn key(b: u8) -> Vec<u8> {
    vec![b; 32]
}

fn view(k: &[u8], is_signer: bool) -> AccountView {
    AccountView { key: k.to_vec(), is_signer }
}

fn env() -> Env {
    Env { program_id: key(9), token_program: key(8), ata_program: key(7) }
}

fn rents() -> Rents {
    Rents { record_rent: 5, custody_rent: 3 }
}

fn derive_pair(env: &Env, maker: &[u8], mint_x: &[u8]) -> (Vec<u8>, Vec<u8>) {
    let pid = solana_pubkey::Pubkey::new_from_array(env.program_id.as_slice().try_into().unwrap());
    let (rec, _) = solana_pubkey::Pubkey::try_find_program_address(
        &[b"escrow", maker, mint_x],
        &pid,
    )
    .unwrap();
    let ata = solana_pubkey::Pubkey::new_from_array(env.ata_program.as_slice().try_into().unwrap());
    let (cust, _) = solana_pubkey::Pubkey::try_find_program_address(
        &[rec.as_array(), env.token_program.as_slice(), mint_x],
        &ata,
    )
    .unwrap();
    (rec.to_bytes().to_vec(), cust.to_bytes().to_vec())
}

fn empty_world() -> World {
    World {
        record: StoredAccount { owner: key(0), lamports: 0, data: Vec::new() },
        custody: CustodyAccount { initialized: false, balance: 0, lamports: 0 },
        maker_lamports: 1000,
        maker_x: 500,
        maker_y: 0,
        taker_x: 0,
        taker_y: 200,
    }
}

fn make_list(env: &Env, maker: &[u8], mint_x: &[u8], mint_y: &[u8]) -> Vec<AccountView> {
    let (rec, cust) = derive_pair(env, maker, mint_x);
    vec![
        view(maker, true),
        view(&rec, false),
        view(mint_x, false),
        view(mint_y, false),
        view(&key(31), false),
        view(&cust, false),
        view(&key(1), false),
        view(&env.token_program, false),
        view(&key(1), false),
    ]
}

fn accept_list(env: &Env, taker: &[u8], maker: &[u8], mint_x: &[u8], mint_y: &[u8]) -> Vec<AccountView> {
    let (rec, cust) = derive_pair(env, maker, mint_x);
    vec![
        view(taker, true),
        view(maker, false),
        view(&rec, false),
        view(mint_x, false),
        view(mint_y, false),
        view(&cust, false),
        view(&key(41), false),
        view(&key(42), false),
        view(&key(43), false),
        view(&key(1), false),
        view(&env.token_program, false),
        view(&key(1), false),
    ]
}

fn refund_list(env: &Env, maker: &[u8], mint_x: &[u8]) -> Vec<AccountView> {
    let (rec, cust) = derive_pair(env, maker, mint_x);
    vec![
        view(maker, true),
        view(&rec, false),
        view(mint_x, false),
        view(&key(31), false),
        view(&cust, false),
        view(&key(1), false),
        view(&env.token_program, false),
    ]
}

fn make_payload(amount: u64, receive: u64) -> Vec<u8> {
    let mut data = vec![0u8];
    data.extend_from_slice(&amount.to_le_bytes());
    data.extend_from_slice(&receive.to_le_bytes());
    data
}

#[test]
fn envelope_dispatches_a_whole_trade() {
    let e = env();
    let mut w = empty_world();
    // Selector 0: Make, with the two quantities in the payload.
    let r = process_instruction(
        &mut w,
        &make_list(&e, &key(2), &key(3), &key(4)),
        &make_payload(100, 50),
        &e,
        &rents(),
    );
    assert_eq!(r, Ok(()));
    assert_eq!(w.custody.balance, 100);
    assert_eq!(w.record.data.len(), RECORD_LEN);
    // Selector 1: Accept, with an empty payload.
    let r = process_instruction(
        &mut w,
        &accept_list(&e, &key(12), &key(2), &key(3), &key(4)),
        &vec![1u8],
        &e,
        &rents(),
    );
    assert_eq!(r, Ok(()));
    assert_eq!(w.taker_x, 100);
    assert_eq!(w.maker_y, 50);
    assert_eq!(w.record.data.len(), 0);
    // Selector 2: Refund, now rejected — the trade has settled.
    let r = process_instruction(&mut w, &refund_list(&e, &key(2), &key(3)), &vec![2u8], &e, &rents());
    assert_eq!(r, Err(EscrowError::Uninitialized));
}

#[test]
fn envelope_dispatches_a_refund() {
    let e = env();
    let mut w = empty_world();
    let r = process_instruction(
        &mut w,
        &make_list(&e, &key(2), &key(3), &key(4)),
        &make_payload(100, 50),
        &e,
        &rents(),
    );
    assert_eq!(r, Ok(()));
    let r = process_instruction(&mut w, &refund_list(&e, &key(2), &key(3)), &vec![2u8], &e, &rents());
    assert_eq!(r, Ok(()));
    assert_eq!(w.maker_x, 500);
    assert_eq!(w.maker_y, 0);
    assert_eq!(w.record.data.len(), 0);
}

#[test]
fn envelope_rejects_unknown_selectors_and_empty_data() {
    let e = env();
    let mut w = empty_world();
    let accounts = make_list(&e, &key(2), &key(3), &key(4));
    assert_eq!(
        process_instruction(&mut w, &accounts, &vec![3u8], &e, &rents()),
        Err(EscrowError::InvalidArgument)
    );
    assert_eq!(
        process_instruction(&mut w, &accounts, &Vec::new(), &e, &rents()),
        Err(EscrowError::InvalidArgument)
    );
    assert_eq!(w.maker_x, 500);
}

#[test]
fn envelope_rejects_a_short_account_list() {
    let e = env();
    let mut w = empty_world();
    let mut accounts = make_list(&e, &key(2), &key(3), &key(4));
    accounts.pop();
    assert_eq!(
        process_instruction(&mut w, &accounts, &make_payload(100, 50), &e, &rents()),
        Err(EscrowError::NotEnoughAccounts)
    );
}

fn vault_env() -> VaultEnv {
    VaultEnv { program_id: key(19), system_program: key(1) }
}

fn vault_key_for(owner: &[u8]) -> Vec<u8> {
    let pid = solana_pubkey::Pubkey::new_from_array([19u8; 32]);
    let (vault, _) = solana_pubkey::Pubkey::try_find_program_address(&[b"vault", owner], &pid)
        .unwrap();
    vault.to_bytes().to_vec()
}

fn vault_world() -> VaultWorld {
    VaultWorld { owner_lamports: 100, vault_owner: key(1), vault_lamports: 0 }
}

fn deposit_list(owner: &[u8], signed: bool) -> Vec<AccountView> {
    vec![view(owner, signed), view(&vault_key_for(owner), false), view(&key(1), false)]
}

#[test]
fn deposit_moves_the_quantity_into_the_vault() {
    let mut w = vault_world();
    let d = Deposit::build(&deposit_list(&key(2), true), &42u64.to_le_bytes().to_vec()).unwrap();
    assert_eq!(d.process(&mut w, &vault_env()), Ok(()));
    assert_eq!(w.owner_lamports, 58);
    assert_eq!(w.vault_lamports, 42);
}

#[test]
fn deposit_rejects_zero_and_malformed_payloads() {
    assert!(matches!(
        DepositInstructionData::parse(&0u64.to_le_bytes().to_vec()),
        Err(EscrowError::InvalidArgument)
    ));
    assert!(matches!(
        DepositInstructionData::parse(&vec![1u8; 7]),
        Err(EscrowError::InvalidArgument)
    ));
    let parsed = DepositInstructionData::parse(&7u64.to_le_bytes().to_vec()).unwrap();
    assert_eq!(parsed.amount, 7);
}

#[test]
fn deposit_rejects_a_substituted_vault_address() {
    let mut w = vault_world();
    let mut accounts = deposit_list(&key(2), true);
    accounts[1] = view(&key(66), false);
    let d = Deposit::build(&accounts, &42u64.to_le_bytes().to_vec()).unwrap();
    assert_eq!(d.process(&mut w, &vault_env()), Err(EscrowError::AddressMismatch));
    assert_eq!(w.owner_lamports, 100);
}

#[test]
fn deposit_rejects_a_used_vault() {
    let mut w = vault_world();
    w.vault_lamports = 1;
    let d = Deposit::build(&deposit_list(&key(2), true), &42u64.to_le_bytes().to_vec()).unwrap();
    assert_eq!(d.process(&mut w, &vault_env()), Err(EscrowError::AlreadyInitialized));
}

#[test]
fn deposit_requires_the_owner_signature() {
    let mut w = vault_world();
    let d = Deposit::build(&deposit_list(&key(2), false), &42u64.to_le_bytes().to_vec()).unwrap();
    assert_eq!(d.process(&mut w, &vault_env()), Err(EscrowError::MissingSignature));
}

#[test]
fn deposit_rejects_a_foreign_vault_owner() {
    let mut w = vault_world();
    w.vault_owner = key(5);
    let d = Deposit::build(&deposit_list(&key(2), true), &42u64.to_le_bytes().to_vec()).unwrap();
    assert_eq!(d.process(&mut w, &vault_env()), Err(EscrowError::WrongProgramOwner));
}

#[test]
fn deposit_rejects_an_uncovered_quantity() {
    let mut w = vault_world();
    let d = Deposit::build(&deposit_list(&key(2), true), &101u64.to_le_bytes().to_vec()).unwrap();
    assert_eq!(d.process(&mut w, &vault_env()), Err(EscrowError::InsufficientFunds));
    assert_eq!(w.owner_lamports, 100);
    assert_eq!(w.vault_lamports, 0);
}

#[test]
fn deposit_rejects_a_short_account_list() {
    assert!(matches!(
        Deposit::build(&vec![view(&key(2), true)], &42u64.to_le_bytes().to_vec()),
        Err(EscrowError::NotEnoughAccounts)
    ));
}
