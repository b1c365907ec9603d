use escrow::accept::take;
use escrow::accounts::{AcceptOfferAccounts, MakeOfferAccounts, RefundAccounts};
use escrow::error::EscrowError;
use escrow::model::{AccountView, CustodyAccount, Env, Rents, StoredAccount, World};
use escrow::offer::{make, MakeOfferArgs};
use escrow::pda::{derive_custody_address, derive_record_address};
use escrow::refund::refund;
use escrow::state::{Escrow, RECORD_LEN};

fn key(b: u8) -> Vec<u8> {
    vec![b; 32]
}

fn view(k: &[u8], is_signer: bool) -> AccountView {
    AccountView { key: k.to_vec(), is_signer }
}

fn env() -> Env {
    Env { program_id: key(9), token_program: key(8), ata_program: key(7) }
}

fn rents() -> Rents {
    Rents { record_rent: 5, custody_rent: 3 }
}

/// The derived (record, custody) addresses for a maker and asset-X class,
/// computed independently of the library.
fn derive_pair(env: &Env, maker: &[u8], mint_x: &[u8]) -> (Vec<u8>, u8, Vec<u8>) {
    let pid = solana_pubkey::Pubkey::new_from_array(env.program_id.as_slice().try_into().unwrap());
    let (rec, bump) = solana_pubkey::Pubkey::try_find_program_address(
        &[b"escrow", maker, mint_x],
        &pid,
    )
    .unwrap();
    let ata = solana_pubkey::Pubkey::new_from_array(env.ata_program.as_slice().try_into().unwrap());
    let (cust, _) = solana_pubkey::Pubkey::try_find_program_address(
        &[rec.as_array(), env.token_program.as_slice(), mint_x],
        &ata,
    )
    .unwrap();
    (rec.to_bytes().to_vec(), bump, cust.to_bytes().to_vec())
}

fn empty_world() -> World {
    World {
        record: StoredAccount { owner: key(0), lamports: 0, data: Vec::new() },
        custody: CustodyAccount { initialized: false, balance: 0, lamports: 0 },
        maker_lamports: 1000,
        maker_x: 500,
        maker_y: 0,
        taker_x: 0,
        taker_y: 200,
    }
}

fn make_accounts(env: &Env, maker: &[u8], mint_x: &[u8], mint_y: &[u8]) -> MakeOfferAccounts {
    let (rec, _, cust) = derive_pair(env, maker, mint_x);
    MakeOfferAccounts {
        maker: view(maker, true),
        escrow: view(&rec, false),
        mint_x: view(mint_x, false),
        mint_y: view(mint_y, false),
        maker_ata_x: view(&key(31), false),
        vault: view(&cust, false),
        system_program: view(&key(1), false),
        token_program: view(&env.token_program, false),
    }
}

fn accept_accounts(env: &Env, taker: &[u8], maker: &[u8], mint_x: &[u8], mint_y: &[u8]) -> AcceptOfferAccounts {
    let (rec, _, cust) = derive_pair(env, maker, mint_x);
    AcceptOfferAccounts {
        taker: view(taker, true),
        maker: view(maker, false),
        escrow: view(&rec, false),
        mint_x: view(mint_x, false),
        mint_y: view(mint_y, false),
        vault: view(&cust, false),
        taker_ata_x: view(&key(41), false),
        taker_ata_y: view(&key(42), false),
        maker_ata_y: view(&key(43), false),
        system_program: view(&key(1), false),
        token_program: view(&env.token_program, false),
    }
}

fn refund_accounts(env: &Env, maker: &[u8], mint_x: &[u8]) -> RefundAccounts {
    let (rec, _, cust) = derive_pair(env, maker, mint_x);
    RefundAccounts {
        maker: view(maker, true),
        escrow: view(&rec, false),
        mint_x: view(mint_x, false),
        maker_ata_x: view(&key(31), false),
        vault: view(&cust, false),
        system_program: view(&key(1), false),
        token_program: view(&env.token_program, false),
    }
}

fn open_escrow(w: &mut World, env: &Env, amount: u64, receive: u64) {
    let accs = make_accounts(env, &key(2), &key(3), &key(4));
    let args = MakeOfferArgs { amount, receive };
    let r = make(w, &accs, &args, env, &rents());
    assert_eq!(r, Ok(()));
}

#[test]
fn derivation_is_deterministic() {
    let e = env();
    let maker = key(2);
    let mint_x = key(3);
    let first = derive_record_address(&e.program_id, &maker, &mint_x);
    let second = derive_record_address(&e.program_id, &maker, &mint_x);
    assert!(first.is_some());
    assert_eq!(first, second);
    // The library's derivation agrees with the ledger SDK's own.
    let (rec, bump, _) = derive_pair(&e, &maker, &mint_x);
    let (lib_rec, lib_bump) = first.unwrap();
    assert_eq!(lib_rec, rec);
    assert_eq!(lib_bump, bump);
}

#[test]
fn distinct_seed_tuples_derive_distinct_addresses() {
    let e = env();
    let a = derive_record_address(&e.program_id, &key(2), &key(3)).unwrap();
    let b = derive_record_address(&e.program_id, &key(2), &key(5)).unwrap();
    let c = derive_record_address(&e.program_id, &key(6), &key(3)).unwrap();
    assert_ne!(a.0, b.0);
    assert_ne!(a.0, c.0);
    assert_ne!(b.0, c.0);
}

#[test]
fn custody_derivation_is_deterministic() {
    let e = env();
    let (rec, _, cust) = derive_pair(&e, &key(2), &key(3));
    let lib = derive_custody_address(&e.ata_program, &rec, &e.token_program, &key(3)).unwrap();
    assert_eq!(lib.0, cust);
}

#[test]
fn zero_deposit_is_rejected_before_any_change() {
    let e = env();
    let mut w = empty_world();
    let accs = make_accounts(&e, &key(2), &key(3), &key(4));
    let args = MakeOfferArgs { amount: 0, receive: 50 };
    let r = make(&mut w, &accs, &args, &e, &rents());
    assert_eq!(r, Err(EscrowError::InvalidArgument));
    assert_eq!(w.maker_x, 500);
    assert_eq!(w.custody.balance, 0);
    assert!(!w.custody.initialized);
    assert_eq!(w.record.data.len(), 0);
}

#[test]
fn zero_deposit_payload_is_rejected_at_parse() {
    let mut payload = vec![0u8; 16];
    payload[8] = 50;
    assert_eq!(MakeOfferArgs::parse(&payload), Err(EscrowError::InvalidArgument));
}

#[test]
fn make_payload_parses_little_endian() {
    let mut payload = vec![0u8; 16];
    payload[0] = 1;
    payload[1] = 2;
    payload[8] = 3;
    let args = MakeOfferArgs::parse(&payload).unwrap();
    assert_eq!(args.amount, 1 + (2 << 8));
    assert_eq!(args.receive, 3);
    assert_eq!(MakeOfferArgs::parse(&vec![1u8; 15]), Err(EscrowError::InvalidArgument));
    assert_eq!(MakeOfferArgs::parse(&vec![1u8; 17]), Err(EscrowError::InvalidArgument));
}

#[test]
fn make_escrows_the_deposit_and_records_the_terms() {
    let e = env();
    let mut w = empty_world();
    open_escrow(&mut w, &e, 100, 50);
    assert!(w.custody.initialized);
    assert_eq!(w.custody.balance, 100);
    assert_eq!(w.custody.lamports, 3);
    assert_eq!(w.maker_x, 400);
    assert_eq!(w.maker_lamports, 992);
    assert_eq!(w.record.data.len(), RECORD_LEN);
    assert_eq!(w.record.owner, e.program_id);
    assert_eq!(w.record.lamports, 5);
    let rec = Escrow::from_bytes(&w.record.data).unwrap();
    assert_eq!(rec.maker, key(2));
    assert_eq!(rec.mint_x, key(3));
    assert_eq!(rec.mint_y, key(4));
    assert_eq!(rec.receive, 50);
    let (_, bump, _) = derive_pair(&e, &key(2), &key(3));
    assert_eq!(rec.bump, bump);
}

#[test]
fn make_requires_the_maker_signature() {
    let e = env();
    let mut w = empty_world();
    let mut accs = make_accounts(&e, &key(2), &key(3), &key(4));
    accs.maker.is_signer = false;
    let args = MakeOfferArgs { amount: 100, receive: 50 };
    assert_eq!(make(&mut w, &accs, &args, &e, &rents()), Err(EscrowError::MissingSignature));
}

#[test]
fn make_rejects_an_occupied_namespace() {
    let e = env();
    let mut w = empty_world();
    open_escrow(&mut w, &e, 100, 50);
    let accs = make_accounts(&e, &key(2), &key(3), &key(4));
    let args = MakeOfferArgs { amount: 10, receive: 5 };
    assert_eq!(make(&mut w, &accs, &args, &e, &rents()), Err(EscrowError::AlreadyInitialized));
    assert_eq!(w.custody.balance, 100);
}

#[test]
fn make_rejects_an_uncovered_deposit() {
    let e = env();
    let mut w = empty_world();
    let accs = make_accounts(&e, &key(2), &key(3), &key(4));
    let args = MakeOfferArgs { amount: 501, receive: 50 };
    assert_eq!(make(&mut w, &accs, &args, &e, &rents()), Err(EscrowError::InsufficientFunds));
    assert_eq!(w.maker_x, 500);
}

#[test]
fn substituted_record_address_is_rejected() {
    let e = env();
    let mut w = empty_world();
    let mut accs = make_accounts(&e, &key(2), &key(3), &key(4));
    accs.escrow = view(&key(66), false);
    let args = MakeOfferArgs { amount: 100, receive: 50 };
    assert_eq!(make(&mut w, &accs, &args, &e, &rents()), Err(EscrowError::AddressMismatch));
    assert_eq!(w.maker_x, 500);
    assert!(!w.custody.initialized);
}

#[test]
fn substituted_custody_address_is_rejected() {
    let e = env();
    let mut w = empty_world();
    open_escrow(&mut w, &e, 100, 50);
    let mut accs = accept_accounts(&e, &key(12), &key(2), &key(3), &key(4));
    accs.vault = view(&key(66), false);
    let r = take(&mut w, &accs, &e);
    assert_eq!(r, Err(EscrowError::AddressMismatch));
    assert_eq!(w.custody.balance, 100);
    assert_eq!(w.taker_x, 0);
}

#[test]
fn accept_settles_both_legs_and_reclaims_storage() {
    let e = env();
    let mut w = empty_world();
    open_escrow(&mut w, &e, 100, 50);
    let accs = accept_accounts(&e, &key(12), &key(2), &key(3), &key(4));
    let r = take(&mut w, &accs, &e);
    assert_eq!(r, Ok(()));
    assert_eq!(w.taker_x, 100);
    assert_eq!(w.taker_y, 150);
    assert_eq!(w.maker_y, 50);
    assert_eq!(w.maker_x, 400);
    assert_eq!(w.record.data.len(), 0);
    assert_eq!(w.record.lamports, 0);
    assert!(!w.custody.initialized);
    assert_eq!(w.custody.balance, 0);
    // The record's and the custody account's resources went back to the maker.
    assert_eq!(w.maker_lamports, 1000);
}

#[test]
fn scenario_accept_then_refund_fails() {
    let e = env();
    let mut w = empty_world();
    // Maker M opens an escrow: deposit 100 of asset X for 50 of asset Y.
    open_escrow(&mut w, &e, 100, 50);
    // Taker T settles.
    let accs = accept_accounts(&e, &key(12), &key(2), &key(3), &key(4));
    assert_eq!(take(&mut w, &accs, &e), Ok(()));
    assert_eq!(w.taker_x, 100);
    assert_eq!(w.maker_y, 50);
    assert_eq!(w.record.data.len(), 0);
    assert!(!w.custody.initialized);
    // A later Refund by M fails: the trade no longer exists.
    let rf = refund_accounts(&e, &key(2), &key(3));
    assert_eq!(refund(&mut w, &rf, &e), Err(EscrowError::Uninitialized));
    assert_eq!(w.maker_x, 400);
    assert_eq!(w.taker_x, 100);
}

#[test]
fn second_accept_fails_uninitialized() {
    let e = env();
    let mut w = empty_world();
    open_escrow(&mut w, &e, 100, 50);
    let accs = accept_accounts(&e, &key(12), &key(2), &key(3), &key(4));
    assert_eq!(take(&mut w, &accs, &e), Ok(()));
    let taker_x_after = w.taker_x;
    assert_eq!(take(&mut w, &accs, &e), Err(EscrowError::Uninitialized));
    assert_eq!(w.taker_x, taker_x_after);
}

#[test]
fn refund_returns_the_deposit_and_moves_no_asset_y() {
    let e = env();
    let mut w = empty_world();
    open_escrow(&mut w, &e, 100, 50);
    let rf = refund_accounts(&e, &key(2), &key(3));
    assert_eq!(refund(&mut w, &rf, &e), Ok(()));
    assert_eq!(w.maker_x, 500);
    assert_eq!(w.maker_y, 0);
    assert_eq!(w.taker_y, 200);
    assert_eq!(w.record.data.len(), 0);
    assert!(!w.custody.initialized);
    assert_eq!(w.maker_lamports, 1000);
    // A second Refund finds nothing to cancel.
    assert_eq!(refund(&mut w, &rf, &e), Err(EscrowError::Uninitialized));
}

#[test]
fn accept_rejects_a_foreign_record_owner() {
    let e = env();
    let mut w = empty_world();
    open_escrow(&mut w, &e, 100, 50);
    w.record.owner = key(77);
    let accs = accept_accounts(&e, &key(12), &key(2), &key(3), &key(4));
    assert_eq!(take(&mut w, &accs, &e), Err(EscrowError::WrongProgramOwner));
}

#[test]
fn accept_rejects_a_malformed_record_size() {
    let e = env();
    let mut w = empty_world();
    open_escrow(&mut w, &e, 100, 50);
    w.record.data.pop();
    let accs = accept_accounts(&e, &key(12), &key(2), &key(3), &key(4));
    assert_eq!(take(&mut w, &accs, &e), Err(EscrowError::WrongDataSize));
}

#[test]
fn accept_requires_the_taker_signature() {
    let e = env();
    let mut w = empty_world();
    open_escrow(&mut w, &e, 100, 50);
    let mut accs = accept_accounts(&e, &key(12), &key(2), &key(3), &key(4));
    accs.taker.is_signer = false;
    assert_eq!(take(&mut w, &accs, &e), Err(EscrowError::MissingSignature));
}

#[test]
fn accept_rejects_an_uncovered_receive_leg() {
    let e = env();
    let mut w = empty_world();
    open_escrow(&mut w, &e, 100, 50);
    w.taker_y = 49;
    let accs = accept_accounts(&e, &key(12), &key(2), &key(3), &key(4));
    assert_eq!(take(&mut w, &accs, &e), Err(EscrowError::InsufficientFunds));
}

#[test]
fn accept_rejects_an_unrepresentable_credit() {
    let e = env();
    let mut w = empty_world();
    open_escrow(&mut w, &e, 100, 50);
    w.taker_x = u64::MAX - 99;
    let accs = accept_accounts(&e, &key(12), &key(2), &key(3), &key(4));
    assert_eq!(take(&mut w, &accs, &e), Err(EscrowError::BalanceOverflow));
}

#[test]
fn accept_rejects_a_missing_custody_account() {
    let e = env();
    let mut w = empty_world();
    open_escrow(&mut w, &e, 100, 50);
    w.custody = CustodyAccount { initialized: false, balance: 0, lamports: 0 };
    let accs = accept_accounts(&e, &key(12), &key(2), &key(3), &key(4));
    assert_eq!(take(&mut w, &accs, &e), Err(EscrowError::Uninitialized));
}

#[test]
fn record_image_round_trips() {
    let rec = Escrow {
        maker: key(2),
        mint_x: key(3),
        mint_y: key(4),
        receive: 0x0102030405060708,
        bump: 254,
    };
    let bytes = rec.to_bytes();
    assert_eq!(bytes.len(), RECORD_LEN);
    assert_eq!(&bytes[0..32], key(2).as_slice());
    assert_eq!(&bytes[32..64], key(3).as_slice());
    assert_eq!(&bytes[64..96], key(4).as_slice());
    assert_eq!(&bytes[96..104], &[8u8, 7, 6, 5, 4, 3, 2, 1][..]);
    assert_eq!(bytes[104], 254);
    let back = Escrow::from_bytes(&bytes).unwrap();
    assert_eq!(back.maker, key(2));
    assert_eq!(back.mint_x, key(3));
    assert_eq!(back.mint_y, key(4));
    assert_eq!(back.receive, 0x0102030405060708);
    assert_eq!(back.bump, 254);
    assert!(matches!(Escrow::from_bytes(&vec![0u8; 104]), Err(EscrowError::WrongDataSize)));
}
