//! The plain model of everything an operation touches: the instruction's
//! account entries (address and signer flag), the storage of the record and
//! custody accounts, the four asset holding balances, and the runtime
//! environment (program identities and allocation costs). The processors are
//! verified state transitions over this model; the surrounding runtime only
//! reads accounts into it and writes the result back.

use vstd::prelude::*;

verus! {

/// One entry of an instruction's ordered account list: the account's address
/// and whether it signed the calling transaction.
pub struct AccountView {
    pub key: Vec<u8>,
    pub is_signer: bool,
}

impl AccountView {
    /// The address is 32 bytes wide.
    pub open spec fn wf(self) -> bool {
        self.key@.len() == 32
    }
}

/// Whether two account entries carry the same address and signer flag.
pub open spec fn view_eq(a: AccountView, b: AccountView) -> bool {
    a.key@ == b.key@ && a.is_signer == b.is_signer
}

/// The storage of the account supplied as the record: its owning program,
/// its resource balance, and its data bytes. Zero-length data means the
/// record does not exist (never created, or already reclaimed).
pub struct StoredAccount {
    pub owner: Vec<u8>,
    pub lamports: u64,
    pub data: Vec<u8>,
}

/// Whether two record storages hold the same state.
pub open spec fn stored_eq(a: StoredAccount, b: StoredAccount) -> bool {
    a.owner@ == b.owner@ && a.lamports == b.lamports && a.data@ == b.data@
}

/// The token-ledger state of the account supplied as the custody account:
/// whether the ledger has created it, the quantity of asset X it holds, and
/// its resource balance.
#[derive(Clone, Copy, Debug, PartialEq, Eq, Structural)]
pub struct CustodyAccount {
    pub initialized: bool,
    pub balance: u64,
    pub lamports: u64,
}

/// The runtime identities under which addresses are derived.
pub struct Env {
    /// This program: the owner of every open record.
    pub program_id: Vec<u8>,
    /// The token-ledger program.
    pub token_program: Vec<u8>,
    /// The associated-account program whose rule derives custody addresses.
    pub ata_program: Vec<u8>,
}

impl Env {
    /// All identities are 32 bytes wide.
    pub open spec fn wf(self) -> bool {
        self.program_id@.len() == 32 && self.token_program@.len() == 32 && self.ata_program@.len()
            == 32
    }
}

/// The resource cost the runtime quotes for allocating the record and the
/// custody account.
#[derive(Clone, Copy, Debug, PartialEq, Eq, Structural)]
pub struct Rents {
    pub record_rent: u64,
    pub custody_rent: u64,
}

/// Everything one operation may read or write: the record and custody
/// storages at the supplied addresses, the maker's resource balance, and the
/// four asset holding balances (maker and taker, asset X and asset Y).
pub struct World {
    pub record: StoredAccount,
    pub custody: CustodyAccount,
    pub maker_lamports: u64,
    pub maker_x: u64,
    pub maker_y: u64,
    pub taker_x: u64,
    pub taker_y: u64,
}

/// Whether two worlds hold the same state.
pub open spec fn world_eq(a: World, b: World) -> bool {
    stored_eq(a.record, b.record) && a.custody == b.custody && a.maker_lamports == b.maker_lamports
        && a.maker_x == b.maker_x && a.maker_y == b.maker_y && a.taker_x == b.taker_x && a.taker_y
        == b.taker_y
}

} // verus!
