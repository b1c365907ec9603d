//! Positional account lists. Each operation receives an ordered account
//! list; supplying it with the wrong length is rejected before anything else
//! is examined.

use vstd::prelude::*;
use crate::codec::read_key;
use crate::error::EscrowError;
use crate::model::{view_eq, AccountView};

verus! {

/// All entries of an account list carry 32-byte addresses.
pub open spec fn all_wf(accounts: Seq<AccountView>) -> bool {
    forall|i: int| 0 <= i < accounts.len() ==> (#[trigger] accounts[i]).wf()
}

/// Copy one account entry out of a list.
fn clone_view(a: &AccountView) -> (r: AccountView)
    requires
        a.wf(),
    ensures
        view_eq(r, *a),
        r.wf(),
{
    let key = read_key(&a.key, 0);
    proof {
        assert(key@ =~= a.key@);
    }
    AccountView { key, is_signer: a.is_signer }
}

/// The accounts the Make operation is addressed to, in list order: the
/// maker, the record to create, the two asset classes, the maker's asset-X
/// holding account, the custody account to create, and the two collaborating
/// programs (one trailing entry is reserved for the runtime).
pub struct MakeOfferAccounts {
    pub maker: AccountView,
    pub escrow: AccountView,
    pub mint_x: AccountView,
    pub mint_y: AccountView,
    pub maker_ata_x: AccountView,
    pub vault: AccountView,
    pub system_program: AccountView,
    pub token_program: AccountView,
}

impl MakeOfferAccounts {
    /// Every field carries a 32-byte address.
    pub open spec fn wf(self) -> bool {
        self.maker.wf() && self.escrow.wf() && self.mint_x.wf() && self.mint_y.wf()
            && self.maker_ata_x.wf() && self.vault.wf() && self.system_program.wf()
            && self.token_program.wf()
    }

    /// Whether this is the positional reading of `accounts`.
    pub open spec fn is_parse_of(self, accounts: Seq<AccountView>) -> bool {
        accounts.len() == 9 && view_eq(self.maker, accounts[0]) && view_eq(self.escrow, accounts[1])
            && view_eq(self.mint_x, accounts[2]) && view_eq(self.mint_y, accounts[3]) && view_eq(
            self.maker_ata_x,
            accounts[4],
        ) && view_eq(self.vault, accounts[5]) && view_eq(self.system_program, accounts[6])
            && view_eq(self.token_program, accounts[7])
    }

    /// Read the Make account list. Succeeds exactly on a list of nine
    /// entries, which it returns position by position.
    pub fn from_list(accounts: &Vec<AccountView>) -> (r: Result<MakeOfferAccounts, EscrowError>)
        requires
            all_wf(accounts@),
        ensures
            match r {
                Ok(a) => a.is_parse_of(accounts@) && a.wf(),
                Err(e) => e == EscrowError::NotEnoughAccounts && accounts@.len() != 9,
            },
    {
        if accounts.len() != 9 {
            return Err(EscrowError::NotEnoughAccounts);
        }
        Ok(MakeOfferAccounts {
            maker: clone_view(&accounts[0]),
            escrow: clone_view(&accounts[1]),
            mint_x: clone_view(&accounts[2]),
            mint_y: clone_view(&accounts[3]),
            maker_ata_x: clone_view(&accounts[4]),
            vault: clone_view(&accounts[5]),
            system_program: clone_view(&accounts[6]),
            token_program: clone_view(&accounts[7]),
        })
    }
}

/// The accounts the Accept operation is addressed to, in list order: the
/// taker, the maker, the record, the two asset classes, the custody account,
/// the taker's two holding accounts, the maker's asset-Y holding account,
/// and the two collaborating programs (one trailing entry reserved).
pub struct AcceptOfferAccounts {
    pub taker: AccountView,
    pub maker: AccountView,
    pub escrow: AccountView,
    pub mint_x: AccountView,
    pub mint_y: AccountView,
    pub vault: AccountView,
    pub taker_ata_x: AccountView,
    pub taker_ata_y: AccountView,
    pub maker_ata_y: AccountView,
    pub system_program: AccountView,
    pub token_program: AccountView,
}

impl AcceptOfferAccounts {
    /// Every field carries a 32-byte address.
    pub open spec fn wf(self) -> bool {
        self.taker.wf() && self.maker.wf() && self.escrow.wf() && self.mint_x.wf()
            && self.mint_y.wf() && self.vault.wf() && self.taker_ata_x.wf()
            && self.taker_ata_y.wf() && self.maker_ata_y.wf() && self.system_program.wf()
            && self.token_program.wf()
    }

    /// Whether this is the positional reading of `accounts`.
    pub open spec fn is_parse_of(self, accounts: Seq<AccountView>) -> bool {
        accounts.len() == 12 && view_eq(self.taker, accounts[0]) && view_eq(
            self.maker,
            accounts[1],
        ) && view_eq(self.escrow, accounts[2]) && view_eq(self.mint_x, accounts[3]) && view_eq(
            self.mint_y,
            accounts[4],
        ) && view_eq(self.vault, accounts[5]) && view_eq(self.taker_ata_x, accounts[6]) && view_eq(
            self.taker_ata_y,
            accounts[7],
        ) && view_eq(self.maker_ata_y, accounts[8]) && view_eq(self.system_program, accounts[9])
            && view_eq(self.token_program, accounts[10])
    }

    /// Read the Accept account list. Succeeds exactly on a list of twelve
    /// entries, which it returns position by position.
    pub fn from_list(accounts: &Vec<AccountView>) -> (r: Result<AcceptOfferAccounts, EscrowError>)
        requires
            all_wf(accounts@),
        ensures
            match r {
                Ok(a) => a.is_parse_of(accounts@) && a.wf(),
                Err(e) => e == EscrowError::NotEnoughAccounts && accounts@.len() != 12,
            },
    {
        if accounts.len() != 12 {
            return Err(EscrowError::NotEnoughAccounts);
        }
        Ok(AcceptOfferAccounts {
            taker: clone_view(&accounts[0]),
            maker: clone_view(&accounts[1]),
            escrow: clone_view(&accounts[2]),
            mint_x: clone_view(&accounts[3]),
            mint_y: clone_view(&accounts[4]),
            vault: clone_view(&accounts[5]),
            taker_ata_x: clone_view(&accounts[6]),
            taker_ata_y: clone_view(&accounts[7]),
            maker_ata_y: clone_view(&accounts[8]),
            system_program: clone_view(&accounts[9]),
            token_program: clone_view(&accounts[10]),
        })
    }
}

/// The accounts the Refund operation is addressed to, in list order: the
/// maker, the record, the asset-X class, the maker's asset-X holding
/// account, the custody account, and the two collaborating programs.
pub struct RefundAccounts {
    pub maker: AccountView,
    pub escrow: AccountView,
    pub mint_x: AccountView,
    pub maker_ata_x: AccountView,
    pub vault: AccountView,
    pub system_program: AccountView,
    pub token_program: AccountView,
}

impl RefundAccounts {
    /// Every field carries a 32-byte address.
    pub open spec fn wf(self) -> bool {
        self.maker.wf() && self.escrow.wf() && self.mint_x.wf() && self.maker_ata_x.wf()
            && self.vault.wf() && self.system_program.wf() && self.token_program.wf()
    }

    /// Whether this is the positional reading of `accounts`.
    pub open spec fn is_parse_of(self, accounts: Seq<AccountView>) -> bool {
        accounts.len() == 7 && view_eq(self.maker, accounts[0]) && view_eq(
            self.escrow,
            accounts[1],
        ) && view_eq(self.mint_x, accounts[2]) && view_eq(self.maker_ata_x, accounts[3]) && view_eq(
            self.vault,
            accounts[4],
        ) && view_eq(self.system_program, accounts[5]) && view_eq(self.token_program, accounts[6])
    }

    /// Read the Refund account list. Succeeds exactly on a list of seven
    /// entries, which it returns position by position.
    pub fn from_list(accounts: &Vec<AccountView>) -> (r: Result<RefundAccounts, EscrowError>)
        requires
            all_wf(accounts@),
        ensures
            match r {
                Ok(a) => a.is_parse_of(accounts@) && a.wf(),
                Err(e) => e == EscrowError::NotEnoughAccounts && accounts@.len() != 7,
            },
    {
        if accounts.len() != 7 {
            return Err(EscrowError::NotEnoughAccounts);
        }
        Ok(RefundAccounts {
            maker: clone_view(&accounts[0]),
            escrow: clone_view(&accounts[1]),
            mint_x: clone_view(&accounts[2]),
            maker_ata_x: clone_view(&accounts[3]),
            vault: clone_view(&accounts[4]),
            system_program: clone_view(&accounts[5]),
            token_program: clone_view(&accounts[6]),
        })
    }
}

} // verus!
