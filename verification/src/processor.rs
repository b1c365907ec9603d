//! The instruction envelope: one leading selector byte dispatches to Make,
//! Accept or Refund; the rest of the data is the operation's argument
//! payload. Unknown selectors and an empty envelope are rejected, and every
//! rejection leaves the world untouched.

use vstd::prelude::*;
use crate::accept::{take, take_applied, take_outcome};
use crate::accounts::{all_wf, AcceptOfferAccounts, MakeOfferAccounts, RefundAccounts};
use crate::codec::read_tail;
use crate::error::EscrowError;
use crate::model::{world_eq, AccountView, Env, Rents, World};
use crate::offer::{make, make_applied, make_args_outcome, make_outcome, spec_make_args, MakeOfferArgs};
use crate::refund::{refund, refund_applied, refund_outcome};

verus! {

/// The selector byte of Make.
pub const MAKE_SELECTOR: u8 = 0;

/// The selector byte of Accept.
pub const ACCEPT_SELECTOR: u8 = 1;

/// The selector byte of Refund.
pub const REFUND_SELECTOR: u8 = 2;

/// The positional reading of a Make account list (meaningful when the list
/// has nine entries).
pub open spec fn spec_make_accounts(accounts: Seq<AccountView>) -> MakeOfferAccounts {
    MakeOfferAccounts {
        maker: accounts[0],
        escrow: accounts[1],
        mint_x: accounts[2],
        mint_y: accounts[3],
        maker_ata_x: accounts[4],
        vault: accounts[5],
        system_program: accounts[6],
        token_program: accounts[7],
    }
}

/// The positional reading of an Accept account list (meaningful when the
/// list has twelve entries).
pub open spec fn spec_accept_accounts(accounts: Seq<AccountView>) -> AcceptOfferAccounts {
    AcceptOfferAccounts {
        taker: accounts[0],
        maker: accounts[1],
        escrow: accounts[2],
        mint_x: accounts[3],
        mint_y: accounts[4],
        vault: accounts[5],
        taker_ata_x: accounts[6],
        taker_ata_y: accounts[7],
        maker_ata_y: accounts[8],
        system_program: accounts[9],
        token_program: accounts[10],
    }
}

/// The positional reading of a Refund account list (meaningful when the list
/// has seven entries).
pub open spec fn spec_refund_accounts(accounts: Seq<AccountView>) -> RefundAccounts {
    RefundAccounts {
        maker: accounts[0],
        escrow: accounts[1],
        mint_x: accounts[2],
        maker_ata_x: accounts[3],
        vault: accounts[4],
        system_program: accounts[5],
        token_program: accounts[6],
    }
}

/// The verdict of one whole instruction: an empty envelope or an unknown
/// selector is rejected; otherwise the account list is read positionally,
/// the payload is parsed (Make only), and the selected operation's own
/// verdict decides.
pub open spec fn instruction_outcome(
    w: World,
    accounts: Seq<AccountView>,
    data: Seq<u8>,
    env: Env,
    rents: Rents,
) -> Result<(), EscrowError> {
    if data.len() == 0 {
        Err(EscrowError::InvalidArgument)
    } else if data[0] == MAKE_SELECTOR {
        if accounts.len() != 9 {
            Err(EscrowError::NotEnoughAccounts)
        } else {
            match make_args_outcome(data.subrange(1, data.len() as int)) {
                Err(e) => Err(e),
                Ok(args) => make_outcome(w, spec_make_accounts(accounts), args, env, rents),
            }
        }
    } else if data[0] == ACCEPT_SELECTOR {
        if accounts.len() != 12 {
            Err(EscrowError::NotEnoughAccounts)
        } else {
            take_outcome(w, spec_accept_accounts(accounts), env)
        }
    } else if data[0] == REFUND_SELECTOR {
        if accounts.len() != 7 {
            Err(EscrowError::NotEnoughAccounts)
        } else {
            refund_outcome(w, spec_refund_accounts(accounts), env)
        }
    } else {
        Err(EscrowError::InvalidArgument)
    }
}

/// Dispatch one instruction. The verdict is `instruction_outcome`; a
/// rejection leaves the world untouched, and a success applies exactly the
/// selected operation's changes.
pub fn process_instruction(
    w: &mut World,
    accounts: &Vec<AccountView>,
    data: &Vec<u8>,
    env: &Env,
    rents: &Rents,
) -> (r: Result<(), EscrowError>)
    requires
        all_wf(accounts@),
        env.wf(),
    ensures
        r == instruction_outcome(*old(w), accounts@, data@, *env, *rents),
        r is Err ==> world_eq(*final(w), *old(w)),
        (r is Ok && data@[0] == MAKE_SELECTOR) ==> make_applied(
            *old(w),
            *final(w),
            spec_make_accounts(accounts@),
            spec_make_args(data@.subrange(1, data@.len() as int)),
            *env,
            *rents,
        ),
        (r is Ok && data@[0] == ACCEPT_SELECTOR) ==> take_applied(*old(w), *final(w)),
        (r is Ok && data@[0] == REFUND_SELECTOR) ==> refund_applied(*old(w), *final(w)),
{
    if data.len() == 0 {
        return Err(EscrowError::InvalidArgument);
    }
    let selector = data[0];
    if selector == MAKE_SELECTOR {
        let accs = match MakeOfferAccounts::from_list(accounts) {
            Err(e) => {
                return Err(e);
            },
            Ok(a) => a,
        };
        let payload = read_tail(data, 1);
        let args = match MakeOfferArgs::parse(&payload) {
            Err(e) => {
                return Err(e);
            },
            Ok(a) => a,
        };
        let r = make(w, &accs, &args, env, rents);
        proof {
            assert(make_outcome(*old(w), accs, args, *env, *rents) == make_outcome(
                *old(w),
                spec_make_accounts(accounts@),
                args,
                *env,
                *rents,
            ));
            if r is Ok {
                assert(make_applied(*old(w), *w, accs, args, *env, *rents) ==> make_applied(
                    *old(w),
                    *w,
                    spec_make_accounts(accounts@),
                    args,
                    *env,
                    *rents,
                ));
            }
        }
        r
    } else if selector == ACCEPT_SELECTOR {
        let accs = match AcceptOfferAccounts::from_list(accounts) {
            Err(e) => {
                return Err(e);
            },
            Ok(a) => a,
        };
        let r = take(w, &accs, env);
        proof {
            assert(take_outcome(*old(w), accs, *env) == take_outcome(
                *old(w),
                spec_accept_accounts(accounts@),
                *env,
            ));
        }
        r
    } else if selector == REFUND_SELECTOR {
        let accs = match RefundAccounts::from_list(accounts) {
            Err(e) => {
                return Err(e);
            },
            Ok(a) => a,
        };
        let r = refund(w, &accs, env);
        proof {
            assert(refund_outcome(*old(w), accs, *env) == refund_outcome(
                *old(w),
                spec_refund_accounts(accounts@),
                *env,
            ));
        }
        r
    } else {
        Err(EscrowError::InvalidArgument)
    }
}

} // verus!
