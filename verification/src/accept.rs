//! Accept: settle an offer. The taker pays the demanded quantity of asset Y
//! to the maker, receives the whole custody balance of asset X, and both the
//! custody account and the record are reclaimed to the maker.

use vstd::prelude::*;
use crate::accounts::AcceptOfferAccounts;
use crate::codec::bytes_eq;
use crate::error::EscrowError;
use crate::model::{world_eq, CustodyAccount, Env, World};
use crate::pda::{derive_custody_address, derive_record_address, spec_custody_pda, spec_record_pda};
use crate::state::{lemma_stored_fields, stored_receive, Escrow, RECORD_LEN};

verus! {

/// The validation verdict of Accept, in checking order: the taker must have
/// signed; the record must exist (a reclaimed or never-opened trade is
/// uninitialized), be owned by this program and have the exact record size;
/// the supplied record and custody addresses must equal the recomputed
/// derived addresses; the custody account must exist; and the token ledger
/// must be able to move both legs.
pub open spec fn take_outcome(w: World, accs: AcceptOfferAccounts, env: Env) -> Result<
    (),
    EscrowError,
> {
    if !accs.taker.is_signer {
        Err(EscrowError::MissingSignature)
    } else if w.record.data@.len() == 0 {
        Err(EscrowError::Uninitialized)
    } else if w.record.owner@ != env.program_id@ {
        Err(EscrowError::WrongProgramOwner)
    } else if w.record.data@.len() != RECORD_LEN {
        Err(EscrowError::WrongDataSize)
    } else {
        match spec_record_pda(env.program_id@, accs.maker.key@, accs.mint_x.key@) {
            None => Err(EscrowError::AddressMismatch),
            Some(rp) => if accs.escrow.key@ != rp.0 {
                Err(EscrowError::AddressMismatch)
            } else {
                match spec_custody_pda(
                    env.ata_program@,
                    rp.0,
                    env.token_program@,
                    accs.mint_x.key@,
                ) {
                    None => Err(EscrowError::AddressMismatch),
                    Some(cp) => if accs.vault.key@ != cp.0 {
                        Err(EscrowError::AddressMismatch)
                    } else if !w.custody.initialized {
                        Err(EscrowError::Uninitialized)
                    } else if w.taker_y < stored_receive(w.record.data@) {
                        Err(EscrowError::InsufficientFunds)
                    } else if w.maker_y + stored_receive(w.record.data@) > u64::MAX {
                        Err(EscrowError::BalanceOverflow)
                    } else if w.taker_x + w.custody.balance > u64::MAX {
                        Err(EscrowError::BalanceOverflow)
                    } else if w.maker_lamports + w.custody.lamports + w.record.lamports
                        > u64::MAX {
                        Err(EscrowError::BalanceOverflow)
                    } else {
                        Ok(())
                    },
                }
            },
        }
    }
}

/// How a successful Accept changes the world: the stored receive quantity of
/// asset Y moved from the taker to the maker; the whole custody balance of
/// asset X moved to the taker; the record and custody storages no longer
/// exist and their resource balances were reclaimed to the maker; the
/// maker's asset-X holding did not move.
pub open spec fn take_applied(pre: World, post: World) -> bool {
    let receive = stored_receive(pre.record.data@);
    &&& post.taker_y == pre.taker_y - receive
    &&& post.maker_y == pre.maker_y + receive
    &&& post.taker_x == pre.taker_x + pre.custody.balance
    &&& post.maker_x == pre.maker_x
    &&& post.maker_lamports == pre.maker_lamports + pre.custody.lamports + pre.record.lamports
    &&& post.record.data@.len() == 0
    &&& post.record.lamports == 0
    &&& post.record.owner@ == pre.record.owner@
    &&& post.custody == (CustodyAccount { initialized: false, balance: 0, lamports: 0 })
}

/// Settle an offer. Validates as `take_outcome` says and, exactly on
/// success, applies the changes `take_applied` says; any rejection leaves
/// the world untouched.
pub fn take(w: &mut World, accs: &AcceptOfferAccounts, env: &Env) -> (r: Result<(), EscrowError>)
    requires
        accs.wf(),
        env.wf(),
    ensures
        r == take_outcome(*old(w), *accs, *env),
        r is Err ==> world_eq(*final(w), *old(w)),
        r is Ok ==> take_applied(*old(w), *final(w)),
{
    if !accs.taker.is_signer {
        return Err(EscrowError::MissingSignature);
    }
    if w.record.data.len() == 0 {
        return Err(EscrowError::Uninitialized);
    }
    if !bytes_eq(&w.record.owner, &env.program_id) {
        return Err(EscrowError::WrongProgramOwner);
    }
    let record = match Escrow::from_bytes(&w.record.data) {
        Err(e) => {
            return Err(e);
        },
        Ok(rec) => rec,
    };
    proof {
        lemma_stored_fields(record);
    }
    let (record_key, _) = match derive_record_address(
        &env.program_id,
        &accs.maker.key,
        &accs.mint_x.key,
    ) {
        None => {
            return Err(EscrowError::AddressMismatch);
        },
        Some(p) => p,
    };
    if !bytes_eq(&accs.escrow.key, &record_key) {
        return Err(EscrowError::AddressMismatch);
    }
    let custody_key = match derive_custody_address(
        &env.ata_program,
        &record_key,
        &env.token_program,
        &accs.mint_x.key,
    ) {
        None => {
            return Err(EscrowError::AddressMismatch);
        },
        Some(p) => p.0,
    };
    if !bytes_eq(&accs.vault.key, &custody_key) {
        return Err(EscrowError::AddressMismatch);
    }
    if !w.custody.initialized {
        return Err(EscrowError::Uninitialized);
    }
    if w.taker_y < record.receive {
        return Err(EscrowError::InsufficientFunds);
    }
    if record.receive > u64::MAX - w.maker_y {
        return Err(EscrowError::BalanceOverflow);
    }
    if w.custody.balance > u64::MAX - w.taker_x {
        return Err(EscrowError::BalanceOverflow);
    }
    if w.custody.lamports > u64::MAX - w.maker_lamports || w.record.lamports > u64::MAX - (
    w.maker_lamports + w.custody.lamports) {
        return Err(EscrowError::BalanceOverflow);
    }
    w.taker_y = w.taker_y - record.receive;
    w.maker_y = w.maker_y + record.receive;
    w.taker_x = w.taker_x + w.custody.balance;
    w.maker_lamports = w.maker_lamports + w.custody.lamports + w.record.lamports;
    w.custody.initialized = false;
    w.custody.balance = 0;
    w.custody.lamports = 0;
    w.record.data = Vec::new();
    w.record.lamports = 0;
    Ok(())
}

} // verus!
