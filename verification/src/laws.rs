//! The laws of the exchange that relate several operations: no settled or
//! cancelled trade can be spent again, and no substituted address ever
//! reaches a transfer.

use vstd::prelude::*;
use crate::accept::{take_applied, take_outcome};
use crate::accounts::{AcceptOfferAccounts, MakeOfferAccounts, RefundAccounts};
use crate::error::EscrowError;
use crate::model::{CustodyAccount, Env, Rents, World};
use crate::offer::{lemma_make_funds_escrowed, make_applied, make_outcome, MakeOfferArgs};
use crate::pda::{spec_custody_pda, spec_record_pda};
use crate::refund::{refund_applied, refund_outcome};
use crate::state::RECORD_LEN;

verus! {

/// Whether a supplied (record, custody) address pair differs from the pair
/// derived for this maker and asset-X class — including the case that no
/// derived address exists at all.
pub open spec fn addresses_mismatch(
    env: Env,
    maker: Seq<u8>,
    mint_x: Seq<u8>,
    supplied_record: Seq<u8>,
    supplied_custody: Seq<u8>,
) -> bool {
    match spec_record_pda(env.program_id@, maker, mint_x) {
        None => true,
        Some(rp) => supplied_record != rp.0 || (match spec_custody_pda(
            env.ata_program@,
            rp.0,
            env.token_program@,
            mint_x,
        ) {
            None => true,
            Some(cp) => supplied_custody != cp.0,
        }),
    }
}

/// Law: a trade whose record storage no longer exists — never opened, or
/// already settled or cancelled — is rejected as Uninitialized by Accept and
/// by Refund, never spent a second time (the signer checks come first, so
/// the law speaks of signed attempts).
pub proof fn lemma_reclaimed_record_rejects_reuse(
    w: World,
    a: AcceptOfferAccounts,
    rf: RefundAccounts,
    env: Env,
)
    requires
        w.record.data@.len() == 0,
    ensures
        a.taker.is_signer ==> take_outcome(w, a, env) == Err::<(), EscrowError>(
            EscrowError::Uninitialized,
        ),
        rf.maker.is_signer ==> refund_outcome(w, rf, env) == Err::<(), EscrowError>(
            EscrowError::Uninitialized,
        ),
{
}

/// Law: both settlement paths reclaim the record storage, so after a
/// successful Accept or Refund every further signed Accept or Refund fails
/// with Uninitialized.
pub proof fn lemma_no_double_spend(
    pre: World,
    post: World,
    a: AcceptOfferAccounts,
    rf: RefundAccounts,
    env: Env,
)
    requires
        take_applied(pre, post) || refund_applied(pre, post),
    ensures
        a.taker.is_signer ==> take_outcome(post, a, env) == Err::<(), EscrowError>(
            EscrowError::Uninitialized,
        ),
        rf.maker.is_signer ==> refund_outcome(post, rf, env) == Err::<(), EscrowError>(
            EscrowError::Uninitialized,
        ),
{
}

/// Law: a settled trade composes — after a Make of `amount` against
/// `receive` and a successful Accept, the taker holds the whole deposit of
/// asset X, the maker holds exactly the demanded quantity of asset Y more,
/// and the record and custody storages are gone.
pub proof fn lemma_trade_composes(
    pre: World,
    mid: World,
    post: World,
    m: MakeOfferAccounts,
    args: MakeOfferArgs,
    rents: Rents,
    env: Env,
)
    requires
        m.wf(),
        make_applied(pre, mid, m, args, env, rents),
        take_applied(mid, post),
    ensures
        post.taker_x == pre.taker_x + args.amount,
        post.maker_y == pre.maker_y + args.receive,
        post.maker_x == pre.maker_x - args.amount,
        post.record.data@.len() == 0,
        post.custody == (CustodyAccount { initialized: false, balance: 0, lamports: 0 }),
{
    lemma_make_funds_escrowed(pre, mid, m, args, env, rents);
}

/// Law: a cancelled trade composes — after a Make and a successful Refund
/// the maker's asset-X holding and resource balance are restored in full,
/// the storages are gone, and no asset Y moved anywhere.
pub proof fn lemma_refund_restores(
    pre: World,
    mid: World,
    post: World,
    m: MakeOfferAccounts,
    args: MakeOfferArgs,
    rents: Rents,
    env: Env,
)
    requires
        m.wf(),
        make_applied(pre, mid, m, args, env, rents),
        refund_applied(mid, post),
    ensures
        post.maker_x == pre.maker_x,
        post.maker_lamports == pre.maker_lamports,
        post.maker_y == pre.maker_y,
        post.taker_y == pre.taker_y,
        post.record.data@.len() == 0,
        post.custody == (CustodyAccount { initialized: false, balance: 0, lamports: 0 }),
{
}

/// Law: at most one open trade per derivation namespace — once a Make has
/// populated the record, every further Make into the same record and custody
/// slots is rejected, whatever its accounts or arguments say.
pub proof fn lemma_single_open_record(
    pre: World,
    post: World,
    m1: MakeOfferAccounts,
    args1: MakeOfferArgs,
    rents1: Rents,
    m2: MakeOfferAccounts,
    args2: MakeOfferArgs,
    rents2: Rents,
    env: Env,
)
    requires
        m1.wf(),
        make_applied(pre, post, m1, args1, env, rents1),
    ensures
        make_outcome(post, m2, args2, env, rents2) is Err,
{
    assert(post.record.data@.len() == 105);
}

/// Law: a syntactically valid but non-derived record or custody address is
/// rejected with AddressMismatch by every operation, before any transfer
/// (the checks ahead of the address comparison — signatures, a nonzero
/// deposit, the record's existence, owner and size — are assumed passed, or
/// the operation fails even earlier).
pub proof fn lemma_address_substitution_rejected(
    w: World,
    m: MakeOfferAccounts,
    a: AcceptOfferAccounts,
    rf: RefundAccounts,
    args: MakeOfferArgs,
    env: Env,
    rents: Rents,
)
    ensures
        (m.maker.is_signer && args.amount != 0 && addresses_mismatch(
            env,
            m.maker.key@,
            m.mint_x.key@,
            m.escrow.key@,
            m.vault.key@,
        )) ==> make_outcome(w, m, args, env, rents) == Err::<(), EscrowError>(
            EscrowError::AddressMismatch,
        ),
        (a.taker.is_signer && w.record.data@.len() == RECORD_LEN && w.record.owner@
            == env.program_id@ && addresses_mismatch(
            env,
            a.maker.key@,
            a.mint_x.key@,
            a.escrow.key@,
            a.vault.key@,
        )) ==> take_outcome(w, a, env) == Err::<(), EscrowError>(EscrowError::AddressMismatch),
        (rf.maker.is_signer && w.record.data@.len() == RECORD_LEN && w.record.owner@
            == env.program_id@ && addresses_mismatch(
            env,
            rf.maker.key@,
            rf.mint_x.key@,
            rf.escrow.key@,
            rf.vault.key@,
        )) ==> refund_outcome(w, rf, env) == Err::<(), EscrowError>(EscrowError::AddressMismatch),
{
}

} // verus!
