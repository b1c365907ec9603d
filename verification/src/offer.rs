//! Make: open an offer. The maker locks a deposit of asset X in a freshly
//! created custody account whose only transfer authority is the derived
//! record address, and the record is populated with the trade's terms.

use vstd::prelude::*;
use crate::accounts::MakeOfferAccounts;
use crate::codec::{
    bytes_eq, lemma_u64_le_round_trip, read_key, u64_from_le_bytes, u64_le_bytes,
};
use crate::error::EscrowError;
use crate::model::{world_eq, CustodyAccount, Env, Rents, World};
use crate::pda::{derive_custody_address, derive_record_address, spec_custody_pda, spec_record_pda};
use crate::state::{stored_receive, Escrow};

verus! {

/// The argument payload of Make: the deposit quantity of asset X, then the
/// demanded receive quantity of asset Y, each as eight little-endian bytes.
#[derive(Clone, Copy, Debug, PartialEq, Eq, Structural)]
pub struct MakeOfferArgs {
    /// Quantity of asset X the maker deposits; must be nonzero.
    pub amount: u64,
    /// Quantity of asset Y the maker demands in return.
    pub receive: u64,
}

/// The two quantities read from a sixteen-byte Make payload.
pub open spec fn spec_make_args(payload: Seq<u8>) -> MakeOfferArgs {
    MakeOfferArgs {
        amount: u64_from_le_bytes(payload.subrange(0, 8)),
        receive: u64_from_le_bytes(payload.subrange(8, 16)),
    }
}

/// What parsing a Make payload returns: the two quantities on a well-formed
/// payload; rejection of any other length, or of a zero deposit.
pub open spec fn make_args_outcome(payload: Seq<u8>) -> Result<MakeOfferArgs, EscrowError> {
    if payload.len() != 16 {
        Err(EscrowError::InvalidArgument)
    } else if spec_make_args(payload).amount == 0 {
        Err(EscrowError::InvalidArgument)
    } else {
        Ok(spec_make_args(payload))
    }
}

impl MakeOfferArgs {
    /// Parse the Make payload: sixteen bytes, deposit quantity first, both
    /// little-endian. A zero deposit is rejected here, before anything is
    /// allocated or moved.
    pub fn parse(payload: &Vec<u8>) -> (r: Result<MakeOfferArgs, EscrowError>)
        ensures
            r == make_args_outcome(payload@),
    {
        if payload.len() != 16 {
            return Err(EscrowError::InvalidArgument);
        }
        let amount = crate::codec::read_u64_le(payload, 0);
        let receive = crate::codec::read_u64_le(payload, 8);
        if amount == 0 {
            return Err(EscrowError::InvalidArgument);
        }
        Ok(MakeOfferArgs { amount, receive })
    }
}

/// The validation verdict of Make, in checking order: the maker must have
/// signed; the deposit must be nonzero; the supplied record and custody
/// addresses must equal the recomputed derived addresses; neither namespace
/// may be occupied already; and the maker must cover the deposit and the
/// allocation costs.
pub open spec fn make_outcome(
    w: World,
    accs: MakeOfferAccounts,
    args: MakeOfferArgs,
    env: Env,
    rents: Rents,
) -> Result<(), EscrowError> {
    if !accs.maker.is_signer {
        Err(EscrowError::MissingSignature)
    } else if args.amount == 0 {
        Err(EscrowError::InvalidArgument)
    } else {
        match spec_record_pda(env.program_id@, accs.maker.key@, accs.mint_x.key@) {
            None => Err(EscrowError::AddressMismatch),
            Some(rp) => if accs.escrow.key@ != rp.0 {
                Err(EscrowError::AddressMismatch)
            } else {
                match spec_custody_pda(
                    env.ata_program@,
                    rp.0,
                    env.token_program@,
                    accs.mint_x.key@,
                ) {
                    None => Err(EscrowError::AddressMismatch),
                    Some(cp) => if accs.vault.key@ != cp.0 {
                        Err(EscrowError::AddressMismatch)
                    } else if w.record.data@.len() != 0 || w.custody.initialized {
                        Err(EscrowError::AlreadyInitialized)
                    } else if w.maker_x < args.amount {
                        Err(EscrowError::InsufficientFunds)
                    } else if w.maker_lamports < rents.record_rent + rents.custody_rent {
                        Err(EscrowError::InsufficientFunds)
                    } else {
                        Ok(())
                    },
                }
            },
        }
    }
}

/// How a successful Make changes the world: the record now holds the byte
/// image of the trade (maker, both asset classes, the receive quantity, the
/// derivation byte) and is owned by this program; the custody account exists
/// and holds exactly the deposit; the deposit left the maker's asset-X
/// holding; the maker funded both allocations; nothing else moved.
pub open spec fn make_applied(
    pre: World,
    post: World,
    accs: MakeOfferAccounts,
    args: MakeOfferArgs,
    env: Env,
    rents: Rents,
) -> bool {
    let rp = spec_record_pda(env.program_id@, accs.maker.key@, accs.mint_x.key@)->Some_0;
    &&& post.record.data@ == accs.maker.key@ + accs.mint_x.key@ + accs.mint_y.key@ + u64_le_bytes(
        args.receive,
    ) + seq![rp.1]
    &&& post.record.owner@ == env.program_id@
    &&& post.record.lamports == rents.record_rent
    &&& post.custody == (CustodyAccount {
        initialized: true,
        balance: args.amount,
        lamports: rents.custody_rent,
    })
    &&& post.maker_x == pre.maker_x - args.amount
    &&& post.maker_lamports == pre.maker_lamports - rents.record_rent - rents.custody_rent
    &&& post.maker_y == pre.maker_y
    &&& post.taker_x == pre.taker_x
    &&& post.taker_y == pre.taker_y
}

/// Open an offer. Validates as `make_outcome` says and, exactly on success,
/// applies the changes `make_applied` says; any rejection leaves the world
/// untouched.
pub fn make(
    w: &mut World,
    accs: &MakeOfferAccounts,
    args: &MakeOfferArgs,
    env: &Env,
    rents: &Rents,
) -> (r: Result<(), EscrowError>)
    requires
        accs.wf(),
        env.wf(),
    ensures
        r == make_outcome(*old(w), *accs, *args, *env, *rents),
        r is Err ==> world_eq(*final(w), *old(w)),
        r is Ok ==> make_applied(*old(w), *final(w), *accs, *args, *env, *rents),
{
    if !accs.maker.is_signer {
        return Err(EscrowError::MissingSignature);
    }
    if args.amount == 0 {
        return Err(EscrowError::InvalidArgument);
    }
    let (record_key, bump) = match derive_record_address(
        &env.program_id,
        &accs.maker.key,
        &accs.mint_x.key,
    ) {
        None => {
            return Err(EscrowError::AddressMismatch);
        },
        Some(p) => p,
    };
    if !bytes_eq(&accs.escrow.key, &record_key) {
        return Err(EscrowError::AddressMismatch);
    }
    let custody_key = match derive_custody_address(
        &env.ata_program,
        &record_key,
        &env.token_program,
        &accs.mint_x.key,
    ) {
        None => {
            return Err(EscrowError::AddressMismatch);
        },
        Some(p) => p.0,
    };
    if !bytes_eq(&accs.vault.key, &custody_key) {
        return Err(EscrowError::AddressMismatch);
    }
    if w.record.data.len() != 0 || w.custody.initialized {
        return Err(EscrowError::AlreadyInitialized);
    }
    if w.maker_x < args.amount {
        return Err(EscrowError::InsufficientFunds);
    }
    if rents.custody_rent > u64::MAX - rents.record_rent || w.maker_lamports < rents.record_rent
        + rents.custody_rent {
        return Err(EscrowError::InsufficientFunds);
    }
    let record = Escrow {
        maker: read_key(&accs.maker.key, 0),
        mint_x: read_key(&accs.mint_x.key, 0),
        mint_y: read_key(&accs.mint_y.key, 0),
        receive: args.receive,
        bump,
    };
    proof {
        assert(record.maker@ =~= accs.maker.key@);
        assert(record.mint_x@ =~= accs.mint_x.key@);
        assert(record.mint_y@ =~= accs.mint_y.key@);
    }
    w.record.data = record.to_bytes();
    w.record.owner = read_key(&env.program_id, 0);
    w.record.lamports = rents.record_rent;
    w.custody.initialized = true;
    w.custody.balance = args.amount;
    w.custody.lamports = rents.custody_rent;
    w.maker_x = w.maker_x - args.amount;
    w.maker_lamports = w.maker_lamports - rents.record_rent - rents.custody_rent;
    proof {
        assert(w.record.owner@ =~= env.program_id@);
    }
    Ok(())
}

/// Law: a Make whose deposit quantity is zero is always rejected — whatever
/// else holds of the world, the accounts or the environment — and so (by the
/// contract of `make`) before any storage allocation or transfer.
pub proof fn lemma_zero_deposit_rejected(
    w: World,
    accs: MakeOfferAccounts,
    args: MakeOfferArgs,
    env: Env,
    rents: Rents,
)
    requires
        args.amount == 0,
    ensures
        make_outcome(w, accs, args, env, rents) is Err,
{
}

/// Law: after a successful Make the custody balance equals the requested
/// deposit quantity, and the stored record's receive quantity equals the
/// requested receive amount.
pub proof fn lemma_make_funds_escrowed(
    pre: World,
    post: World,
    accs: MakeOfferAccounts,
    args: MakeOfferArgs,
    env: Env,
    rents: Rents,
)
    requires
        accs.wf(),
        make_applied(pre, post, accs, args, env, rents),
    ensures
        post.custody.balance == args.amount,
        stored_receive(post.record.data@) == args.receive,
        post.record.data@.len() == 105,
{
    assert(post.record.data@.subrange(96, 104) =~= u64_le_bytes(args.receive));
    lemma_u64_le_round_trip(args.receive);
}

} // verus!
