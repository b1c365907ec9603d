//! A minimal lamport vault that shares the exchange's validation style: an
//! owner deposits a nonzero quantity of the ledger's native resource into a
//! freshly derived, keyless vault account.

use vstd::prelude::*;
use crate::accounts::all_wf;
use crate::codec::{bytes_eq, read_u64_le, u64_from_le_bytes};
use crate::error::EscrowError;
use crate::model::{view_eq, AccountView};
use crate::pda::{derive_vault_address, spec_vault_pda};

verus! {

/// The runtime identities the deposit runs under.
pub struct VaultEnv {
    /// The vault program: the deriver of vault addresses.
    pub program_id: Vec<u8>,
    /// The system program: the required owner of an unused vault account.
    pub system_program: Vec<u8>,
}

impl VaultEnv {
    /// Both identities are 32 bytes wide.
    pub open spec fn wf(self) -> bool {
        self.program_id@.len() == 32 && self.system_program@.len() == 32
    }
}

/// Everything a deposit may read or write: the owner's resource balance and
/// the vault account's owning program and resource balance.
pub struct VaultWorld {
    pub owner_lamports: u64,
    pub vault_owner: Vec<u8>,
    pub vault_lamports: u64,
}

/// Whether two vault worlds hold the same state.
pub open spec fn vault_world_eq(a: VaultWorld, b: VaultWorld) -> bool {
    a.owner_lamports == b.owner_lamports && a.vault_owner@ == b.vault_owner@ && a.vault_lamports
        == b.vault_lamports
}

/// The argument payload of a deposit: one 64-bit quantity.
#[derive(Clone, Copy, Debug, PartialEq, Eq, Structural)]
pub struct DepositInstructionData {
    /// The quantity to deposit; must be nonzero.
    pub amount: u64,
}

/// What parsing a deposit payload returns: the quantity read from eight
/// little-endian bytes; rejection of any other length, or of a zero
/// quantity.
pub open spec fn deposit_args_outcome(payload: Seq<u8>) -> Result<
    DepositInstructionData,
    EscrowError,
> {
    if payload.len() != 8 {
        Err(EscrowError::InvalidArgument)
    } else if u64_from_le_bytes(payload) == 0 {
        Err(EscrowError::InvalidArgument)
    } else {
        Ok(DepositInstructionData { amount: u64_from_le_bytes(payload) })
    }
}

impl DepositInstructionData {
    /// Parse the deposit payload: eight little-endian bytes, nonzero.
    pub fn parse(payload: &Vec<u8>) -> (r: Result<DepositInstructionData, EscrowError>)
        ensures
            r == deposit_args_outcome(payload@),
    {
        if payload.len() != 8 {
            return Err(EscrowError::InvalidArgument);
        }
        let amount = read_u64_le(payload, 0);
        proof {
            assert(payload@.subrange(0, 8) =~= payload@);
        }
        if amount == 0 {
            return Err(EscrowError::InvalidArgument);
        }
        Ok(DepositInstructionData { amount })
    }
}

/// The accounts a deposit is addressed to, in list order: the owner and the
/// vault (one trailing entry is reserved for the runtime).
pub struct DepositAccounts {
    pub owner: AccountView,
    pub vault: AccountView,
}

impl DepositAccounts {
    /// Every field carries a 32-byte address.
    pub open spec fn wf(self) -> bool {
        self.owner.wf() && self.vault.wf()
    }

    /// Whether this is the positional reading of `accounts`.
    pub open spec fn is_parse_of(self, accounts: Seq<AccountView>) -> bool {
        accounts.len() == 3 && view_eq(self.owner, accounts[0]) && view_eq(self.vault, accounts[1])
    }

    /// Read the deposit account list. Succeeds exactly on a list of three
    /// entries, which it returns position by position.
    pub fn from_list(accounts: &Vec<AccountView>) -> (r: Result<DepositAccounts, EscrowError>)
        requires
            all_wf(accounts@),
        ensures
            match r {
                Ok(a) => a.is_parse_of(accounts@) && a.wf(),
                Err(e) => e == EscrowError::NotEnoughAccounts && accounts@.len() != 3,
            },
    {
        if accounts.len() != 3 {
            return Err(EscrowError::NotEnoughAccounts);
        }
        let owner = AccountView {
            key: crate::codec::read_key(&accounts[0].key, 0),
            is_signer: accounts[0].is_signer,
        };
        let vault = AccountView {
            key: crate::codec::read_key(&accounts[1].key, 0),
            is_signer: accounts[1].is_signer,
        };
        proof {
            assert(owner.key@ =~= accounts@[0].key@);
            assert(vault.key@ =~= accounts@[1].key@);
        }
        Ok(DepositAccounts { owner, vault })
    }
}

/// The validation verdict of a deposit, in checking order: the owner must
/// have signed; the vault must still belong to the system program and hold
/// nothing; the supplied vault address must equal the recomputed derived
/// address; and the owner must cover the quantity.
pub open spec fn deposit_outcome(
    w: VaultWorld,
    accs: DepositAccounts,
    args: DepositInstructionData,
    env: VaultEnv,
) -> Result<(), EscrowError> {
    if !accs.owner.is_signer {
        Err(EscrowError::MissingSignature)
    } else if w.vault_owner@ != env.system_program@ {
        Err(EscrowError::WrongProgramOwner)
    } else if w.vault_lamports != 0 {
        Err(EscrowError::AlreadyInitialized)
    } else {
        match spec_vault_pda(env.program_id@, accs.owner.key@) {
            None => Err(EscrowError::AddressMismatch),
            Some(vp) => if accs.vault.key@ != vp.0 {
                Err(EscrowError::AddressMismatch)
            } else if w.owner_lamports < args.amount {
                Err(EscrowError::InsufficientFunds)
            } else {
                Ok(())
            },
        }
    }
}

/// A validated deposit, ready to process.
pub struct Deposit {
    pub accounts: DepositAccounts,
    pub instruction_datas: DepositInstructionData,
}

impl Deposit {
    /// Read the account list, then parse the payload.
    pub fn build(accounts: &Vec<AccountView>, payload: &Vec<u8>) -> (r: Result<
        Deposit,
        EscrowError,
    >)
        requires
            all_wf(accounts@),
        ensures
            match r {
                Ok(d) => d.accounts.is_parse_of(accounts@) && d.accounts.wf() && Ok::<
                    DepositInstructionData,
                    EscrowError,
                >(d.instruction_datas) == deposit_args_outcome(payload@),
                Err(e) => (accounts@.len() != 3 && e == EscrowError::NotEnoughAccounts) || (
                accounts@.len() == 3 && Err::<DepositInstructionData, _>(e) == deposit_args_outcome(
                    payload@,
                )),
            },
    {
        let accounts = match DepositAccounts::from_list(accounts) {
            Err(e) => {
                return Err(e);
            },
            Ok(a) => a,
        };
        let instruction_datas = match DepositInstructionData::parse(payload) {
            Err(e) => {
                return Err(e);
            },
            Ok(a) => a,
        };
        Ok(Deposit { accounts, instruction_datas })
    }

    /// Deposit. Validates as `deposit_outcome` says and, exactly on success,
    /// moves the quantity from the owner into the vault; any rejection
    /// leaves both balances untouched.
    pub fn process(&self, w: &mut VaultWorld, env: &VaultEnv) -> (r: Result<(), EscrowError>)
        requires
            self.accounts.wf(),
            env.wf(),
        ensures
            r == deposit_outcome(*old(w), self.accounts, self.instruction_datas, *env),
            r is Err ==> vault_world_eq(*final(w), *old(w)),
            r is Ok ==> final(w).owner_lamports == old(w).owner_lamports
                - self.instruction_datas.amount && final(w).vault_lamports
                == self.instruction_datas.amount && final(w).vault_owner@ == old(w).vault_owner@,
    {
        if !self.accounts.owner.is_signer {
            return Err(EscrowError::MissingSignature);
        }
        if !bytes_eq(&w.vault_owner, &env.system_program) {
            return Err(EscrowError::WrongProgramOwner);
        }
        if w.vault_lamports != 0 {
            return Err(EscrowError::AlreadyInitialized);
        }
        let vault_key = match derive_vault_address(&env.program_id, &self.accounts.owner.key) {
            None => {
                return Err(EscrowError::AddressMismatch);
            },
            Some(p) => p.0,
        };
        if !bytes_eq(&self.accounts.vault.key, &vault_key) {
            return Err(EscrowError::AddressMismatch);
        }
        if w.owner_lamports < self.instruction_datas.amount {
            return Err(EscrowError::InsufficientFunds);
        }
        w.owner_lamports = w.owner_lamports - self.instruction_datas.amount;
        w.vault_lamports = self.instruction_datas.amount;
        Ok(())
    }
}

} // verus!
