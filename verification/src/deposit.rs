use vstd::prelude::*;
use crate::account::{address_eq, system_program_id, system_program_id_spec, with_lamports, Account};
use crate::derivation::{derive_vault_address, vault_derivation};
use crate::error::VaultError;

verus! {

/// The first validation failure, if any, in a deposit's account list:
/// exactly three accounts; a signing owner; a vault owned by the system
/// transfer authority, still empty, and sitting at the derived address.
pub open spec fn deposit_account_error(accounts: Seq<Account>, program_id: Seq<u8>) -> Option<
    VaultError,
> {
    if accounts.len() != 3 {
        Some(VaultError::NotEnoughAccountKeys)
    } else if !accounts[0].is_signer {
        Some(VaultError::InvalidAccountOwner)
    } else if accounts[1].owner_program@ != system_program_id_spec() {
        Some(VaultError::InvalidAccountOwner)
    } else if accounts[1].lamports != 0 {
        Some(VaultError::InvalidAccountData)
    } else {
        match vault_derivation(accounts[0].key@, program_id) {
            None => Some(VaultError::DerivationExhausted),
            Some(p) => if accounts[1].key@ != p.0 {
                Some(VaultError::InvalidAccountOwner)
            } else {
                None
            },
        }
    }
}

/// The unsigned 64-bit value that eight little-endian bytes hold.
pub open spec fn le_u64_of(s: Seq<u8>) -> u64
    recommends
        s.len() == 8,
{
    (s[0] as u64) | (s[1] as u64) << 8 | (s[2] as u64) << 16 | (s[3] as u64) << 24 | (
    s[4] as u64) << 32 | (s[5] as u64) << 40 | (s[6] as u64) << 48 | (s[7] as u64) << 56
}

/// The first validation failure, if any, in a deposit payload: exactly eight
/// bytes, decoding to a nonzero amount.
pub open spec fn deposit_data_error(data: Seq<u8>) -> Option<VaultError> {
    if data.len() != 8 {
        Some(VaultError::InvalidInstructionData)
    } else if le_u64_of(data) == 0 {
        Some(VaultError::InvalidInstructionData)
    } else {
        None
    }
}

/// The first validation failure, if any, of a whole deposit request: the
/// account list is checked before the payload.
pub open spec fn deposit_error(data: Seq<u8>, accounts: Seq<Account>, program_id: Seq<u8>) -> Option<
    VaultError,
> {
    if deposit_account_error(accounts, program_id) is Some {
        deposit_account_error(accounts, program_id)
    } else {
        deposit_data_error(data)
    }
}

/// The two accounts a deposit touches, kept only after every account check
/// has passed.
#[derive(Debug)]
pub struct DepositAccounts {
    /// The signing owner funding the vault.
    pub owner: Account,
    /// The still-empty vault at the derived address.
    pub vault: Account,
}

impl DepositAccounts {
    /// Validate a deposit's account list, first failure winning.
    pub fn try_from(accounts: &[Account], program_id: &[u8; 32]) -> (r: Result<
        DepositAccounts,
        VaultError,
    >)
        ensures
            match r {
                Ok(d) => deposit_account_error(accounts@, program_id@) is None && d.owner
                    == accounts@[0] && d.vault == accounts@[1],
                Err(e) => deposit_account_error(accounts@, program_id@) == Some(e),
            },
    {
        if accounts.len() != 3 {
            return Err(VaultError::NotEnoughAccountKeys);
        }
        let owner = accounts[0];
        let vault = accounts[1];
        if !owner.is_signer {
            return Err(VaultError::InvalidAccountOwner);
        }
        if !address_eq(&vault.owner_program, &system_program_id()) {
            return Err(VaultError::InvalidAccountOwner);
        }
        if vault.lamports != 0 {
            return Err(VaultError::InvalidAccountData);
        }
        let (vault_key, _bump) = match derive_vault_address(&owner.key, program_id) {
            Ok(p) => p,
            Err(e) => { return Err(e) },
        };
        if !address_eq(&vault.key, &vault_key) {
            return Err(VaultError::InvalidAccountOwner);
        }
        Ok(DepositAccounts { owner, vault })
    }
}

/// The decoded body of a deposit instruction.
#[derive(Debug)]
pub struct DepositInstructionData {
    /// How many native units the owner moves into the vault; never zero.
    pub amount: u64,
}

impl DepositInstructionData {
    /// Decode and validate a deposit payload, first failure winning.
    pub fn try_from(data: &[u8]) -> (r: Result<DepositInstructionData, VaultError>)
        ensures
            match r {
                Ok(d) => deposit_data_error(data@) is None && d.amount == le_u64_of(data@),
                Err(e) => deposit_data_error(data@) == Some(e),
            },
    {
        if data.len() != 8 {
            return Err(VaultError::InvalidInstructionData);
        }
        let amount: u64 = (data[0] as u64) | (data[1] as u64) << 8 | (data[2] as u64) << 16 | (
        data[3] as u64) << 24 | (data[4] as u64) << 32 | (data[5] as u64) << 40 | (
        data[6] as u64) << 48 | (data[7] as u64) << 56;
        if amount == 0 {
            return Err(VaultError::InvalidInstructionData);
        }
        Ok(DepositInstructionData { amount })
    }
}

/// A fully validated deposit, ready for its transfer.
#[derive(Debug)]
pub struct Deposit {
    /// The validated account pair.
    pub accounts: DepositAccounts,
    /// The validated payload.
    pub instruction_datas: DepositInstructionData,
}

/// The owner and vault balances after a deposit: the amount moves from the
/// owner to the vault.
pub open spec fn deposit_result(owner_lamports: u64, vault_lamports: u64, amount: u64) -> (
    u64,
    u64,
)
    recommends
        amount <= owner_lamports,
        vault_lamports + amount <= u64::MAX,
{
    ((owner_lamports - amount) as u64, (vault_lamports + amount) as u64)
}

impl Deposit {
    /// The leading payload byte that routes to this instruction.
    pub const DISCRIMINATOR: u8 = 0;

    /// Validate a whole deposit request: accounts first, then payload.
    pub fn try_from(data: &[u8], accounts: &[Account], program_id: &[u8; 32]) -> (r: Result<
        Deposit,
        VaultError,
    >)
        ensures
            match r {
                Ok(d) => deposit_error(data@, accounts@, program_id@) is None && d.accounts.owner
                    == accounts@[0] && d.accounts.vault == accounts@[1]
                    && d.instruction_datas.amount == le_u64_of(data@),
                Err(e) => deposit_error(data@, accounts@, program_id@) == Some(e),
            },
    {
        let deposit_accounts = match DepositAccounts::try_from(accounts, program_id) {
            Ok(a) => a,
            Err(e) => { return Err(e) },
        };
        let instruction_datas = match DepositInstructionData::try_from(data) {
            Ok(d) => d,
            Err(e) => { return Err(e) },
        };
        Ok(Deposit { accounts: deposit_accounts, instruction_datas })
    }

    /// Move the deposited amount from the owner to the vault. The real
    /// transfer is the runtime's; this records its exact effect on the
    /// balances, which the owner's signature authorizes.
    pub fn process(&mut self) -> (r: Result<(), VaultError>)
        requires
            old(self).instruction_datas.amount <= old(self).accounts.owner.lamports,
            old(self).accounts.vault.lamports + old(self).instruction_datas.amount <= u64::MAX,
        ensures
            r is Ok,
            ({
                let (o, v) = deposit_result(
                    old(self).accounts.owner.lamports,
                    old(self).accounts.vault.lamports,
                    old(self).instruction_datas.amount,
                );
                final(self).accounts.owner == with_lamports(old(self).accounts.owner, o)
                    && final(self).accounts.vault == with_lamports(old(self).accounts.vault, v)
            }),
            final(self).instruction_datas.amount == old(self).instruction_datas.amount,
    {
        let amount = self.instruction_datas.amount;
        self.accounts.owner.lamports = self.accounts.owner.lamports - amount;
        self.accounts.vault.lamports = self.accounts.vault.lamports + amount;
        Ok(())
    }
}

/// Law: a deposit whose accounts pass validation but whose payload decodes to
/// a zero amount is always rejected as invalid instruction data.
pub proof fn lemma_deposit_zero_amount_rejected(
    data: Seq<u8>,
    accounts: Seq<Account>,
    program_id: Seq<u8>,
)
    requires
        deposit_account_error(accounts, program_id) is None,
        data.len() == 8,
        le_u64_of(data) == 0,
    ensures
        deposit_error(data, accounts, program_id) == Some(VaultError::InvalidInstructionData),
{
}

/// Law: a deposit whose vault sits at any address other than the derived one
/// is rejected as an invalid account owner, however near the two addresses
/// are.
pub proof fn lemma_deposit_wrong_vault_address_rejected(
    accounts: Seq<Account>,
    program_id: Seq<u8>,
)
    requires
        accounts.len() == 3,
        accounts[0].is_signer,
        accounts[1].owner_program@ == system_program_id_spec(),
        accounts[1].lamports == 0,
        match vault_derivation(accounts[0].key@, program_id) {
            Some(p) => accounts[1].key@ != p.0,
            None => false,
        },
    ensures
        deposit_account_error(accounts, program_id) == Some(VaultError::InvalidAccountOwner),
{
}

/// Law: a deposit into a vault whose balance is already nonzero is rejected
/// as invalid account data, before any address is derived.
pub proof fn lemma_deposit_funded_vault_rejected(accounts: Seq<Account>, program_id: Seq<u8>)
    requires
        accounts.len() == 3,
        accounts[0].is_signer,
        accounts[1].owner_program@ == system_program_id_spec(),
        accounts[1].lamports != 0,
    ensures
        deposit_account_error(accounts, program_id) == Some(VaultError::InvalidAccountData),
{
}

} // verus!
