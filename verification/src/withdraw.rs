use vstd::prelude::*;
use crate::account::{address_eq, system_program_id, system_program_id_spec, with_lamports, Account};
use crate::deposit::{deposit_account_error, deposit_result};
use crate::derivation::{derive_vault_address, vault_derivation};
use crate::error::VaultError;

verus! {

/// The first validation failure, if any, in a withdrawal's account list:
/// exactly three accounts; a signing owner; a vault owned by the system
/// transfer authority and sitting at the derived address. The vault's
/// balance is not constrained — a withdrawal empties whatever is there.
pub open spec fn withdraw_account_error(accounts: Seq<Account>, program_id: Seq<u8>) -> Option<
    VaultError,
> {
    if accounts.len() != 3 {
        Some(VaultError::NotEnoughAccountKeys)
    } else if !accounts[0].is_signer {
        Some(VaultError::InvalidAccountOwner)
    } else if accounts[1].owner_program@ != system_program_id_spec() {
        Some(VaultError::InvalidAccountOwner)
    } else {
        match vault_derivation(accounts[0].key@, program_id) {
            None => Some(VaultError::DerivationExhausted),
            Some(p) => if accounts[1].key@ != p.0 {
                Some(VaultError::InvalidAccountOwner)
            } else {
                None
            },
        }
    }
}

/// The two accounts a withdrawal touches, kept only after every account
/// check has passed, together with the bump that completes the vault's
/// authority proof.
#[derive(Debug)]
pub struct WithdrawAccounts {
    /// The signing owner receiving the vault's balance.
    pub owner: Account,
    /// The vault at the derived address.
    pub vault: Account,
    /// The bump byte retained from derivation; with the tag and the owner
    /// key it forms the seed sequence presented as transfer authority.
    pub bumps: [u8; 1],
}

impl WithdrawAccounts {
    /// Validate a withdrawal's account list, first failure winning; the bump
    /// found during derivation is retained for the transfer.
    pub fn try_from(accounts: &[Account], program_id: &[u8; 32]) -> (r: Result<
        WithdrawAccounts,
        VaultError,
    >)
        ensures
            match r {
                Ok(w) => withdraw_account_error(accounts@, program_id@) is None && w.owner
                    == accounts@[0] && w.vault == accounts@[1] && vault_derivation(
                    accounts@[0].key@,
                    program_id@,
                ) == Some((w.vault.key@, w.bumps@[0])),
                Err(e) => withdraw_account_error(accounts@, program_id@) == Some(e),
            },
    {
        if accounts.len() != 3 {
            return Err(VaultError::NotEnoughAccountKeys);
        }
        let owner = accounts[0];
        let vault = accounts[1];
        if !owner.is_signer {
            return Err(VaultError::InvalidAccountOwner);
        }
        if !address_eq(&vault.owner_program, &system_program_id()) {
            return Err(VaultError::InvalidAccountOwner);
        }
        let (vault_key, bump) = match derive_vault_address(&owner.key, program_id) {
            Ok(p) => p,
            Err(e) => { return Err(e) },
        };
        if !address_eq(&vault.key, &vault_key) {
            return Err(VaultError::InvalidAccountOwner);
        }
        Ok(WithdrawAccounts { owner, vault, bumps: [bump] })
    }
}

/// A fully validated withdrawal, ready for its transfer.
#[derive(Debug)]
pub struct Withdraw {
    /// The validated account pair and the retained bump.
    pub accounts: WithdrawAccounts,
}

/// The owner and vault balances after a withdrawal: the vault's entire
/// balance moves to the owner.
pub open spec fn withdraw_result(owner_lamports: u64, vault_lamports: u64) -> (u64, u64)
    recommends
        owner_lamports + vault_lamports <= u64::MAX,
{
    ((owner_lamports + vault_lamports) as u64, 0u64)
}

impl Withdraw {
    /// The leading payload byte that routes to this instruction.
    pub const DISCRIMINATOR: u8 = 1;

    /// Validate a whole withdrawal request; it carries no payload body.
    pub fn try_from(accounts: &[Account], program_id: &[u8; 32]) -> (r: Result<
        Withdraw,
        VaultError,
    >)
        ensures
            match r {
                Ok(w) => withdraw_account_error(accounts@, program_id@) is None && w.accounts.owner
                    == accounts@[0] && w.accounts.vault == accounts@[1] && vault_derivation(
                    accounts@[0].key@,
                    program_id@,
                ) == Some((w.accounts.vault.key@, w.accounts.bumps@[0])),
                Err(e) => withdraw_account_error(accounts@, program_id@) == Some(e),
            },
    {
        let accounts = match WithdrawAccounts::try_from(accounts, program_id) {
            Ok(a) => a,
            Err(e) => { return Err(e) },
        };
        Ok(Withdraw { accounts })
    }

    /// Move the vault's entire current balance to the owner and leave the
    /// vault empty. The real transfer is the runtime's, authorized by the
    /// seed sequence `["vault", owner key, bump]`; this records its exact
    /// effect on the balances.
    pub fn process(&mut self) -> (r: Result<(), VaultError>)
        requires
            old(self).accounts.owner.lamports + old(self).accounts.vault.lamports <= u64::MAX,
        ensures
            r is Ok,
            ({
                let (o, v) = withdraw_result(
                    old(self).accounts.owner.lamports,
                    old(self).accounts.vault.lamports,
                );
                final(self).accounts.owner == with_lamports(old(self).accounts.owner, o)
                    && final(self).accounts.vault == with_lamports(old(self).accounts.vault, v)
            }),
            final(self).accounts.bumps == old(self).accounts.bumps,
    {
        let amount = self.accounts.vault.lamports;
        self.accounts.vault.lamports = 0;
        self.accounts.owner.lamports = self.accounts.owner.lamports + amount;
        Ok(())
    }
}

/// Law: a withdrawal whose owner did not sign the transaction is rejected as
/// an invalid account owner, whatever the vault looks like.
pub proof fn lemma_withdraw_unsigned_owner_rejected(accounts: Seq<Account>, program_id: Seq<u8>)
    requires
        accounts.len() == 3,
        !accounts[0].is_signer,
    ensures
        withdraw_account_error(accounts, program_id) == Some(VaultError::InvalidAccountOwner),
{
}

/// Law: a deposit followed immediately by a withdrawal conserves the owner's
/// balance and leaves the account list exactly as it was — in particular the
/// vault is empty again, so a further deposit passes the same validation.
pub proof fn lemma_deposit_withdraw_round_trip(
    accounts: Seq<Account>,
    program_id: Seq<u8>,
    amount: u64,
)
    requires
        deposit_account_error(accounts, program_id) is None,
        0 < amount <= accounts[0].lamports,
    ensures
        ({
            let (o1, v1) = deposit_result(accounts[0].lamports, accounts[1].lamports, amount);
            let (o2, v2) = withdraw_result(o1, v1);
            let restored = accounts.update(0, with_lamports(accounts[0], o2)).update(
                1,
                with_lamports(accounts[1], v2),
            );
            o2 == accounts[0].lamports && v2 == 0 && restored =~= accounts
                && deposit_account_error(restored, program_id) is None
        }),
{
    let (o1, v1) = deposit_result(accounts[0].lamports, accounts[1].lamports, amount);
    let (o2, v2) = withdraw_result(o1, v1);
    let restored = accounts.update(0, with_lamports(accounts[0], o2)).update(
        1,
        with_lamports(accounts[1], v2),
    );
    assert(restored =~= accounts);
}

} // verus!
