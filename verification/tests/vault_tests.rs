use vault::account::Account;
use vault::deposit::{Deposit, DepositAccounts, DepositInstructionData};
use vault::derivation::derive_vault_address;
use vault::error::VaultError;
use vault::withdraw::{Withdraw, WithdrawAccounts};

const SYSTEM_ID: [u8; 32] = [0u8; 32];

fn owner_account(key: [u8; 32], lamports: u64, is_signer: bool) -> Account {
    Account { key, lamports, is_signer, owner_program: SYSTEM_ID }
}

fn vault_account(key: [u8; 32], lamports: u64) -> Account {
    Account { key, lamports, is_signer: false, owner_program: SYSTEM_ID }
}

fn system_account() -> Account {
    Account { key: SYSTEM_ID, lamports: 1, is_signer: false, owner_program: SYSTEM_ID }
}

/// A valid deposit account list for the given owner key and program identity.
fn valid_accounts(owner_key: [u8; 32], program_id: &[u8; 32], vault_lamports: u64) -> [Account; 3] {
    let (vault_key, _bump) = derive_vault_address(&owner_key, program_id).unwrap();
    [
        owner_account(owner_key, 1_000_000, true),
        vault_account(vault_key, vault_lamports),
        system_account(),
    ]
}

#[test]
fn derivation_is_deterministic() {
    let owner = [11u8; 32];
    let program = [7u8; 32];
    let first = derive_vault_address(&owner, &program).unwrap();
    let second = derive_vault_address(&owner, &program).unwrap();
    assert_eq!(first.0, second.0);
    assert_eq!(first.1, second.1);
}

#[test]
fn derivation_differs_for_different_owners() {
    let program = [7u8; 32];
    let (addr_a, _) = derive_vault_address(&[1u8; 32], &program).unwrap();
    let (addr_b, _) = derive_vault_address(&[2u8; 32], &program).unwrap();
    assert_ne!(addr_a, addr_b);
}

#[test]
fn derivation_differs_for_different_programs() {
    let owner = [11u8; 32];
    let (addr_a, _) = derive_vault_address(&owner, &[7u8; 32]).unwrap();
    let (addr_b, _) = derive_vault_address(&owner, &[8u8; 32]).unwrap();
    assert_ne!(addr_a, addr_b);
}

#[test]
fn derivation_does_not_echo_the_owner_key() {
    let owner = [11u8; 32];
    let (addr, _) = derive_vault_address(&owner, &[7u8; 32]).unwrap();
    assert_ne!(addr, owner);
    assert_ne!(addr, [7u8; 32]);
}

#[test]
fn derivation_matches_the_runtime_search() {
    let owner = [11u8; 32];
    let program_bytes = [7u8; 32];
    let (addr, bump) = derive_vault_address(&owner, &program_bytes).unwrap();
    let program = solana_address::Address::new_from_array(program_bytes);
    let (expected, expected_bump) =
        solana_address::Address::find_program_address(&[b"vault", &owner], &program);
    assert_eq!(addr, expected.to_bytes());
    assert_eq!(bump, expected_bump);
}

#[test]
fn deposit_accounts_accepts_a_valid_list() {
    let program = [7u8; 32];
    let accounts = valid_accounts([11u8; 32], &program, 0);
    let d = DepositAccounts::try_from(&accounts, &program).unwrap();
    assert_eq!(d.owner.key, accounts[0].key);
    assert_eq!(d.vault.key, accounts[1].key);
}

#[test]
fn deposit_accounts_rejects_a_short_list() {
    let program = [7u8; 32];
    let accounts = valid_accounts([11u8; 32], &program, 0);
    let r = DepositAccounts::try_from(&accounts[..2], &program);
    assert_eq!(r.unwrap_err(), VaultError::NotEnoughAccountKeys);
}

#[test]
fn deposit_accounts_rejects_an_unsigned_owner() {
    let program = [7u8; 32];
    let mut accounts = valid_accounts([11u8; 32], &program, 0);
    accounts[0].is_signer = false;
    let r = DepositAccounts::try_from(&accounts, &program);
    assert_eq!(r.unwrap_err(), VaultError::InvalidAccountOwner);
}

#[test]
fn deposit_accounts_rejects_a_vault_not_owned_by_the_system() {
    let program = [7u8; 32];
    let mut accounts = valid_accounts([11u8; 32], &program, 0);
    accounts[1].owner_program = [9u8; 32];
    let r = DepositAccounts::try_from(&accounts, &program);
    assert_eq!(r.unwrap_err(), VaultError::InvalidAccountOwner);
}

#[test]
fn deposit_accounts_rejects_a_funded_vault() {
    let program = [7u8; 32];
    let accounts = valid_accounts([11u8; 32], &program, 5);
    let r = DepositAccounts::try_from(&accounts, &program);
    assert_eq!(r.unwrap_err(), VaultError::InvalidAccountData);
}

#[test]
fn deposit_accounts_rejects_a_perturbed_vault_address() {
    let program = [7u8; 32];
    let mut accounts = valid_accounts([11u8; 32], &program, 0);
    accounts[1].key[0] = accounts[1].key[0].wrapping_add(1);
    let r = DepositAccounts::try_from(&accounts, &program);
    assert_eq!(r.unwrap_err(), VaultError::InvalidAccountOwner);
}

#[test]
fn deposit_data_decodes_little_endian() {
    let data = [0x39u8, 0x30, 0, 0, 0, 0, 0, 0];
    let d = DepositInstructionData::try_from(&data).unwrap();
    assert_eq!(d.amount, 12345);
}

#[test]
fn deposit_data_decodes_the_largest_amount() {
    let data = [0xffu8; 8];
    let d = DepositInstructionData::try_from(&data).unwrap();
    assert_eq!(d.amount, u64::MAX);
}

#[test]
fn deposit_data_rejects_a_zero_amount() {
    let data = [0u8; 8];
    let r = DepositInstructionData::try_from(&data);
    assert_eq!(r.unwrap_err(), VaultError::InvalidInstructionData);
}

#[test]
fn deposit_data_rejects_wrong_lengths() {
    assert_eq!(
        DepositInstructionData::try_from(&[]).unwrap_err(),
        VaultError::InvalidInstructionData
    );
    assert_eq!(
        DepositInstructionData::try_from(&[1u8; 7]).unwrap_err(),
        VaultError::InvalidInstructionData
    );
    assert_eq!(
        DepositInstructionData::try_from(&[1u8; 9]).unwrap_err(),
        VaultError::InvalidInstructionData
    );
}

#[test]
fn deposit_rejects_a_zero_amount_for_valid_accounts() {
    let program = [7u8; 32];
    let accounts = valid_accounts([11u8; 32], &program, 0);
    let r = Deposit::try_from(&[0u8; 8], &accounts, &program);
    assert_eq!(r.unwrap_err(), VaultError::InvalidInstructionData);
}

#[test]
fn deposit_checks_accounts_before_the_payload() {
    let program = [7u8; 32];
    let mut accounts = valid_accounts([11u8; 32], &program, 0);
    accounts[0].is_signer = false;
    let r = Deposit::try_from(&[0u8; 8], &accounts, &program);
    assert_eq!(r.unwrap_err(), VaultError::InvalidAccountOwner);
}

#[test]
fn deposit_moves_the_amount_into_the_vault() {
    let program = [7u8; 32];
    let accounts = valid_accounts([11u8; 32], &program, 0);
    let data = [0x39u8, 0x30, 0, 0, 0, 0, 0, 0];
    let mut deposit = Deposit::try_from(&data, &accounts, &program).unwrap();
    deposit.process().unwrap();
    assert_eq!(deposit.accounts.owner.lamports, 1_000_000 - 12345);
    assert_eq!(deposit.accounts.vault.lamports, 12345);
}

#[test]
fn withdraw_accounts_accepts_a_valid_list_and_keeps_the_bump() {
    let program = [7u8; 32];
    let owner_key = [11u8; 32];
    let (_, bump) = derive_vault_address(&owner_key, &program).unwrap();
    let accounts = valid_accounts(owner_key, &program, 12345);
    let w = WithdrawAccounts::try_from(&accounts, &program).unwrap();
    assert_eq!(w.bumps, [bump]);
    assert_eq!(w.vault.key, accounts[1].key);
}

#[test]
fn withdraw_accepts_a_funded_vault() {
    let program = [7u8; 32];
    let accounts = valid_accounts([11u8; 32], &program, 12345);
    assert!(Withdraw::try_from(&accounts, &program).is_ok());
}

#[test]
fn withdraw_rejects_an_unsigned_owner_even_with_the_right_vault() {
    let program = [7u8; 32];
    let mut accounts = valid_accounts([11u8; 32], &program, 12345);
    accounts[0].is_signer = false;
    let r = Withdraw::try_from(&accounts, &program);
    assert_eq!(r.unwrap_err(), VaultError::InvalidAccountOwner);
}

#[test]
fn withdraw_rejects_a_short_list() {
    let program = [7u8; 32];
    let accounts = valid_accounts([11u8; 32], &program, 12345);
    let r = Withdraw::try_from(&accounts[..1], &program);
    assert_eq!(r.unwrap_err(), VaultError::NotEnoughAccountKeys);
}

#[test]
fn withdraw_rejects_a_wrong_vault_address() {
    let program = [7u8; 32];
    let mut accounts = valid_accounts([11u8; 32], &program, 12345);
    accounts[1].key[31] ^= 1;
    let r = Withdraw::try_from(&accounts, &program);
    assert_eq!(r.unwrap_err(), VaultError::InvalidAccountOwner);
}

#[test]
fn withdraw_empties_the_vault_into_the_owner() {
    let program = [7u8; 32];
    let mut accounts = valid_accounts([11u8; 32], &program, 12345);
    accounts[0].lamports = 10;
    let mut withdraw = Withdraw::try_from(&accounts, &program).unwrap();
    withdraw.process().unwrap();
    assert_eq!(withdraw.accounts.owner.lamports, 12355);
    assert_eq!(withdraw.accounts.vault.lamports, 0);
}

#[test]
fn deposit_then_withdraw_conserves_the_owner_balance() {
    let program = [7u8; 32];
    let accounts = valid_accounts([11u8; 32], &program, 0);
    let data = [0x39u8, 0x30, 0, 0, 0, 0, 0, 0];

    let mut deposit = Deposit::try_from(&data, &accounts, &program).unwrap();
    deposit.process().unwrap();

    let after_deposit = [deposit.accounts.owner, deposit.accounts.vault, accounts[2]];
    let mut withdraw = Withdraw::try_from(&after_deposit, &program).unwrap();
    withdraw.process().unwrap();

    assert_eq!(withdraw.accounts.owner.lamports, accounts[0].lamports);
    assert_eq!(withdraw.accounts.vault.lamports, 0);

    let restored = [withdraw.accounts.owner, withdraw.accounts.vault, accounts[2]];
    assert!(DepositAccounts::try_from(&restored, &program).is_ok());
}

#[test]
fn discriminators_route_the_two_instructions() {
    assert_eq!(Deposit::DISCRIMINATOR, 0);
    assert_eq!(Withdraw::DISCRIMINATOR, 1);
    assert_ne!(Deposit::DISCRIMINATOR, Withdraw::DISCRIMINATOR);
}
