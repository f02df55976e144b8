//! A minimal custodial vault for a deterministic ledger runtime: a deposit
//! moves native units from a signing owner into a program-derived vault
//! account, and a withdrawal empties that vault back to the owner.
//!
//! The verified core is the authorization logic: every instruction checks
//! that the owner signed the transaction, that the vault is owned by the
//! system transfer authority, and that the vault's address is exactly the
//! one this program derives from the fixed tag `"vault"` and the owner's
//! identity. The transfers themselves are the runtime's; the handlers here
//! validate the request, decide the transfer, and record its exact effect
//! on the balances.

pub mod account;
pub mod deposit;
pub mod derivation;
pub mod error;
pub mod withdraw;
