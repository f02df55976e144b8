use vstd::prelude::*;
use crate::error::VaultError;

verus! {

/// What the bump search returns for the seed list `["vault", owner]` under a
/// given program identity: the derived vault address together with its bump
/// when some bump yields a program-controlled (off-curve) address, and
/// `None` when the search is exhausted. The search is a pure function of the
/// owner and program identities, so its outcome carries this name.
pub uninterp spec fn vault_derivation(owner: Seq<u8>, program_id: Seq<u8>) -> Option<
    (Seq<u8>, u8),
>;

/// Relies on `Address::try_find_program_address` (solana-address, re-exported
/// by pinocchio): a deterministic search over bump bytes, descending from the
/// maximum, that hashes `["vault", owner, bump]` with the program identity and
/// returns the first resulting address that lies off the signing curve.
#[verifier::external_body]
fn find_vault_address(owner: &[u8; 32], program_id: &[u8; 32]) -> (r: Option<([u8; 32], u8)>)
    ensures
        vault_derivation(owner@, program_id@) == (match r {
            Some(p) => Some((p.0@, p.1)),
            None => None::<(Seq<u8>, u8)>,
        }),
{
    let program = pinocchio::Address::new_from_array(*program_id);
    pinocchio::Address::try_find_program_address(&[b"vault", owner], &program)
        .map(|(address, bump)| (address.to_bytes(), bump))
}

/// Compute the unique vault address this program associates with an owner,
/// together with the bump byte that completes its authority proof.
pub fn derive_vault_address(owner: &[u8; 32], program_id: &[u8; 32]) -> (r: Result<
    ([u8; 32], u8),
    VaultError,
>)
    ensures
        match r {
            Ok(p) => vault_derivation(owner@, program_id@) == Some((p.0@, p.1)),
            Err(e) => e == VaultError::DerivationExhausted && vault_derivation(
                owner@,
                program_id@,
            ) is None,
        },
{
    match find_vault_address(owner, program_id) {
        Some(p) => Ok(p),
        None => Err(VaultError::DerivationExhausted),
    }
}

/// Law: address derivation is deterministic — two derivations from the same
/// owner and program identities agree, address and bump alike.
pub proof fn lemma_derivation_deterministic(
    owner: Seq<u8>,
    program_id: Seq<u8>,
    r1: Option<(Seq<u8>, u8)>,
    r2: Option<(Seq<u8>, u8)>,
)
    requires
        r1 == vault_derivation(owner, program_id),
        r2 == vault_derivation(owner, program_id),
    ensures
        r1 == r2,
{
}

} // verus!
