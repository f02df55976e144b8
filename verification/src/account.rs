use vstd::prelude::*;

verus! {

/// What one entry of a transaction's account list looks like to this program:
/// its address, its native balance, whether it signed the enclosing
/// transaction, and which program owns it.
#[derive(Clone, Copy, Debug)]
pub struct Account {
    /// The account's public identity key.
    pub key: [u8; 32],
    /// The account's native balance.
    pub lamports: u64,
    /// Whether this account signed the enclosing transaction.
    pub is_signer: bool,
    /// The identity of the program that owns this account.
    pub owner_program: [u8; 32],
}

/// The identity of the system transfer authority: an address of 32 zero bytes.
pub open spec fn system_program_id_spec() -> Seq<u8> {
    Seq::new(32, |i: int| 0u8)
}

/// The same account with its balance replaced.
pub open spec fn with_lamports(a: Account, lamports: u64) -> Account {
    Account { key: a.key, lamports, is_signer: a.is_signer, owner_program: a.owner_program }
}

/// Relies on `pinocchio_system::ID`, the system program's declared identity
/// `11111111111111111111111111111111`, which decodes to 32 zero bytes.
#[verifier::external_body]
pub(crate) fn system_program_id() -> (r: [u8; 32])
    ensures
        r@ == system_program_id_spec(),
{
    pinocchio_system::ID.to_bytes()
}

/// Byte-for-byte comparison of two account addresses.
pub fn address_eq(a: &[u8; 32], b: &[u8; 32]) -> (r: bool)
    ensures
        r == (a@ == b@),
{
    let mut i: usize = 0;
    while i < 32
        invariant
            0 <= i <= 32,
            forall|j: int| 0 <= j < i ==> a@[j] == b@[j],
        decreases 32 - i,
    {
        if a[i] != b[i] {
            return false;
        }
        i += 1;
    }
    assert(a@ =~= b@);
    true
}

} // verus!
