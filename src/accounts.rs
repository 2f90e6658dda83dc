//! Account identities and the host-side facts the account checks rely on.
use vstd::prelude::*;
use vstd::string::StringSliceAdditionalSpecFns;
use solana_program::pubkey::Pubkey;

verus! {

/// A 32-byte account or program identity.
#[derive(Clone, Copy, Debug)]
pub struct Address {
    pub bytes: [u8; 32],
}

impl Address {
    pub fn new(bytes: [u8; 32]) -> (r: Address)
        ensures
            r.bytes@ == bytes@,
    {
        Address { bytes }
    }

    /// Byte-wise equality of two identities.
    pub fn same_as(&self, other: &Address) -> (r: bool)
        ensures
            r == (self.bytes@ == other.bytes@),
    {
        let mut i: usize = 0;
        while i < 32
            invariant
                0 <= i <= 32,
                self.bytes@.len() == 32,
                other.bytes@.len() == 32,
                forall|j: int| 0 <= j < i ==> self.bytes@[j] == other.bytes@[j],
            decreases 32 - i,
        {
            if self.bytes[i] != other.bytes[i] {
                return false;
            }
            i = i + 1;
        }
        assert(self.bytes@ =~= other.bytes@);
        true
    }
}

/// What the engine reads of one account handed to it by the host.
#[derive(Clone, Debug)]
pub struct AccountRecord {
    pub key: Address,
    pub owner: Address,
    pub is_signer: bool,
    pub lamports: u64,
    pub data: Vec<u8>,
}

/// The identity of the host's rent parameters account.
pub open spec fn rent_sysvar_id() -> Seq<u8> {
    seq![
        6u8, 167, 213, 23, 25, 44, 92, 81, 33, 140, 201, 76, 61, 74, 241, 127,
        88, 218, 238, 8, 155, 161, 253, 68, 227, 219, 217, 138, 0, 0, 0, 0,
    ]
}

/// The tail that marks program-derived owners, which seeded derivation refuses.
pub open spec fn pda_marker() -> Seq<u8> {
    seq![
        80u8, 114, 111, 103, 114, 97, 109, 68, 101, 114, 105, 118, 101, 100, 65, 100,
        100, 114, 101, 115, 115,
    ]
}

/// Whether `owner` ends in the program-derived marker.
pub open spec fn has_pda_marker(owner: Seq<u8>) -> bool {
    owner.len() >= 21 && owner.subrange(owner.len() - 21, owner.len() as int) == pda_marker()
}

/// The address derived from a base identity, a seed and an owning program.
pub uninterp spec fn seeded_address(base: Seq<u8>, seed: Seq<u8>, owner: Seq<u8>) -> Seq<u8>;

/// Relies on `solana_program::sysvar::rent::check_id`: equality with the rent account's identity.
#[verifier::external_body]
pub(crate) fn is_rent_sysvar(key: &Address) -> (r: bool)
    ensures
        r == (key.bytes@ == rent_sysvar_id()),
{
    solana_program::sysvar::rent::check_id(&Pubkey::new_from_array(key.bytes))
}

/// Relies on `Pubkey::create_with_seed`: refuses seeds over 32 bytes and owners
/// ending in the program-derived marker; otherwise yields a 32-byte address that
/// depends on the three inputs alone.
#[verifier::external_body]
pub(crate) fn create_with_seed(base: &Address, seed: &str, owner: &Address) -> (r: Option<Address>)
    ensures
        r is Some <==> (seed.spec_bytes().len() <= 32 && !has_pda_marker(owner.bytes@)),
        r is Some ==> r->0.bytes@ == seeded_address(base.bytes@, seed.spec_bytes(), owner.bytes@),
{
    match Pubkey::create_with_seed(&Pubkey::new_from_array(base.bytes), seed, &Pubkey::new_from_array(owner.bytes)) {
        Ok(k) => Some(Address { bytes: k.to_bytes() }),
        Err(_) => None,
    }
}

} // verus!
