//! The 32-byte identifier that names accounts and programs.

use vstd::prelude::*;
use vstd::std_specs::cmp::PartialEqSpecImpl;

verus! {

/// Number of bytes in an identifier.
pub const PUBKEY_BYTES: usize = 32;

/// A 32-byte account or program identifier.
///
/// Its view is the sequence of its 32 bytes; two identifiers are equal exactly
/// when their bytes are.
#[derive(Debug, Clone, Copy, Hash)]
pub struct Pubkey {
    bytes: [u8; 32],
}

impl View for Pubkey {
    type V = Seq<u8>;

    closed spec fn view(&self) -> Seq<u8> {
        self.bytes@
    }
}

impl Pubkey {
    /// Wraps 32 bytes as an identifier.
    pub fn new_from_array(bytes: [u8; 32]) -> (key: Pubkey)
        ensures
            key@ == bytes@,
    {
        Pubkey { bytes }
    }

    /// The 32 bytes of the identifier.
    pub fn to_bytes(&self) -> (bytes: [u8; 32])
        ensures
            bytes@ == self@,
    {
        self.bytes
    }

    /// Every identifier has exactly 32 bytes.
    pub proof fn lemma_len(self)
        ensures
            self@.len() == PUBKEY_BYTES,
    {
    }
}

/// The bytes of the well-known system program's identifier: 32 zeros.
pub open spec fn system_program() -> Seq<u8> {
    Seq::new(32, |i: int| 0u8)
}

/// `solana_sdk_ids::system_program::id`.
///
/// The outside crate declares the identifier as the base-58 text of 32 ones,
/// which stands for 32 zero bytes.
#[verifier::external_body]
fn system_program_id_bytes() -> (id: Pubkey)
    ensures
        id@ == system_program(),
{
    Pubkey { bytes: solana_sdk_ids::system_program::id().to_bytes() }
}

/// The identifier of the system program, the default owner of an account.
pub fn system_program_id() -> (id: Pubkey)
    ensures
        id@ == system_program(),
{
    system_program_id_bytes()
}

/// The most seeds that an address can be derived from, the bump seed not counted.
pub const MAX_SEEDS: usize = 15;

/// The most bytes that one seed can hold.
pub const MAX_SEED_LEN: usize = 32;

/// The seeds of a derivation, each as a sequence of bytes.
pub open spec fn seed_bytes(seeds: Seq<&[u8]>) -> Seq<Seq<u8>> {
    Seq::new(seeds.len(), |i: int| seeds[i]@)
}

/// Whether the seeds are few and short enough for an address to be derived.
pub open spec fn seeds_within_limits(seeds: Seq<Seq<u8>>) -> bool {
    &&& seeds.len() <= MAX_SEEDS
    &&& forall|i: int| 0 <= i < seeds.len() ==> (#[trigger] seeds[i]).len() <= MAX_SEED_LEN
}

/// The program-derived address for `seeds` under the program `program_id`,
/// with its bump seed, or `None` where the derivation finds none.
pub uninterp spec fn program_address(seeds: Seq<Seq<u8>>, program_id: Seq<u8>) -> Option<
    (Seq<u8>, u8),
>;

/// `solana_pubkey::Pubkey::try_find_program_address`.
///
/// The outside function searches the bump seeds from 255 down for the first
/// one that, hashed with the seeds and the program's identifier, gives a point
/// off the curve; its result depends on the seeds and the identifier alone.
/// It returns `None` without searching where there are more than 15 seeds or
/// one of them is longer than 32 bytes.
#[verifier::external_body]
pub(crate) fn try_find_program_address(seeds: &[&[u8]], program_id: &Pubkey) -> (found: Option<
    (Pubkey, u8),
>)
    ensures
        match found {
            Some((address, bump)) => program_address(seed_bytes(seeds@), program_id@) == Some(
                (address@, bump),
            ),
            None => program_address(seed_bytes(seeds@), program_id@) is None,
        },
        !seeds_within_limits(seed_bytes(seeds@)) ==> found is None,
{
    let program = solana_pubkey::Pubkey::new_from_array(program_id.bytes);
    match solana_pubkey::Pubkey::try_find_program_address(seeds, &program) {
        Some((address, bump)) => Some((Pubkey { bytes: address.to_bytes() }, bump)),
        None => None,
    }
}

impl Default for Pubkey {
    /// The identifier of 32 zero bytes.
    fn default() -> (key: Pubkey)
        ensures
            key@ == Seq::new(32, |i: int| 0u8),
    {
        let key = Pubkey { bytes: [0u8; 32] };
        assert(key.bytes@ =~= Seq::new(32, |i: int| 0u8));
        key
    }
}

impl PartialEq for Pubkey {
    fn eq(&self, other: &Pubkey) -> (same: bool) {
        let mut i: usize = 0;
        while i < 32
            invariant
                i <= 32,
                forall|j: int| 0 <= j < i ==> self.bytes@[j] == other.bytes@[j],
            decreases 32 - i,
        {
            if self.bytes[i] != other.bytes[i] {
                return false;
            }
            i += 1;
        }
        assert(self.bytes@ =~= other.bytes@);
        true
    }
}

impl Eq for Pubkey {

}

impl PartialEqSpecImpl for Pubkey {
    open spec fn obeys_eq_spec() -> bool {
        true
    }

    open spec fn eq_spec(&self, other: &Pubkey) -> bool {
        self@ == other@
    }
}

} // verus!
