//! The rent-exempt minimum balance of an account, by the ledger's default rent.

use vstd::prelude::*;

verus! {

/// Bytes that the ledger charges for an account that holds no data.
pub const ACCOUNT_STORAGE_OVERHEAD: u64 = 128;

/// Default rental rate, in lamports per byte and year.
pub const LAMPORTS_PER_BYTE_YEAR: u64 = 3480;

/// Years of rent that a balance must cover for the account to be exempt.
pub const EXEMPTION_YEARS: u64 = 2;

/// The longest payload for which the minimum balance is computed exactly.
///
/// The ledger's formula multiplies through a 64-bit float, which holds every
/// integer up to 2^53 and rounds beyond it. This is the largest length whose
/// yearly rent, `(128 + len) * 3480`, still is at most 2^53.
pub const MAX_DATA_LEN: u64 = 2_588_275_647_786;

/// The least balance that exempts an account with `data_len` bytes of payload
/// from rent: two years of rent on the payload and the storage overhead.
pub open spec fn minimum_balance(data_len: nat) -> nat {
    (ACCOUNT_STORAGE_OVERHEAD as nat + data_len) * LAMPORTS_PER_BYTE_YEAR as nat
        * EXEMPTION_YEARS as nat
}

/// A longer payload never needs a smaller balance.
pub proof fn lemma_minimum_balance_monotonic(shorter: nat, longer: nat)
    requires
        shorter <= longer,
    ensures
        minimum_balance(shorter) <= minimum_balance(longer),
{
    assert((128 + shorter) * 3480 * 2 <= (128 + longer) * 3480 * 2) by (nonlinear_arith)
        requires
            shorter <= longer,
    ;
}

/// `solana_rent::Rent::minimum_balance` on `Rent::default()`.
///
/// The outside function computes `((128 + data_len) * 3480) as f64 * 2.0` and
/// casts back to `u64`. Up to `MAX_DATA_LEN` the product is at most 2^53, so
/// neither cast rounds and doubling is exact: the result is the integer
/// `minimum_balance(data_len)`. Longer payloads are left out.
#[verifier::external_body]
pub(crate) fn rent_exempt_minimum(data_len: usize) -> (lamports: u64)
    requires
        data_len <= MAX_DATA_LEN,
    ensures
        lamports == minimum_balance(data_len as nat),
{
    solana_rent::Rent::default().minimum_balance(data_len)
}

} // verus!
