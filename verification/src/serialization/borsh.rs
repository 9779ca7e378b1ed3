//! The adapter for Borsh, the ledger's own compact binary format.

use crate::account::Account;
use crate::error::{AccountGenError, ErrorView};
use vstd::prelude::*;

verus! {

/// Hands on what a Borsh encoder returned: its bytes, or its failure as a
/// `SerializationError` with the encoder's message.
pub fn serialize_data(encoded: Result<Vec<u8>, String>) -> (bytes: Result<Vec<u8>, AccountGenError>)
    ensures
        match encoded {
            Ok(payload) => bytes == Ok::<Vec<u8>, AccountGenError>(payload),
            Err(message) => bytes matches Err(error) && error@ == ErrorView::SerializationError(
                message@,
            ),
        },
{
    match encoded {
        Ok(payload) => Ok(payload),
        Err(message) => Err(AccountGenError::SerializationError(message)),
    }
}

/// What reading a payload returns for each outcome of a Borsh decoder: its
/// value, or its failure as a `DeserializationError` with the decoder's message.
pub fn deserialized<T>(outcome: Result<T, String>) -> (value: Result<T, AccountGenError>)
    ensures
        match outcome {
            Ok(decoded) => value == Ok::<T, AccountGenError>(decoded),
            Err(message) => value matches Err(error) && error@ == ErrorView::DeserializationError(
                message@,
            ),
        },
{
    match outcome {
        Ok(decoded) => Ok(decoded),
        Err(message) => Err(AccountGenError::DeserializationError(message)),
    }
}

/// Whether `value` is what reading the payload of `account` with `decode`
/// may return: the decoder was handed the whole payload, and `value` is its
/// value, or its failure as a `DeserializationError` with its message.
pub open spec fn reads<T, F: FnOnce(&[u8]) -> Result<T, String>>(
    account: &Account,
    decode: F,
    value: Result<T, AccountGenError>,
) -> bool {
    exists|payload: &[u8], outcome: Result<T, String>|
        payload@ == account.data@ && decode.ensures((payload,), outcome) && match outcome {
            Ok(decoded) => value == Ok::<T, AccountGenError>(decoded),
            Err(message) => value matches Err(error) && error@ == ErrorView::DeserializationError(
                message@,
            ),
        }
}

/// Reads an account's payload with a Borsh decoder.
///
/// The decoder is handed the whole payload. A Borsh decoder fails where bytes
/// are left over, so nothing is cut off here.
pub fn deserialize_account_data<T, F>(account: &Account, decode: F) -> (value: Result<
    T,
    AccountGenError,
>) where F: FnOnce(&[u8]) -> Result<T, String>
    requires
        forall|payload: &[u8]| payload@ == account.data@ ==> decode.requires((payload,)),
    ensures
        reads(account, decode, value),
{
    let outcome = decode(account.data.as_slice());
    deserialized(outcome)
}

/// The adapter keeps what the codec promises: where the decoder, handed the
/// bytes that the encoder made of a value, can only return that value,
/// reading an account that holds those bytes returns the value.
pub proof fn lemma_round_trip<T, F: FnOnce(&[u8]) -> Result<T, String>>(
    value: T,
    account: &Account,
    decode: F,
    read: Result<T, AccountGenError>,
)
    requires
        forall|payload: &[u8], outcome: Result<T, String>|
            payload@ == account.data@ && decode.ensures((payload,), outcome)
                ==> outcome == Ok::<T, String>(value),
        reads(account, decode, read),
    ensures
        read == Ok::<T, AccountGenError>(value),
{
}

} // verus!
