//! Accounts and instructions in the layout of the Anchor framework.
//!
//! Anchor starts the payload of an account, and the input of an instruction,
//! with an 8-byte discriminator: the first 8 bytes of the SHA-256 digest of
//! `account:` and the account type's name, or of `global:` and the method's
//! name, as UTF-8.

use crate::account::{Account, AccountView};
use crate::account_builder::AccountBuilder;
use crate::error::{AccountGenError, ErrorView, PAYLOAD_TOO_SHORT};
use crate::instruction::{AccountMeta, Instruction};
use crate::pubkey::{
    program_address, seed_bytes, seeds_within_limits, try_find_program_address, Pubkey,
};
use crate::serialization::borsh::deserialized;
use sha2::{Digest, Sha256};
use vstd::prelude::*;
use vstd::slice::slice_subrange;
use vstd::string::StringExecFns;
use vstd::utf8::encode_utf8;

verus! {

/// Number of bytes in a discriminator.
pub const DISCRIMINATOR_LEN: usize = 8;

/// The SHA-256 digest of a sequence of bytes.
pub uninterp spec fn sha256(bytes: Seq<u8>) -> Seq<u8>;

/// `sha2::Sha256::digest`: the SHA-256 digest of `bytes`, which is 32 bytes
/// long and depends on `bytes` alone.
#[verifier::external_body]
fn sha256_digest(bytes: &[u8]) -> (digest: [u8; 32])
    ensures
        digest@ == sha256(bytes@),
{
    Sha256::digest(bytes).into()
}

/// The discriminator of the name `name` in the namespace `namespace`: the
/// first 8 bytes of the digest of the two, joined and encoded as UTF-8.
pub open spec fn discriminator(namespace: Seq<char>, name: Seq<char>) -> Seq<u8> {
    sha256(encode_utf8(namespace + name)).take(DISCRIMINATOR_LEN as int)
}

/// The discriminator of the account type `account_type`.
pub open spec fn account_discriminator(account_type: Seq<char>) -> Seq<u8> {
    discriminator("account:"@, account_type)
}

/// The discriminator of the method `method_name`.
pub open spec fn method_discriminator(method_name: Seq<char>) -> Seq<u8> {
    discriminator("global:"@, method_name)
}

/// Computes the discriminator of a name in a namespace.
fn namespaced_discriminator(namespace: &str, name: &str) -> (tag: [u8; 8])
    ensures
        tag@ == discriminator(namespace@, name@),
{
    let preimage = String::from_str(namespace).concat(name);
    let digest = sha256_digest(preimage.as_str().as_bytes());
    let tag = [
        digest[0],
        digest[1],
        digest[2],
        digest[3],
        digest[4],
        digest[5],
        digest[6],
        digest[7],
    ];
    assert(tag@ =~= digest@.take(8));
    tag
}

/// Calculates the discriminator of an account type.
pub fn get_account_discriminator(account_type: &str) -> (tag: [u8; 8])
    ensures
        tag@ == account_discriminator(account_type@),
{
    namespaced_discriminator("account:", account_type)
}

/// Calculates the discriminator of a method.
pub fn get_method_discriminator(method_name: &str) -> (tag: [u8; 8])
    ensures
        tag@ == method_discriminator(method_name@),
{
    namespaced_discriminator("global:", method_name)
}

/// Joins a discriminator and an encoded value into one payload.
fn tagged(tag: &[u8; 8], bytes: &Vec<u8>) -> (payload: Vec<u8>)
    ensures
        payload@ == tag@ + bytes@,
{
    let mut payload: Vec<u8> = Vec::new();
    payload.extend_from_slice(tag.as_slice());
    payload.extend_from_slice(bytes.as_slice());
    payload
}

/// The account that holds a tagged payload: the discriminator of its type,
/// then the encoded value.
pub open spec fn anchor_account(
    account_type: Seq<char>,
    program_id: Seq<u8>,
    bytes: Seq<u8>,
    lamports: u64,
) -> AccountView {
    AccountView {
        lamports,
        data: account_discriminator(account_type) + bytes,
        owner: program_id,
        executable: false,
        rent_epoch: 0,
    }
}

/// Creates an account whose payload is the discriminator of `account_type`
/// followed by an encoded value.
///
/// `encoded` is what the serialization adapter made of the value. The account
/// is owned by `program_id` and holds `lamports`. Fails with
/// `SerializationError` where encoding failed.
pub fn create_anchor_account(
    account_type: &str,
    program_id: Pubkey,
    encoded: Result<Vec<u8>, String>,
    lamports: u64,
) -> (created: Result<Account, AccountGenError>)
    ensures
        match encoded {
            Ok(bytes) => created matches Ok(account) && account@ == anchor_account(
                account_type@,
                program_id@,
                bytes@,
                lamports,
            ),
            Err(message) => created matches Err(error) && error@ == ErrorView::SerializationError(
                message@,
            ),
        },
{
    match encoded {
        Ok(bytes) => {
            let tag = get_account_discriminator(account_type);
            let payload = tagged(&tag, &bytes);
            AccountBuilder::new().balance(lamports).owner(program_id).data_raw(payload).try_build()
        },
        Err(message) => Err(AccountGenError::SerializationError(message)),
    }
}

/// Creates an instruction whose input is the discriminator of `method_name`
/// followed by an encoded value.
///
/// The instruction names `program_id` and hands over `accounts` as they are.
/// Fails with `SerializationError` where encoding failed.
pub fn create_anchor_instruction(
    program_id: Pubkey,
    method_name: &str,
    accounts: Vec<AccountMeta>,
    encoded: Result<Vec<u8>, String>,
) -> (created: Result<Instruction, AccountGenError>)
    ensures
        match encoded {
            Ok(bytes) => created matches Ok(instruction) && instruction.program_id == program_id
                && instruction.accounts == accounts && instruction.data@ == method_discriminator(
                method_name@,
            ) + bytes@,
            Err(message) => created matches Err(error) && error@ == ErrorView::SerializationError(
                message@,
            ),
        },
{
    match encoded {
        Ok(bytes) => {
            let tag = get_method_discriminator(method_name);
            Ok(Instruction { program_id, accounts, data: tagged(&tag, &bytes) })
        },
        Err(message) => Err(AccountGenError::SerializationError(message)),
    }
}

/// Reads the value behind the discriminator of an account's payload.
///
/// A payload of 8 bytes or fewer holds no value: the function fails with
/// `DeserializationError` and the message `PAYLOAD_TOO_SHORT`, and does not
/// call the decoder. Otherwise it hands the decoder the bytes after the first
/// 8 and returns its value, or its failure as a `DeserializationError`.
pub fn deserialize_anchor_account<T, F>(account: &Account, decode: F) -> (read: Result<
    T,
    AccountGenError,
>) where F: FnOnce(&[u8]) -> Result<T, String>
    requires
        account.data@.len() > DISCRIMINATOR_LEN ==> forall|payload: &[u8]|
            payload@ == account.data@.skip(DISCRIMINATOR_LEN as int) ==> decode.requires(
                (payload,),
            ),
    ensures
        account.data@.len() <= DISCRIMINATOR_LEN ==> (read matches Err(error) && error@
            == ErrorView::DeserializationError(PAYLOAD_TOO_SHORT@)),
        account.data@.len() > DISCRIMINATOR_LEN ==> exists|
            payload: &[u8],
            outcome: Result<T, String>,
        |
            payload@ == account.data@.skip(DISCRIMINATOR_LEN as int) && decode.ensures(
                (payload,),
                outcome,
            ) && match outcome {
                Ok(value) => read == Ok::<T, AccountGenError>(value),
                Err(message) => read matches Err(error) && error@
                    == ErrorView::DeserializationError(message@),
            },
{
    if account.data.len() <= DISCRIMINATOR_LEN {
        return Err(AccountGenError::DeserializationError(String::from_str(PAYLOAD_TOO_SHORT)));
    }
    let payload = slice_subrange(account.data.as_slice(), DISCRIMINATOR_LEN, account.data.len());
    assert(payload@ =~= account.data@.skip(DISCRIMINATOR_LEN as int));
    let outcome = decode(payload);
    deserialized(outcome)
}

/// Creates a tagged account at the address derived from `seeds` under
/// `program_id`.
///
/// Returns the account of `create_anchor_account` with the address and the
/// bump seed of the derivation.
pub fn create_anchor_pda(
    account_type: &str,
    program_id: Pubkey,
    seeds: &[&[u8]],
    encoded: Result<Vec<u8>, String>,
    lamports: u64,
) -> (created: Result<(Pubkey, u8, Account), AccountGenError>)
    requires
        program_address(seed_bytes(seeds@), program_id@) is Some,
    ensures
        match encoded {
            Ok(bytes) => created matches Ok((address, bump, account)) && Some((address@, bump))
                == program_address(seed_bytes(seeds@), program_id@) && account@ == anchor_account(
                account_type@,
                program_id@,
                bytes@,
                lamports,
            ),
            Err(message) => created matches Err(error) && error@ == ErrorView::SerializationError(
                message@,
            ),
        },
{
    let (address, bump) = match try_find_program_address(seeds, &program_id) {
        Some(found) => found,
        None => unreached(),
    };
    match create_anchor_account(account_type, program_id, encoded, lamports) {
        Ok(account) => Ok((address, bump, account)),
        Err(error) => Err(error),
    }
}

/// Creates a tagged account at the address derived from `seeds` under
/// `program_id`, where there is one.
///
/// Returns `None` exactly where no address can be derived from the seeds,
/// and what `create_anchor_pda` returns otherwise.
pub fn try_create_anchor_pda(
    account_type: &str,
    program_id: Pubkey,
    seeds: &[&[u8]],
    encoded: Result<Vec<u8>, String>,
    lamports: u64,
) -> (created: Option<Result<(Pubkey, u8, Account), AccountGenError>>)
    ensures
        created is None <==> program_address(seed_bytes(seeds@), program_id@) is None,
        !seeds_within_limits(seed_bytes(seeds@)) ==> created is None,
        created matches Some(outcome) ==> match encoded {
            Ok(bytes) => outcome matches Ok((address, bump, account)) && Some((address@, bump))
                == program_address(seed_bytes(seeds@), program_id@) && account@ == anchor_account(
                account_type@,
                program_id@,
                bytes@,
                lamports,
            ),
            Err(message) => outcome matches Err(error) && error@ == ErrorView::SerializationError(
                message@,
            ),
        },
{
    match try_find_program_address(seeds, &program_id) {
        Some(_) => Some(create_anchor_pda(account_type, program_id, seeds, encoded, lamports)),
        None => None,
    }
}

} // verus!
