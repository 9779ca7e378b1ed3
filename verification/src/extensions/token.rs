//! Mock accounts of the SPL Token program.

use crate::account::{Account, AccountView};
use crate::account_builder::AccountBuilder;
use crate::error::AccountGenError;
use crate::pubkey::Pubkey;
use vstd::bytes::{spec_u64_to_le_bytes, u64_to_le_bytes};
use vstd::prelude::*;

verus! {

/// State byte of a token account that has been initialized.
pub const STATE_INITIALIZED: u8 = 1;

/// Balance that a mock token account is given, in lamports.
pub const TOKEN_ACCOUNT_LAMPORTS: u64 = 1_000_000;

/// What a token account records.
#[derive(Debug, Clone)]
pub struct TokenAccount {
    /// The mint of the tokens.
    pub mint: Pubkey,
    /// Who owns the tokens.
    pub owner: Pubkey,
    /// How many tokens the account holds.
    pub amount: u64,
    /// Who may spend on the owner's behalf, if anyone.
    pub delegate: Option<Pubkey>,
    /// The account's state.
    pub state: u8,
    /// For an account of native tokens, its rent-exempt reserve.
    pub is_native: Option<u64>,
    /// How many tokens the delegate may spend.
    pub delegated_amount: u64,
    /// Who may close the account, if not its owner.
    pub close_authority: Option<Pubkey>,
}

/// An optional identifier in the compact binary format: a zero byte for
/// none, else a one and the identifier's bytes.
pub open spec fn optional_key_bytes(key: Option<Pubkey>) -> Seq<u8> {
    match key {
        Some(key) => seq![1u8] + key@,
        None => seq![0u8],
    }
}

/// An optional number in the compact binary format: a zero byte for none,
/// else a one and the number's eight bytes, lowest first.
pub open spec fn optional_u64_bytes(number: Option<u64>) -> Seq<u8> {
    match number {
        Some(number) => seq![1u8] + spec_u64_to_le_bytes(number),
        None => seq![0u8],
    }
}

impl TokenAccount {
    /// The record in the compact binary format: its fields in their order,
    /// identifiers as their 32 bytes, numbers as eight bytes, lowest first.
    pub open spec fn bytes(self) -> Seq<u8> {
        self.mint@ + self.owner@ + spec_u64_to_le_bytes(self.amount) + optional_key_bytes(
            self.delegate,
        ) + seq![self.state] + optional_u64_bytes(self.is_native) + spec_u64_to_le_bytes(
            self.delegated_amount,
        ) + optional_key_bytes(self.close_authority)
    }

    /// Encodes the record in the compact binary format.
    pub fn encode(&self) -> (encoded: Vec<u8>)
        ensures
            encoded@ == self.bytes(),
    {
        let mut encoded: Vec<u8> = Vec::new();
        push_key(&mut encoded, &self.mint);
        push_key(&mut encoded, &self.owner);
        push_u64(&mut encoded, self.amount);
        push_optional_key(&mut encoded, &self.delegate);
        encoded.push(self.state);
        push_optional_u64(&mut encoded, self.is_native);
        push_u64(&mut encoded, self.delegated_amount);
        push_optional_key(&mut encoded, &self.close_authority);
        assert(encoded@ =~= self.bytes());
        encoded
    }
}

/// Appends the 32 bytes of an identifier.
fn push_key(buffer: &mut Vec<u8>, key: &Pubkey)
    ensures
        final(buffer)@ == old(buffer)@ + key@,
{
    let bytes = key.to_bytes();
    buffer.extend_from_slice(bytes.as_slice());
}

/// Appends a number as eight bytes, lowest first.
fn push_u64(buffer: &mut Vec<u8>, number: u64)
    ensures
        final(buffer)@ == old(buffer)@ + spec_u64_to_le_bytes(number),
{
    let bytes = u64_to_le_bytes(number);
    buffer.extend_from_slice(bytes.as_slice());
}

/// Appends an optional identifier.
fn push_optional_key(buffer: &mut Vec<u8>, key: &Option<Pubkey>)
    ensures
        final(buffer)@ == old(buffer)@ + optional_key_bytes(*key),
{
    match key {
        Some(key) => {
            buffer.push(1);
            push_key(buffer, key);
            assert(buffer@ =~= old(buffer)@ + (seq![1u8] + key@));
        },
        None => {
            buffer.push(0);
            assert(buffer@ =~= old(buffer)@ + seq![0u8]);
        },
    }
}

/// Appends an optional number.
fn push_optional_u64(buffer: &mut Vec<u8>, number: Option<u64>)
    ensures
        final(buffer)@ == old(buffer)@ + optional_u64_bytes(number),
{
    match number {
        Some(number) => {
            buffer.push(1);
            push_u64(buffer, number);
            assert(buffer@ =~= old(buffer)@ + (seq![1u8] + spec_u64_to_le_bytes(number)));
        },
        None => {
            buffer.push(0);
            assert(buffer@ =~= old(buffer)@ + seq![0u8]);
        },
    }
}

/// The record of a fresh token account: initialized, holding `amount` tokens
/// of `mint` for `owner`, with no delegate and no close authority.
pub open spec fn fresh_token_account(mint: Pubkey, owner: Pubkey, amount: u64) -> TokenAccount {
    TokenAccount {
        mint,
        owner,
        amount,
        delegate: None,
        state: STATE_INITIALIZED,
        is_native: None,
        delegated_amount: 0,
        close_authority: None,
    }
}

/// Creates a mock token account.
///
/// The account is owned by the token program `token_program_id`, holds one
/// million lamports and has the record of a fresh token account as its payload.
pub fn create_token_account(
    mint: &Pubkey,
    owner: &Pubkey,
    amount: u64,
    token_program_id: &Pubkey,
) -> (created: Result<Account, AccountGenError>)
    ensures
        created matches Ok(account) && account@ == (AccountView {
            lamports: TOKEN_ACCOUNT_LAMPORTS,
            data: fresh_token_account(*mint, *owner, amount).bytes(),
            owner: token_program_id@,
            executable: false,
            rent_epoch: 0,
        }),
{
    let token_account = TokenAccount {
        mint: *mint,
        owner: *owner,
        amount,
        delegate: None,
        state: STATE_INITIALIZED,
        is_native: None,
        delegated_amount: 0,
        close_authority: None,
    };
    let builder = AccountBuilder::new().balance(TOKEN_ACCOUNT_LAMPORTS).owner(*token_program_id);
    match builder.data(Ok(token_account.encode())) {
        Ok(builder) => builder.try_build(),
        Err(error) => Err(error),
    }
}

} // verus!
