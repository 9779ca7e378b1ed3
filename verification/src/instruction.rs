//! An instruction for a program, and the accounts it refers to.

use crate::pubkey::Pubkey;
use vstd::prelude::*;

verus! {

/// How an instruction refers to one account.
#[derive(Debug, Clone, PartialEq, Eq)]
pub struct AccountMeta {
    /// The account's identifier.
    pub pubkey: Pubkey,
    /// Whether the transaction must be signed with the account's key.
    pub is_signer: bool,
    /// Whether the program may change the account.
    pub is_writable: bool,
}

impl AccountMeta {
    /// Refers to an account that the program may change.
    pub fn new(pubkey: Pubkey, is_signer: bool) -> (meta: AccountMeta)
        ensures
            meta == (AccountMeta { pubkey, is_signer, is_writable: true }),
    {
        AccountMeta { pubkey, is_signer, is_writable: true }
    }

    /// Refers to an account that the program may only read.
    pub fn new_readonly(pubkey: Pubkey, is_signer: bool) -> (meta: AccountMeta)
        ensures
            meta == (AccountMeta { pubkey, is_signer, is_writable: false }),
    {
        AccountMeta { pubkey, is_signer, is_writable: false }
    }
}

/// An instruction: the program to run, the accounts to hand it and its input.
#[derive(Debug, Clone, PartialEq, Eq)]
pub struct Instruction {
    /// The program that executes the instruction.
    pub program_id: Pubkey,
    /// The accounts that the program is handed.
    pub accounts: Vec<AccountMeta>,
    /// The input, which the program reads as it sees fit.
    pub data: Vec<u8>,
}

} // verus!
