//! Builders for mock ledger accounts and instruction payloads.
//!
//! An `AccountBuilder` stages one account and resolves what was left unset
//! when the account is built. An `AccountMap` keeps accounts under their
//! identifiers. The `extensions` build accounts and instructions of
//! particular kinds, the `serialization` adapters connect payloads with the
//! codecs of the caller.

use vstd::prelude::*;

pub mod account;
pub mod account_builder;
pub mod account_map;
pub mod cli;
pub mod error;
pub mod extensions;
pub mod instruction;
pub mod pubkey;
pub mod rent;
pub mod serialization;

pub use account::Account;
pub use account_builder::AccountBuilder;
pub use account_map::AccountMap;
pub use error::AccountGenError;
pub use instruction::{AccountMeta, Instruction};
pub use pubkey::Pubkey;

use account::AccountView;
use account_map::map_of_pairs;

verus! {

/// Builds an account and returns it with the given identifier.
pub fn create_account(pubkey: Pubkey, builder: AccountBuilder) -> (created: Result<
    (Pubkey, Account),
    AccountGenError,
>)
    requires
        builder@.buildable(),
    ensures
        created matches Ok((key, account)) && key@ == pubkey@ && account@ == builder@.account(),
{
    builder.pubkey(pubkey).try_build_with_pubkey()
}

/// The identifiers with the accounts that their builders stand for.
pub open spec fn built_pairs(accounts: Seq<(Pubkey, AccountBuilder)>) -> Seq<
    (Seq<u8>, AccountView),
> {
    Seq::new(accounts.len(), |i: int| (accounts[i].0@, accounts[i].1@.account()))
}

/// Whether each of the builders can resolve its balance.
pub open spec fn all_buildable(accounts: Seq<(Pubkey, AccountBuilder)>) -> bool {
    forall|i: int| 0 <= i < accounts.len() ==> (#[trigger] accounts[i]).1@.buildable()
}

/// Builds several accounts and collects them under their identifiers.
///
/// The accounts are built and inserted in their order: of two with one
/// identifier the later one stays.
pub fn create_accounts(accounts: Vec<(Pubkey, AccountBuilder)>) -> (created: Result<
    AccountMap,
    AccountGenError,
>)
    requires
        all_buildable(accounts@),
    ensures
        created matches Ok(map) && map@ == map_of_pairs(built_pairs(accounts@)),
{
    let ghost items = accounts@;
    let ghost all = built_pairs(accounts@);
    let mut account_map = AccountMap::new();
    for pair in iter: accounts
        invariant
            iter.seq() == items,
            all == built_pairs(items),
            all_buildable(items),
            account_map@ == map_of_pairs(all.take(iter.index() as int)),
    {
        proof {
            account_map::lemma_map_of_pairs_step(all, iter.index() as int);
        }
        let (pubkey, builder) = pair;
        match account_map.add_with_builder(pubkey, builder) {
            Ok(_) => {},
            Err(error) => {
                return Err(error);
            },
        }
    }
    proof {
        assert(all.take(all.len() as int) =~= all);
    }
    Ok(account_map)
}

} // verus!
