//! Accounts to be included in the genesis configuration of a test ledger.

use crate::account::{Account, AccountView};
use crate::account_map::{entry_views, keys_distinct, map_of_pairs, AccountMap};
use crate::pubkey::Pubkey;
use vstd::prelude::*;

verus! {

/// A collection of accounts to be included in genesis.
///
/// Its view is the map from each identifier, as bytes, to its account.
#[derive(Debug)]
pub struct GenesisAccounts {
    accounts: AccountMap,
}

impl View for GenesisAccounts {
    type V = Map<Seq<u8>, AccountView>;

    closed spec fn view(&self) -> Map<Seq<u8>, AccountView> {
        self.accounts@
    }
}

impl Default for GenesisAccounts {
    /// An empty collection.
    fn default() -> (genesis: GenesisAccounts)
        ensures
            genesis@ == Map::<Seq<u8>, AccountView>::empty(),
    {
        GenesisAccounts::new()
    }
}

impl GenesisAccounts {
    /// The identifiers with their accounts, in the order in which the
    /// collection hands them out.
    pub closed spec fn entries(&self) -> Seq<(Pubkey, Account)> {
        self.accounts.entries()
    }

    /// Creates an empty collection.
    pub fn new() -> (genesis: GenesisAccounts)
        ensures
            genesis@ == Map::<Seq<u8>, AccountView>::empty(),
    {
        GenesisAccounts { accounts: AccountMap::new() }
    }

    /// Adds an account; one already kept under the identifier is replaced.
    pub fn add_account(&mut self, pubkey: Pubkey, account: Account) -> (genesis: &mut GenesisAccounts)
        ensures
            genesis@ == old(self)@.insert(pubkey@, account@),
            *final(self) == *final(genesis),
    {
        self.accounts.set_account(pubkey, account);
        self
    }

    /// Adds all accounts of a collection; each replaces the one already kept
    /// under its identifier.
    pub fn add_account_map(&mut self, account_map: AccountMap) -> (genesis: &mut GenesisAccounts)
        ensures
            genesis@ == old(self)@.union_prefer_right(account_map@),
            *final(self) == *final(genesis),
    {
        self.accounts.merge(account_map);
        self
    }

    /// Lists the identifiers with their accounts, in the collection's order.
    pub fn iter(&self) -> (listed: Vec<(&Pubkey, &Account)>)
        ensures
            listed@.len() == self.entries().len(),
            forall|i: int|
                0 <= i < listed@.len() ==> *(#[trigger] listed@[i]).0 == self.entries()[i].0
                    && *listed@[i].1 == self.entries()[i].1,
            keys_distinct(entry_views(self.entries())),
            map_of_pairs(entry_views(self.entries())) == self@,
    {
        self.accounts.iter()
    }

    /// Hands out the identifiers with their accounts, in the collection's order.
    pub fn into_entries(self) -> (listed: Vec<(Pubkey, Account)>)
        ensures
            listed@ == self.entries(),
            keys_distinct(entry_views(listed@)),
            map_of_pairs(entry_views(listed@)) == self@,
    {
        self.accounts.into_entries()
    }

    /// Returns the number of accounts.
    pub fn len(&self) -> (count: usize)
        ensures
            count == self@.len(),
    {
        self.accounts.len()
    }

    /// Returns true if there are no accounts.
    pub fn is_empty(&self) -> (empty: bool)
        ensures
            empty <==> self@.len() == 0,
    {
        self.accounts.is_empty()
    }
}

} // verus!
