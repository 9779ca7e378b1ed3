//! A snapshot of one ledger account.

use crate::pubkey::Pubkey;
use vstd::prelude::*;

verus! {

/// A ledger account: its balance, its payload and who may change it.
#[derive(Debug, PartialEq, Eq)]
pub struct Account {
    /// Balance, in lamports.
    pub lamports: u64,
    /// Payload, in the format of the owning program.
    pub data: Vec<u8>,
    /// The program that owns the account.
    pub owner: Pubkey,
    /// Whether the payload is a loaded program.
    pub executable: bool,
    /// The epoch at which the account next owes rent.
    pub rent_epoch: u64,
}

/// An account with its payload and owner as sequences of bytes.
pub ghost struct AccountView {
    pub lamports: u64,
    pub data: Seq<u8>,
    pub owner: Seq<u8>,
    pub executable: bool,
    pub rent_epoch: u64,
}

impl View for Account {
    type V = AccountView;

    open spec fn view(&self) -> AccountView {
        AccountView {
            lamports: self.lamports,
            data: self.data@,
            owner: self.owner@,
            executable: self.executable,
            rent_epoch: self.rent_epoch,
        }
    }
}

impl Default for Account {
    /// An account with no balance and no payload, owned by the identifier
    /// of 32 zero bytes.
    fn default() -> (account: Account)
        ensures
            account@ == (AccountView {
                lamports: 0,
                data: Seq::empty(),
                owner: Seq::new(32, |i: int| 0u8),
                executable: false,
                rent_epoch: 0,
            }),
    {
        Account {
            lamports: 0,
            data: Vec::new(),
            owner: Pubkey::default(),
            executable: false,
            rent_epoch: 0,
        }
    }
}

impl Clone for Account {
    fn clone(&self) -> (copy: Account)
        ensures
            copy@ == self@,
    {
        let data = self.data.clone();
        assert(data@ =~= self.data@);
        Account {
            lamports: self.lamports,
            data,
            owner: self.owner,
            executable: self.executable,
            rent_epoch: self.rent_epoch,
        }
    }
}

} // verus!
