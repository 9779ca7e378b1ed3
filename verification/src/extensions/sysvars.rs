//! Mock accounts of the ledger's system variables.

use crate::account::{Account, AccountView};
use crate::pubkey::Pubkey;
use vstd::prelude::*;

verus! {

/// Balance that a mock system variable account is given, in lamports.
pub const SYSVAR_LAMPORTS: u64 = 1;

/// The payload of a system variable's account: the encoded variable, filled
/// up with zeros to the size that the variable reserves.
pub open spec fn sysvar_data(size: nat, encoded: Seq<u8>) -> Seq<u8> {
    encoded + Seq::new((size - encoded.len()) as nat, |i: int| 0u8)
}

/// Creates the account of a system variable.
///
/// `id` is the variable's identifier, which also owns the account, `size`
/// the number of bytes that the variable reserves and `encoded` the variable
/// as its bytes, which must fit the size.
pub fn create_sysvar_account(id: &Pubkey, size: usize, encoded: &Vec<u8>) -> (account: Account)
    requires
        encoded@.len() <= size,
    ensures
        account@ == (AccountView {
            lamports: SYSVAR_LAMPORTS,
            data: sysvar_data(size as nat, encoded@),
            owner: id@,
            executable: false,
            rent_epoch: 0,
        }),
{
    let mut data: Vec<u8> = Vec::new();
    data.extend_from_slice(encoded.as_slice());
    let mut filled: usize = encoded.len();
    while filled < size
        invariant
            encoded@.len() <= filled <= size,
            data@ == sysvar_data(filled as nat, encoded@),
        decreases size - filled,
    {
        data.push(0);
        filled += 1;
        assert(data@ =~= sysvar_data(filled as nat, encoded@));
    }
    Account { lamports: SYSVAR_LAMPORTS, data, owner: *id, executable: false, rent_epoch: 0 }
}

} // verus!
