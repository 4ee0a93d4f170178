//! The model of an externally stored account as the ledger logic sees it.
//!
//! The host environment hands each operation a list of accounts; the logic
//! reads only a few plain facts about each: its address, the program that
//! owns it, whether its holder signed the request, its balance, and its raw
//! data bytes.

use vstd::prelude::*;
use crate::codec::Identity;

verus! {

/// The facts the ledger logic reads about one account.
#[derive(Debug, PartialEq, Eq, Clone)]
pub struct AccountView {
    /// The account's address.
    pub key: Identity,
    /// The program that owns the account.
    pub owner: Identity,
    /// Whether the account's holder signed the request.
    pub is_signer: bool,
    /// The account's balance, in the host's base units.
    pub lamports: u64,
    /// The account's raw data.
    pub data: Vec<u8>,
}

impl AccountView {
    /// Whether the account holds no data.
    pub open spec fn spec_data_is_empty(&self) -> bool {
        self.data@.len() == 0
    }

    /// Whether the account holds no data.
    pub fn data_is_empty(&self) -> (r: bool)
        ensures
            r == self.spec_data_is_empty(),
    {
        self.data.len() == 0
    }
}

} // verus!
