use vstd::prelude::*;
use crate::address::Address;

verus! {

/// An account that holds native value (lamports).
#[derive(Clone, Copy, Debug)]
pub struct Wallet {
    pub key: Address,
    pub lamports: u64,
    /// Whether the account signed the operation.
    pub is_signer: bool,
}

/// A holding of one token: its balance, and how much of it a delegate may move.
#[derive(Clone, Copy, Debug)]
pub struct TokenAccount {
    pub key: Address,
    pub owner: Address,
    pub mint: Address,
    pub amount: u64,
    pub delegate: Option<Address>,
    pub delegated_amount: u64,
}

/// A standing sell order over the allowance of one holding.
#[derive(Clone, Copy, Debug)]
pub struct Sale {
    /// The owner of the holding when the order was posted.
    pub seller: Address,
    /// The holding that backs the order.
    pub token_account: Address,
    /// The token being sold.
    pub token_mint: Address,
    /// Price of one token, in lamports.
    pub token_price: u64,
    /// The bump seed of the order's derived address.
    pub bump: u8,
}

/// The storage account at a sale's address: its deposit, and the record it
/// holds, if any.
#[derive(Clone, Copy, Debug)]
pub struct SaleAccount {
    pub key: Address,
    pub lamports: u64,
    pub sale: Option<Sale>,
}

impl TokenAccount {
    /// Whether `authority` may currently move tokens out of this holding.
    pub open spec fn delegated_to(self, authority: Address) -> bool {
        self.delegate.is_some() && self.delegate.unwrap()@ == authority@
    }

    pub fn is_delegated_to(&self, authority: &Address) -> (r: bool)
        ensures
            r == self.delegated_to(*authority),
    {
        match &self.delegate {
            Some(d) => d.same(authority),
            None => false,
        }
    }
}

impl SaleAccount {
    /// The account once its record is closed and its deposit paid out.
    pub open spec fn closed(self) -> SaleAccount {
        SaleAccount { key: self.key, lamports: 0, sale: None }
    }
}

} // verus!
