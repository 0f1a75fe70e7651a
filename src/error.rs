use vstd::prelude::*;

verus! {

/// Why an escrow operation was refused. A refused operation changes nothing.
#[derive(Clone, Copy, Debug, PartialEq, Eq, Structural)]
pub enum EscrowError {
    /// The holding's allowance is missing, zero, granted to another party,
    /// or the holding is not owned by the seller.
    InvalidDelegation,
    /// A sale already occupies the address derived for the holding.
    DuplicateOrder,
    /// A required signature is missing, or the signer is not the seller.
    Unauthorized,
    /// The two holdings, or a holding and the sale, are of different tokens.
    MintMismatch,
    /// A holding is not owned by the party presented as its owner.
    OwnerMismatch,
    /// A product or a credit does not fit in the value type.
    ArithmeticOverflow,
    /// A subtraction went below zero.
    ArithmeticUnderflow,
    /// A balance or an allowance is smaller than the amount to move.
    InsufficientBalance,
    /// The sale's holding still has a positive allowance.
    NotYetClosable,
    /// An account is not at the address derived from its seeds.
    AddressMismatch,
    /// No sale record lives at the presented address.
    SaleNotFound,
}

} // verus!
