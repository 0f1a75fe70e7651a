//! A delegated-token sale escrow.
//!
//! A seller delegates a spending allowance over a token holding to the
//! program's derived authority and posts a standing sell order (a `Sale`)
//! at a per-unit price. Buyers fill all or part of the order in one step that
//! moves the tokens to them and the payment to the seller; the order is
//! closed as soon as the allowance behind it is used up.
//!
//! Every operation works on a snapshot of the accounts it touches and either
//! returns `Ok` with the snapshot updated as a whole, or an error with the
//! snapshot left exactly as it was.
pub mod address;
pub mod error;
pub mod accounts;
pub mod authority;
pub mod escrow;
pub mod laws;
