use vstd::prelude::*;
use crate::address::Address;
use crate::accounts::{Sale, SaleAccount, TokenAccount, Wallet};
use crate::authority::{
    authority_address, credited, debited, delegate_transfer_error, derive_authority_address,
    derive_sale_address, is_derived, matches_derived, sale_address, signer_transfer_error,
    transfer_from_pda, transfer_from_signer, with_lamports,
};
use crate::error::EscrowError;

verus! {

/// The accounts of posting a sale.
#[derive(Clone, Copy, Debug)]
pub struct PostSale {
    pub program_id: Address,
    pub seller: Wallet,
    pub seller_token_account: TokenAccount,
    pub sale: SaleAccount,
    pub book_authority: Address,
}

/// The accounts of filling a sale.
#[derive(Clone, Copy, Debug)]
pub struct TakeSale {
    pub program_id: Address,
    pub buyer: Wallet,
    pub buyer_token_account: TokenAccount,
    pub seller: Wallet,
    pub seller_token_account: TokenAccount,
    pub sale: SaleAccount,
    pub book_authority: Address,
}

/// Who receives a closed sale's storage deposit.
#[derive(Clone, Copy, Debug, PartialEq, Eq, Structural)]
pub enum ClosePolicy {
    /// Whoever closes the sale.
    CreditCloser,
    /// The seller, whoever closes the sale.
    CreditSeller,
}

/// The accounts of closing a sale whose allowance is used up or revoked.
#[derive(Clone, Copy, Debug)]
pub struct CloseSale {
    pub program_id: Address,
    pub closer: Wallet,
    pub seller: Wallet,
    pub seller_token_account: TokenAccount,
    pub sale: SaleAccount,
    pub policy: ClosePolicy,
}

/// The accounts of changing a sale's price.
#[derive(Clone, Copy, Debug)]
pub struct ChangeSalePrice {
    pub seller: Wallet,
    pub sale: SaleAccount,
}

/// The accounts of a lamport transfer.
#[derive(Clone, Copy, Debug)]
pub struct TransferLamports {
    pub from: Address,
    pub to: Address,
}

/// The accounts of a token transfer moved by `authority`.
#[derive(Clone, Copy, Debug)]
pub struct Transfer {
    pub from: Address,
    pub to: Address,
    pub authority: Address,
}

// ---------------------------------------------------------------- post_sale

/// The holding is owned by the seller and carries a positive allowance
/// granted to the value authority.
pub open spec fn delegation_valid(seller: Wallet, holding: TokenAccount, program_id: Address) -> bool {
    holding.owner@ == seller.key@ && delegated_to_authority(holding, program_id) && holding.delegated_amount > 0
}

/// The holding's allowance is granted to the value authority that the
/// program derives, whatever account the caller presents as that authority.
pub open spec fn delegated_to_authority(holding: TokenAccount, program_id: Address) -> bool {
    &&& authority_address(program_id) is Some
    &&& holding.delegate is Some
    &&& holding.delegate.unwrap()@ == authority_address(program_id).unwrap().0
}

/// Why posting a sale is refused, if it is.
pub open spec fn post_sale_error(ctx: PostSale, sale_bump: u8, book_authority_bump: u8) -> Option<EscrowError> {
    if !ctx.seller.is_signer {
        Some(EscrowError::Unauthorized)
    } else if !delegation_valid(ctx.seller, ctx.seller_token_account, ctx.program_id) {
        Some(EscrowError::InvalidDelegation)
    } else if !is_derived(authority_address(ctx.program_id), ctx.book_authority, book_authority_bump) {
        Some(EscrowError::AddressMismatch)
    } else if !is_derived(sale_address(ctx.program_id, ctx.seller_token_account.key), ctx.sale.key, sale_bump) {
        Some(EscrowError::AddressMismatch)
    } else if ctx.sale.sale is Some {
        Some(EscrowError::DuplicateOrder)
    } else {
        None
    }
}

/// The record that posting writes.
pub open spec fn posted_sale(ctx: PostSale, sale_bump: u8, token_price: u64) -> Sale {
    Sale {
        seller: ctx.seller.key,
        token_account: ctx.seller_token_account.key,
        token_mint: ctx.seller_token_account.mint,
        token_price,
        bump: sale_bump,
    }
}

/// The accounts after posting: only the sale account changes, and it now
/// holds the new record.
pub open spec fn post_sale_result(ctx: PostSale, sale_bump: u8, token_price: u64) -> PostSale {
    PostSale {
        sale: SaleAccount { sale: Some(posted_sale(ctx, sale_bump, token_price)), ..ctx.sale },
        ..ctx
    }
}

/// Posts a sell order at `token_price` lamports per token over the allowance
/// that the seller's holding delegated to the value authority. The order is
/// written at the address derived from the holding, so a holding backs at
/// most one open order. No value moves.
pub fn post_sale(ctx: &mut PostSale, sale_bump: u8, book_authority_bump: u8, token_price: u64) -> (r: Result<
    (),
    EscrowError,
>)
    ensures
        match r {
            Ok(()) => post_sale_error(*old(ctx), sale_bump, book_authority_bump) is None
                && *final(ctx) == post_sale_result(*old(ctx), sale_bump, token_price),
            Err(e) => post_sale_error(*old(ctx), sale_bump, book_authority_bump) == Some(e)
                && *final(ctx) == *old(ctx),
        },
        // one record, at the derived address, at the given price; no value moves
        r is Ok ==> {
            &&& final(ctx).sale.sale is Some
            &&& final(ctx).sale.sale.unwrap().token_price == token_price
            &&& final(ctx).sale.key == old(ctx).sale.key
            &&& is_derived(sale_address(old(ctx).program_id, old(ctx).seller_token_account.key), old(ctx).sale.key, sale_bump)
            &&& final(ctx).seller == old(ctx).seller
            &&& final(ctx).seller_token_account == old(ctx).seller_token_account
            &&& final(ctx).sale.lamports == old(ctx).sale.lamports
        },
        // a signed posting over no allowance, or over one granted to anyone
        // but the derived authority, is an invalid delegation
        old(ctx).seller.is_signer && old(ctx).seller_token_account.delegated_amount == 0 ==> r
            == Err::<(), EscrowError>(EscrowError::InvalidDelegation),
        old(ctx).seller.is_signer && !delegated_to_authority(old(ctx).seller_token_account, old(ctx).program_id)
            ==> r == Err::<(), EscrowError>(EscrowError::InvalidDelegation),
        old(ctx).seller_token_account.delegated_amount == 0 ==> r is Err,
        !delegated_to_authority(old(ctx).seller_token_account, old(ctx).program_id) ==> r is Err,
        old(ctx).sale.sale is Some ==> r is Err,
{
    if !ctx.seller.is_signer {
        return Err(EscrowError::Unauthorized);
    }
    let holding = ctx.seller_token_account;
    let authority = derive_authority_address(&ctx.program_id);
    let granted = match &authority {
        Some((a, _)) => holding.is_delegated_to(a),
        None => false,
    };
    if !(holding.owner.same(&ctx.seller.key) && granted && holding.delegated_amount > 0) {
        return Err(EscrowError::InvalidDelegation);
    }
    if !matches_derived(&authority, &ctx.book_authority, book_authority_bump) {
        return Err(EscrowError::AddressMismatch);
    }
    let found = derive_sale_address(&ctx.program_id, &holding.key);
    if !matches_derived(&found, &ctx.sale.key, sale_bump) {
        return Err(EscrowError::AddressMismatch);
    }
    if ctx.sale.sale.is_some() {
        return Err(EscrowError::DuplicateOrder);
    }
    ctx.sale.sale = Some(
        Sale {
            seller: ctx.seller.key,
            token_account: holding.key,
            token_mint: holding.mint,
            token_price,
            bump: sale_bump,
        },
    );
    Ok(())
}

// ---------------------------------------------------------------- take_sale

/// Why the accounts presented for a fill are refused before anything moves, if they are.
pub open spec fn take_sale_accounts_error(ctx: TakeSale) -> Option<EscrowError> {
    if !ctx.buyer.is_signer {
        Some(EscrowError::Unauthorized)
    } else if ctx.buyer_token_account.owner@ != ctx.buyer.key@ {
        Some(EscrowError::OwnerMismatch)
    } else if ctx.buyer_token_account.mint@ != ctx.seller_token_account.mint@ {
        Some(EscrowError::MintMismatch)
    } else if ctx.seller_token_account.owner@ != ctx.seller.key@ {
        Some(EscrowError::OwnerMismatch)
    } else if ctx.sale.sale is None {
        Some(EscrowError::SaleNotFound)
    } else if !is_derived(
        sale_address(ctx.program_id, ctx.seller_token_account.key),
        ctx.sale.key,
        ctx.sale.sale.unwrap().bump,
    ) {
        Some(EscrowError::AddressMismatch)
    } else if ctx.sale.sale.unwrap().token_account@ != ctx.seller_token_account.key@ {
        Some(EscrowError::AddressMismatch)
    } else if ctx.sale.sale.unwrap().token_mint@ != ctx.buyer_token_account.mint@ {
        Some(EscrowError::MintMismatch)
    } else {
        None
    }
}

/// What a fill of `num_tokens` costs: the unit price times the count.
pub open spec fn amount_due(ctx: TakeSale, num_tokens: u64) -> int {
    ctx.sale.sale.unwrap().token_price * num_tokens
}

/// Whether the fill uses up the allowance behind the sale.
pub open spec fn exhausts(ctx: TakeSale, num_tokens: u64) -> bool {
    ctx.seller_token_account.delegated_amount == num_tokens
}

/// The seller after the payment leg.
pub open spec fn paid_seller(ctx: TakeSale, num_tokens: u64) -> Wallet {
    if ctx.buyer.key@ == ctx.seller.key@ {
        ctx.seller
    } else {
        with_lamports(ctx.seller, ctx.seller.lamports + amount_due(ctx, num_tokens))
    }
}

/// The buyer after the payment leg.
pub open spec fn paying_buyer(ctx: TakeSale, num_tokens: u64) -> Wallet {
    if ctx.buyer.key@ == ctx.seller.key@ {
        ctx.buyer
    } else {
        with_lamports(ctx.buyer, ctx.buyer.lamports - amount_due(ctx, num_tokens))
    }
}

/// Why a fill of `num_tokens` is refused, if it is: the accounts, then the
/// token leg, then the price, then the payment leg, then crediting the
/// seller with the deposit of an exhausted sale.
pub open spec fn take_sale_error(ctx: TakeSale, authority_bump: u8, num_tokens: u64) -> Option<EscrowError> {
    if take_sale_accounts_error(ctx) is Some {
        take_sale_accounts_error(ctx)
    } else if delegate_transfer_error(
        ctx.seller_token_account,
        ctx.buyer_token_account,
        ctx.program_id,
        ctx.book_authority,
        authority_bump,
        num_tokens,
    ) is Some {
        delegate_transfer_error(
            ctx.seller_token_account,
            ctx.buyer_token_account,
            ctx.program_id,
            ctx.book_authority,
            authority_bump,
            num_tokens,
        )
    } else if amount_due(ctx, num_tokens) > u64::MAX {
        Some(EscrowError::ArithmeticOverflow)
    } else if signer_transfer_error(ctx.buyer, ctx.seller, amount_due(ctx, num_tokens) as u64) is Some {
        signer_transfer_error(ctx.buyer, ctx.seller, amount_due(ctx, num_tokens) as u64)
    } else if exhausts(ctx, num_tokens) && paid_seller(ctx, num_tokens).lamports + ctx.sale.lamports
        > u64::MAX {
        Some(EscrowError::ArithmeticOverflow)
    } else {
        None
    }
}

/// The accounts after a fill of `num_tokens`: both legs moved, and the sale
/// closed to the seller when its allowance is used up.
pub open spec fn take_sale_result(ctx: TakeSale, num_tokens: u64) -> TakeSale {
    let same_holding = ctx.seller_token_account.key@ == ctx.buyer_token_account.key@;
    let seller = paid_seller(ctx, num_tokens);
    TakeSale {
        buyer: paying_buyer(ctx, num_tokens),
        buyer_token_account: if same_holding {
            ctx.buyer_token_account
        } else {
            credited(ctx.buyer_token_account, num_tokens)
        },
        seller: if exhausts(ctx, num_tokens) {
            with_lamports(seller, seller.lamports + ctx.sale.lamports)
        } else {
            seller
        },
        seller_token_account: if same_holding {
            ctx.seller_token_account
        } else {
            debited(ctx.seller_token_account, num_tokens)
        },
        sale: if exhausts(ctx, num_tokens) {
            ctx.sale.closed()
        } else {
            ctx.sale
        },
        ..ctx
    }
}

fn check_take_sale_accounts(ctx: &TakeSale) -> (r: Option<EscrowError>)
    ensures
        r == take_sale_accounts_error(*ctx),
{
    if !ctx.buyer.is_signer {
        return Some(EscrowError::Unauthorized);
    }
    if !ctx.buyer_token_account.owner.same(&ctx.buyer.key) {
        return Some(EscrowError::OwnerMismatch);
    }
    if !ctx.buyer_token_account.mint.same(&ctx.seller_token_account.mint) {
        return Some(EscrowError::MintMismatch);
    }
    if !ctx.seller_token_account.owner.same(&ctx.seller.key) {
        return Some(EscrowError::OwnerMismatch);
    }
    let sale = match ctx.sale.sale {
        Some(s) => s,
        None => return Some(EscrowError::SaleNotFound),
    };
    let found = derive_sale_address(&ctx.program_id, &ctx.seller_token_account.key);
    if !matches_derived(&found, &ctx.sale.key, sale.bump) {
        return Some(EscrowError::AddressMismatch);
    }
    if !sale.token_account.same(&ctx.seller_token_account.key) {
        return Some(EscrowError::AddressMismatch);
    }
    if !sale.token_mint.same(&ctx.buyer_token_account.mint) {
        return Some(EscrowError::MintMismatch);
    }
    None
}

/// Fills `num_tokens` of the sale for the buyer, who signs: the value
/// authority moves the tokens from the seller's holding to the buyer's, the
/// buyer pays the seller the unit price times `num_tokens`, and when the
/// allowance is then used up the sale is closed and its deposit goes to the
/// seller. The seller does not sign. Either all of it happens or nothing.
pub fn take_sale(ctx: &mut TakeSale, authority_bump: u8, num_tokens: u64) -> (r: Result<(), EscrowError>)
    ensures
        match r {
            Ok(()) => take_sale_error(*old(ctx), authority_bump, num_tokens) is None
                && *final(ctx) == take_sale_result(*old(ctx), num_tokens),
            Err(e) => take_sale_error(*old(ctx), authority_bump, num_tokens) == Some(e)
                && *final(ctx) == *old(ctx),
        },
        // the two legs, between distinct holdings and distinct wallets
        r is Ok && old(ctx).buyer_token_account.key@ != old(ctx).seller_token_account.key@ ==> {
            &&& final(ctx).buyer_token_account.amount == old(ctx).buyer_token_account.amount + num_tokens
            &&& final(ctx).seller_token_account.delegated_amount
                == old(ctx).seller_token_account.delegated_amount - num_tokens
        },
        r is Ok && old(ctx).buyer.key@ != old(ctx).seller.key@ ==> {
            &&& final(ctx).buyer.lamports == old(ctx).buyer.lamports - amount_due(*old(ctx), num_tokens)
            &&& final(ctx).seller.lamports == old(ctx).seller.lamports + amount_due(*old(ctx), num_tokens)
                + if exhausts(*old(ctx), num_tokens) {
                old(ctx).sale.lamports as int
            } else {
                0
            }
        },
        // the sale is gone exactly when its allowance is used up
        r is Ok ==> (final(ctx).sale.sale is None <==> exhausts(*old(ctx), num_tokens)),
        r is Ok && !exhausts(*old(ctx), num_tokens) ==> final(ctx).sale == old(ctx).sale,
        // and afterwards a record stands exactly while allowance remains
        r is Ok && old(ctx).buyer_token_account.key@ != old(ctx).seller_token_account.key@ ==> (
            final(ctx).sale.sale is Some <==> final(ctx).seller_token_account.delegated_amount > 0
        ),
        // a price that does not fit fails as an overflow and changes nothing
        take_sale_accounts_error(*old(ctx)) is None && delegate_transfer_error(
            old(ctx).seller_token_account,
            old(ctx).buyer_token_account,
            old(ctx).program_id,
            old(ctx).book_authority,
            authority_bump,
            num_tokens,
        ) is None && amount_due(*old(ctx), num_tokens) > u64::MAX ==> r == Err::<(), EscrowError>(
            EscrowError::ArithmeticOverflow,
        ) && *final(ctx) == *old(ctx),
{
    match check_take_sale_accounts(ctx) {
        Some(e) => return Err(e),
        None => {},
    }
    let sale = ctx.sale.sale.unwrap();
    let mut seller_holding = ctx.seller_token_account;
    let mut buyer_holding = ctx.buyer_token_account;
    match transfer_from_pda(
        &mut seller_holding,
        &mut buyer_holding,
        &ctx.program_id,
        &ctx.book_authority,
        authority_bump,
        num_tokens,
    ) {
        Ok(()) => {},
        Err(e) => return Err(e),
    }
    let lamports = match sale.token_price.checked_mul(num_tokens) {
        Some(l) => l,
        None => return Err(EscrowError::ArithmeticOverflow),
    };
    let mut buyer = ctx.buyer;
    let mut seller = ctx.seller;
    match transfer_from_signer(&mut buyer, &mut seller, lamports) {
        Ok(()) => {},
        Err(e) => return Err(e),
    }
    let remaining = match ctx.seller_token_account.delegated_amount.checked_sub(num_tokens) {
        Some(x) => x,
        None => return Err(EscrowError::ArithmeticUnderflow),
    };
    let mut sale_account = ctx.sale;
    if remaining == 0 {
        match seller.lamports.checked_add(sale_account.lamports) {
            Some(l) => seller.lamports = l,
            None => return Err(EscrowError::ArithmeticOverflow),
        }
        sale_account = SaleAccount { key: sale_account.key, lamports: 0, sale: None };
    }
    ctx.buyer = buyer;
    ctx.buyer_token_account = buyer_holding;
    ctx.seller = seller;
    ctx.seller_token_account = seller_holding;
    ctx.sale = sale_account;
    Ok(())
}

impl TakeSale {
    /// The accounts of the token leg: from the seller's holding to the
    /// buyer's, moved by the value authority.
    pub fn into_transfer_tokens_to_buyer_context(&self) -> (r: Transfer)
        ensures
            r.from == self.seller_token_account.key,
            r.to == self.buyer_token_account.key,
            r.authority == self.book_authority,
    {
        Transfer {
            from: self.seller_token_account.key,
            to: self.buyer_token_account.key,
            authority: self.book_authority,
        }
    }

    /// The accounts of the payment leg: from the buyer to the seller.
    pub fn into_transfer_lamports_to_seller_context(&self) -> (r: TransferLamports)
        ensures
            r.from == self.buyer.key,
            r.to == self.seller.key,
    {
        TransferLamports { from: self.buyer.key, to: self.seller.key }
    }
}

// ---------------------------------------------------------------- close_sale

/// Who receives the deposit of a closed sale under the context's policy.
pub open spec fn close_recipient(ctx: CloseSale) -> Wallet {
    match ctx.policy {
        ClosePolicy::CreditCloser => ctx.closer,
        ClosePolicy::CreditSeller => ctx.seller,
    }
}

/// Why closing a sale is refused, if it is.
pub open spec fn close_sale_error(ctx: CloseSale) -> Option<EscrowError> {
    if ctx.seller_token_account.owner@ != ctx.seller.key@ {
        Some(EscrowError::OwnerMismatch)
    } else if ctx.seller_token_account.delegated_amount != 0 {
        Some(EscrowError::NotYetClosable)
    } else if ctx.sale.sale is None {
        Some(EscrowError::SaleNotFound)
    } else if !is_derived(
        sale_address(ctx.program_id, ctx.seller_token_account.key),
        ctx.sale.key,
        ctx.sale.sale.unwrap().bump,
    ) {
        Some(EscrowError::AddressMismatch)
    } else if close_recipient(ctx).lamports + ctx.sale.lamports > u64::MAX {
        Some(EscrowError::ArithmeticOverflow)
    } else {
        None
    }
}

/// The accounts after closing: the record is gone and its deposit credited.
pub open spec fn close_sale_result(ctx: CloseSale) -> CloseSale {
    let credit = ctx.sale.lamports;
    CloseSale {
        closer: if ctx.policy == ClosePolicy::CreditCloser {
            with_lamports(ctx.closer, ctx.closer.lamports + credit)
        } else {
            ctx.closer
        },
        seller: if ctx.policy == ClosePolicy::CreditSeller {
            with_lamports(ctx.seller, ctx.seller.lamports + credit)
        } else {
            ctx.seller
        },
        sale: ctx.sale.closed(),
        ..ctx
    }
}

/// Closes a sale whose holding no longer delegates anything, and pays its
/// storage deposit out under the context's policy. Anyone may close: no
/// signature is asked for.
pub fn close_sale(ctx: &mut CloseSale) -> (r: Result<(), EscrowError>)
    ensures
        match r {
            Ok(()) => close_sale_error(*old(ctx)) is None && *final(ctx) == close_sale_result(*old(ctx)),
            Err(e) => close_sale_error(*old(ctx)) == Some(e) && *final(ctx) == *old(ctx),
        },
        old(ctx).seller_token_account.owner@ == old(ctx).seller.key@
            && old(ctx).seller_token_account.delegated_amount > 0 ==> r == Err::<(), EscrowError>(
            EscrowError::NotYetClosable,
        ),
        r is Ok ==> final(ctx).sale.sale is None,
{
    if !ctx.seller_token_account.owner.same(&ctx.seller.key) {
        return Err(EscrowError::OwnerMismatch);
    }
    if ctx.seller_token_account.delegated_amount != 0 {
        return Err(EscrowError::NotYetClosable);
    }
    let sale = match ctx.sale.sale {
        Some(s) => s,
        None => return Err(EscrowError::SaleNotFound),
    };
    let found = derive_sale_address(&ctx.program_id, &ctx.seller_token_account.key);
    if !matches_derived(&found, &ctx.sale.key, sale.bump) {
        return Err(EscrowError::AddressMismatch);
    }
    let credit = ctx.sale.lamports;
    match ctx.policy {
        ClosePolicy::CreditCloser => match ctx.closer.lamports.checked_add(credit) {
            Some(l) => ctx.closer.lamports = l,
            None => return Err(EscrowError::ArithmeticOverflow),
        },
        ClosePolicy::CreditSeller => match ctx.seller.lamports.checked_add(credit) {
            Some(l) => ctx.seller.lamports = l,
            None => return Err(EscrowError::ArithmeticOverflow),
        },
    }
    ctx.sale = SaleAccount { key: ctx.sale.key, lamports: 0, sale: None };
    Ok(())
}

// --------------------------------------------------------- change_sale_price

/// Why changing a sale's price is refused, if it is.
pub open spec fn change_sale_price_error(ctx: ChangeSalePrice) -> Option<EscrowError> {
    if !ctx.seller.is_signer {
        Some(EscrowError::Unauthorized)
    } else if ctx.sale.sale is None {
        Some(EscrowError::SaleNotFound)
    } else if ctx.sale.sale.unwrap().seller@ != ctx.seller.key@ {
        Some(EscrowError::Unauthorized)
    } else {
        None
    }
}

/// The accounts after the price is set to `new_price`: nothing else changes.
pub open spec fn change_sale_price_result(ctx: ChangeSalePrice, new_price: u64) -> ChangeSalePrice {
    ChangeSalePrice {
        sale: SaleAccount { sale: Some(Sale { token_price: new_price, ..ctx.sale.sale.unwrap() }), ..ctx.sale },
        ..ctx
    }
}

/// Sets the sale's unit price to `new_price`. Only the seller, signing, may.
pub fn change_sale_price(ctx: &mut ChangeSalePrice, new_price: u64) -> (r: Result<(), EscrowError>)
    ensures
        match r {
            Ok(()) => change_sale_price_error(*old(ctx)) is None && *final(ctx) == change_sale_price_result(
                *old(ctx),
                new_price,
            ),
            Err(e) => change_sale_price_error(*old(ctx)) == Some(e) && *final(ctx) == *old(ctx),
        },
        r is Ok ==> final(ctx).sale.sale.unwrap().token_price == new_price,
        old(ctx).sale.sale is Some && old(ctx).sale.sale.unwrap().seller@ != old(ctx).seller.key@ ==> r
            == Err::<(), EscrowError>(EscrowError::Unauthorized),
{
    if !ctx.seller.is_signer {
        return Err(EscrowError::Unauthorized);
    }
    let sale = match ctx.sale.sale {
        Some(s) => s,
        None => return Err(EscrowError::SaleNotFound),
    };
    if !sale.seller.same(&ctx.seller.key) {
        return Err(EscrowError::Unauthorized);
    }
    ctx.sale.sale = Some(Sale { token_price: new_price, ..sale });
    Ok(())
}

} // verus!
