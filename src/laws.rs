use vstd::prelude::*;
use crate::accounts::Wallet;
use crate::authority::{authority_address, is_derived, sale_address};
use crate::error::EscrowError;
use crate::escrow::{
    close_sale_error, delegated_to_authority, exhausts, post_sale_error, post_sale_result,
    take_sale_error, take_sale_result, amount_due, ClosePolicy, CloseSale, PostSale, TakeSale,
};

verus! {

/// A holding backs at most one sale: any two postings that succeed for the
/// same holding under the same program write their record at the same
/// address, with the same bump.
pub proof fn lemma_one_sale_per_holding(
    a: PostSale,
    a_sale_bump: u8,
    a_authority_bump: u8,
    b: PostSale,
    b_sale_bump: u8,
    b_authority_bump: u8,
)
    requires
        post_sale_error(a, a_sale_bump, a_authority_bump) is None,
        post_sale_error(b, b_sale_bump, b_authority_bump) is None,
        a.program_id@ == b.program_id@,
        a.seller_token_account.key@ == b.seller_token_account.key@,
    ensures
        a.sale.key@ == b.sale.key@,
        a_sale_bump == b_sale_bump,
{
}

/// A fill keeps tokens and lamports: between distinct holdings and distinct
/// wallets, what the buyer gains in tokens the seller's holding loses, and
/// what the buyer pays the seller receives, besides the deposit of a sale
/// that the fill exhausts.
pub proof fn lemma_fill_conserves_value(ctx: TakeSale, authority_bump: u8, num_tokens: u64)
    requires
        take_sale_error(ctx, authority_bump, num_tokens) is None,
        ctx.buyer_token_account.key@ != ctx.seller_token_account.key@,
        ctx.buyer.key@ != ctx.seller.key@,
    ensures
        ({
            let after = take_sale_result(ctx, num_tokens);
            &&& after.buyer_token_account.amount + after.seller_token_account.amount
                == ctx.buyer_token_account.amount + ctx.seller_token_account.amount
            &&& after.buyer.lamports + after.seller.lamports == ctx.buyer.lamports + ctx.seller.lamports
                + if exhausts(ctx, num_tokens) {
                ctx.sale.lamports as int
            } else {
                0
            }
            &&& after.buyer.lamports == ctx.buyer.lamports - amount_due(ctx, num_tokens)
        }),
{
}

/// Filling part of an allowance leaves the sale open, unchanged, with the
/// rest of the allowance behind it; a later fill of exactly that rest, on
/// the same holding, exhausts the sale and so closes it.
pub proof fn lemma_partial_then_rest_closes(
    ctx: TakeSale,
    authority_bump: u8,
    first: u64,
    rest: u64,
    next: TakeSale,
)
    requires
        take_sale_error(ctx, authority_bump, first) is None,
        ctx.buyer_token_account.key@ != ctx.seller_token_account.key@,
        ctx.seller_token_account.delegated_amount == first + rest,
        rest > 0,
        next.seller_token_account == take_sale_result(ctx, first).seller_token_account,
    ensures
        take_sale_result(ctx, first).sale == ctx.sale,
        take_sale_result(ctx, first).seller_token_account.delegated_amount == rest,
        exhausts(next, rest),
{
}

/// Closing asks for no signature: a sale that one party may close, any
/// other party may close too, as long as the deposit can be credited to
/// whoever the policy pays.
pub proof fn lemma_close_is_permissionless(ctx: CloseSale, other: Wallet)
    requires
        close_sale_error(ctx) is None,
        ctx.policy == ClosePolicy::CreditSeller || other.lamports + ctx.sale.lamports <= u64::MAX,
    ensures
        close_sale_error((CloseSale { closer: other, ..ctx })) is None,
{
}

/// A posting by the signing owner of a holding whose positive allowance is
/// granted to the derived authority, at the free address derived from the
/// holding, succeeds: it writes one record at the given price, and moves
/// nothing: the seller, the holding and the deposit stay as they were.
pub proof fn lemma_valid_post_succeeds(ctx: PostSale, sale_bump: u8, book_authority_bump: u8, token_price: u64)
    requires
        ctx.seller.is_signer,
        ctx.seller_token_account.owner@ == ctx.seller.key@,
        delegated_to_authority(ctx.seller_token_account, ctx.program_id),
        ctx.seller_token_account.delegated_amount > 0,
        is_derived(authority_address(ctx.program_id), ctx.book_authority, book_authority_bump),
        is_derived(sale_address(ctx.program_id, ctx.seller_token_account.key), ctx.sale.key, sale_bump),
        ctx.sale.sale is None,
    ensures
        post_sale_error(ctx, sale_bump, book_authority_bump) is None,
        ({
            let after = post_sale_result(ctx, sale_bump, token_price);
            &&& after.sale.key == ctx.sale.key
            &&& after.sale.sale is Some
            &&& after.sale.sale.unwrap().token_price == token_price
            &&& after.sale.lamports == ctx.sale.lamports
            &&& after.seller == ctx.seller
            &&& after.seller_token_account == ctx.seller_token_account
        }),
{
}

/// The accounts of a fill are in order: the buyer signs and owns a holding of
/// the sale's token, the seller owns the holding that backs the record at
/// its derived address, and the presented authority is the derived one,
/// holding the allowance.
pub open spec fn fill_accounts_valid(ctx: TakeSale, authority_bump: u8) -> bool {
    &&& ctx.buyer.is_signer
    &&& ctx.buyer_token_account.owner@ == ctx.buyer.key@
    &&& ctx.buyer_token_account.mint@ == ctx.seller_token_account.mint@
    &&& ctx.seller_token_account.owner@ == ctx.seller.key@
    &&& ctx.sale.sale is Some
    &&& is_derived(sale_address(ctx.program_id, ctx.seller_token_account.key), ctx.sale.key, ctx.sale.sale.unwrap().bump)
    &&& ctx.sale.sale.unwrap().token_account@ == ctx.seller_token_account.key@
    &&& ctx.sale.sale.unwrap().token_mint@ == ctx.seller_token_account.mint@
    &&& is_derived(authority_address(ctx.program_id), ctx.book_authority, authority_bump)
    &&& ctx.seller_token_account.delegated_to(ctx.book_authority)
    &&& ctx.buyer_token_account.key@ != ctx.seller_token_account.key@
    &&& ctx.buyer.key@ != ctx.seller.key@
}

/// A fill of `0 < num_tokens <= allowance` on valid accounts, which the
/// seller's balance covers, whose price fits and which the buyer can pay,
/// succeeds: the buyer gains `num_tokens`, the seller's balance and
/// allowance lose them, the buyer pays the seller exactly price times count,
/// and the sale closes, paying its deposit to the seller, exactly when the
/// allowance is used up; otherwise the record stays as it was.
pub proof fn lemma_valid_fill_succeeds(ctx: TakeSale, authority_bump: u8, num_tokens: u64)
    requires
        fill_accounts_valid(ctx, authority_bump),
        0 < num_tokens <= ctx.seller_token_account.delegated_amount,
        num_tokens <= ctx.seller_token_account.amount,
        amount_due(ctx, num_tokens) <= u64::MAX,
        ctx.buyer.lamports >= amount_due(ctx, num_tokens),
        ctx.buyer_token_account.amount + num_tokens <= u64::MAX,
        ctx.seller.lamports + amount_due(ctx, num_tokens) + ctx.sale.lamports <= u64::MAX,
    ensures
        take_sale_error(ctx, authority_bump, num_tokens) is None,
        ({
            let after = take_sale_result(ctx, num_tokens);
            &&& after.buyer_token_account.amount == ctx.buyer_token_account.amount + num_tokens
            &&& after.seller_token_account.amount == ctx.seller_token_account.amount - num_tokens
            &&& after.seller_token_account.delegated_amount == ctx.seller_token_account.delegated_amount
                - num_tokens
            &&& after.buyer.lamports == ctx.buyer.lamports - amount_due(ctx, num_tokens)
            &&& after.seller.lamports == ctx.seller.lamports + amount_due(ctx, num_tokens) + if num_tokens
                == ctx.seller_token_account.delegated_amount {
                ctx.sale.lamports as int
            } else {
                0
            }
            &&& (after.sale.sale is None <==> num_tokens == ctx.seller_token_account.delegated_amount)
            &&& num_tokens < ctx.seller_token_account.delegated_amount ==> after.sale == ctx.sale
        }),
{
}

/// On valid accounts, a fill whose price times count does not fit in the
/// value type fails as an overflow, whatever the buyer holds.
pub proof fn lemma_price_overflow_aborts(ctx: TakeSale, authority_bump: u8, num_tokens: u64)
    requires
        fill_accounts_valid(ctx, authority_bump),
        num_tokens <= ctx.seller_token_account.delegated_amount,
        num_tokens <= ctx.seller_token_account.amount,
        ctx.buyer_token_account.amount + num_tokens <= u64::MAX,
        amount_due(ctx, num_tokens) > u64::MAX,
    ensures
        take_sale_error(ctx, authority_bump, num_tokens) == Some(EscrowError::ArithmeticOverflow),
{
}

} // verus!
