use zero_liquid::accounts::{SaleAccount, TokenAccount, Wallet};
use zero_liquid::address::Address;
use zero_liquid::authority::{
    derive_authority_address, derive_sale_address, transfer_from_pda, transfer_from_signer,
};
use zero_liquid::error::EscrowError;
use zero_liquid::escrow::{
    change_sale_price, close_sale, post_sale, take_sale, ChangeSalePrice, ClosePolicy, CloseSale,
    PostSale, TakeSale,
};

const DEPOSIT: u64 = 1_000;

fn addr(b: u8) -> Address {
    Address::new([b; 32])
}

fn program() -> Address {
    addr(7)
}

fn mint_t() -> Address {
    addr(9)
}

fn authority() -> (Address, u8) {
    derive_authority_address(&program()).expect("authority address")
}

fn sale_key(holding: &Address) -> (Address, u8) {
    derive_sale_address(&program(), holding).expect("sale address")
}

fn wallet(b: u8, lamports: u64, is_signer: bool) -> Wallet {
    Wallet { key: addr(b), lamports, is_signer }
}

fn holding(key: u8, owner: u8, amount: u64, delegate: Option<Address>, delegated: u64) -> TokenAccount {
    TokenAccount {
        key: addr(key),
        owner: addr(owner),
        mint: mint_t(),
        amount,
        delegate,
        delegated_amount: delegated,
    }
}

fn post_ctx(allowance: u64) -> PostSale {
    let (auth, _) = authority();
    let seller_holding = holding(3, 1, 100, Some(auth), allowance);
    let (key, _) = sale_key(&seller_holding.key);
    PostSale {
        program_id: program(),
        seller: wallet(1, 5_000, true),
        seller_token_account: seller_holding,
        sale: SaleAccount { key, lamports: DEPOSIT, sale: None },
        book_authority: auth,
    }
}

fn posted(allowance: u64, price: u64) -> PostSale {
    let mut ctx = post_ctx(allowance);
    let (_, sbump) = sale_key(&ctx.seller_token_account.key);
    let (_, abump) = authority();
    post_sale(&mut ctx, sbump, abump, price).expect("post");
    ctx
}

fn take_ctx(posted: &PostSale, buyer: u8, buyer_holding: u8, buyer_lamports: u64) -> TakeSale {
    TakeSale {
        program_id: program(),
        buyer: wallet(buyer, buyer_lamports, true),
        buyer_token_account: holding(buyer_holding, buyer, 0, None, 0),
        seller: Wallet { is_signer: false, ..posted.seller },
        seller_token_account: posted.seller_token_account,
        sale: posted.sale,
        book_authority: posted.book_authority,
    }
}

fn snapshot<T: std::fmt::Debug>(t: &T) -> String {
    format!("{:?}", t)
}

#[test]
fn two_buyers_drain_a_sale() {
    let p = posted(100, 5);
    let (_, abump) = authority();
    let mut first = take_ctx(&p, 2, 4, 1_000);
    assert_eq!(take_sale(&mut first, abump, 40), Ok(()));
    assert_eq!(first.buyer_token_account.amount, 40);
    assert_eq!(first.seller.lamports, 5_000 + 200);
    assert_eq!(first.buyer.lamports, 1_000 - 200);
    assert_eq!(first.seller_token_account.delegated_amount, 60);
    assert_eq!(first.seller_token_account.amount, 60);
    assert!(first.seller_token_account.delegate.is_some());
    assert!(first.sale.sale.is_some());
    assert_eq!(first.sale.lamports, DEPOSIT);

    let mut second = TakeSale {
        buyer: wallet(5, 1_000, true),
        buyer_token_account: holding(6, 5, 0, None, 0),
        seller: first.seller,
        seller_token_account: first.seller_token_account,
        sale: first.sale,
        ..first
    };
    assert_eq!(take_sale(&mut second, abump, 60), Ok(()));
    assert_eq!(second.buyer_token_account.amount, 60);
    assert_eq!(second.buyer.lamports, 1_000 - 300);
    assert_eq!(second.seller.lamports, 5_000 + 200 + 300 + DEPOSIT);
    assert_eq!(second.seller_token_account.delegated_amount, 0);
    assert!(second.seller_token_account.delegate.is_none());
    assert!(second.sale.sale.is_none());
    assert_eq!(second.sale.lamports, 0);
}

#[test]
fn post_sale_writes_one_record() {
    let before = post_ctx(100);
    let p = posted(100, 5);
    let sale = p.sale.sale.expect("record");
    assert_eq!(sale.token_price, 5);
    assert_eq!(sale.seller.bytes, [1; 32]);
    assert_eq!(sale.token_account.bytes, [3; 32]);
    assert_eq!(sale.token_mint.bytes, [9; 32]);
    assert_eq!(sale.bump, sale_key(&addr(3)).1);
    assert_eq!(snapshot(&p.seller), snapshot(&before.seller));
    assert_eq!(snapshot(&p.seller_token_account), snapshot(&before.seller_token_account));
    assert_eq!(p.sale.lamports, DEPOSIT);
    assert_eq!(p.sale.key.bytes, before.sale.key.bytes);
}

fn post_error(mut ctx: PostSale) -> (Result<(), EscrowError>, bool) {
    let before = snapshot(&ctx);
    let (_, sbump) = sale_key(&ctx.seller_token_account.key);
    let (_, abump) = authority();
    let r = post_sale(&mut ctx, sbump, abump, 5);
    (r, before == snapshot(&ctx))
}

#[test]
fn post_sale_rejects_zero_allowance() {
    assert_eq!(post_error(post_ctx(0)), (Err(EscrowError::InvalidDelegation), true));
}

#[test]
fn post_sale_rejects_other_grantee() {
    let mut ctx = post_ctx(100);
    ctx.seller_token_account.delegate = Some(addr(8));
    assert_eq!(post_error(ctx), (Err(EscrowError::InvalidDelegation), true));
    let mut ctx = post_ctx(100);
    ctx.seller_token_account.delegate = None;
    assert_eq!(post_error(ctx), (Err(EscrowError::InvalidDelegation), true));
}

#[test]
fn post_sale_rejects_grantee_presented_as_authority() {
    let mut ctx = post_ctx(100);
    ctx.seller_token_account.delegate = Some(addr(8));
    ctx.book_authority = addr(8);
    assert_eq!(post_error(ctx), (Err(EscrowError::InvalidDelegation), true));
}

#[test]
fn post_sale_rejects_presented_authority_not_derived() {
    let mut ctx = post_ctx(100);
    ctx.book_authority = addr(8);
    assert_eq!(post_error(ctx), (Err(EscrowError::AddressMismatch), true));
}

#[test]
fn post_sale_rejects_holding_of_another_owner() {
    let mut ctx = post_ctx(100);
    ctx.seller_token_account.owner = addr(2);
    assert_eq!(post_error(ctx), (Err(EscrowError::InvalidDelegation), true));
}

#[test]
fn post_sale_rejects_unsigned_seller() {
    let mut ctx = post_ctx(100);
    ctx.seller.is_signer = false;
    assert_eq!(post_error(ctx), (Err(EscrowError::Unauthorized), true));
}

#[test]
fn post_sale_rejects_existing_sale() {
    let p = posted(100, 5);
    let ctx = PostSale { sale: p.sale, ..post_ctx(100) };
    assert_eq!(post_error(ctx), (Err(EscrowError::DuplicateOrder), true));
}

#[test]
fn post_sale_rejects_underived_addresses() {
    let mut ctx = post_ctx(100);
    ctx.sale.key = addr(11);
    assert_eq!(post_error(ctx), (Err(EscrowError::AddressMismatch), true));
    let mut ctx = post_ctx(100);
    let (_, sbump) = sale_key(&ctx.seller_token_account.key);
    let (_, abump) = authority();
    let before = snapshot(&ctx);
    assert_eq!(post_sale(&mut ctx, sbump.wrapping_sub(1), abump, 5), Err(EscrowError::AddressMismatch));
    assert_eq!(post_sale(&mut ctx, sbump, abump.wrapping_sub(1), 5), Err(EscrowError::AddressMismatch));
    assert_eq!(before, snapshot(&ctx));
}

#[test]
fn derived_addresses_depend_on_holding() {
    let (a, _) = sale_key(&addr(3));
    let (b, _) = sale_key(&addr(4));
    let (again, _) = sale_key(&addr(3));
    assert_ne!(a.bytes, b.bytes);
    assert_eq!(a.bytes, again.bytes);
    assert_ne!(a.bytes, [3; 32]);
    let (auth, _) = authority();
    assert_ne!(auth.bytes, program().bytes);
    assert_ne!(auth.bytes, a.bytes);
}

fn take_error(mut ctx: TakeSale, n: u64) -> (Result<(), EscrowError>, bool) {
    let before = snapshot(&ctx);
    let (_, abump) = authority();
    let r = take_sale(&mut ctx, abump, n);
    (r, before == snapshot(&ctx))
}

#[test]
fn take_sale_overflowing_price_changes_nothing() {
    let p = posted(100, u64::MAX);
    let ctx = take_ctx(&p, 2, 4, u64::MAX);
    assert_eq!(take_error(ctx, 2), (Err(EscrowError::ArithmeticOverflow), true));
}

#[test]
fn take_sale_partial_fill_keeps_sale() {
    let p = posted(100, 3);
    let (_, abump) = authority();
    let mut ctx = take_ctx(&p, 2, 4, 1_000);
    assert_eq!(take_sale(&mut ctx, abump, 99), Ok(()));
    assert_eq!(ctx.buyer_token_account.amount, 99);
    assert_eq!(ctx.buyer.lamports, 1_000 - 297);
    assert_eq!(ctx.seller.lamports, 5_000 + 297);
    assert_eq!(ctx.seller_token_account.delegated_amount, 1);
    assert_eq!(snapshot(&ctx.sale), snapshot(&p.sale));
}

#[test]
fn take_sale_whole_allowance_closes_sale() {
    let p = posted(100, 0);
    let (_, abump) = authority();
    let mut ctx = take_ctx(&p, 2, 4, 0);
    assert_eq!(take_sale(&mut ctx, abump, 100), Ok(()));
    assert_eq!(ctx.buyer_token_account.amount, 100);
    assert_eq!(ctx.seller.lamports, 5_000 + DEPOSIT);
    assert!(ctx.sale.sale.is_none());
}

#[test]
fn take_sale_beyond_allowance_fails() {
    let mut p = posted(50, 1);
    p.seller_token_account.amount = 100;
    assert_eq!(take_error(take_ctx(&p, 2, 4, 1_000), 51), (Err(EscrowError::InsufficientBalance), true));
}

#[test]
fn take_sale_beyond_balance_fails() {
    let mut p = posted(100, 1);
    p.seller_token_account.amount = 10;
    assert_eq!(take_error(take_ctx(&p, 2, 4, 1_000), 11), (Err(EscrowError::InsufficientBalance), true));
}

#[test]
fn take_sale_buyer_without_funds_fails() {
    let p = posted(100, 5);
    assert_eq!(take_error(take_ctx(&p, 2, 4, 199), 40), (Err(EscrowError::InsufficientBalance), true));
}

#[test]
fn take_sale_checks_accounts() {
    let p = posted(100, 5);
    let mut ctx = take_ctx(&p, 2, 4, 1_000);
    ctx.buyer.is_signer = false;
    assert_eq!(take_error(ctx, 1), (Err(EscrowError::Unauthorized), true));

    let mut ctx = take_ctx(&p, 2, 4, 1_000);
    ctx.buyer_token_account.owner = addr(12);
    assert_eq!(take_error(ctx, 1), (Err(EscrowError::OwnerMismatch), true));

    let mut ctx = take_ctx(&p, 2, 4, 1_000);
    ctx.buyer_token_account.mint = addr(13);
    assert_eq!(take_error(ctx, 1), (Err(EscrowError::MintMismatch), true));

    let mut ctx = take_ctx(&p, 2, 4, 1_000);
    ctx.seller.key = addr(14);
    assert_eq!(take_error(ctx, 1), (Err(EscrowError::OwnerMismatch), true));

    let mut ctx = take_ctx(&p, 2, 4, 1_000);
    ctx.sale.sale = None;
    assert_eq!(take_error(ctx, 1), (Err(EscrowError::SaleNotFound), true));

    let mut ctx = take_ctx(&p, 2, 4, 1_000);
    ctx.sale.key = addr(15);
    assert_eq!(take_error(ctx, 1), (Err(EscrowError::AddressMismatch), true));

    let mut ctx = take_ctx(&p, 2, 4, 1_000);
    ctx.book_authority = addr(16);
    assert_eq!(take_error(ctx, 1), (Err(EscrowError::AddressMismatch), true));

    let mut ctx = take_ctx(&p, 2, 4, 1_000);
    ctx.seller_token_account.delegate = None;
    assert_eq!(take_error(ctx, 1), (Err(EscrowError::InvalidDelegation), true));
}

#[test]
fn take_sale_rejects_wrong_authority_bump() {
    let p = posted(100, 5);
    let mut ctx = take_ctx(&p, 2, 4, 1_000);
    let before = snapshot(&ctx);
    let (_, abump) = authority();
    assert_eq!(take_sale(&mut ctx, abump.wrapping_sub(1), 1), Err(EscrowError::AddressMismatch));
    assert_eq!(before, snapshot(&ctx));
}

#[test]
fn take_sale_transfer_contexts() {
    let p = posted(100, 5);
    let ctx = take_ctx(&p, 2, 4, 1_000);
    let tokens = ctx.into_transfer_tokens_to_buyer_context();
    assert_eq!(tokens.from.bytes, [3; 32]);
    assert_eq!(tokens.to.bytes, [4; 32]);
    assert_eq!(tokens.authority.bytes, authority().0.bytes);
    let lamports = ctx.into_transfer_lamports_to_seller_context();
    assert_eq!(lamports.from.bytes, [2; 32]);
    assert_eq!(lamports.to.bytes, [1; 32]);
}

fn price_ctx(signer: u8, signed: bool) -> ChangeSalePrice {
    let p = posted(100, 5);
    ChangeSalePrice { seller: wallet(signer, 0, signed), sale: p.sale }
}

#[test]
fn change_sale_price_by_seller() {
    let mut ctx = price_ctx(1, true);
    assert_eq!(change_sale_price(&mut ctx, 9), Ok(()));
    let sale = ctx.sale.sale.expect("record");
    assert_eq!(sale.token_price, 9);
    assert_eq!(sale.seller.bytes, [1; 32]);
    assert_eq!(sale.token_account.bytes, [3; 32]);
    assert_eq!(ctx.sale.lamports, DEPOSIT);
}

#[test]
fn change_sale_price_by_other_fails() {
    let mut ctx = price_ctx(2, true);
    let before = snapshot(&ctx);
    assert_eq!(change_sale_price(&mut ctx, 9), Err(EscrowError::Unauthorized));
    assert_eq!(before, snapshot(&ctx));
    assert_eq!(ctx.sale.sale.expect("record").token_price, 5);
    let mut ctx = price_ctx(1, false);
    assert_eq!(change_sale_price(&mut ctx, 9), Err(EscrowError::Unauthorized));
}

fn close_ctx(allowance_left: u64, policy: ClosePolicy) -> CloseSale {
    let p = posted(100, 5);
    let mut holding = p.seller_token_account;
    holding.delegated_amount = allowance_left;
    CloseSale {
        program_id: program(),
        closer: wallet(20, 10, false),
        seller: Wallet { is_signer: false, ..p.seller },
        seller_token_account: holding,
        sale: p.sale,
        policy,
    }
}

#[test]
fn close_sale_with_allowance_left_fails() {
    let mut ctx = close_ctx(1, ClosePolicy::CreditCloser);
    let before = snapshot(&ctx);
    assert_eq!(close_sale(&mut ctx), Err(EscrowError::NotYetClosable));
    assert_eq!(before, snapshot(&ctx));
}

#[test]
fn close_sale_by_anyone_credits_closer() {
    let mut ctx = close_ctx(0, ClosePolicy::CreditCloser);
    assert_eq!(close_sale(&mut ctx), Ok(()));
    assert!(ctx.sale.sale.is_none());
    assert_eq!(ctx.sale.lamports, 0);
    assert_eq!(ctx.closer.lamports, 10 + DEPOSIT);
    assert_eq!(ctx.seller.lamports, 5_000);
}

#[test]
fn close_sale_crediting_seller() {
    let mut ctx = close_ctx(0, ClosePolicy::CreditSeller);
    assert_eq!(close_sale(&mut ctx), Ok(()));
    assert!(ctx.sale.sale.is_none());
    assert_eq!(ctx.closer.lamports, 10);
    assert_eq!(ctx.seller.lamports, 5_000 + DEPOSIT);
}

#[test]
fn close_sale_checks_accounts() {
    let mut ctx = close_ctx(0, ClosePolicy::CreditCloser);
    ctx.seller.key = addr(21);
    assert_eq!(close_sale(&mut ctx), Err(EscrowError::OwnerMismatch));
    let mut ctx = close_ctx(0, ClosePolicy::CreditCloser);
    ctx.sale.sale = None;
    assert_eq!(close_sale(&mut ctx), Err(EscrowError::SaleNotFound));
    let mut ctx = close_ctx(0, ClosePolicy::CreditCloser);
    ctx.sale.key = addr(22);
    assert_eq!(close_sale(&mut ctx), Err(EscrowError::AddressMismatch));
    let mut ctx = close_ctx(0, ClosePolicy::CreditCloser);
    ctx.closer.lamports = u64::MAX;
    assert_eq!(close_sale(&mut ctx), Err(EscrowError::ArithmeticOverflow));
}

#[test]
fn signer_transfer_moves_lamports() {
    let mut from = wallet(1, 100, true);
    let mut to = wallet(2, 5, false);
    assert_eq!(transfer_from_signer(&mut from, &mut to, 30), Ok(()));
    assert_eq!((from.lamports, to.lamports), (70, 35));
    assert_eq!(transfer_from_signer(&mut from, &mut to, 71), Err(EscrowError::InsufficientBalance));
    from.is_signer = false;
    assert_eq!(transfer_from_signer(&mut from, &mut to, 1), Err(EscrowError::Unauthorized));
    let mut full = wallet(3, u64::MAX, false);
    let mut payer = wallet(4, 1, true);
    assert_eq!(transfer_from_signer(&mut payer, &mut full, 1), Err(EscrowError::ArithmeticOverflow));
}

#[test]
fn delegate_transfer_moves_tokens() {
    let (auth, abump) = authority();
    let mut from = holding(3, 1, 100, Some(auth), 50);
    let mut to = holding(4, 2, u64::MAX - 10, None, 0);
    assert_eq!(
        transfer_from_pda(&mut from, &mut to, &program(), &auth, abump, 11),
        Err(EscrowError::ArithmeticOverflow)
    );
    to.amount = 0;
    assert_eq!(transfer_from_pda(&mut from, &mut to, &program(), &auth, abump, 20), Ok(()));
    assert_eq!((from.amount, from.delegated_amount, to.amount), (80, 30, 20));
    to.mint = addr(30);
    assert_eq!(
        transfer_from_pda(&mut from, &mut to, &program(), &auth, abump, 1),
        Err(EscrowError::MintMismatch)
    );
}
