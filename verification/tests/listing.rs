use gpu_dex::authority::derive_listing_authority;
use gpu_dex::listing::{
    buy_listing_with, cancel_listing_with, create_listing_with, MIN_LISTING_AMOUNT,
};
use gpu_dex::{
    buy_listing, cancel_listing, close_listing, create_listing, Authority, BuyListing,
    CancelListing, CloseListing, CreateListing, ErrorCode, Fill, Identity, Listing, Marketplace,
    Refund, TokenAccount, Wallet,
};

fn id(n: u8) -> Identity {
    Identity::new([n; 32])
}

fn program() -> Identity {
    id(200)
}

fn seller() -> Identity {
    id(1)
}

fn buyer() -> Identity {
    id(2)
}

fn custodian_of(listing_id: u64) -> Authority {
    derive_listing_authority(&program(), &seller(), listing_id).unwrap()
}

fn fresh(count: u64, funds: u64) -> CreateListing {
    CreateListing {
        program_id: program(),
        listing: None,
        marketplace: Marketplace { authority: id(9), listing_count: count },
        escrow_token_account: None,
        seller_token_account: TokenAccount { owner: seller(), amount: funds },
        seller: seller(),
    }
}

fn purchase(listing: Listing, escrow: TokenAccount, lamports: u64) -> BuyListing {
    BuyListing {
        program_id: program(),
        listing,
        escrow_token_account: escrow,
        buyer_token_account: TokenAccount { owner: buyer(), amount: 0 },
        buyer: Wallet { key: buyer(), lamports },
        seller_sol_account: Wallet { key: seller(), lamports: 0 },
    }
}

fn active(price: u64, amount: u64) -> (Listing, TokenAccount) {
    (
        Listing { seller: seller(), price, amount, is_active: true, listing_id: 4 },
        TokenAccount { owner: custodian_of(4).identity, amount },
    )
}

#[test]
fn create_fills_record_registry_and_escrow() {
    let mut ctx = fresh(5, 20_000_000);
    assert_eq!(create_listing(&mut ctx, 3, 8_000_000), Ok(5));
    assert_eq!(
        ctx.listing,
        Some(Listing {
            seller: seller(),
            price: 3,
            amount: 8_000_000,
            is_active: true,
            listing_id: 5
        })
    );
    assert_eq!(ctx.marketplace, Marketplace { authority: id(9), listing_count: 6 });
    assert_eq!(
        ctx.escrow_token_account,
        Some(TokenAccount { owner: custodian_of(5).identity, amount: 8_000_000 })
    );
    assert_eq!(ctx.seller_token_account, TokenAccount { owner: seller(), amount: 12_000_000 });
    assert_eq!(ctx.seller, seller());
    assert_eq!(ctx.program_id, program());
}

#[test]
fn create_accepts_the_smallest_lot() {
    let mut ctx = fresh(0, MIN_LISTING_AMOUNT);
    assert_eq!(MIN_LISTING_AMOUNT, 1_000_000);
    assert_eq!(create_listing(&mut ctx, 1, MIN_LISTING_AMOUNT), Ok(0));
    assert_eq!(ctx.seller_token_account.amount, 0);
}

#[test]
fn create_refuses_zero_price() {
    let mut ctx = fresh(0, 20_000_000);
    let before = ctx;
    assert_eq!(create_listing(&mut ctx, 0, 8_000_000), Err(ErrorCode::InvalidPrice));
    assert_eq!(ctx, before);
    assert_eq!(create_listing(&mut ctx, 0, 0), Err(ErrorCode::InvalidPrice));
}

#[test]
fn create_refuses_zero_amount() {
    let mut ctx = fresh(0, 20_000_000);
    let before = ctx;
    assert_eq!(create_listing(&mut ctx, 5, 0), Err(ErrorCode::InvalidAmount));
    assert_eq!(ctx, before);
}

#[test]
fn create_refuses_dust() {
    let mut ctx = fresh(0, 20_000_000);
    let before = ctx;
    assert_eq!(create_listing(&mut ctx, 5, 999_999), Err(ErrorCode::AmountTooSmall));
    assert_eq!(create_listing(&mut ctx, 5, 1), Err(ErrorCode::AmountTooSmall));
    assert_eq!(ctx, before);
}

#[test]
fn create_refuses_an_occupied_slot() {
    let mut ctx = fresh(0, 20_000_000);
    assert_eq!(create_listing(&mut ctx, 5, 2_000_000), Ok(0));
    let before = ctx;
    assert_eq!(create_listing(&mut ctx, 5, 2_000_000), Err(ErrorCode::AlreadyInitialized));
    assert_eq!(ctx, before);
    let mut escrow_only = fresh(0, 20_000_000);
    escrow_only.escrow_token_account = Some(TokenAccount { owner: id(3), amount: 0 });
    assert_eq!(create_listing(&mut escrow_only, 5, 2_000_000), Err(ErrorCode::AlreadyInitialized));
}

#[test]
fn create_refuses_when_the_registry_is_exhausted() {
    let mut ctx = fresh(u64::MAX, 20_000_000);
    let before = ctx;
    assert_eq!(create_listing(&mut ctx, 5, 2_000_000), Err(ErrorCode::Overflow));
    assert_eq!(ctx, before);
}

#[test]
fn create_refuses_without_a_custodian() {
    let mut ctx = fresh(0, 20_000_000);
    let before = ctx;
    assert_eq!(
        create_listing_with(&mut ctx, 5, 2_000_000, None),
        Err(ErrorCode::DerivationFailed)
    );
    assert_eq!(ctx, before);
}

#[test]
fn create_refuses_a_holding_of_someone_else() {
    let mut ctx = fresh(0, 20_000_000);
    ctx.seller_token_account.owner = buyer();
    let before = ctx;
    assert_eq!(create_listing(&mut ctx, 5, 2_000_000), Err(ErrorCode::Unauthorized));
    assert_eq!(ctx, before);
}

#[test]
fn create_refuses_more_than_the_seller_holds() {
    let mut ctx = fresh(3, 1_999_999);
    let before = ctx;
    assert_eq!(create_listing(&mut ctx, 5, 2_000_000), Err(ErrorCode::InsufficientFunds));
    assert_eq!(ctx, before);
    assert_eq!(ctx.marketplace.listing_count, 3);
}

#[test]
fn create_checks_the_request_before_anything_else() {
    let mut ctx = fresh(u64::MAX, 0);
    ctx.listing = Some(active(1, 1).0);
    assert_eq!(create_listing_with(&mut ctx, 0, 0, None), Err(ErrorCode::InvalidPrice));
    assert_eq!(create_listing_with(&mut ctx, 1, 0, None), Err(ErrorCode::InvalidAmount));
    assert_eq!(create_listing_with(&mut ctx, 1, 5, None), Err(ErrorCode::AmountTooSmall));
    assert_eq!(
        create_listing_with(&mut ctx, 1, 5_000_000, None),
        Err(ErrorCode::AlreadyInitialized)
    );
    ctx.listing = None;
    assert_eq!(create_listing_with(&mut ctx, 1, 5_000_000, None), Err(ErrorCode::Overflow));
}

#[test]
fn create_under_a_given_custodian_hands_it_the_escrow() {
    let mut ctx = fresh(0, 20_000_000);
    let given = Authority { identity: id(77), bump: 3 };
    assert_eq!(create_listing_with(&mut ctx, 5, 2_000_000, Some(given)), Ok(0));
    assert_eq!(ctx.escrow_token_account, Some(TokenAccount { owner: id(77), amount: 2_000_000 }));
}

#[test]
fn buy_settles_payment_and_asset() {
    let (listing, escrow) = active(2_000_000_000, 10_000_000);
    let mut ctx = purchase(listing, escrow, 50_000_000);
    ctx.seller_sol_account.lamports = 11;
    ctx.buyer_token_account.amount = 5;
    let fill = buy_listing(&mut ctx, 4_000_000);
    assert_eq!(fill, Ok(Fill { total_price: 8_000_000, custodian: custodian_of(4) }));
    assert_eq!(ctx.listing, Listing { amount: 6_000_000, ..listing });
    assert_eq!(ctx.escrow_token_account, TokenAccount { amount: 6_000_000, ..escrow });
    assert_eq!(ctx.buyer_token_account, TokenAccount { owner: buyer(), amount: 4_000_005 });
    assert_eq!(ctx.buyer, Wallet { key: buyer(), lamports: 42_000_000 });
    assert_eq!(ctx.seller_sol_account, Wallet { key: seller(), lamports: 8_000_011 });
}

#[test]
fn buy_of_nothing_changes_nothing() {
    let (listing, escrow) = active(2_000_000_000, 10_000_000);
    let mut ctx = purchase(listing, escrow, 0);
    let before = ctx;
    assert_eq!(buy_listing(&mut ctx, 0), Ok(Fill { total_price: 0, custodian: custodian_of(4) }));
    assert_eq!(ctx, before);
}

#[test]
fn buy_rounds_the_payment_down() {
    let (listing, escrow) = active(1_500_000_000, 10_000_000);
    let mut ctx = purchase(listing, escrow, 100);
    assert_eq!(buy_listing(&mut ctx, 3).map(|f| f.total_price), Ok(4));
    assert_eq!(ctx.buyer.lamports, 96);
    assert_eq!(buy_listing(&mut ctx, 1).map(|f| f.total_price), Ok(1));
    assert_eq!(ctx.buyer.lamports, 95);
    assert_eq!(ctx.listing.amount, 9_999_996);
}

#[test]
fn buy_refuses_an_inactive_listing() {
    let (mut listing, mut escrow) = active(2_000_000_000, 10_000_000);
    listing.is_active = false;
    listing.amount = 0;
    escrow.amount = 0;
    let mut ctx = purchase(listing, escrow, 50_000_000);
    let before = ctx;
    assert_eq!(buy_listing(&mut ctx, 0), Err(ErrorCode::ListingNotActive));
    assert_eq!(buy_listing(&mut ctx, 1), Err(ErrorCode::ListingNotActive));
    assert_eq!(ctx, before);
}

#[test]
fn buy_refuses_more_than_is_listed() {
    let (listing, escrow) = active(2_000_000_000, 10_000_000);
    let mut ctx = purchase(listing, escrow, u64::MAX);
    let before = ctx;
    assert_eq!(buy_listing(&mut ctx, 10_000_001), Err(ErrorCode::InsufficientAmount));
    assert_eq!(buy_listing(&mut ctx, u64::MAX), Err(ErrorCode::InsufficientAmount));
    assert_eq!(ctx, before);
}

#[test]
fn buy_refuses_a_price_beyond_64_bits() {
    let (listing, escrow) = active(u64::MAX, 2_000_000_000);
    let mut ctx = purchase(listing, escrow, u64::MAX);
    let before = ctx;
    assert_eq!(buy_listing(&mut ctx, 1_000_000_001), Err(ErrorCode::Overflow));
    assert_eq!(ctx, before);
    assert_eq!(buy_listing(&mut ctx, 1_000_000_000).map(|f| f.total_price), Ok(u64::MAX));
    assert_eq!(ctx.buyer.lamports, 0);
}

#[test]
fn buy_refuses_to_pay_anyone_but_the_seller() {
    let (listing, escrow) = active(2_000_000_000, 10_000_000);
    let mut ctx = purchase(listing, escrow, 50_000_000);
    ctx.seller_sol_account.key = id(66);
    let before = ctx;
    assert_eq!(buy_listing(&mut ctx, 1_000_000), Err(ErrorCode::Unauthorized));
    assert_eq!(ctx, before);
}

#[test]
fn buy_refuses_a_buyer_who_cannot_pay() {
    let (listing, escrow) = active(2_000_000_000, 10_000_000);
    let mut ctx = purchase(listing, escrow, 7_999_999);
    let before = ctx;
    assert_eq!(buy_listing(&mut ctx, 4_000_000), Err(ErrorCode::InsufficientFunds));
    assert_eq!(ctx, before);
}

#[test]
fn buy_refuses_a_payment_that_overflows_the_seller() {
    let (listing, escrow) = active(2_000_000_000, 10_000_000);
    let mut ctx = purchase(listing, escrow, 50_000_000);
    ctx.seller_sol_account.lamports = u64::MAX - 7_999_999;
    let before = ctx;
    assert_eq!(buy_listing(&mut ctx, 4_000_000), Err(ErrorCode::Overflow));
    assert_eq!(ctx, before);
}

#[test]
fn buy_refuses_without_a_custodian() {
    let (listing, escrow) = active(2_000_000_000, 10_000_000);
    let mut ctx = purchase(listing, escrow, 50_000_000);
    let before = ctx;
    assert_eq!(buy_listing_with(&mut ctx, 4_000_000, None), Err(ErrorCode::DerivationFailed));
    assert_eq!(ctx, before);
}

#[test]
fn buy_refuses_an_escrow_of_another_custodian() {
    let (listing, mut escrow) = active(2_000_000_000, 10_000_000);
    escrow.owner = custodian_of(5).identity;
    let mut ctx = purchase(listing, escrow, 50_000_000);
    let before = ctx;
    assert_eq!(buy_listing(&mut ctx, 4_000_000), Err(ErrorCode::Unauthorized));
    assert_eq!(ctx, before);
    let stranger = Authority { identity: seller(), bump: 255 };
    assert_eq!(
        buy_listing_with(&mut ctx, 4_000_000, Some(stranger)),
        Err(ErrorCode::Unauthorized)
    );
    assert_eq!(ctx, before);
}

#[test]
fn buy_refuses_an_escrow_that_holds_too_little() {
    let (listing, mut escrow) = active(2_000_000_000, 10_000_000);
    escrow.amount = 3_999_999;
    let mut ctx = purchase(listing, escrow, 50_000_000);
    let before = ctx;
    assert_eq!(buy_listing(&mut ctx, 4_000_000), Err(ErrorCode::InsufficientFunds));
    assert_eq!(ctx, before);
}

#[test]
fn buy_refuses_to_overflow_the_buyers_holding() {
    let (listing, escrow) = active(2_000_000_000, 10_000_000);
    let mut ctx = purchase(listing, escrow, 50_000_000);
    ctx.buyer_token_account.amount = u64::MAX - 3_999_999;
    let before = ctx;
    assert_eq!(buy_listing(&mut ctx, 4_000_000), Err(ErrorCode::Overflow));
    assert_eq!(ctx, before);
}

#[test]
fn buy_by_the_seller_pays_nothing_away() {
    let (listing, escrow) = active(2_000_000_000, 10_000_000);
    let mut ctx = purchase(listing, escrow, 0);
    ctx.buyer = Wallet { key: seller(), lamports: 9_000_000 };
    ctx.seller_sol_account = Wallet { key: seller(), lamports: 9_000_000 };
    assert_eq!(buy_listing(&mut ctx, 4_000_000).map(|f| f.total_price), Ok(8_000_000));
    assert_eq!(ctx.buyer.lamports, 9_000_000);
    assert_eq!(ctx.seller_sol_account.lamports, 9_000_000);
    assert_eq!(ctx.buyer_token_account.amount, 4_000_000);
    assert_eq!(ctx.listing.amount, 6_000_000);
    assert_eq!(buy_listing(&mut ctx, 5_000_000), Err(ErrorCode::InsufficientFunds));
}

fn withdrawal(listing: Listing, escrow: TokenAccount) -> CancelListing {
    CancelListing {
        program_id: program(),
        listing,
        escrow_token_account: escrow,
        seller_token_account: TokenAccount { owner: seller(), amount: 30 },
        seller: seller(),
    }
}

#[test]
fn cancel_returns_what_is_unsold() {
    let (listing, escrow) = active(2_000_000_000, 10_000_000);
    let mut ctx = withdrawal(listing, escrow);
    assert_eq!(
        cancel_listing(&mut ctx),
        Ok(Refund { amount: 10_000_000, custodian: custodian_of(4) })
    );
    assert_eq!(ctx.listing, Listing { amount: 0, is_active: false, ..listing });
    assert_eq!(ctx.escrow_token_account, TokenAccount { amount: 0, ..escrow });
    assert_eq!(ctx.seller_token_account, TokenAccount { owner: seller(), amount: 10_000_030 });
}

#[test]
fn cancel_refuses_anyone_but_the_seller() {
    let (listing, escrow) = active(2_000_000_000, 10_000_000);
    let mut ctx = withdrawal(listing, escrow);
    ctx.seller = buyer();
    let before = ctx;
    assert_eq!(cancel_listing(&mut ctx), Err(ErrorCode::Unauthorized));
    assert_eq!(ctx, before);
}

#[test]
fn cancel_refuses_an_inactive_listing() {
    let (mut listing, mut escrow) = active(2_000_000_000, 10_000_000);
    listing.is_active = false;
    listing.amount = 0;
    escrow.amount = 0;
    let mut ctx = withdrawal(listing, escrow);
    let before = ctx;
    assert_eq!(cancel_listing(&mut ctx), Err(ErrorCode::ListingNotActive));
    assert_eq!(ctx, before);
}

#[test]
fn cancel_refuses_without_a_custodian() {
    let (listing, escrow) = active(2_000_000_000, 10_000_000);
    let mut ctx = withdrawal(listing, escrow);
    let before = ctx;
    assert_eq!(cancel_listing_with(&mut ctx, None), Err(ErrorCode::DerivationFailed));
    assert_eq!(ctx, before);
}

#[test]
fn cancel_refuses_an_escrow_of_another_custodian() {
    let (listing, mut escrow) = active(2_000_000_000, 10_000_000);
    escrow.owner = seller();
    let mut ctx = withdrawal(listing, escrow);
    let before = ctx;
    assert_eq!(cancel_listing(&mut ctx), Err(ErrorCode::Unauthorized));
    assert_eq!(ctx, before);
}

#[test]
fn cancel_refuses_an_escrow_that_holds_too_little() {
    let (listing, mut escrow) = active(2_000_000_000, 10_000_000);
    escrow.amount = 9_999_999;
    let mut ctx = withdrawal(listing, escrow);
    let before = ctx;
    assert_eq!(cancel_listing(&mut ctx), Err(ErrorCode::InsufficientFunds));
    assert_eq!(ctx, before);
}

#[test]
fn cancel_refuses_to_overflow_the_sellers_holding() {
    let (listing, escrow) = active(2_000_000_000, 10_000_000);
    let mut ctx = withdrawal(listing, escrow);
    ctx.seller_token_account.amount = u64::MAX - 9_999_999;
    let before = ctx;
    assert_eq!(cancel_listing(&mut ctx), Err(ErrorCode::Overflow));
    assert_eq!(ctx, before);
}

#[test]
fn close_releases_an_ended_listing() {
    let (listing, _) = active(2_000_000_000, 10_000_000);
    let ended = Listing { amount: 0, is_active: false, ..listing };
    let mut ctx = CloseListing { listing: Some(ended), seller: seller() };
    assert_eq!(close_listing(&mut ctx), Ok(()));
    assert_eq!(ctx, CloseListing { listing: None, seller: seller() });
}

#[test]
fn close_refuses_a_record_that_is_gone() {
    let mut ctx = CloseListing { listing: None, seller: seller() };
    assert_eq!(close_listing(&mut ctx), Err(ErrorCode::NotInitialized));
    assert_eq!(ctx, CloseListing { listing: None, seller: seller() });
}

#[test]
fn close_refuses_anyone_but_the_seller() {
    let (listing, _) = active(2_000_000_000, 10_000_000);
    let ended = Listing { amount: 0, is_active: false, ..listing };
    let mut ctx = CloseListing { listing: Some(ended), seller: buyer() };
    assert_eq!(close_listing(&mut ctx), Err(ErrorCode::Unauthorized));
    assert_eq!(ctx.listing, Some(ended));
}

#[test]
fn close_refuses_an_active_listing() {
    let (listing, _) = active(2_000_000_000, 10_000_000);
    let mut ctx = CloseListing { listing: Some(listing), seller: seller() };
    assert_eq!(close_listing(&mut ctx), Err(ErrorCode::ListingStillActive));
    assert_eq!(ctx.listing, Some(listing));
    let empty_but_active = Listing { amount: 0, ..listing };
    let mut ctx = CloseListing { listing: Some(empty_but_active), seller: seller() };
    assert_eq!(close_listing(&mut ctx), Err(ErrorCode::ListingStillActive));
}

#[test]
fn close_refuses_a_listing_that_still_owes() {
    let (listing, _) = active(2_000_000_000, 10_000_000);
    let owing = Listing { is_active: false, ..listing };
    let mut ctx = CloseListing { listing: Some(owing), seller: seller() };
    assert_eq!(close_listing(&mut ctx), Err(ErrorCode::ListingHasTokens));
    assert_eq!(ctx.listing, Some(owing));
}
