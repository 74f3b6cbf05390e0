use vstd::prelude::*;
use crate::authority::{derive_listing_authority, listing_custodian, Authority};
use crate::error::ErrorCode;
use crate::identity::Identity;
use crate::pricing::{quote, total_price};
use crate::registry::Marketplace;
use crate::settlement::{
    asset_moved, currency_moved, transfer_asset, transfer_currency, TokenAccount, Wallet,
};

verus! {

/// The smallest amount that can be listed.
pub const MIN_LISTING_AMOUNT: u64 = 1_000_000;

/// A seller's standing offer: so much of the asset, at a fixed unit price.
#[derive(Clone, Copy, Debug, PartialEq, Eq)]
pub struct Listing {
    /// Who opened the listing, and is paid for what it sells.
    pub seller: Identity,
    /// The price of `PRICE_SCALE` base units of the asset, in base units of the currency.
    pub price: u64,
    /// What is still unsold.
    pub amount: u64,
    /// Whether the listing still trades.
    pub is_active: bool,
    /// The number that the registry gave the listing.
    pub listing_id: u64,
}

impl Listing {
    /// What holds of every listing that the transitions produce: it has a price, and it trades
    /// exactly as long as something is left to sell.
    pub open spec fn well_formed(self) -> bool {
        &&& self.price > 0
        &&& self.is_active <==> self.amount > 0
    }
}

/// The central invariant of custody: the listing is well formed, and its escrow holds exactly
/// what the listing still offers.
pub open spec fn in_custody(listing: Listing, escrow: TokenAccount) -> bool {
    &&& listing.well_formed()
    &&& escrow.amount == listing.amount
}

/// What opening a listing works on. The holdings named here are different accounts.
#[derive(Clone, Copy, Debug, PartialEq, Eq)]
pub struct CreateListing {
    /// The program under which custodians are derived.
    pub program_id: Identity,
    /// The slot of the new listing's record, empty until the listing is opened.
    pub listing: Option<Listing>,
    /// The registry that numbers the listing.
    pub marketplace: Marketplace,
    /// The slot of the new listing's escrow, empty until the listing is opened.
    pub escrow_token_account: Option<TokenAccount>,
    /// The holding from which the seller funds the escrow.
    pub seller_token_account: TokenAccount,
    /// Who opens the listing.
    pub seller: Identity,
}

/// What a purchase works on. The two holdings of the asset named here are different accounts;
/// the two wallets are one account exactly if their keys are the same.
#[derive(Clone, Copy, Debug, PartialEq, Eq)]
pub struct BuyListing {
    /// The program under which custodians are derived.
    pub program_id: Identity,
    /// The listing that is bought from.
    pub listing: Listing,
    /// The escrow that holds the listing's inventory.
    pub escrow_token_account: TokenAccount,
    /// The holding that receives what is bought.
    pub buyer_token_account: TokenAccount,
    /// The wallet that pays.
    pub buyer: Wallet,
    /// The wallet that is paid, which must be the seller's.
    pub seller_sol_account: Wallet,
}

/// What a cancellation works on. The two holdings named here are different accounts.
#[derive(Clone, Copy, Debug, PartialEq, Eq)]
pub struct CancelListing {
    /// The program under which custodians are derived.
    pub program_id: Identity,
    /// The listing that is withdrawn.
    pub listing: Listing,
    /// The escrow that holds the listing's inventory.
    pub escrow_token_account: TokenAccount,
    /// The holding that receives what was not sold.
    pub seller_token_account: TokenAccount,
    /// Who asks for the cancellation.
    pub seller: Identity,
}

/// What releasing a listing's record works on.
#[derive(Clone, Copy, Debug, PartialEq, Eq)]
pub struct CloseListing {
    /// The slot of the listing's record, empty once the record has been released.
    pub listing: Option<Listing>,
    /// Who asks for the release.
    pub seller: Identity,
}

/// What a purchase settled: the payment that went to the seller, and the custodian under which
/// the escrow released the asset.
#[derive(Clone, Copy, Debug, PartialEq, Eq)]
pub struct Fill {
    pub total_price: u64,
    pub custodian: Authority,
}

/// What a cancellation settled: the amount that went back to the seller, and the custodian under
/// which the escrow released it.
#[derive(Clone, Copy, Debug, PartialEq, Eq)]
pub struct Refund {
    pub amount: u64,
    pub custodian: Authority,
}

/// What opening a listing of `amount` at `price` gives, where `custodian` is what was derived
/// for the new listing: the state afterwards and the listing's number, or the reason for which
/// the request is refused.
pub open spec fn listing_created(
    ctx: CreateListing,
    price: u64,
    amount: u64,
    custodian: Option<Authority>,
) -> Result<(CreateListing, u64), ErrorCode> {
    if price == 0 {
        Err(ErrorCode::InvalidPrice)
    } else if amount == 0 {
        Err(ErrorCode::InvalidAmount)
    } else if amount < MIN_LISTING_AMOUNT {
        Err(ErrorCode::AmountTooSmall)
    } else if ctx.listing is Some || ctx.escrow_token_account is Some {
        Err(ErrorCode::AlreadyInitialized)
    } else if ctx.marketplace.listing_count == u64::MAX {
        Err(ErrorCode::Overflow)
    } else {
        match custodian {
            None => Err(ErrorCode::DerivationFailed),
            Some(c) => match asset_moved(
                ctx.seller_token_account,
                TokenAccount { owner: c.identity, amount: 0 },
                ctx.seller,
                amount,
            ) {
                Err(e) => Err(e),
                Ok((seller_tokens, escrow)) => Ok(
                    (
                        CreateListing {
                            listing: Some(
                                Listing {
                                    seller: ctx.seller,
                                    price,
                                    amount,
                                    is_active: true,
                                    listing_id: ctx.marketplace.listing_count,
                                },
                            ),
                            marketplace: Marketplace {
                                listing_count: (ctx.marketplace.listing_count + 1) as u64,
                                ..ctx.marketplace
                            },
                            escrow_token_account: Some(escrow),
                            seller_token_account: seller_tokens,
                            ..ctx
                        },
                        ctx.marketplace.listing_count,
                    ),
                ),
            },
        }
    }
}

/// What buying `amount` from the listing gives, where `custodian` is what was derived for the
/// listing: the state afterwards and what was settled, or the reason for which the request is
/// refused.
pub open spec fn listing_bought(ctx: BuyListing, amount: u64, custodian: Option<Authority>) -> Result<
    (BuyListing, Fill),
    ErrorCode,
> {
    if !ctx.listing.is_active {
        Err(ErrorCode::ListingNotActive)
    } else if amount > ctx.listing.amount {
        Err(ErrorCode::InsufficientAmount)
    } else if quote(ctx.listing.price, amount) > u64::MAX {
        Err(ErrorCode::Overflow)
    } else if ctx.seller_sol_account.key@ != ctx.listing.seller@ {
        Err(ErrorCode::Unauthorized)
    } else {
        match currency_moved(
            ctx.buyer,
            ctx.seller_sol_account,
            quote(ctx.listing.price, amount) as u64,
        ) {
            Err(e) => Err(e),
            Ok((buyer, seller_wallet)) => match custodian {
                None => Err(ErrorCode::DerivationFailed),
                Some(c) => match asset_moved(
                    ctx.escrow_token_account,
                    ctx.buyer_token_account,
                    c.identity,
                    amount,
                ) {
                    Err(e) => Err(e),
                    Ok((escrow, buyer_tokens)) => Ok(
                        (
                            BuyListing {
                                listing: Listing {
                                    amount: (ctx.listing.amount - amount) as u64,
                                    is_active: ctx.listing.amount != amount,
                                    ..ctx.listing
                                },
                                escrow_token_account: escrow,
                                buyer_token_account: buyer_tokens,
                                buyer,
                                seller_sol_account: seller_wallet,
                                ..ctx
                            },
                            Fill {
                                total_price: quote(ctx.listing.price, amount) as u64,
                                custodian: c,
                            },
                        ),
                    ),
                },
            },
        }
    }
}

/// What withdrawing the listing gives, where `custodian` is what was derived for the listing:
/// the state afterwards and what was settled, or the reason for which the request is refused.
pub open spec fn listing_cancelled(ctx: CancelListing, custodian: Option<Authority>) -> Result<
    (CancelListing, Refund),
    ErrorCode,
> {
    if ctx.seller@ != ctx.listing.seller@ {
        Err(ErrorCode::Unauthorized)
    } else if !ctx.listing.is_active {
        Err(ErrorCode::ListingNotActive)
    } else {
        match custodian {
            None => Err(ErrorCode::DerivationFailed),
            Some(c) => match asset_moved(
                ctx.escrow_token_account,
                ctx.seller_token_account,
                c.identity,
                ctx.listing.amount,
            ) {
                Err(e) => Err(e),
                Ok((escrow, seller_tokens)) => Ok(
                    (
                        CancelListing {
                            listing: Listing { amount: 0, is_active: false, ..ctx.listing },
                            escrow_token_account: escrow,
                            seller_token_account: seller_tokens,
                            ..ctx
                        },
                        Refund { amount: ctx.listing.amount, custodian: c },
                    ),
                ),
            },
        }
    }
}

/// What releasing the listing's record gives: the state afterwards, with the slot empty, or the
/// reason for which the request is refused.
pub open spec fn listing_closed(ctx: CloseListing) -> Result<CloseListing, ErrorCode> {
    match ctx.listing {
        None => Err(ErrorCode::NotInitialized),
        Some(listing) => if ctx.seller@ != listing.seller@ {
            Err(ErrorCode::Unauthorized)
        } else if listing.is_active {
            Err(ErrorCode::ListingStillActive)
        } else if listing.amount != 0 {
            Err(ErrorCode::ListingHasTokens)
        } else {
            Ok(CloseListing { listing: None, ..ctx })
        },
    }
}

/// Opens a listing of `amount` at `price` whose escrow is held by `custodian`: the registry
/// numbers it, and the seller's holding funds the escrow with the whole amount. Either all of
/// this happens or nothing does.
pub fn create_listing_with(
    ctx: &mut CreateListing,
    price: u64,
    amount: u64,
    custodian: Option<Authority>,
) -> (created: Result<u64, ErrorCode>)
    ensures
        match listing_created(*old(ctx), price, amount, custodian) {
            Ok((next, id)) => created == Ok::<u64, ErrorCode>(id) && *final(ctx) == next,
            Err(e) => created == Err::<u64, ErrorCode>(e) && *final(ctx) == *old(ctx),
        },
        created is Ok ==> final(ctx).marketplace.listing_count == old(ctx).marketplace.listing_count
            + 1,
        created is Err ==> final(ctx).marketplace.listing_count
            == old(ctx).marketplace.listing_count,
        created is Ok ==> final(ctx).listing is Some && final(ctx).escrow_token_account is Some
            && final(ctx).listing->Some_0.is_active && in_custody(
            final(ctx).listing->Some_0,
            final(ctx).escrow_token_account->Some_0,
        ),
{
    if price == 0 {
        return Err(ErrorCode::InvalidPrice);
    }
    if amount == 0 {
        return Err(ErrorCode::InvalidAmount);
    }
    if amount < MIN_LISTING_AMOUNT {
        return Err(ErrorCode::AmountTooSmall);
    }
    if ctx.listing.is_some() || ctx.escrow_token_account.is_some() {
        return Err(ErrorCode::AlreadyInitialized);
    }
    let mut marketplace = ctx.marketplace;
    let listing_id: u64 = match marketplace.next_id() {
        Ok(id) => id,
        Err(e) => {
            return Err(e);
        },
    };
    let holder = match custodian {
        Some(c) => c,
        None => {
            return Err(ErrorCode::DerivationFailed);
        },
    };
    let fresh = TokenAccount { owner: holder.identity, amount: 0 };
    let (seller_tokens, escrow) = match transfer_asset(
        ctx.seller_token_account,
        fresh,
        &ctx.seller,
        amount,
    ) {
        Ok(moved) => moved,
        Err(e) => {
            return Err(e);
        },
    };
    ctx.listing = Some(Listing { seller: ctx.seller, price, amount, is_active: true, listing_id });
    ctx.marketplace = marketplace;
    ctx.escrow_token_account = Some(escrow);
    ctx.seller_token_account = seller_tokens;
    Ok(listing_id)
}

/// Opens a listing of `amount` at `price` for `ctx.seller`, under the custodian derived from
/// the seller and the number that the registry gives the listing.
pub fn create_listing(ctx: &mut CreateListing, price: u64, amount: u64) -> (created: Result<
    u64,
    ErrorCode,
>)
    ensures
        match listing_created(
            *old(ctx),
            price,
            amount,
            listing_custodian(
                old(ctx).program_id,
                old(ctx).seller,
                old(ctx).marketplace.listing_count,
            ),
        ) {
            Ok((next, id)) => created == Ok::<u64, ErrorCode>(id) && *final(ctx) == next,
            Err(e) => created == Err::<u64, ErrorCode>(e) && *final(ctx) == *old(ctx),
        },
        created is Ok ==> final(ctx).marketplace.listing_count == old(ctx).marketplace.listing_count
            + 1,
        created is Err ==> final(ctx).marketplace.listing_count
            == old(ctx).marketplace.listing_count,
        created is Ok ==> final(ctx).listing is Some && final(ctx).escrow_token_account is Some
            && final(ctx).listing->Some_0.is_active && in_custody(
            final(ctx).listing->Some_0,
            final(ctx).escrow_token_account->Some_0,
        ),
{
    let custodian = derive_listing_authority(
        &ctx.program_id,
        &ctx.seller,
        ctx.marketplace.listing_count,
    );
    create_listing_with(ctx, price, amount, custodian)
}

/// Buys `amount` from the listing, the escrow releasing under `custodian`: the buyer pays the
/// seller the price of that amount, the escrow hands the amount to the buyer, and the listing
/// offers that much less; it stops trading once nothing is left. Either all of this happens or
/// nothing does.
pub fn buy_listing_with(ctx: &mut BuyListing, amount: u64, custodian: Option<Authority>) -> (bought:
    Result<Fill, ErrorCode>)
    ensures
        match listing_bought(*old(ctx), amount, custodian) {
            Ok((next, fill)) => bought == Ok::<Fill, ErrorCode>(fill) && *final(ctx) == next,
            Err(e) => bought == Err::<Fill, ErrorCode>(e) && *final(ctx) == *old(ctx),
        },
        !old(ctx).listing.is_active ==> bought == Err::<Fill, ErrorCode>(
            ErrorCode::ListingNotActive,
        ),
        old(ctx).listing.is_active && amount > old(ctx).listing.amount ==> bought == Err::<
            Fill,
            ErrorCode,
        >(ErrorCode::InsufficientAmount),
        bought is Err ==> *final(ctx) == *old(ctx),
        in_custody(old(ctx).listing, old(ctx).escrow_token_account) ==> in_custody(
            final(ctx).listing,
            final(ctx).escrow_token_account,
        ),
{
    if !ctx.listing.is_active {
        return Err(ErrorCode::ListingNotActive);
    }
    if amount > ctx.listing.amount {
        return Err(ErrorCode::InsufficientAmount);
    }
    let price: u64 = match total_price(ctx.listing.price, amount) {
        Some(p) => p,
        None => {
            return Err(ErrorCode::Overflow);
        },
    };
    if ctx.seller_sol_account.key != ctx.listing.seller {
        return Err(ErrorCode::Unauthorized);
    }
    let (buyer, seller_wallet) = match transfer_currency(ctx.buyer, ctx.seller_sol_account, price) {
        Ok(moved) => moved,
        Err(e) => {
            return Err(e);
        },
    };
    let holder = match custodian {
        Some(c) => c,
        None => {
            return Err(ErrorCode::DerivationFailed);
        },
    };
    let (escrow, buyer_tokens) = match transfer_asset(
        ctx.escrow_token_account,
        ctx.buyer_token_account,
        &holder.identity,
        amount,
    ) {
        Ok(moved) => moved,
        Err(e) => {
            return Err(e);
        },
    };
    let remaining: u64 = ctx.listing.amount - amount;
    ctx.buyer = buyer;
    ctx.seller_sol_account = seller_wallet;
    ctx.escrow_token_account = escrow;
    ctx.buyer_token_account = buyer_tokens;
    ctx.listing.amount = remaining;
    if remaining == 0 {
        ctx.listing.is_active = false;
    }
    Ok(Fill { total_price: price, custodian: holder })
}

/// Buys `amount` from the listing, the escrow releasing under the custodian derived anew from
/// the listing's seller and number.
pub fn buy_listing(ctx: &mut BuyListing, amount: u64) -> (bought: Result<Fill, ErrorCode>)
    ensures
        match listing_bought(
            *old(ctx),
            amount,
            listing_custodian(
                old(ctx).program_id,
                old(ctx).listing.seller,
                old(ctx).listing.listing_id,
            ),
        ) {
            Ok((next, fill)) => bought == Ok::<Fill, ErrorCode>(fill) && *final(ctx) == next,
            Err(e) => bought == Err::<Fill, ErrorCode>(e) && *final(ctx) == *old(ctx),
        },
        !old(ctx).listing.is_active ==> bought == Err::<Fill, ErrorCode>(
            ErrorCode::ListingNotActive,
        ),
        old(ctx).listing.is_active && amount > old(ctx).listing.amount ==> bought == Err::<
            Fill,
            ErrorCode,
        >(ErrorCode::InsufficientAmount),
        bought is Err ==> *final(ctx) == *old(ctx),
        in_custody(old(ctx).listing, old(ctx).escrow_token_account) ==> in_custody(
            final(ctx).listing,
            final(ctx).escrow_token_account,
        ),
{
    let custodian = derive_listing_authority(
        &ctx.program_id,
        &ctx.listing.seller,
        ctx.listing.listing_id,
    );
    buy_listing_with(ctx, amount, custodian)
}

/// Withdraws the listing on its seller's request, the escrow releasing under `custodian`: all
/// that is unsold goes back to the seller, and the listing stops trading with nothing left.
/// Either all of this happens or nothing does.
pub fn cancel_listing_with(ctx: &mut CancelListing, custodian: Option<Authority>) -> (cancelled:
    Result<Refund, ErrorCode>)
    ensures
        match listing_cancelled(*old(ctx), custodian) {
            Ok((next, refund)) => cancelled == Ok::<Refund, ErrorCode>(refund) && *final(ctx)
                == next,
            Err(e) => cancelled == Err::<Refund, ErrorCode>(e) && *final(ctx) == *old(ctx),
        },
        !old(ctx).listing.is_active ==> cancelled is Err,
        cancelled is Err ==> *final(ctx) == *old(ctx),
        in_custody(old(ctx).listing, old(ctx).escrow_token_account) ==> in_custody(
            final(ctx).listing,
            final(ctx).escrow_token_account,
        ),
{
    if ctx.seller != ctx.listing.seller {
        return Err(ErrorCode::Unauthorized);
    }
    if !ctx.listing.is_active {
        return Err(ErrorCode::ListingNotActive);
    }
    let holder = match custodian {
        Some(c) => c,
        None => {
            return Err(ErrorCode::DerivationFailed);
        },
    };
    let unsold: u64 = ctx.listing.amount;
    let (escrow, seller_tokens) = match transfer_asset(
        ctx.escrow_token_account,
        ctx.seller_token_account,
        &holder.identity,
        unsold,
    ) {
        Ok(moved) => moved,
        Err(e) => {
            return Err(e);
        },
    };
    ctx.escrow_token_account = escrow;
    ctx.seller_token_account = seller_tokens;
    ctx.listing.is_active = false;
    ctx.listing.amount = 0;
    Ok(Refund { amount: unsold, custodian: holder })
}

/// Withdraws the listing on its seller's request, the escrow releasing under the custodian
/// derived anew from the listing's seller and number.
pub fn cancel_listing(ctx: &mut CancelListing) -> (cancelled: Result<Refund, ErrorCode>)
    ensures
        match listing_cancelled(
            *old(ctx),
            listing_custodian(
                old(ctx).program_id,
                old(ctx).listing.seller,
                old(ctx).listing.listing_id,
            ),
        ) {
            Ok((next, refund)) => cancelled == Ok::<Refund, ErrorCode>(refund) && *final(ctx)
                == next,
            Err(e) => cancelled == Err::<Refund, ErrorCode>(e) && *final(ctx) == *old(ctx),
        },
        !old(ctx).listing.is_active ==> cancelled is Err,
        cancelled is Err ==> *final(ctx) == *old(ctx),
        in_custody(old(ctx).listing, old(ctx).escrow_token_account) ==> in_custody(
            final(ctx).listing,
            final(ctx).escrow_token_account,
        ),
{
    let custodian = derive_listing_authority(
        &ctx.program_id,
        &ctx.listing.seller,
        ctx.listing.listing_id,
    );
    cancel_listing_with(ctx, custodian)
}

/// Releases the listing's record on its seller's request, once the listing has stopped trading
/// with nothing left: the slot is empty afterwards. No asset and no currency moves.
pub fn close_listing(ctx: &mut CloseListing) -> (closed: Result<(), ErrorCode>)
    ensures
        match listing_closed(*old(ctx)) {
            Ok(next) => closed == Ok::<(), ErrorCode>(()) && *final(ctx) == next,
            Err(e) => closed == Err::<(), ErrorCode>(e) && *final(ctx) == *old(ctx),
        },
        closed is Ok ==> final(ctx).listing is None,
{
    let listing = match ctx.listing {
        Some(listing) => listing,
        None => {
            return Err(ErrorCode::NotInitialized);
        },
    };
    if ctx.seller != listing.seller {
        return Err(ErrorCode::Unauthorized);
    }
    if listing.is_active {
        return Err(ErrorCode::ListingStillActive);
    }
    if listing.amount != 0 {
        return Err(ErrorCode::ListingHasTokens);
    }
    ctx.listing = None;
    Ok(())
}

} // verus!
