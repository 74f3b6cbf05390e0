use vstd::prelude::*;
use crate::authority::{listing_custodian, Authority};
use crate::error::{ErrorCode, ErrorKind};
use crate::identity::Identity;
use crate::listing::{
    in_custody, listing_bought, listing_cancelled, listing_closed, listing_created, BuyListing,
    CancelListing, CloseListing, CreateListing, Fill, Listing,
};
use crate::pricing::{lemma_quote_of_parts, quote};
use crate::settlement::{TokenAccount, Wallet};

verus! {

/// What a cancellation works on when it follows the opening of a listing at once: the listing,
/// its escrow and the seller's holding as the opening left them.
pub open spec fn cancel_after_create(made: CreateListing) -> CancelListing
    recommends
        made.listing is Some,
        made.escrow_token_account is Some,
{
    CancelListing {
        program_id: made.program_id,
        listing: made.listing->Some_0,
        escrow_token_account: made.escrow_token_account->Some_0,
        seller_token_account: made.seller_token_account,
        seller: made.seller,
    }
}

/// A listing that has been opened is in custody: it trades, is numbered by the registry's count
/// as it stood, offers the whole amount, and its escrow, owned by the custodian, holds that
/// amount, which left the seller's holding. The registry's count has grown by one.
pub proof fn lemma_create_establishes_custody(
    ctx: CreateListing,
    price: u64,
    amount: u64,
    custodian: Option<Authority>,
)
    requires
        listing_created(ctx, price, amount, custodian) is Ok,
    ensures
        ({
            let (made, id) = listing_created(ctx, price, amount, custodian)->Ok_0;
            &&& custodian is Some
            &&& made.listing == Some(
                Listing { seller: ctx.seller, price, amount, is_active: true, listing_id: id },
            )
            &&& id == ctx.marketplace.listing_count
            &&& made.marketplace.listing_count == ctx.marketplace.listing_count + 1
            &&& made.marketplace.authority == ctx.marketplace.authority
            &&& made.escrow_token_account == Some(
                TokenAccount { owner: custodian->Some_0.identity, amount },
            )
            &&& in_custody(made.listing->Some_0, made.escrow_token_account->Some_0)
            &&& made.seller_token_account.amount + amount == ctx.seller_token_account.amount
            &&& made.seller_token_account.owner == ctx.seller_token_account.owner
        }),
{
}

/// A purchase keeps a listing in custody: what the listing offers and what its escrow holds
/// fall by the amount bought, which the buyer's holding gains; the listing trades on exactly
/// if something is left; seller, price, number and the escrow's owner stay as they were.
pub proof fn lemma_buy_preserves_custody(ctx: BuyListing, amount: u64, custodian: Option<Authority>)
    requires
        in_custody(ctx.listing, ctx.escrow_token_account),
        listing_bought(ctx, amount, custodian) is Ok,
    ensures
        ({
            let (next, fill) = listing_bought(ctx, amount, custodian)->Ok_0;
            &&& in_custody(next.listing, next.escrow_token_account)
            &&& next.listing.amount + amount == ctx.listing.amount
            &&& next.buyer_token_account.amount == ctx.buyer_token_account.amount + amount
            &&& next.listing.seller == ctx.listing.seller
            &&& next.listing.price == ctx.listing.price
            &&& next.listing.listing_id == ctx.listing.listing_id
            &&& next.escrow_token_account.owner == ctx.escrow_token_account.owner
        }),
{
}

/// A cancellation keeps a listing in custody and ends it: the escrow is drained into the
/// seller's holding, and the listing stops trading with nothing left.
pub proof fn lemma_cancel_preserves_custody(ctx: CancelListing, custodian: Option<Authority>)
    requires
        in_custody(ctx.listing, ctx.escrow_token_account),
        listing_cancelled(ctx, custodian) is Ok,
    ensures
        ({
            let (next, refund) = listing_cancelled(ctx, custodian)->Ok_0;
            &&& in_custody(next.listing, next.escrow_token_account)
            &&& !next.listing.is_active
            &&& next.listing.amount == 0
            &&& next.escrow_token_account.amount == 0
            &&& refund.amount == ctx.listing.amount
            &&& next.seller_token_account.amount == ctx.seller_token_account.amount
                + ctx.listing.amount
            &&& next.escrow_token_account.owner == ctx.escrow_token_account.owner
        }),
{
}

/// The escrow is released only under its owner: a purchase or a cancellation that succeeds was
/// made under a custodian whose identity is the escrow's owner.
pub proof fn lemma_escrow_released_by_owner_only(
    buy: BuyListing,
    amount: u64,
    cancel: CancelListing,
    custodian: Option<Authority>,
)
    ensures
        listing_bought(buy, amount, custodian) is Ok ==> custodian is Some
            && custodian->Some_0.identity@ == buy.escrow_token_account.owner@,
        listing_cancelled(cancel, custodian) is Ok ==> custodian is Some
            && custodian->Some_0.identity@ == cancel.escrow_token_account.owner@,
{
}

/// A listing that has stopped trading stays so: every purchase from it is refused as not
/// active and every cancellation of it is refused. Only a listing that trades is bought from or
/// cancelled, and a cancellation leaves it not trading.
pub proof fn lemma_inactive_is_terminal(
    buy: BuyListing,
    amount: u64,
    cancel: CancelListing,
    custodian: Option<Authority>,
)
    ensures
        !buy.listing.is_active ==> listing_bought(buy, amount, custodian) == Err::<
            (BuyListing, Fill),
            ErrorCode,
        >(ErrorCode::ListingNotActive),
        !cancel.listing.is_active ==> listing_cancelled(cancel, custodian) is Err,
        listing_bought(buy, amount, custodian) matches Ok((next, _)) ==> buy.listing.is_active,
        listing_cancelled(cancel, custodian) matches Ok((next, _)) ==> cancel.listing.is_active
            && !next.listing.is_active,
{
}

/// No listing is cancelled twice: after a cancellation that succeeded, a second one on what the
/// first left is refused, whoever asks and under whatever custodian.
pub proof fn lemma_second_cancel_refused(
    ctx: CancelListing,
    first: Option<Authority>,
    second: Option<Authority>,
    asker: Identity,
)
    requires
        listing_cancelled(ctx, first) is Ok,
    ensures
        listing_cancelled(
            CancelListing { seller: asker, ..listing_cancelled(ctx, first)->Ok_0.0 },
            second,
        ) is Err,
{
}

/// Nothing is oversold: a request for more than the listing offers is refused with a state
/// error, whatever else holds.
pub proof fn lemma_oversell_refused(ctx: BuyListing, amount: u64, custodian: Option<Authority>)
    requires
        amount > ctx.listing.amount,
    ensures
        listing_bought(ctx, amount, custodian) is Err,
        listing_bought(ctx, amount, custodian)->Err_0 == (if ctx.listing.is_active {
            ErrorCode::InsufficientAmount
        } else {
            ErrorCode::ListingNotActive
        }),
        listing_bought(ctx, amount, custodian)->Err_0.kind_of() == ErrorKind::State,
{
}

/// The escrow releases only against payment: in a purchase that succeeds, what leaves the
/// escrow reaches the buyer's holding, the payment is the price of that amount, rounded down,
/// and, where buyer and seller are two, it leaves the buyer's wallet and reaches the seller's.
pub proof fn lemma_buy_releases_against_payment(
    ctx: BuyListing,
    amount: u64,
    custodian: Option<Authority>,
)
    requires
        listing_bought(ctx, amount, custodian) is Ok,
    ensures
        ({
            let (next, fill) = listing_bought(ctx, amount, custodian)->Ok_0;
            &&& fill.total_price == quote(ctx.listing.price, amount)
            &&& next.escrow_token_account.amount + amount == ctx.escrow_token_account.amount
            &&& next.buyer_token_account.amount == ctx.buyer_token_account.amount + amount
            &&& next.seller_sol_account.key@ == ctx.listing.seller@
            &&& ctx.buyer.key@ != ctx.seller_sol_account.key@ ==> next.buyer.lamports
                + fill.total_price == ctx.buyer.lamports && next.seller_sol_account.lamports
                == ctx.seller_sol_account.lamports + fill.total_price
            &&& ctx.buyer.key@ == ctx.seller_sol_account.key@ ==> next.buyer == ctx.buyer
                && next.seller_sol_account == ctx.seller_sol_account
        }),
{
}

/// Buying an amount at once and buying it in two parts, one right after the other, end alike:
/// the listing, its escrow and the buyer's holding are the same either way, and the two parts
/// together cost no more than the whole, and less by one base unit at most.
pub proof fn lemma_fill_in_parts(
    ctx: BuyListing,
    first: u64,
    second: u64,
    custodian: Option<Authority>,
)
    requires
        first + second <= u64::MAX,
        listing_bought(ctx, (first + second) as u64, custodian) is Ok,
        listing_bought(ctx, first, custodian) is Ok,
        listing_bought(listing_bought(ctx, first, custodian)->Ok_0.0, second, custodian) is Ok,
    ensures
        ({
            let (whole, paid) = listing_bought(ctx, (first + second) as u64, custodian)->Ok_0;
            let (half, paid_first) = listing_bought(ctx, first, custodian)->Ok_0;
            let (parts, paid_second) = listing_bought(half, second, custodian)->Ok_0;
            &&& parts.listing == whole.listing
            &&& parts.escrow_token_account == whole.escrow_token_account
            &&& parts.buyer_token_account == whole.buyer_token_account
            &&& paid_first.total_price + paid_second.total_price <= paid.total_price
            &&& paid.total_price <= paid_first.total_price + paid_second.total_price + 1
        }),
{
    lemma_quote_of_parts(ctx.listing.price, first, second);
}

/// A listing that is opened and cancelled at once, with nothing bought in between, gives the
/// seller back exactly what was listed: the seller's holding is as it was before the opening,
/// the escrow is empty, and the listing has stopped trading with nothing left.
pub proof fn lemma_create_then_cancel_refunds(
    ctx: CreateListing,
    price: u64,
    amount: u64,
    custodian: Option<Authority>,
)
    requires
        listing_created(ctx, price, amount, custodian) is Ok,
    ensures
        ({
            let made = listing_created(ctx, price, amount, custodian)->Ok_0.0;
            let cancelled = listing_cancelled(cancel_after_create(made), custodian);
            &&& cancelled is Ok
            &&& cancelled->Ok_0.1.amount == amount
            &&& cancelled->Ok_0.0.seller_token_account == ctx.seller_token_account
            &&& cancelled->Ok_0.0.escrow_token_account.amount == 0
            &&& cancelled->Ok_0.0.listing.amount == 0
            &&& !cancelled->Ok_0.0.listing.is_active
        }),
{
}

/// The custodian under which a listing is opened is the one that is derived again, from the
/// listing's own seller and number, when it is bought from or cancelled.
pub proof fn lemma_custodian_rederived(ctx: CreateListing, price: u64, amount: u64)
    requires
        listing_created(
            ctx,
            price,
            amount,
            listing_custodian(ctx.program_id, ctx.seller, ctx.marketplace.listing_count),
        ) is Ok,
    ensures
        ({
            let opened_under = listing_custodian(
                ctx.program_id,
                ctx.seller,
                ctx.marketplace.listing_count,
            );
            let made = listing_created(ctx, price, amount, opened_under)->Ok_0.0;
            let listing = made.listing->Some_0;
            &&& listing_custodian(made.program_id, listing.seller, listing.listing_id)
                == opened_under
            &&& opened_under is Some
            &&& made.escrow_token_account->Some_0.owner == opened_under->Some_0.identity
        }),
{
}

/// A record is released exactly when its seller asks and the listing has stopped trading with
/// nothing left; so a listing in custody that has stopped trading is released on its seller's
/// request.
pub proof fn lemma_close_after_end(listing: Listing, escrow: TokenAccount, asker: Identity)
    ensures
        listing_closed(CloseListing { listing: Some(listing), seller: asker }) is Ok <==> asker@
            == listing.seller@ && !listing.is_active && listing.amount == 0,
        in_custody(listing, escrow) && asker@ == listing.seller@ && !listing.is_active
            ==> listing_closed(CloseListing { listing: Some(listing), seller: asker }) is Ok,
{
}

/// One buyer's request against a listing: who pays, where the asset is to go, and how much is
/// asked for.
#[derive(Clone, Copy, Debug, PartialEq, Eq)]
pub struct Bid {
    pub buyer: Wallet,
    pub buyer_token_account: TokenAccount,
    pub amount: u64,
}

/// The purchase that `bid` asks for, on the listing, escrow and seller's wallet of `ctx`.
pub open spec fn bid_on(ctx: BuyListing, bid: Bid) -> BuyListing {
    BuyListing { buyer: bid.buyer, buyer_token_account: bid.buyer_token_account, ..ctx }
}

/// Whether `bid` is accepted when it meets the listing as `ctx` holds it.
pub open spec fn accepts(ctx: BuyListing, bid: Bid, custodian: Option<Authority>) -> bool {
    listing_bought(bid_on(ctx, bid), bid.amount, custodian) is Ok
}

/// The state after `bids` have met the listing one after the other, each seeing what the one
/// before it left. A bid that is refused leaves everything as it was.
pub open spec fn served(ctx: BuyListing, bids: Seq<Bid>, custodian: Option<Authority>) -> BuyListing
    decreases bids.len(),
{
    if bids.len() == 0 {
        ctx
    } else {
        let before = served(ctx, bids.drop_last(), custodian);
        match listing_bought(bid_on(before, bids.last()), bids.last().amount, custodian) {
            Ok((next, _)) => next,
            Err(_) => before,
        }
    }
}

/// The sum of the amounts of those of `bids` that were accepted.
pub open spec fn filled(ctx: BuyListing, bids: Seq<Bid>, custodian: Option<Authority>) -> nat
    decreases bids.len(),
{
    if bids.len() == 0 {
        0
    } else {
        let before = served(ctx, bids.drop_last(), custodian);
        filled(ctx, bids.drop_last(), custodian) + (if accepts(before, bids.last(), custodian) {
            bids.last().amount as nat
        } else {
            0
        })
    }
}

/// The number of those of `bids` that were accepted.
pub open spec fn accepted(ctx: BuyListing, bids: Seq<Bid>, custodian: Option<Authority>) -> nat
    decreases bids.len(),
{
    if bids.len() == 0 {
        0
    } else {
        let before = served(ctx, bids.drop_last(), custodian);
        accepted(ctx, bids.drop_last(), custodian) + (if accepts(before, bids.last(), custodian) {
            1nat
        } else {
            0
        })
    }
}

/// The sum of the amounts that `bids` ask for.
pub open spec fn asked(bids: Seq<Bid>) -> nat
    decreases bids.len(),
{
    if bids.len() == 0 {
        0
    } else {
        asked(bids.drop_last()) + bids.last().amount as nat
    }
}

/// Buys on one listing, served one after the other, never oversell it: what the accepted bids
/// got and what the listing still offers add up to what it offered at first, so the accepted
/// bids got no more than that; a listing in custody stays in custody, its escrow debited by
/// exactly what the accepted bids got; and where the bids ask for more than the listing
/// offered, at least one of them is refused.
pub proof fn lemma_serial_buys_never_oversell(
    ctx: BuyListing,
    bids: Seq<Bid>,
    custodian: Option<Authority>,
)
    ensures
        filled(ctx, bids, custodian) + served(ctx, bids, custodian).listing.amount
            == ctx.listing.amount,
        filled(ctx, bids, custodian) <= ctx.listing.amount,
        filled(ctx, bids, custodian) <= asked(bids),
        accepted(ctx, bids, custodian) <= bids.len(),
        asked(bids) > ctx.listing.amount ==> accepted(ctx, bids, custodian) < bids.len(),
        accepted(ctx, bids, custodian) == bids.len() ==> filled(ctx, bids, custodian) == asked(
            bids,
        ),
        in_custody(ctx.listing, ctx.escrow_token_account) ==> in_custody(
            served(ctx, bids, custodian).listing,
            served(ctx, bids, custodian).escrow_token_account,
        ) && served(ctx, bids, custodian).escrow_token_account.amount + filled(
            ctx,
            bids,
            custodian,
        ) == ctx.escrow_token_account.amount,
    decreases bids.len(),
{
    if bids.len() > 0 {
        lemma_serial_buys_never_oversell(ctx, bids.drop_last(), custodian);
        let before = served(ctx, bids.drop_last(), custodian);
        if in_custody(before.listing, before.escrow_token_account) && accepts(
            before,
            bids.last(),
            custodian,
        ) {
            lemma_buy_preserves_custody(bid_on(before, bids.last()), bids.last().amount, custodian);
        }
    }
}

} // verus!
