use vstd::prelude::*;

verus! {

/// A unit price is quoted per this many base units of the asset.
pub const PRICE_SCALE: u64 = 1_000_000_000;

/// What `amount` base units cost at `price`, rounded down, as a mathematical integer.
pub open spec fn quote(price: u64, amount: u64) -> int {
    (price * amount) / (PRICE_SCALE as int)
}

/// The product of two 64-bit numbers fits in 128 bits.
proof fn lemma_product_fits(price: u64, amount: u64)
    ensures
        0 <= price * amount <= u128::MAX,
{
    assert(0 <= price * amount <= 0xffff_ffff_ffff_ffff * 0xffff_ffff_ffff_ffff) by (nonlinear_arith)
        requires
            0 <= price <= 0xffff_ffff_ffff_ffff,
            0 <= amount <= 0xffff_ffff_ffff_ffff,
    ;
}

/// What `amount` base units cost at `price`, or `None` where that cost leaves 64 bits.
pub fn total_price(price: u64, amount: u64) -> (total: Option<u64>)
    ensures
        quote(price, amount) <= u64::MAX ==> total == Some(quote(price, amount) as u64),
        quote(price, amount) > u64::MAX ==> total is None,
{
    proof {
        lemma_product_fits(price, amount);
    }
    let product: u128 = (price as u128) * (amount as u128);
    let scaled: u128 = product / (PRICE_SCALE as u128);
    if scaled <= u64::MAX as u128 {
        Some(scaled as u64)
    } else {
        None
    }
}

/// A cost grows with the amount, and buying in two parts costs no more than buying at once,
/// and less by one base unit at most.
pub proof fn lemma_quote_of_parts(price: u64, first: u64, second: u64)
    requires
        first + second <= u64::MAX,
    ensures
        0 <= quote(price, first) <= quote(price, (first + second) as u64),
        quote(price, first) + quote(price, second) <= quote(price, (first + second) as u64),
        quote(price, (first + second) as u64) <= quote(price, first) + quote(price, second) + 1,
{
    assert(price * (first + second) == price * first + price * second) by (nonlinear_arith);
    assert(0 <= price * first && 0 <= price * second) by (nonlinear_arith);
}

} // verus!
