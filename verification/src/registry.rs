use vstd::prelude::*;
use crate::error::ErrorCode;
use crate::identity::Identity;

verus! {

/// The registry of the marketplace: who deployed it, and how many listings it has numbered.
#[derive(Clone, Copy, Debug, PartialEq, Eq)]
pub struct Marketplace {
    pub authority: Identity,
    pub listing_count: u64,
}

/// What initialising the registry works on: the slot of the registry, empty until then, and the
/// operator who deploys it.
#[derive(Clone, Copy, Debug, PartialEq, Eq)]
pub struct InitializeMarketplace {
    pub marketplace: Option<Marketplace>,
    pub authority: Identity,
}

impl Marketplace {
    /// Hands out the next listing number: the count as it stands, which then grows by one.
    /// Once the count has reached the largest number no listing can be numbered, and the
    /// registry stays as it is.
    pub fn next_id(&mut self) -> (id: Result<u64, ErrorCode>)
        ensures
            old(self).listing_count < u64::MAX ==> id == Ok::<u64, ErrorCode>(
                old(self).listing_count,
            ) && *final(self) == (Marketplace {
                listing_count: (old(self).listing_count + 1) as u64,
                ..*old(self)
            }),
            old(self).listing_count == u64::MAX ==> id == Err::<u64, ErrorCode>(
                ErrorCode::Overflow,
            ) && *final(self) == *old(self),
    {
        if self.listing_count == u64::MAX {
            return Err(ErrorCode::Overflow);
        }
        let id: u64 = self.listing_count;
        self.listing_count = id + 1;
        Ok(id)
    }
}

/// Creates the registry with no listing numbered yet, and records `authority` as its operator.
/// A registry that exists already is left as it is.
pub fn initialize_marketplace(ctx: &mut InitializeMarketplace) -> (done: Result<(), ErrorCode>)
    ensures
        old(ctx).marketplace is None ==> done == Ok::<(), ErrorCode>(()) && *final(ctx) == (
        InitializeMarketplace {
            marketplace: Some(Marketplace { authority: old(ctx).authority, listing_count: 0 }),
            ..*old(ctx)
        }),
        old(ctx).marketplace is Some ==> done == Err::<(), ErrorCode>(
            ErrorCode::AlreadyInitialized,
        ) && *final(ctx) == *old(ctx),
{
    if ctx.marketplace.is_some() {
        return Err(ErrorCode::AlreadyInitialized);
    }
    ctx.marketplace = Some(Marketplace { authority: ctx.authority, listing_count: 0 });
    Ok(())
}

} // verus!
