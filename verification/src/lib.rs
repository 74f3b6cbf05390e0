//! An escrow-mediated marketplace engine.
//!
//! Sellers list an amount of a fungible asset at a fixed unit price, buyers take any part of it
//! against a proportional payment, and sellers take back what is unsold. What a listing offers
//! sits in an escrow that only the listing's own custodian can release: an identity derived from
//! the listing's seller and number, with no private key behind it.
//!
//! - [`identity`]: the 32-byte names of participants and custodians.
//! - [`authority`]: the derivation of custodians from a namespace and context.
//! - [`pricing`]: the price of an amount at a unit price, in fixed point.
//! - [`settlement`]: holdings of asset and currency, and what a transfer does to them.
//! - [`registry`]: the marketplace's counter of listings.
//! - [`listing`]: the listing's record and its transitions: create, buy, cancel, close.
//! - [`mint`]: the set-up of the traded asset's mint.
//! - [`laws`]: what holds of the transitions taken together.
//! - [`error`]: the reasons for which a transition is refused.
//!
//! Every transition works on a value that holds all it touches, and either applies as a whole
//! or leaves that value as it was.

pub mod authority;
pub mod error;
pub mod identity;
pub mod laws;
pub mod listing;
pub mod mint;
pub mod pricing;
pub mod registry;
pub mod settlement;

pub use authority::Authority;
pub use error::{ErrorCode, ErrorKind};
pub use identity::Identity;
pub use listing::{
    buy_listing, cancel_listing, close_listing, create_listing, BuyListing, CancelListing,
    CloseListing, CreateListing, Fill, Listing, Refund,
};
pub use mint::{
    add_gpu_metadata, initialize_gpu_mint, mint_gpu_tokens, AddGpuMetadata, InitializeGpuMint, Mint,
    MintGpuTokens, TokenMetadata,
};
pub use registry::{initialize_marketplace, InitializeMarketplace, Marketplace};
pub use settlement::{TokenAccount, Wallet};
