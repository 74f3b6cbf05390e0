use vstd::prelude::*;
use vstd::arithmetic::power::pow;
use crate::listing::MIN_LISTING_AMOUNT;
use crate::pricing::PRICE_SCALE;
use crate::authority::{derive_mint_authority, mint_custodian, Authority};
use crate::error::ErrorCode;
use crate::identity::Identity;
use crate::settlement::TokenAccount;

verus! {

/// The number of decimal places of the traded asset: one whole token is ten to this power in
/// base units.
pub const ASSET_DECIMALS: u8 = 9;

/// The mint of the traded asset: who may mint, how much exists, and its decimal places.
#[derive(Clone, Copy, Debug, PartialEq, Eq)]
pub struct Mint {
    pub mint_authority: Identity,
    pub supply: u64,
    pub decimals: u8,
}

/// What setting up the mint works on: the slot of the mint, empty until then.
#[derive(Clone, Copy, Debug, PartialEq, Eq)]
pub struct InitializeGpuMint {
    pub program_id: Identity,
    pub gpu_mint: Option<Mint>,
}

/// What minting works on: the mint, and the holding that receives what is minted.
#[derive(Clone, Copy, Debug, PartialEq, Eq)]
pub struct MintGpuTokens {
    pub program_id: Identity,
    pub gpu_mint: Mint,
    pub user_token_account: TokenAccount,
}

/// What registering the asset's description works on: the operator who registers it, and may
/// change it later.
#[derive(Clone, Copy, Debug, PartialEq, Eq)]
pub struct AddGpuMetadata {
    pub program_id: Identity,
    pub authority: Identity,
}

/// The description of the traded asset as it is to be registered, and the custodian of the
/// mint, under which the registration is signed.
#[derive(Clone, Debug, PartialEq, Eq)]
pub struct TokenMetadata {
    pub name: String,
    pub symbol: String,
    pub uri: String,
    pub seller_fee_basis_points: u16,
    pub is_mutable: bool,
    pub update_authority: Identity,
    pub custodian: Authority,
}

/// The name under which the asset is registered.
pub open spec fn asset_name() -> Seq<char> {
    "GPU Token"@
}

/// The symbol under which the asset is registered.
pub open spec fn asset_symbol() -> Seq<char> {
    "gGPU"@
}

/// Where the asset's further description is kept.
pub open spec fn asset_uri() -> Seq<char> {
    "https://raw.githubusercontent.com/nottejas/gpu-token-metadata/refs/heads/main/gpu-token.json"@
}

/// What setting up the mint gives, where `custodian` is what was derived for the mint: the
/// state afterwards, or the reason for which the request is refused.
pub open spec fn mint_initialized(ctx: InitializeGpuMint, custodian: Option<Authority>) -> Result<
    InitializeGpuMint,
    ErrorCode,
> {
    if ctx.gpu_mint is Some {
        Err(ErrorCode::AlreadyInitialized)
    } else {
        match custodian {
            None => Err(ErrorCode::DerivationFailed),
            Some(c) => Ok(
                InitializeGpuMint {
                    gpu_mint: Some(
                        Mint { mint_authority: c.identity, supply: 0, decimals: ASSET_DECIMALS },
                    ),
                    ..ctx
                },
            ),
        }
    }
}

/// What minting `amount` gives, where `custodian` is what was derived for the mint: the state
/// afterwards, or the reason for which the request is refused.
pub open spec fn tokens_minted(ctx: MintGpuTokens, amount: u64, custodian: Option<Authority>) -> Result<
    MintGpuTokens,
    ErrorCode,
> {
    match custodian {
        None => Err(ErrorCode::DerivationFailed),
        Some(c) => if c.identity@ != ctx.gpu_mint.mint_authority@ {
            Err(ErrorCode::Unauthorized)
        } else if ctx.gpu_mint.supply + amount > u64::MAX || ctx.user_token_account.amount + amount
            > u64::MAX {
            Err(ErrorCode::Overflow)
        } else {
            Ok(
                MintGpuTokens {
                    gpu_mint: Mint { supply: (ctx.gpu_mint.supply + amount) as u64, ..ctx.gpu_mint },
                    user_token_account: TokenAccount {
                        amount: (ctx.user_token_account.amount + amount) as u64,
                        ..ctx.user_token_account
                    },
                    ..ctx
                },
            )
        },
    }
}

/// Sets up the mint of the asset under `custodian`: nothing minted yet, and `ASSET_DECIMALS`
/// decimal places. A mint that exists already is left as it is.
pub fn initialize_gpu_mint_with(ctx: &mut InitializeGpuMint, custodian: Option<Authority>) -> (done:
    Result<(), ErrorCode>)
    ensures
        match mint_initialized(*old(ctx), custodian) {
            Ok(next) => done == Ok::<(), ErrorCode>(()) && *final(ctx) == next,
            Err(e) => done == Err::<(), ErrorCode>(e) && *final(ctx) == *old(ctx),
        },
{
    if ctx.gpu_mint.is_some() {
        return Err(ErrorCode::AlreadyInitialized);
    }
    match custodian {
        None => Err(ErrorCode::DerivationFailed),
        Some(c) => {
            ctx.gpu_mint = Some(
                Mint { mint_authority: c.identity, supply: 0, decimals: ASSET_DECIMALS },
            );
            Ok(())
        },
    }
}

/// Sets up the mint of the asset under the custodian derived for it.
pub fn initialize_gpu_mint(ctx: &mut InitializeGpuMint) -> (done: Result<(), ErrorCode>)
    ensures
        match mint_initialized(*old(ctx), mint_custodian(old(ctx).program_id)) {
            Ok(next) => done == Ok::<(), ErrorCode>(()) && *final(ctx) == next,
            Err(e) => done == Err::<(), ErrorCode>(e) && *final(ctx) == *old(ctx),
        },
{
    let custodian = derive_mint_authority(&ctx.program_id);
    initialize_gpu_mint_with(ctx, custodian)
}

/// Mints `amount` into the user's holding under `custodian`, which must be the one that the
/// mint names; the supply grows by as much. Either both happen or nothing does. The result is
/// the custodian under which the minting is signed.
pub fn mint_gpu_tokens_with(ctx: &mut MintGpuTokens, amount: u64, custodian: Option<Authority>) -> (minted:
    Result<Authority, ErrorCode>)
    ensures
        match tokens_minted(*old(ctx), amount, custodian) {
            Ok(next) => minted == Ok::<Authority, ErrorCode>(custodian->Some_0) && *final(ctx)
                == next,
            Err(e) => minted == Err::<Authority, ErrorCode>(e) && *final(ctx) == *old(ctx),
        },
{
    let signer = match custodian {
        Some(c) => c,
        None => {
            return Err(ErrorCode::DerivationFailed);
        },
    };
    if signer.identity != ctx.gpu_mint.mint_authority {
        return Err(ErrorCode::Unauthorized);
    }
    if amount > u64::MAX - ctx.gpu_mint.supply || amount > u64::MAX
        - ctx.user_token_account.amount {
        return Err(ErrorCode::Overflow);
    }
    ctx.gpu_mint.supply = ctx.gpu_mint.supply + amount;
    ctx.user_token_account.amount = ctx.user_token_account.amount + amount;
    Ok(signer)
}

/// Mints `amount` into the user's holding under the custodian derived for the mint.
pub fn mint_gpu_tokens(ctx: &mut MintGpuTokens, amount: u64) -> (minted: Result<
    Authority,
    ErrorCode,
>)
    ensures
        match tokens_minted(*old(ctx), amount, mint_custodian(old(ctx).program_id)) {
            Ok(next) => minted == Ok::<Authority, ErrorCode>(
                mint_custodian(old(ctx).program_id)->Some_0,
            ) && *final(ctx) == next,
            Err(e) => minted == Err::<Authority, ErrorCode>(e) && *final(ctx) == *old(ctx),
        },
{
    let custodian = derive_mint_authority(&ctx.program_id);
    mint_gpu_tokens_with(ctx, amount, custodian)
}

/// Describes the asset for registration, signed under `custodian`: its name, symbol and where
/// more is kept, no fee on resale, open to later change by the operator.
pub fn add_gpu_metadata_with(ctx: &AddGpuMetadata, custodian: Option<Authority>) -> (described:
    Result<TokenMetadata, ErrorCode>)
    ensures
        custodian is None ==> described == Err::<TokenMetadata, ErrorCode>(
            ErrorCode::DerivationFailed,
        ),
        custodian is Some ==> described is Ok && ({
            let data = described->Ok_0;
            &&& data.name@ == asset_name()
            &&& data.symbol@ == asset_symbol()
            &&& data.uri@ == asset_uri()
            &&& data.seller_fee_basis_points == 0
            &&& data.is_mutable
            &&& data.update_authority == ctx.authority
            &&& data.custodian == custodian->Some_0
        }),
{
    match custodian {
        None => Err(ErrorCode::DerivationFailed),
        Some(c) => Ok(
            TokenMetadata {
                name: "GPU Token".to_owned(),
                symbol: "gGPU".to_owned(),
                uri: "https://raw.githubusercontent.com/nottejas/gpu-token-metadata/refs/heads/main/gpu-token.json".to_owned(),
                seller_fee_basis_points: 0,
                is_mutable: true,
                update_authority: ctx.authority,
                custodian: c,
            },
        ),
    }
}

/// Describes the asset for registration, signed under the custodian derived for the mint.
pub fn add_gpu_metadata(ctx: &AddGpuMetadata) -> (described: Result<TokenMetadata, ErrorCode>)
    ensures
        mint_custodian(ctx.program_id) is None ==> described == Err::<TokenMetadata, ErrorCode>(
            ErrorCode::DerivationFailed,
        ),
        mint_custodian(ctx.program_id) is Some ==> described is Ok && ({
            let data = described->Ok_0;
            &&& data.name@ == asset_name()
            &&& data.symbol@ == asset_symbol()
            &&& data.uri@ == asset_uri()
            &&& data.seller_fee_basis_points == 0
            &&& data.is_mutable
            &&& data.update_authority == ctx.authority
            &&& data.custodian == mint_custodian(ctx.program_id)->Some_0
        }),
{
    let custodian = derive_mint_authority(&ctx.program_id);
    add_gpu_metadata_with(ctx, custodian)
}

/// A unit price is the price of one whole token: the scale of prices is ten to the power of the
/// asset's decimal places. The smallest lot is a thousandth of a token.
pub proof fn lemma_price_scale_is_one_token()
    ensures
        PRICE_SCALE == pow(10, ASSET_DECIMALS as nat),
        MIN_LISTING_AMOUNT * 1000 == PRICE_SCALE,
{
    reveal_with_fuel(pow, 10);
}

} // verus!
