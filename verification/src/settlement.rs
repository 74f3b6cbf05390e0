use vstd::prelude::*;
use crate::error::ErrorCode;
use crate::identity::Identity;

verus! {

/// A holding of the traded asset: who may move it out, and how much it holds.
#[derive(Clone, Copy, Debug, PartialEq, Eq)]
pub struct TokenAccount {
    pub owner: Identity,
    pub amount: u64,
}

/// A holding of the settlement currency: whose it is, and how much it holds.
#[derive(Clone, Copy, Debug, PartialEq, Eq)]
pub struct Wallet {
    pub key: Identity,
    pub lamports: u64,
}

/// What moving `amount` of the asset from `from` to `to` under `authority` gives: the two
/// holdings afterwards, or the reason why nothing moves.
pub open spec fn asset_moved(
    from: TokenAccount,
    to: TokenAccount,
    authority: Identity,
    amount: u64,
) -> Result<(TokenAccount, TokenAccount), ErrorCode> {
    if from.owner@ != authority@ {
        Err(ErrorCode::Unauthorized)
    } else if from.amount < amount {
        Err(ErrorCode::InsufficientFunds)
    } else if to.amount + amount > u64::MAX {
        Err(ErrorCode::Overflow)
    } else {
        Ok(
            (
                TokenAccount { owner: from.owner, amount: (from.amount - amount) as u64 },
                TokenAccount { owner: to.owner, amount: (to.amount + amount) as u64 },
            ),
        )
    }
}

/// What paying `amount` of the currency from `from` to `to` gives: the two wallets afterwards,
/// or the reason why nothing moves. A payment to oneself moves nothing.
pub open spec fn currency_moved(from: Wallet, to: Wallet, amount: u64) -> Result<
    (Wallet, Wallet),
    ErrorCode,
> {
    if from.lamports < amount {
        Err(ErrorCode::InsufficientFunds)
    } else if from.key@ == to.key@ {
        Ok((from, to))
    } else if to.lamports + amount > u64::MAX {
        Err(ErrorCode::Overflow)
    } else {
        Ok(
            (
                Wallet { key: from.key, lamports: (from.lamports - amount) as u64 },
                Wallet { key: to.key, lamports: (to.lamports + amount) as u64 },
            ),
        )
    }
}

/// Moves `amount` of the asset out of `from` into `to`. Only the owner of `from` may do so,
/// `from` must hold that much, and `to` must have room for it.
pub fn transfer_asset(from: TokenAccount, to: TokenAccount, authority: &Identity, amount: u64) -> (moved:
    Result<(TokenAccount, TokenAccount), ErrorCode>)
    ensures
        moved == asset_moved(from, to, *authority, amount),
{
    if from.owner != *authority {
        return Err(ErrorCode::Unauthorized);
    }
    if from.amount < amount {
        return Err(ErrorCode::InsufficientFunds);
    }
    if amount > u64::MAX - to.amount {
        return Err(ErrorCode::Overflow);
    }
    Ok(
        (
            TokenAccount { owner: from.owner, amount: from.amount - amount },
            TokenAccount { owner: to.owner, amount: to.amount + amount },
        ),
    )
}

/// Pays `amount` of the currency out of `from` into `to`. `from` must hold that much and `to`
/// must have room for it; where both are one wallet, nothing moves.
pub fn transfer_currency(from: Wallet, to: Wallet, amount: u64) -> (moved: Result<
    (Wallet, Wallet),
    ErrorCode,
>)
    ensures
        moved == currency_moved(from, to, amount),
{
    if from.lamports < amount {
        return Err(ErrorCode::InsufficientFunds);
    }
    if from.key == to.key {
        return Ok((from, to));
    }
    if amount > u64::MAX - to.lamports {
        return Err(ErrorCode::Overflow);
    }
    Ok(
        (
            Wallet { key: from.key, lamports: from.lamports - amount },
            Wallet { key: to.key, lamports: to.lamports + amount },
        ),
    )
}

/// A transfer of the asset neither makes nor loses any of it.
pub proof fn lemma_asset_conserved(from: TokenAccount, to: TokenAccount, authority: Identity, amount: u64)
    ensures
        asset_moved(from, to, authority, amount) matches Ok((a, b)) ==> a.amount + b.amount
            == from.amount + to.amount && a.owner == from.owner && b.owner == to.owner,
{
}

/// A payment between two wallets neither makes nor loses any currency.
pub proof fn lemma_currency_conserved(from: Wallet, to: Wallet, amount: u64)
    ensures
        currency_moved(from, to, amount) matches Ok((a, b)) ==> a.lamports + b.lamports
            == from.lamports + to.lamports && a.key == from.key && b.key == to.key,
{
}

} // verus!
