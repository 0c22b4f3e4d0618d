//! Holding accounts and the movement of balances between them.

use vstd::prelude::*;
use crate::authority::AuthorityHandle;
use crate::error::TransferFailure;
use crate::identity::{Asset, Identity};

verus! {

/// An account that holds a balance of one asset under one controller.
#[derive(Clone, Copy, Debug, PartialEq, Eq)]
pub struct TokenAccount {
    /// The asset held.
    pub mint: Identity,
    /// The authority that controls the account.
    pub owner: Identity,
    /// The balance.
    pub amount: u64,
}

/// The record of an asset: its address and its decimal precision.
#[derive(Clone, Copy, Debug, PartialEq, Eq)]
pub struct Mint {
    pub address: Identity,
    pub decimals: u8,
}

/// The holding account to use for `owner` and `mint`: the existing one, or a
/// fresh empty account where there is none yet.
pub fn ensure_holding_account(existing: Option<TokenAccount>, owner: Identity, mint: Identity) -> (r:
    TokenAccount)
    ensures
        r == match existing {
            Some(account) => account,
            None => TokenAccount { mint, owner, amount: 0 },
        },
{
    match existing {
        Some(account) => account,
        None => TokenAccount { mint, owner, amount: 0 },
    }
}

/// Why moving `amount` from `from` to `to` under `authority` is refused, if
/// it is: the first of insufficient balance, differing assets, a foreign
/// authority, and a sum that the credited account cannot hold.
pub open spec fn transfer_failure(
    from: TokenAccount,
    to: TokenAccount,
    authority: Identity,
    amount: u64,
) -> Option<TransferFailure> {
    if from.amount < amount {
        Some(TransferFailure::InsufficientBalance)
    } else if from.mint != to.mint {
        Some(TransferFailure::AssetMismatch)
    } else if authority != from.owner {
        Some(TransferFailure::AuthorityMismatch)
    } else if to.amount + amount > u64::MAX {
        Some(TransferFailure::BalanceOverflow)
    } else {
        None
    }
}

/// As [`transfer_failure`], for a movement that also asserts the asset and its
/// precision: the asserted asset must be the one that the accounts hold, and
/// the asserted precision that of the asset's record.
pub open spec fn transfer_checked_failure(
    from: TokenAccount,
    to: TokenAccount,
    authority: Identity,
    mint: Mint,
    decimals: u8,
    amount: u64,
) -> Option<TransferFailure> {
    if from.amount < amount {
        Some(TransferFailure::InsufficientBalance)
    } else if from.mint != to.mint || mint.address != from.mint || decimals != mint.decimals {
        Some(TransferFailure::AssetMismatch)
    } else if authority != from.owner {
        Some(TransferFailure::AuthorityMismatch)
    } else if to.amount + amount > u64::MAX {
        Some(TransferFailure::BalanceOverflow)
    } else {
        None
    }
}

/// `account` with `amount` taken from its balance.
pub open spec fn debited(account: TokenAccount, amount: u64) -> TokenAccount {
    TokenAccount { amount: (account.amount - amount) as u64, ..account }
}

/// `account` with `amount` added to its balance.
pub open spec fn credited(account: TokenAccount, amount: u64) -> TokenAccount {
    TokenAccount { amount: (account.amount + amount) as u64, ..account }
}

/// Moves `amount` from `from` to `to`, authorized by `authority`. Either both
/// balances change, or the movement is refused and neither does.
pub fn transfer(
    from: &mut TokenAccount,
    to: &mut TokenAccount,
    authority: &AuthorityHandle,
    amount: u64,
) -> (r: Result<(), TransferFailure>)
    ensures
        match transfer_failure(*old(from), *old(to), authority.spec_address(), amount) {
            Some(failure) => r == Err::<(), TransferFailure>(failure) && *final(from) == *old(from)
                && *final(to) == *old(to),
            None => r is Ok && *final(from) == debited(*old(from), amount) && *final(to)
                == credited(*old(to), amount),
        },
{
    if from.amount < amount {
        return Err(TransferFailure::InsufficientBalance);
    }
    if from.mint != to.mint {
        return Err(TransferFailure::AssetMismatch);
    }
    if authority.address() != from.owner {
        return Err(TransferFailure::AuthorityMismatch);
    }
    match to.amount.checked_add(amount) {
        None => Err(TransferFailure::BalanceOverflow),
        Some(sum) => {
            from.amount = from.amount - amount;
            to.amount = sum;
            Ok(())
        },
    }
}

/// As [`transfer`], asserting also that the accounts hold the asset of `mint`
/// and that `decimals` is its precision.
pub fn transfer_checked(
    from: &mut TokenAccount,
    to: &mut TokenAccount,
    authority: &AuthorityHandle,
    mint: &Mint,
    decimals: u8,
    amount: u64,
) -> (r: Result<(), TransferFailure>)
    ensures
        match transfer_checked_failure(
            *old(from),
            *old(to),
            authority.spec_address(),
            *mint,
            decimals,
            amount,
        ) {
            Some(failure) => r == Err::<(), TransferFailure>(failure) && *final(from) == *old(from)
                && *final(to) == *old(to),
            None => r is Ok && *final(from) == debited(*old(from), amount) && *final(to)
                == credited(*old(to), amount),
        },
{
    if from.amount < amount {
        return Err(TransferFailure::InsufficientBalance);
    }
    if from.mint != to.mint || mint.address != from.mint || decimals != mint.decimals {
        return Err(TransferFailure::AssetMismatch);
    }
    transfer(from, to, authority, amount)
}

/// Why moving `amount` of `asset` is refused, if it is. The extended-class
/// asset is moved with the assertion of its record `mint` and that record's
/// precision, the legacy-class asset without.
pub open spec fn movement_failure(
    asset: Asset,
    mint: Mint,
    from: TokenAccount,
    to: TokenAccount,
    authority: Identity,
    amount: u64,
) -> Option<TransferFailure> {
    match asset {
        Asset::Spl => transfer_failure(from, to, authority, amount),
        Asset::Spl2022 => transfer_checked_failure(
            from,
            to,
            authority,
            mint,
            mint.decimals,
            amount,
        ),
    }
}

/// Moves `amount` of `asset` from `from` to `to` in the way of that asset's
/// class.
pub fn move_asset(
    asset: Asset,
    mint: &Mint,
    from: &mut TokenAccount,
    to: &mut TokenAccount,
    authority: &AuthorityHandle,
    amount: u64,
) -> (r: Result<(), TransferFailure>)
    ensures
        match movement_failure(
            asset,
            *mint,
            *old(from),
            *old(to),
            authority.spec_address(),
            amount,
        ) {
            Some(failure) => r == Err::<(), TransferFailure>(failure) && *final(from) == *old(from)
                && *final(to) == *old(to),
            None => r is Ok && *final(from) == debited(*old(from), amount) && *final(to)
                == credited(*old(to), amount),
        },
{
    match asset {
        Asset::Spl => transfer(from, to, authority, amount),
        Asset::Spl2022 => transfer_checked(from, to, authority, mint, mint.decimals, amount),
    }
}

} // verus!
