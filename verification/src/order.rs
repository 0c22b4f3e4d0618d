//! Transfer orders: the balance movements that an operation decides on, in
//! the form in which a host carries them out on the ledger.

use vstd::prelude::*;
use crate::authority::AuthorityHandle;
use crate::identity::Asset;
use crate::ledger::Mint;

verus! {

/// Who controls a holding account that an operation touches.
#[derive(Clone, Copy, Debug, PartialEq, Eq, Structural)]
pub enum Holder {
    /// The caller of the operation.
    Caller,
    /// The vault authority.
    Vault,
    /// The treasury authority.
    Treasury,
}

/// One balance movement: `amount` of `asset` from the account that `from`
/// holds to the one that `to` holds, authorized by `authority`.
#[derive(Clone, Copy, Debug, PartialEq, Eq)]
pub struct TransferOrder {
    pub asset: Asset,
    pub from: Holder,
    pub to: Holder,
    pub authority: AuthorityHandle,
    pub amount: u64,
    /// The precision to assert with the asset's identity; none for the
    /// legacy-class asset, which is moved without that assertion.
    pub decimals: Option<u8>,
}

/// The precision that a movement of `asset` asserts.
pub open spec fn asserted_decimals(asset: Asset, mint: Mint) -> Option<u8> {
    match asset {
        Asset::Spl => None,
        Asset::Spl2022 => Some(mint.decimals),
    }
}

/// The order to move `amount` of `asset`, whose record is `mint`.
pub open spec fn order_of(
    asset: Asset,
    mint: Mint,
    from: Holder,
    to: Holder,
    authority: AuthorityHandle,
    amount: u64,
) -> TransferOrder {
    TransferOrder { asset, from, to, authority, amount, decimals: asserted_decimals(asset, mint) }
}

/// The order to move `amount` of `asset`, whose record is `mint`.
pub fn make_order(
    asset: Asset,
    mint: &Mint,
    from: Holder,
    to: Holder,
    authority: AuthorityHandle,
    amount: u64,
) -> (r: TransferOrder)
    ensures
        r == order_of(asset, *mint, from, to, authority, amount),
{
    let decimals = match asset {
        Asset::Spl => None,
        Asset::Spl2022 => Some(mint.decimals),
    };
    TransferOrder { asset, from, to, authority, amount, decimals }
}

} // verus!
