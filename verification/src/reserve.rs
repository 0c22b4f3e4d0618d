//! The reserve manager: the administrator's deposits into the vaults.

use vstd::prelude::*;
use crate::authority::AuthorityHandle;
use crate::error::SwapError;
use crate::identity::{Asset, Identity};
use crate::ledger::{credited, debited, move_asset, movement_failure, Mint, TokenAccount};
use crate::order::{make_order, order_of, Holder, TransferOrder};
use crate::state::SwapState;

verus! {

/// What a deposit works on, each account named by its role.
#[derive(Clone, Copy, Debug, PartialEq, Eq)]
pub struct ReserveAccounts {
    pub signer: Identity,
    pub swap_state: SwapState,
    /// The asset deposited.
    pub asset: Asset,
    /// The record presented for that asset.
    pub mint: Mint,
    /// The caller's account of the asset.
    pub payer: TokenAccount,
    /// The vault of the asset.
    pub vault: TokenAccount,
}

impl ReserveAccounts {
    /// Both accounts and the record are of the asset deposited.
    pub open spec fn mints_valid(self) -> bool {
        &&& self.mint.address == self.asset.spec_mint()
        &&& self.payer.mint == self.asset.spec_mint()
        &&& self.vault.mint == self.asset.spec_mint()
    }

    /// Why a deposit of `amount` is rejected, if it is: a wrong asset binding,
    /// then a caller who is not the administrator of an initialized
    /// configuration, then the ledger's refusal.
    pub open spec fn rejection(self, amount: u64) -> Option<SwapError> {
        if !self.mints_valid() {
            Some(SwapError::InvalidMint)
        } else if !self.swap_state.admits_reserve_from(self.signer) {
            Some(SwapError::Unauthorized)
        } else {
            match movement_failure(
                self.asset,
                self.mint,
                self.payer,
                self.vault,
                self.signer,
                amount,
            ) {
                Some(failure) => Some(SwapError::Transfer(failure)),
                None => None,
            }
        }
    }

    /// The accounts after a deposit of `amount` that was not rejected.
    pub open spec fn settled(self, amount: u64) -> ReserveAccounts {
        ReserveAccounts {
            payer: debited(self.payer, amount),
            vault: credited(self.vault, amount),
            ..self
        }
    }

    /// The accounts after a deposit of `amount`: settled, or as they were
    /// where the deposit is rejected.
    pub open spec fn after(self, amount: u64) -> ReserveAccounts {
        if self.rejection(amount) is None {
            self.settled(amount)
        } else {
            self
        }
    }

    /// The one movement of a deposit: the whole amount, with no fee, from the
    /// caller to the vault on the caller's own authority.
    pub open spec fn orders(self, amount: u64) -> Seq<TransferOrder> {
        seq![
            order_of(
                self.asset,
                self.mint,
                Holder::Caller,
                Holder::Vault,
                AuthorityHandle::Signer { identity: self.signer },
                amount,
            ),
        ]
    }
}

/// Deposits `amount` of the asset from the caller's account into the vault.
/// Only the administrator of an initialized configuration may. The movement
/// made is returned. A rejected deposit changes nothing.
pub fn add_reserve(accounts: &mut ReserveAccounts, amount: u64) -> (r: Result<
    Vec<TransferOrder>,
    SwapError,
>)
    ensures
        match old(accounts).rejection(amount) {
            Some(error) => r == Err::<Vec<TransferOrder>, SwapError>(error),
            None => r matches Ok(orders) && orders@ == old(accounts).orders(amount),
        },
        *final(accounts) == old(accounts).after(amount),
{
    let asset_mint = accounts.asset.mint();
    if accounts.mint.address != asset_mint || accounts.payer.mint != asset_mint
        || accounts.vault.mint != asset_mint {
        return Err(SwapError::InvalidMint);
    }
    if !accounts.swap_state.initialized || accounts.signer != accounts.swap_state.admin {
        return Err(SwapError::Unauthorized);
    }
    let caller = AuthorityHandle::signer(accounts.signer);
    let asset = accounts.asset;
    let mint = accounts.mint;
    let mut payer = accounts.payer;
    let mut vault = accounts.vault;
    match move_asset(asset, &mint, &mut payer, &mut vault, &caller, amount) {
        Err(failure) => {
            return Err(SwapError::Transfer(failure));
        },
        Ok(()) => {},
    }
    accounts.payer = payer;
    accounts.vault = vault;

    let mut orders: Vec<TransferOrder> = Vec::new();
    orders.push(make_order(asset, &mint, Holder::Caller, Holder::Vault, caller, amount));
    proof {
        assert(orders@ =~= old(accounts).orders(amount));
    }
    Ok(orders)
}

/// The accounts of a deposit of the extended-class asset.
#[derive(Clone, Copy, Debug, PartialEq, Eq)]
pub struct Add2022Reserve {
    pub signer: Identity,
    pub swap_state: SwapState,
    pub payer_mea_account: TokenAccount,
    pub vault_authority: AuthorityHandle,
    pub vault_mea_2022: TokenAccount,
    pub mea_2022: Mint,
}

/// The accounts of a deposit of the legacy-class asset.
#[derive(Clone, Copy, Debug, PartialEq, Eq)]
pub struct AddSplReserve {
    pub signer: Identity,
    pub swap_state: SwapState,
    pub payer_mea_account: TokenAccount,
    pub vault_authority: AuthorityHandle,
    pub vault_mea_spl: TokenAccount,
    pub mea_spl: Mint,
}

impl Add2022Reserve {
    /// The accounts by their roles in the deposit.
    pub open spec fn spec_by_role(self) -> ReserveAccounts {
        ReserveAccounts {
            signer: self.signer,
            swap_state: self.swap_state,
            asset: Asset::Spl2022,
            mint: self.mea_2022,
            payer: self.payer_mea_account,
            vault: self.vault_mea_2022,
        }
    }

    /// These accounts with the two balances of `roles`.
    pub open spec fn with_balances(self, roles: ReserveAccounts) -> Add2022Reserve {
        Add2022Reserve { payer_mea_account: roles.payer, vault_mea_2022: roles.vault, ..self }
    }

    /// The accounts by their roles in the deposit.
    #[verifier::when_used_as_spec(spec_by_role)]
    pub fn by_role(self) -> (r: ReserveAccounts)
        ensures
            r == self.spec_by_role(),
    {
        ReserveAccounts {
            signer: self.signer,
            swap_state: self.swap_state,
            asset: Asset::Spl2022,
            mint: self.mea_2022,
            payer: self.payer_mea_account,
            vault: self.vault_mea_2022,
        }
    }
}

impl AddSplReserve {
    /// The accounts by their roles in the deposit.
    pub open spec fn spec_by_role(self) -> ReserveAccounts {
        ReserveAccounts {
            signer: self.signer,
            swap_state: self.swap_state,
            asset: Asset::Spl,
            mint: self.mea_spl,
            payer: self.payer_mea_account,
            vault: self.vault_mea_spl,
        }
    }

    /// These accounts with the two balances of `roles`.
    pub open spec fn with_balances(self, roles: ReserveAccounts) -> AddSplReserve {
        AddSplReserve { payer_mea_account: roles.payer, vault_mea_spl: roles.vault, ..self }
    }

    /// The accounts by their roles in the deposit.
    #[verifier::when_used_as_spec(spec_by_role)]
    pub fn by_role(self) -> (r: ReserveAccounts)
        ensures
            r == self.spec_by_role(),
    {
        ReserveAccounts {
            signer: self.signer,
            swap_state: self.swap_state,
            asset: Asset::Spl,
            mint: self.mea_spl,
            payer: self.payer_mea_account,
            vault: self.vault_mea_spl,
        }
    }
}

/// Deposits `amount` of the extended-class asset into its vault. See
/// [`add_reserve`].
pub fn add2022_reserve(ctx: &mut Add2022Reserve, amount: u64) -> (r: Result<
    Vec<TransferOrder>,
    SwapError,
>)
    ensures
        match old(ctx).spec_by_role().rejection(amount) {
            Some(error) => r == Err::<Vec<TransferOrder>, SwapError>(error),
            None => r matches Ok(orders) && orders@ == old(ctx).spec_by_role().orders(amount),
        },
        *final(ctx) == old(ctx).with_balances(old(ctx).spec_by_role().after(amount)),
{
    let mut roles = ctx.by_role();
    let orders = add_reserve(&mut roles, amount)?;
    ctx.payer_mea_account = roles.payer;
    ctx.vault_mea_2022 = roles.vault;
    Ok(orders)
}

/// Deposits `amount` of the legacy-class asset into its vault. See
/// [`add_reserve`].
pub fn add_spl_reserve(ctx: &mut AddSplReserve, amount: u64) -> (r: Result<
    Vec<TransferOrder>,
    SwapError,
>)
    ensures
        match old(ctx).spec_by_role().rejection(amount) {
            Some(error) => r == Err::<Vec<TransferOrder>, SwapError>(error),
            None => r matches Ok(orders) && orders@ == old(ctx).spec_by_role().orders(amount),
        },
        *final(ctx) == old(ctx).with_balances(old(ctx).spec_by_role().after(amount)),
{
    let mut roles = ctx.by_role();
    let orders = add_reserve(&mut roles, amount)?;
    ctx.payer_mea_account = roles.payer;
    ctx.vault_mea_spl = roles.vault;
    Ok(orders)
}

} // verus!
