//! The swap engine: one asset is paid in, the other is paid out, and the fee
//! stays in the treasury of the asset paid in.

use vstd::prelude::*;
use crate::authority::AuthorityHandle;
use crate::error::SwapError;
use crate::identity::{Asset, Identity};
use crate::ledger::{credited, debited, move_asset, movement_failure, Mint, TokenAccount};
use crate::math::{compute_fee, fee_computable, fee_of};
use crate::order::{make_order, order_of, Holder, TransferOrder};
use crate::state::SwapState;

verus! {

/// What a swap works on, each account named by its role: the caller pays
/// `asset_in` from `payer` and is paid the other asset into `receiver`.
#[derive(Clone, Copy, Debug, PartialEq, Eq)]
pub struct SwapAccounts {
    pub signer: Identity,
    pub swap_state: SwapState,
    pub vault_authority: AuthorityHandle,
    /// The asset that the caller pays in.
    pub asset_in: Asset,
    /// The record presented for the asset paid in.
    pub mint_in: Mint,
    /// The record presented for the asset paid out.
    pub mint_out: Mint,
    /// The caller's account of the asset paid in.
    pub payer: TokenAccount,
    /// The vault of the asset paid in.
    pub vault_in: TokenAccount,
    /// The treasury of the asset paid in.
    pub treasury_in: TokenAccount,
    /// The vault of the asset paid out.
    pub vault_out: TokenAccount,
    /// The caller's account of the asset paid out.
    pub receiver: TokenAccount,
}

impl SwapAccounts {
    /// The asset that the caller is paid.
    pub open spec fn asset_out(self) -> Asset {
        self.asset_in.spec_other()
    }

    /// Every account and record is of the fixed asset of its slot.
    pub open spec fn mints_valid(self) -> bool {
        &&& self.mint_in.address == self.asset_in.spec_mint()
        &&& self.mint_out.address == self.asset_out().spec_mint()
        &&& self.payer.mint == self.asset_in.spec_mint()
        &&& self.vault_in.mint == self.asset_in.spec_mint()
        &&& self.treasury_in.mint == self.asset_in.spec_mint()
        &&& self.vault_out.mint == self.asset_out().spec_mint()
        &&& self.receiver.mint == self.asset_out().spec_mint()
    }

    /// The fee on `amount` at the configured rate.
    pub open spec fn fee(self, amount: u64) -> u64 {
        fee_of(amount, self.swap_state.fee_bps) as u64
    }

    /// What is left of `amount` after the fee.
    pub open spec fn net(self, amount: u64) -> u64 {
        (amount - fee_of(amount, self.swap_state.fee_bps)) as u64
    }

    /// Why the ledger refuses one of the three movements of a swap of
    /// `amount`, if it does: the first refusal, the movements taken in order.
    pub open spec fn ledger_refusal(self, amount: u64) -> Option<SwapError> {
        let caller = self.signer;
        let fee = self.fee(amount);
        let net = self.net(amount);
        match movement_failure(self.asset_in, self.mint_in, self.payer, self.vault_in, caller, net) {
            Some(failure) => Some(SwapError::Transfer(failure)),
            None => match movement_failure(
                self.asset_in,
                self.mint_in,
                debited(self.payer, net),
                self.treasury_in,
                caller,
                fee,
            ) {
                Some(failure) => Some(SwapError::Transfer(failure)),
                None => match movement_failure(
                    self.asset_out(),
                    self.mint_out,
                    self.vault_out,
                    self.receiver,
                    self.vault_authority.spec_address(),
                    net,
                ) {
                    Some(failure) => Some(SwapError::Transfer(failure)),
                    None => None,
                },
            },
        }
    }

    /// Why a swap of `amount` is rejected, if it is: a wrong asset binding,
    /// then a configuration that is not initialized, then a fee that cannot be
    /// computed, then the first refusal of the ledger.
    pub open spec fn rejection(self, amount: u64) -> Option<SwapError> {
        if !self.mints_valid() {
            Some(SwapError::InvalidMint)
        } else if !self.swap_state.initialized {
            Some(SwapError::Unauthorized)
        } else if !fee_computable(amount, self.swap_state.fee_bps) {
            Some(SwapError::MathOverflow)
        } else {
            self.ledger_refusal(amount)
        }
    }

    /// The accounts after a swap of `amount` that was not rejected.
    pub open spec fn settled(self, amount: u64) -> SwapAccounts {
        let fee = self.fee(amount);
        let net = self.net(amount);
        SwapAccounts {
            payer: debited(debited(self.payer, net), fee),
            vault_in: credited(self.vault_in, net),
            treasury_in: credited(self.treasury_in, fee),
            vault_out: debited(self.vault_out, net),
            receiver: credited(self.receiver, net),
            ..self
        }
    }

    /// The accounts after a swap of `amount`: settled, or as they were where
    /// the swap is rejected.
    pub open spec fn after(self, amount: u64) -> SwapAccounts {
        if self.rejection(amount) is None {
            self.settled(amount)
        } else {
            self
        }
    }

    /// The three movements of a swap of `amount`, in the order in which they
    /// are made: net amount to the vault, fee to the treasury, both on the
    /// caller's authority, then the net amount of the other asset from the
    /// vault to the caller, on the vault authority's.
    pub open spec fn orders(self, amount: u64) -> Seq<TransferOrder> {
        let caller = AuthorityHandle::Signer { identity: self.signer };
        seq![
            order_of(
                self.asset_in,
                self.mint_in,
                Holder::Caller,
                Holder::Vault,
                caller,
                self.net(amount),
            ),
            order_of(
                self.asset_in,
                self.mint_in,
                Holder::Caller,
                Holder::Treasury,
                caller,
                self.fee(amount),
            ),
            order_of(
                self.asset_out(),
                self.mint_out,
                Holder::Vault,
                Holder::Caller,
                self.vault_authority,
                self.net(amount),
            ),
        ]
    }

    /// Tests every account and record against the fixed asset of its slot.
    pub fn check_mints(&self) -> (r: Result<(), SwapError>)
        ensures
            self.mints_valid() ==> r is Ok,
            !self.mints_valid() ==> r == Err::<(), SwapError>(SwapError::InvalidMint),
    {
        let mint_in = self.asset_in.mint();
        let mint_out = self.asset_in.other().mint();
        if self.mint_in.address != mint_in || self.mint_out.address != mint_out {
            return Err(SwapError::InvalidMint);
        }
        if self.payer.mint != mint_in || self.vault_in.mint != mint_in || self.treasury_in.mint
            != mint_in {
            return Err(SwapError::InvalidMint);
        }
        if self.vault_out.mint != mint_out || self.receiver.mint != mint_out {
            return Err(SwapError::InvalidMint);
        }
        Ok(())
    }
}

/// Swaps `amount` of the asset paid in for the net amount of the other asset.
///
/// The fee at the configured rate goes to the treasury of the asset paid in,
/// the net amount to its vault, and the same net amount of the other asset
/// leaves its vault for the caller. The movements made are returned in their
/// order. A rejected swap changes nothing.
pub fn swap(accounts: &mut SwapAccounts, amount: u64) -> (r: Result<Vec<TransferOrder>, SwapError>)
    ensures
        match old(accounts).rejection(amount) {
            Some(error) => r == Err::<Vec<TransferOrder>, SwapError>(error),
            None => r matches Ok(orders) && orders@ == old(accounts).orders(amount),
        },
        *final(accounts) == old(accounts).after(amount),
{
    match accounts.check_mints() {
        Err(error) => {
            return Err(error);
        },
        Ok(()) => {},
    }
    if !accounts.swap_state.initialized {
        return Err(SwapError::Unauthorized);
    }
    let (fee, net) = match compute_fee(amount, accounts.swap_state.fee_bps) {
        Ok(split) => split,
        Err(error) => {
            return Err(error);
        },
    };
    let caller = AuthorityHandle::signer(accounts.signer);
    let vault_authority = accounts.vault_authority;
    let asset_in = accounts.asset_in;
    let asset_out = asset_in.other();
    let mint_in = accounts.mint_in;
    let mint_out = accounts.mint_out;
    let mut payer = accounts.payer;
    let mut vault_in = accounts.vault_in;
    let mut treasury_in = accounts.treasury_in;
    let mut vault_out = accounts.vault_out;
    let mut receiver = accounts.receiver;

    match move_asset(asset_in, &mint_in, &mut payer, &mut vault_in, &caller, net) {
        Err(failure) => {
            return Err(SwapError::Transfer(failure));
        },
        Ok(()) => {},
    }
    match move_asset(asset_in, &mint_in, &mut payer, &mut treasury_in, &caller, fee) {
        Err(failure) => {
            return Err(SwapError::Transfer(failure));
        },
        Ok(()) => {},
    }
    match move_asset(asset_out, &mint_out, &mut vault_out, &mut receiver, &vault_authority, net) {
        Err(failure) => {
            return Err(SwapError::Transfer(failure));
        },
        Ok(()) => {},
    }
    accounts.payer = payer;
    accounts.vault_in = vault_in;
    accounts.treasury_in = treasury_in;
    accounts.vault_out = vault_out;
    accounts.receiver = receiver;

    let mut orders: Vec<TransferOrder> = Vec::new();
    orders.push(make_order(asset_in, &mint_in, Holder::Caller, Holder::Vault, caller, net));
    orders.push(make_order(asset_in, &mint_in, Holder::Caller, Holder::Treasury, caller, fee));
    orders.push(
        make_order(asset_out, &mint_out, Holder::Vault, Holder::Caller, vault_authority, net),
    );
    proof {
        assert(orders@ =~= old(accounts).orders(amount));
    }
    Ok(orders)
}

/// The accounts of a swap that pays the legacy-class asset in.
#[derive(Clone, Copy, Debug, PartialEq, Eq)]
pub struct SwapSplToSpl2022 {
    pub signer: Identity,
    pub swap_state: SwapState,
    /// The caller's account of the legacy-class asset.
    pub payer_mea_account: TokenAccount,
    pub treasury: AuthorityHandle,
    pub treasury_mea_spl: TokenAccount,
    pub vault_authority: AuthorityHandle,
    pub vault_mea_spl: TokenAccount,
    pub vault_mea_2022: TokenAccount,
    /// The caller's account of the extended-class asset.
    pub receiver_mea_2022: TokenAccount,
    pub mea_spl: Mint,
    pub mea_2022: Mint,
}

/// The accounts of a swap that pays the extended-class asset in.
#[derive(Clone, Copy, Debug, PartialEq, Eq)]
pub struct SwapSpl2022ToSpl {
    pub signer: Identity,
    pub swap_state: SwapState,
    /// The caller's account of the extended-class asset.
    pub payer_mea_account: TokenAccount,
    pub treasury: AuthorityHandle,
    pub treasury_mea_spl2022: TokenAccount,
    pub vault_authority: AuthorityHandle,
    pub vault_mea_spl: TokenAccount,
    pub vault_mea_2022: TokenAccount,
    /// The caller's account of the legacy-class asset.
    pub receiver_mea_spl: TokenAccount,
    pub mea_spl: Mint,
    pub mea_2022: Mint,
}

impl SwapSplToSpl2022 {
    /// The accounts by their roles in the swap.
    pub open spec fn spec_by_role(self) -> SwapAccounts {
        SwapAccounts {
            signer: self.signer,
            swap_state: self.swap_state,
            vault_authority: self.vault_authority,
            asset_in: Asset::Spl,
            mint_in: self.mea_spl,
            mint_out: self.mea_2022,
            payer: self.payer_mea_account,
            vault_in: self.vault_mea_spl,
            treasury_in: self.treasury_mea_spl,
            vault_out: self.vault_mea_2022,
            receiver: self.receiver_mea_2022,
        }
    }

    /// These accounts with the five balances of `roles`.
    pub open spec fn with_balances(self, roles: SwapAccounts) -> SwapSplToSpl2022 {
        SwapSplToSpl2022 {
            payer_mea_account: roles.payer,
            vault_mea_spl: roles.vault_in,
            treasury_mea_spl: roles.treasury_in,
            vault_mea_2022: roles.vault_out,
            receiver_mea_2022: roles.receiver,
            ..self
        }
    }

    /// The accounts by their roles in the swap.
    #[verifier::when_used_as_spec(spec_by_role)]
    pub fn by_role(self) -> (r: SwapAccounts)
        ensures
            r == self.spec_by_role(),
    {
        SwapAccounts {
            signer: self.signer,
            swap_state: self.swap_state,
            vault_authority: self.vault_authority,
            asset_in: Asset::Spl,
            mint_in: self.mea_spl,
            mint_out: self.mea_2022,
            payer: self.payer_mea_account,
            vault_in: self.vault_mea_spl,
            treasury_in: self.treasury_mea_spl,
            vault_out: self.vault_mea_2022,
            receiver: self.receiver_mea_2022,
        }
    }
}

impl SwapSpl2022ToSpl {
    /// The accounts by their roles in the swap.
    pub open spec fn spec_by_role(self) -> SwapAccounts {
        SwapAccounts {
            signer: self.signer,
            swap_state: self.swap_state,
            vault_authority: self.vault_authority,
            asset_in: Asset::Spl2022,
            mint_in: self.mea_2022,
            mint_out: self.mea_spl,
            payer: self.payer_mea_account,
            vault_in: self.vault_mea_2022,
            treasury_in: self.treasury_mea_spl2022,
            vault_out: self.vault_mea_spl,
            receiver: self.receiver_mea_spl,
        }
    }

    /// These accounts with the five balances of `roles`.
    pub open spec fn with_balances(self, roles: SwapAccounts) -> SwapSpl2022ToSpl {
        SwapSpl2022ToSpl {
            payer_mea_account: roles.payer,
            vault_mea_2022: roles.vault_in,
            treasury_mea_spl2022: roles.treasury_in,
            vault_mea_spl: roles.vault_out,
            receiver_mea_spl: roles.receiver,
            ..self
        }
    }

    /// The accounts by their roles in the swap.
    #[verifier::when_used_as_spec(spec_by_role)]
    pub fn by_role(self) -> (r: SwapAccounts)
        ensures
            r == self.spec_by_role(),
    {
        SwapAccounts {
            signer: self.signer,
            swap_state: self.swap_state,
            vault_authority: self.vault_authority,
            asset_in: Asset::Spl2022,
            mint_in: self.mea_2022,
            mint_out: self.mea_spl,
            payer: self.payer_mea_account,
            vault_in: self.vault_mea_2022,
            treasury_in: self.treasury_mea_spl2022,
            vault_out: self.vault_mea_spl,
            receiver: self.receiver_mea_spl,
        }
    }
}

/// Swaps `amount` of the legacy-class asset for the net amount of the
/// extended-class asset. See [`swap`].
pub fn swap_spl_to_spl2022(ctx: &mut SwapSplToSpl2022, amount: u64) -> (r: Result<
    Vec<TransferOrder>,
    SwapError,
>)
    ensures
        match old(ctx).spec_by_role().rejection(amount) {
            Some(error) => r == Err::<Vec<TransferOrder>, SwapError>(error),
            None => r matches Ok(orders) && orders@ == old(ctx).spec_by_role().orders(amount),
        },
        *final(ctx) == old(ctx).with_balances(old(ctx).spec_by_role().after(amount)),
{
    let mut roles = ctx.by_role();
    let orders = swap(&mut roles, amount)?;
    ctx.payer_mea_account = roles.payer;
    ctx.vault_mea_spl = roles.vault_in;
    ctx.treasury_mea_spl = roles.treasury_in;
    ctx.vault_mea_2022 = roles.vault_out;
    ctx.receiver_mea_2022 = roles.receiver;
    Ok(orders)
}

/// Swaps `amount` of the extended-class asset for the net amount of the
/// legacy-class asset. See [`swap`].
pub fn swap_spl2022_to_spl(ctx: &mut SwapSpl2022ToSpl, amount: u64) -> (r: Result<
    Vec<TransferOrder>,
    SwapError,
>)
    ensures
        match old(ctx).spec_by_role().rejection(amount) {
            Some(error) => r == Err::<Vec<TransferOrder>, SwapError>(error),
            None => r matches Ok(orders) && orders@ == old(ctx).spec_by_role().orders(amount),
        },
        *final(ctx) == old(ctx).with_balances(old(ctx).spec_by_role().after(amount)),
{
    let mut roles = ctx.by_role();
    let orders = swap(&mut roles, amount)?;
    ctx.payer_mea_account = roles.payer;
    ctx.vault_mea_2022 = roles.vault_in;
    ctx.treasury_mea_spl2022 = roles.treasury_in;
    ctx.vault_mea_spl = roles.vault_out;
    ctx.receiver_mea_spl = roles.receiver;
    Ok(orders)
}

} // verus!
