//! Fee withdrawal: the administrator sweeps both treasuries.

use vstd::prelude::*;
use crate::authority::AuthorityHandle;
use crate::error::SwapError;
use crate::identity::{Asset, Identity};
use crate::ledger::{credited, debited, move_asset, movement_failure, Mint, TokenAccount};
use crate::order::{make_order, order_of, Holder, TransferOrder};
use crate::state::SwapState;

verus! {

/// The accounts of a fee withdrawal.
#[derive(Clone, Copy, Debug, PartialEq, Eq)]
pub struct WithdrawFees {
    pub signer: Identity,
    pub swap_state: SwapState,
    pub treasury: AuthorityHandle,
    pub treasury_mea_spl: TokenAccount,
    pub treasury_mea_spl2022: TokenAccount,
    /// The destination of the legacy-class fees.
    pub receiver_mea_spl: TokenAccount,
    /// The destination of the extended-class fees.
    pub receiver_mea_spl2022: TokenAccount,
    pub mea_spl: Mint,
    pub mea_2022: Mint,
}

impl WithdrawFees {
    /// Every account and record is of the fixed asset of its slot.
    pub open spec fn mints_valid(self) -> bool {
        &&& self.mea_spl.address == Asset::Spl.spec_mint()
        &&& self.mea_2022.address == Asset::Spl2022.spec_mint()
        &&& self.treasury_mea_spl.mint == Asset::Spl.spec_mint()
        &&& self.receiver_mea_spl.mint == Asset::Spl.spec_mint()
        &&& self.treasury_mea_spl2022.mint == Asset::Spl2022.spec_mint()
        &&& self.receiver_mea_spl2022.mint == Asset::Spl2022.spec_mint()
    }

    /// Why the withdrawal is rejected, if it is: a wrong asset binding, then a
    /// caller who is not the administrator, then the ledger's refusal of the
    /// legacy-class movement, then of the extended-class one.
    pub open spec fn rejection(self) -> Option<SwapError> {
        if !self.mints_valid() {
            Some(SwapError::InvalidMint)
        } else if !self.swap_state.administered_by(self.signer) {
            Some(SwapError::Unauthorized)
        } else {
            match movement_failure(
                Asset::Spl,
                self.mea_spl,
                self.treasury_mea_spl,
                self.receiver_mea_spl,
                self.treasury.spec_address(),
                self.treasury_mea_spl.amount,
            ) {
                Some(failure) => Some(SwapError::Transfer(failure)),
                None => match movement_failure(
                    Asset::Spl2022,
                    self.mea_2022,
                    self.treasury_mea_spl2022,
                    self.receiver_mea_spl2022,
                    self.treasury.spec_address(),
                    self.treasury_mea_spl2022.amount,
                ) {
                    Some(failure) => Some(SwapError::Transfer(failure)),
                    None => None,
                },
            }
        }
    }

    /// The accounts after a withdrawal that was not rejected: both treasuries
    /// empty, their whole balances at the destinations.
    pub open spec fn settled(self) -> WithdrawFees {
        WithdrawFees {
            treasury_mea_spl: debited(self.treasury_mea_spl, self.treasury_mea_spl.amount),
            receiver_mea_spl: credited(self.receiver_mea_spl, self.treasury_mea_spl.amount),
            treasury_mea_spl2022: debited(
                self.treasury_mea_spl2022,
                self.treasury_mea_spl2022.amount,
            ),
            receiver_mea_spl2022: credited(
                self.receiver_mea_spl2022,
                self.treasury_mea_spl2022.amount,
            ),
            ..self
        }
    }

    /// The accounts after a withdrawal: settled, or as they were where the
    /// withdrawal is rejected.
    pub open spec fn after(self) -> WithdrawFees {
        if self.rejection() is None {
            self.settled()
        } else {
            self
        }
    }

    /// The two movements of a withdrawal, in their order: the whole balance
    /// of each treasury, on the treasury authority's word.
    pub open spec fn orders(self) -> Seq<TransferOrder> {
        seq![
            order_of(
                Asset::Spl,
                self.mea_spl,
                Holder::Treasury,
                Holder::Caller,
                self.treasury,
                self.treasury_mea_spl.amount,
            ),
            order_of(
                Asset::Spl2022,
                self.mea_2022,
                Holder::Treasury,
                Holder::Caller,
                self.treasury,
                self.treasury_mea_spl2022.amount,
            ),
        ]
    }

    /// Tests every account and record against the fixed asset of its slot.
    pub fn check_mints(&self) -> (r: Result<(), SwapError>)
        ensures
            self.mints_valid() ==> r is Ok,
            !self.mints_valid() ==> r == Err::<(), SwapError>(SwapError::InvalidMint),
    {
        let spl = Asset::Spl.mint();
        let spl2022 = Asset::Spl2022.mint();
        if self.mea_spl.address != spl || self.mea_2022.address != spl2022 {
            return Err(SwapError::InvalidMint);
        }
        if self.treasury_mea_spl.mint != spl || self.receiver_mea_spl.mint != spl {
            return Err(SwapError::InvalidMint);
        }
        if self.treasury_mea_spl2022.mint != spl2022 || self.receiver_mea_spl2022.mint != spl2022 {
            return Err(SwapError::InvalidMint);
        }
        Ok(())
    }
}

/// Moves the whole balance of each treasury to the caller's destination
/// accounts, first the legacy-class fees, then the extended-class ones. Only
/// the administrator may. The movements made are returned in their order. A
/// rejected withdrawal changes nothing.
pub fn withdraw_fees(ctx: &mut WithdrawFees) -> (r: Result<Vec<TransferOrder>, SwapError>)
    ensures
        match old(ctx).rejection() {
            Some(error) => r == Err::<Vec<TransferOrder>, SwapError>(error),
            None => r matches Ok(orders) && orders@ == old(ctx).orders(),
        },
        *final(ctx) == old(ctx).after(),
{
    match ctx.check_mints() {
        Err(error) => {
            return Err(error);
        },
        Ok(()) => {},
    }
    if !ctx.swap_state.is_admin(&ctx.signer) {
        return Err(SwapError::Unauthorized);
    }
    let treasury = ctx.treasury;
    let mea_spl = ctx.mea_spl;
    let mea_2022 = ctx.mea_2022;
    let mut treasury_spl = ctx.treasury_mea_spl;
    let mut receiver_spl = ctx.receiver_mea_spl;
    let mut treasury_2022 = ctx.treasury_mea_spl2022;
    let mut receiver_2022 = ctx.receiver_mea_spl2022;
    let spl_fees: u64 = treasury_spl.amount;
    let spl2022_fees: u64 = treasury_2022.amount;

    match move_asset(Asset::Spl, &mea_spl, &mut treasury_spl, &mut receiver_spl, &treasury, spl_fees) {
        Err(failure) => {
            return Err(SwapError::Transfer(failure));
        },
        Ok(()) => {},
    }
    match move_asset(
        Asset::Spl2022,
        &mea_2022,
        &mut treasury_2022,
        &mut receiver_2022,
        &treasury,
        spl2022_fees,
    ) {
        Err(failure) => {
            return Err(SwapError::Transfer(failure));
        },
        Ok(()) => {},
    }
    ctx.treasury_mea_spl = treasury_spl;
    ctx.receiver_mea_spl = receiver_spl;
    ctx.treasury_mea_spl2022 = treasury_2022;
    ctx.receiver_mea_spl2022 = receiver_2022;

    let mut orders: Vec<TransferOrder> = Vec::new();
    orders.push(
        make_order(Asset::Spl, &mea_spl, Holder::Treasury, Holder::Caller, treasury, spl_fees),
    );
    orders.push(
        make_order(
            Asset::Spl2022,
            &mea_2022,
            Holder::Treasury,
            Holder::Caller,
            treasury,
            spl2022_fees,
        ),
    );
    proof {
        assert(orders@ =~= old(ctx).orders());
    }
    Ok(orders)
}

} // verus!
