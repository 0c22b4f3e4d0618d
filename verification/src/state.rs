//! The configuration record and the operations that create and change it.

use vstd::prelude::*;
use crate::error::SwapError;
use crate::identity::Identity;

verus! {

/// The configuration record of the exchange.
#[derive(Clone, Copy, Debug, PartialEq, Eq)]
pub struct SwapState {
    /// Set when the record is created, and never cleared.
    pub initialized: bool,
    /// The identity that may change the record, add reserves and withdraw fees.
    pub admin: Identity,
    /// The fee rate in basis points.
    pub fee_bps: u16,
}

impl SwapState {
    /// Whether `caller` is the administrator of this record.
    pub open spec fn administered_by(self, caller: Identity) -> bool {
        self.admin == caller
    }

    /// Whether `caller` may add reserves: the record is initialized and
    /// `caller` is its administrator.
    pub open spec fn admits_reserve_from(self, caller: Identity) -> bool {
        self.initialized && self.admin == caller
    }

    /// Whether `caller` is the administrator of this record.
    pub fn is_admin(&self, caller: &Identity) -> (r: bool)
        ensures
            r == self.administered_by(*caller),
    {
        self.admin == *caller
    }
}

/// What creating the configuration needs: the caller, and the record slot at
/// the configuration's address, empty until the record is created.
#[derive(Clone, Copy, Debug, PartialEq, Eq)]
pub struct Initialize {
    pub signer: Identity,
    pub swap_state: Option<SwapState>,
}

/// What changing the configuration needs: the caller and the record.
#[derive(Clone, Copy, Debug, PartialEq, Eq)]
pub struct UpdateState {
    pub signer: Identity,
    pub swap_state: SwapState,
}

impl Initialize {
    /// The outcome of creating the record with rate `fee_bps`: the slot filled
    /// with an initialized record administered by the caller, or a rejection
    /// where the slot is taken.
    pub open spec fn after_initialize(self, fee_bps: u16) -> Result<Initialize, SwapError> {
        match self.swap_state {
            Some(_) => Err(SwapError::AlreadyExists),
            None => Ok(
                Initialize {
                    signer: self.signer,
                    swap_state: Some(
                        SwapState { initialized: true, admin: self.signer, fee_bps },
                    ),
                },
            ),
        }
    }
}

impl Initialize {
    /// The slot after an attempt to create the record with rate `fee_bps`.
    pub open spec fn after(self, fee_bps: u16) -> Initialize {
        match self.after_initialize(fee_bps) {
            Ok(next) => next,
            Err(_) => self,
        }
    }
}

impl UpdateState {
    /// The record after an attempt to set the rate to `fee_bps`.
    pub open spec fn fee_set(self, fee_bps: u16) -> UpdateState {
        match self.after_update_fee(fee_bps) {
            Ok(next) => next,
            Err(_) => self,
        }
    }

    /// The record after an attempt to hand the administration to `new_admin`.
    pub open spec fn admin_set(self, new_admin: Identity) -> UpdateState {
        match self.after_update_admin(new_admin) {
            Ok(next) => next,
            Err(_) => self,
        }
    }

    /// The outcome of setting the rate to `fee_bps`: the record with the new
    /// rate, or a rejection where the caller is not the administrator.
    pub open spec fn after_update_fee(self, fee_bps: u16) -> Result<UpdateState, SwapError> {
        if self.swap_state.administered_by(self.signer) {
            Ok(UpdateState { swap_state: SwapState { fee_bps, ..self.swap_state }, ..self })
        } else {
            Err(SwapError::Unauthorized)
        }
    }

    /// The outcome of handing the administration to `new_admin`: the record
    /// with the new administrator, or a rejection where the caller is not the
    /// present one.
    pub open spec fn after_update_admin(self, new_admin: Identity) -> Result<
        UpdateState,
        SwapError,
    > {
        if self.swap_state.administered_by(self.signer) {
            Ok(
                UpdateState {
                    swap_state: SwapState { admin: new_admin, ..self.swap_state },
                    ..self
                },
            )
        } else {
            Err(SwapError::Unauthorized)
        }
    }
}

/// Creates the configuration record, initialized, with the caller as
/// administrator and `fee_bps` as rate. Where a record exists already the
/// call is rejected and the record stays as it is. The rate is taken as
/// given, whatever its size.
pub fn initialize(ctx: &mut Initialize, fee_bps: u16) -> (r: Result<(), SwapError>)
    ensures
        match old(ctx).after_initialize(fee_bps) {
            Ok(_) => r is Ok,
            Err(error) => r == Err::<(), SwapError>(error),
        },
        *final(ctx) == old(ctx).after(fee_bps),
{
    match ctx.swap_state {
        Some(_) => Err(SwapError::AlreadyExists),
        None => {
            ctx.swap_state = Some(SwapState { initialized: true, admin: ctx.signer, fee_bps });
            Ok(())
        },
    }
}

/// Sets the fee rate. Only the administrator may; the rate is taken as given,
/// whatever its size.
pub fn update_fee(ctx: &mut UpdateState, fee_bps: u16) -> (r: Result<(), SwapError>)
    ensures
        match old(ctx).after_update_fee(fee_bps) {
            Ok(_) => r is Ok,
            Err(error) => r == Err::<(), SwapError>(error),
        },
        *final(ctx) == old(ctx).fee_set(fee_bps),
{
    if !ctx.swap_state.is_admin(&ctx.signer) {
        return Err(SwapError::Unauthorized);
    }
    ctx.swap_state.fee_bps = fee_bps;
    Ok(())
}

/// Hands the administration to `new_admin`. Only the administrator may, and
/// with success the caller's privilege ends.
pub fn update_admin(ctx: &mut UpdateState, new_admin: Identity) -> (r: Result<(), SwapError>)
    ensures
        match old(ctx).after_update_admin(new_admin) {
            Ok(_) => r is Ok,
            Err(error) => r == Err::<(), SwapError>(error),
        },
        *final(ctx) == old(ctx).admin_set(new_admin),
{
    if !ctx.swap_state.is_admin(&ctx.signer) {
        return Err(SwapError::Unauthorized);
    }
    ctx.swap_state.admin = new_admin;
    Ok(())
}

} // verus!
