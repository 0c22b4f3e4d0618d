//! What holds of the operations whatever their inputs.

use vstd::prelude::*;
use crate::error::SwapError;
use crate::identity::Identity;
use crate::ledger::TokenAccount;
use crate::math::{fee_of, lemma_zero_amount, lemma_zero_rate};
use crate::reserve::ReserveAccounts;
use crate::state::{Initialize, SwapState, UpdateState};
use crate::swap::SwapAccounts;
use crate::withdraw::WithdrawFees;

verus! {

/// `after` is `before` with its balance changed by `delta` and nothing else.
pub open spec fn balance_moved(before: TokenAccount, after: TokenAccount, delta: int) -> bool {
    &&& after.amount == before.amount + delta
    &&& after.mint == before.mint
    &&& after.owner == before.owner
}

/// Swap conservation: a swap of `amount` that is not rejected takes exactly
/// `amount` from the caller's account of the asset paid in, of which the fee,
/// the amount times the rate over ten thousand rounded down, goes to that
/// asset's treasury and the rest to its vault; and exactly that rest leaves
/// the other asset's vault for the caller.
pub proof fn lemma_swap_conservation(accounts: SwapAccounts, amount: u64)
    requires
        accounts.rejection(amount) is None,
    ensures
        ({
            let after = accounts.after(amount);
            let fee = (amount * accounts.swap_state.fee_bps) / 10_000;
            let net = amount - fee;
            &&& 0 <= fee <= amount
            &&& balance_moved(accounts.payer, after.payer, -amount)
            &&& balance_moved(accounts.vault_in, after.vault_in, net)
            &&& balance_moved(accounts.treasury_in, after.treasury_in, fee)
            &&& balance_moved(accounts.vault_out, after.vault_out, -net)
            &&& balance_moved(accounts.receiver, after.receiver, net)
            &&& after.swap_state == accounts.swap_state
            &&& after.signer == accounts.signer
        }),
{
    let fee = fee_of(amount, accounts.swap_state.fee_bps);
    assert(0 <= amount * accounts.swap_state.fee_bps) by (nonlinear_arith);
    assert(0 <= fee) by (nonlinear_arith)
        requires
            fee == (amount * accounts.swap_state.fee_bps) / 10_000,
            0 <= amount * accounts.swap_state.fee_bps,
    ;
}

/// Authorization gate for the configuration: a caller who is not the
/// administrator is refused as unauthorized, whatever the new rate or the new
/// administrator, and the record stays as it is.
pub proof fn lemma_update_needs_admin(ctx: UpdateState, fee_bps: u16, new_admin: Identity)
    requires
        ctx.signer != ctx.swap_state.admin,
    ensures
        ctx.after_update_fee(fee_bps) == Err::<UpdateState, SwapError>(SwapError::Unauthorized),
        ctx.fee_set(fee_bps) == ctx,
        ctx.after_update_admin(new_admin) == Err::<UpdateState, SwapError>(
            SwapError::Unauthorized,
        ),
        ctx.admin_set(new_admin) == ctx,
{
}

/// Authorization gate for deposits: with every account bound to its asset, a
/// caller who is not the administrator is refused as unauthorized, whatever
/// the amount and the balances, and every account stays as it is. Where an
/// account is bound to a foreign asset the deposit is rejected for that, and
/// changes nothing either.
pub proof fn lemma_reserve_needs_admin(accounts: ReserveAccounts, amount: u64)
    requires
        accounts.signer != accounts.swap_state.admin,
    ensures
        accounts.mints_valid() ==> accounts.rejection(amount) == Some(SwapError::Unauthorized),
        accounts.rejection(amount) is Some,
        accounts.after(amount) == accounts,
{
}

/// Authorization gate for withdrawals: with every account bound to its asset,
/// a caller who is not the administrator is refused as unauthorized, whatever
/// the treasuries hold, and every account stays as it is. Where an account is
/// bound to a foreign asset the withdrawal is rejected for that, and changes
/// nothing either.
pub proof fn lemma_withdraw_needs_admin(ctx: WithdrawFees)
    requires
        ctx.signer != ctx.swap_state.admin,
    ensures
        ctx.mints_valid() ==> ctx.rejection() == Some(SwapError::Unauthorized),
        ctx.rejection() is Some,
        ctx.after() == ctx,
{
}

/// The administrator's privilege passes with the office: once the
/// administration is handed over, the former administrator is refused and the
/// new one is not.
pub proof fn lemma_admin_handover(ctx: UpdateState, new_admin: Identity, fee_bps: u16)
    requires
        ctx.signer == ctx.swap_state.admin,
        new_admin != ctx.signer,
    ensures
        ctx.after_update_admin(new_admin) matches Ok(next) && next.after_update_fee(fee_bps)
            == Err::<UpdateState, SwapError>(SwapError::Unauthorized) && (UpdateState {
            signer: new_admin,
            ..next
        }).after_update_fee(fee_bps) is Ok,
{
}

/// The configuration is created once: creation fills an empty slot with an
/// initialized record that the caller administers, and any further creation
/// on that slot, by whomever and at whatever rate, is rejected as existing
/// and leaves the record as it is.
pub proof fn lemma_initialize_once(
    first: Identity,
    first_fee_bps: u16,
    second: Identity,
    second_fee_bps: u16,
)
    ensures
        (Initialize { signer: first, swap_state: None }).after_initialize(first_fee_bps)
            matches Ok(created) && created.swap_state == Some(
            SwapState { initialized: true, admin: first, fee_bps: first_fee_bps },
        ) && (Initialize { signer: second, swap_state: created.swap_state }).after_initialize(
            second_fee_bps,
        ) == Err::<Initialize, SwapError>(SwapError::AlreadyExists) && (Initialize {
            signer: second,
            swap_state: created.swap_state,
        }).after(second_fee_bps).swap_state == created.swap_state,
{
}

/// Whatever record a slot holds, creation on it is rejected and the slot
/// keeps the record.
pub proof fn lemma_initialize_keeps_record(ctx: Initialize, fee_bps: u16)
    requires
        ctx.swap_state is Some,
    ensures
        ctx.after_initialize(fee_bps) == Err::<Initialize, SwapError>(SwapError::AlreadyExists),
        ctx.after(fee_bps) == ctx,
{
}

/// A swap of nothing moves nothing: on an initialized configuration, with
/// every account bound to its asset and the debited accounts controlled by
/// those who are cited for them, it is not rejected, whatever the rate and
/// the balances, and every account stays as it is.
pub proof fn lemma_swap_of_nothing(accounts: SwapAccounts)
    requires
        accounts.mints_valid(),
        accounts.swap_state.initialized,
        accounts.payer.owner == accounts.signer,
        accounts.vault_out.owner == accounts.vault_authority.spec_address(),
    ensures
        accounts.rejection(0) is None,
        accounts.after(0) == accounts,
{
    lemma_zero_amount(accounts.swap_state.fee_bps);
    assert(0u64 * accounts.swap_state.fee_bps == 0) by (nonlinear_arith);
    assert(accounts.fee(0) == 0);
    assert(accounts.net(0) == 0);
}

/// The accounts of the swap back: the asset that was paid out is paid in, and
/// every account takes the opposite role. `treasury` is the treasury of the
/// asset now paid in.
pub open spec fn reversed(accounts: SwapAccounts, treasury: TokenAccount) -> SwapAccounts {
    SwapAccounts {
        asset_in: accounts.asset_out(),
        mint_in: accounts.mint_out,
        mint_out: accounts.mint_in,
        payer: accounts.receiver,
        vault_in: accounts.vault_out,
        treasury_in: treasury,
        vault_out: accounts.vault_in,
        receiver: accounts.payer,
        ..accounts
    }
}

/// Round trip at a zero rate: after a swap of `amount` that is not rejected,
/// the swap of the same amount back is not rejected either, and it leaves
/// the caller's two accounts and the two vaults as they were before the
/// first swap, and the treasury untouched. The accounts that the first swap
/// only credits must be controlled by those who are debited on the way back:
/// the caller and the vault authority.
pub proof fn lemma_round_trip_at_zero_rate(
    accounts: SwapAccounts,
    treasury: TokenAccount,
    amount: u64,
)
    requires
        accounts.swap_state.fee_bps == 0,
        accounts.rejection(amount) is None,
        accounts.receiver.owner == accounts.signer,
        accounts.vault_in.owner == accounts.vault_authority.spec_address(),
        treasury.mint == accounts.asset_out().spec_mint(),
    ensures
        ({
            let back = reversed(accounts.after(amount), treasury);
            &&& back.rejection(amount) is None
            &&& back.after(amount).receiver == accounts.payer
            &&& back.after(amount).payer == accounts.receiver
            &&& back.after(amount).vault_out == accounts.vault_in
            &&& back.after(amount).vault_in == accounts.vault_out
            &&& back.after(amount).treasury_in == treasury
        }),
{
    lemma_zero_rate(amount);
    assert(amount * 0u16 == 0) by (nonlinear_arith);
    assert(accounts.fee(amount) == 0);
    assert(accounts.net(amount) == amount);
    let once = accounts.settled(amount);
    let back = reversed(once, treasury);
    assert(back.fee(amount) == 0);
    assert(back.net(amount) == amount);
    assert(back.asset_out() == accounts.asset_in);
}

} // verus!
