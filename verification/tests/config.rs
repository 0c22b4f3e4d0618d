use spl_swap::error::SwapError;
use spl_swap::identity::Identity;
use spl_swap::state::{initialize, update_admin, update_fee, Initialize, SwapState, UpdateState};

fn id(tag: u8) -> Identity {
    Identity::new([tag; 32])
}

#[test]
fn initialize_creates_the_record() {
    let mut ctx = Initialize { signer: id(1), swap_state: None };
    assert_eq!(initialize(&mut ctx, 50), Ok(()));
    assert_eq!(
        ctx.swap_state,
        Some(SwapState { initialized: true, admin: id(1), fee_bps: 50 })
    );
    assert_eq!(ctx.signer, id(1));
}

#[test]
fn second_initialize_is_rejected() {
    let mut ctx = Initialize { signer: id(1), swap_state: None };
    assert_eq!(initialize(&mut ctx, 50), Ok(()));
    let created = ctx.swap_state;

    let mut again = Initialize { signer: id(2), swap_state: created };
    assert_eq!(initialize(&mut again, 900), Err(SwapError::AlreadyExists));
    assert_eq!(again.swap_state, created);

    let mut same_caller = Initialize { signer: id(1), swap_state: created };
    assert_eq!(initialize(&mut same_caller, 50), Err(SwapError::AlreadyExists));
    assert_eq!(same_caller.swap_state, created);
}

#[test]
fn initialize_takes_any_rate() {
    let mut ctx = Initialize { signer: id(1), swap_state: None };
    assert_eq!(initialize(&mut ctx, u16::MAX), Ok(()));
    assert_eq!(ctx.swap_state.unwrap().fee_bps, u16::MAX);
}

#[test]
fn admin_updates_the_fee() {
    let state = SwapState { initialized: true, admin: id(1), fee_bps: 50 };
    let mut ctx = UpdateState { signer: id(1), swap_state: state };
    assert_eq!(update_fee(&mut ctx, 75), Ok(()));
    assert_eq!(ctx.swap_state, SwapState { initialized: true, admin: id(1), fee_bps: 75 });
}

#[test]
fn update_fee_takes_a_rate_above_the_whole() {
    let state = SwapState { initialized: true, admin: id(1), fee_bps: 50 };
    let mut ctx = UpdateState { signer: id(1), swap_state: state };
    assert_eq!(update_fee(&mut ctx, 10_001), Ok(()));
    assert_eq!(ctx.swap_state.fee_bps, 10_001);
}

#[test]
fn stranger_cannot_update_the_fee() {
    let state = SwapState { initialized: true, admin: id(1), fee_bps: 50 };
    let mut ctx = UpdateState { signer: id(2), swap_state: state };
    assert_eq!(update_fee(&mut ctx, 75), Err(SwapError::Unauthorized));
    assert_eq!(ctx.swap_state, state);
}

#[test]
fn stranger_cannot_update_the_admin() {
    let state = SwapState { initialized: true, admin: id(1), fee_bps: 50 };
    let mut ctx = UpdateState { signer: id(2), swap_state: state };
    assert_eq!(update_admin(&mut ctx, id(2)), Err(SwapError::Unauthorized));
    assert_eq!(ctx.swap_state, state);
}

#[test]
fn old_admin_loses_privilege_at_once() {
    let state = SwapState { initialized: true, admin: id(1), fee_bps: 50 };
    let mut ctx = UpdateState { signer: id(1), swap_state: state };
    assert_eq!(update_admin(&mut ctx, id(9)), Ok(()));
    assert_eq!(ctx.swap_state, SwapState { initialized: true, admin: id(9), fee_bps: 50 });

    assert_eq!(update_fee(&mut ctx, 1), Err(SwapError::Unauthorized));
    assert_eq!(update_admin(&mut ctx, id(1)), Err(SwapError::Unauthorized));
    assert_eq!(ctx.swap_state.fee_bps, 50);

    let mut successor = UpdateState { signer: id(9), swap_state: ctx.swap_state };
    assert_eq!(update_fee(&mut successor, 1), Ok(()));
    assert_eq!(successor.swap_state.fee_bps, 1);
}

#[test]
fn identities_compare_byte_for_byte() {
    let mut bytes: [u8; 32] = [7; 32];
    let a = Identity::new(bytes);
    assert_eq!(a, Identity::new([7; 32]));
    bytes[31] = 8;
    assert_ne!(a, Identity::new(bytes));
    bytes[31] = 7;
    bytes[0] = 6;
    assert_ne!(a, Identity::new(bytes));
}

#[test]
fn admin_test_is_by_identity() {
    let state = SwapState { initialized: false, admin: id(4), fee_bps: 0 };
    assert!(state.is_admin(&id(4)));
    assert!(!state.is_admin(&id(5)));
}
