//! The ways in which an operation of the exchange is rejected.

use vstd::prelude::*;

verus! {

/// Why the ledger refused to move a balance.
#[derive(Clone, Copy, Debug, PartialEq, Eq, Structural)]
pub enum TransferFailure {
    /// The debited account holds less than the amount.
    InsufficientBalance,
    /// The two accounts, or the asset asserted for them, are of different assets.
    AssetMismatch,
    /// The authority cited does not control the debited account.
    AuthorityMismatch,
    /// The credited account cannot hold the sum.
    BalanceOverflow,
}

/// Why an operation of the exchange was rejected.
#[derive(Clone, Copy, Debug, PartialEq, Eq, Structural)]
pub enum SwapError {
    /// An account is bound to another asset than the fixed one of its slot.
    InvalidMint,
    /// The caller is not the administrator, or the configuration is not
    /// initialized.
    Unauthorized,
    /// A fee or amount computation left the 64-bit unsigned range.
    MathOverflow,
    /// A configuration record exists already.
    AlreadyExists,
    /// The ledger refused a balance movement.
    Transfer(TransferFailure),
}

impl SwapError {
    /// The message shown to a caller.
    pub fn message(&self) -> (r: &'static str)
        ensures
            r@ == self.spec_message(),
    {
        match self {
            SwapError::InvalidMint => "Invalid mint provided.",
            SwapError::Unauthorized => "Unauthorized.",
            SwapError::MathOverflow => "Math operation overflow.",
            SwapError::AlreadyExists => "Configuration exists already.",
            SwapError::Transfer(TransferFailure::InsufficientBalance) => "Insufficient balance.",
            SwapError::Transfer(TransferFailure::AssetMismatch) => "Asset mismatch.",
            SwapError::Transfer(TransferFailure::AuthorityMismatch) => "Authority mismatch.",
            SwapError::Transfer(TransferFailure::BalanceOverflow) => "Balance overflow.",
        }
    }

    /// The message of each rejection.
    pub open spec fn spec_message(&self) -> Seq<char> {
        match self {
            SwapError::InvalidMint => "Invalid mint provided."@,
            SwapError::Unauthorized => "Unauthorized."@,
            SwapError::MathOverflow => "Math operation overflow."@,
            SwapError::AlreadyExists => "Configuration exists already."@,
            SwapError::Transfer(TransferFailure::InsufficientBalance) => "Insufficient balance."@,
            SwapError::Transfer(TransferFailure::AssetMismatch) => "Asset mismatch."@,
            SwapError::Transfer(TransferFailure::AuthorityMismatch) => "Authority mismatch."@,
            SwapError::Transfer(TransferFailure::BalanceOverflow) => "Balance overflow."@,
        }
    }
}

} // verus!
