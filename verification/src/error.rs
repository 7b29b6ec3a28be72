use vstd::prelude::*;

verus! {

/// Why an operation was refused. Whatever the reason, the records it was called on are unchanged.
#[derive(Clone, Copy, Debug, PartialEq, Eq, Structural)]
pub enum ErrorCode {
    /// The depositor's share base differs from the vault's, or lies ahead of it.
    InvalidVaultRebase,
    /// A share count exceeds the total it is a part of.
    InvalidVaultSharesDetected,
    /// The redeem period has not passed since the withdraw request.
    CannotWithdrawBeforeRedeemPeriodEnd,
    /// There is no withdraw request to redeem.
    InvalidVaultWithdraw,
    /// The depositor owns fewer shares than the request asks for.
    InsufficientVaultShares,
    /// The requested withdrawal is empty, or larger than what it is taken from.
    InvalidVaultWithdrawSize,
    /// The vault has shares outstanding but no value.
    InvalidVaultForNewDepositors,
    /// The deposit would take the vault past `max_tokens`.
    VaultIsAtCapacity,
    /// The exchange reported a failure, or allows what had to be impossible.
    DriftError,
    /// A withdraw request is pending.
    WithdrawInProgress,
    /// The deposit is below `min_deposit_amount`, or profit share was asked for while a
    /// withdraw request is pending.
    InvalidVaultDeposit,
    /// A result does not fit its integer type, or a division by zero.
    MathError,
}

} // verus!
