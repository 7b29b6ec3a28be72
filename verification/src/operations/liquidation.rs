//! Deciding whether a depositor may have the vault paid out by force: only one whose
//! withdrawal the vault cannot meet.

use crate::error::ErrorCode;
use crate::math::depositor_shares_to_vault_amount;
use crate::state::vault::Vault;
use crate::state::vault_depositor::VaultDepositor;
use vstd::prelude::*;

verus! {

/// What the exchange says of margin trading on the vault's account once the withdrawal has
/// been taken from it on trial.
#[derive(Clone, Copy, Debug, PartialEq, Eq, Structural)]
pub enum MarginTradingCheck {
    /// The account passes.
    Passed,
    /// The account would need margin trading, which is switched off for it.
    Disabled,
    /// The exchange could not tell.
    Failed,
}

impl VaultDepositor {
    /// Whether the exchange's answers show that the depositor cannot withdraw: not where the
    /// exchange could not tell, and not where the account would still have collateral enough
    /// and pass the margin trading check.
    pub open spec fn cant_withdraw(
        sufficient_collateral: bool,
        margin_trading: MarginTradingCheck,
    ) -> Result<(), ErrorCode> {
        if margin_trading == MarginTradingCheck::Failed {
            Err(ErrorCode::DriftError)
        } else if sufficient_collateral && margin_trading == MarginTradingCheck::Passed {
            Err(ErrorCode::DriftError)
        } else {
            Ok(())
        }
    }

    /// The amount that the exchange is to take from the vault's account on trial: what
    /// redeeming the depositor's request would pay at the price that `vault_equity` gives.
    pub fn withdraw_amount_on_trial(&self, vault: &Vault, vault_equity: u64) -> (r: Result<
        u64,
        ErrorCode,
    >)
        ensures
            r == self.redeemable_amount(*vault, vault_equity),
    {
        let shares_value: u64 = depositor_shares_to_vault_amount(
            self.last_withdraw_request.shares,
            vault.total_shares,
            vault_equity,
        )?;
        if shares_value <= self.last_withdraw_request.value {
            Ok(shares_value)
        } else {
            Ok(self.last_withdraw_request.value)
        }
    }

    /// Judges the exchange's answers to the trial withdrawal: `Ok` where they show that the
    /// depositor cannot withdraw, `DriftError` where it can or the exchange could not tell.
    pub fn check_cant_withdraw(sufficient_collateral: bool, margin_trading: MarginTradingCheck) -> (r:
        Result<(), ErrorCode>)
        ensures
            r == Self::cant_withdraw(sufficient_collateral, margin_trading),
    {
        let margin_trading_ok: bool = match margin_trading {
            MarginTradingCheck::Passed => true,
            MarginTradingCheck::Disabled => false,
            MarginTradingCheck::Failed => {
                return Err(ErrorCode::DriftError);
            },
        };
        if sufficient_collateral && margin_trading_ok {
            return Err(ErrorCode::DriftError);
        }
        Ok(())
    }
}

} // verus!
