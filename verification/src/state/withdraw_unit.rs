//! The units in which a depositor may size a withdrawal.

use crate::error::ErrorCode;
use crate::math::{
    amount_for_shares, depositor_shares_to_vault_amount, div_u128, get_proportion_u128,
    lemma_mul_div_part, mul_div,
    safe_div_u128, shares_for_amount, vault_amount_to_depositor_shares,
};
use vstd::prelude::*;

verus! {

/// The largest percentage of one's shares that can be asked for: all of them.
pub const MAX_WITHDRAW_PERCENT: u128 = 1_000_000;

/// What the amount of a withdraw request counts.
#[derive(Clone, Copy, Debug, PartialEq, Eq, Structural)]
pub enum WithdrawUnit {
    /// Shares, in the base that the depositor's record had when the call began.
    Shares,
    /// Tokens of the vault's deposit asset.
    Token,
    /// A part of the depositor's shares, in millionths.
    SharesPercent,
}

impl WithdrawUnit {
    /// The value and the number of shares that `withdraw_amount` stands for, at the price that
    /// `vault_equity` and `total_shares` give. `shares` are the depositor's own; `rebase_divisor`
    /// is the divisor by which the depositor's shares were cut back in this call, if they were.
    pub open spec fn value_and_shares(
        self,
        withdraw_amount: u64,
        vault_equity: u64,
        shares: u128,
        total_shares: u128,
        rebase_divisor: Option<u128>,
    ) -> Result<(u64, u128), ErrorCode> {
        match self {
            WithdrawUnit::Token => match shares_for_amount(
                withdraw_amount,
                total_shares,
                vault_equity,
            ) {
                Ok(n_shares) => Ok((withdraw_amount, n_shares)),
                Err(e) => Err(e),
            },
            WithdrawUnit::Shares => match Self::rescaled(withdraw_amount, rebase_divisor) {
                Ok(n_shares) => match amount_for_shares(n_shares, total_shares, vault_equity) {
                    Ok(value) => Ok((value, n_shares)),
                    Err(e) => Err(e),
                },
                Err(e) => Err(e),
            },
            WithdrawUnit::SharesPercent => if withdraw_amount > MAX_WITHDRAW_PERCENT {
                Err(ErrorCode::InvalidVaultWithdrawSize)
            } else {
                let n_shares = mul_div(
                    shares as int,
                    withdraw_amount as int,
                    MAX_WITHDRAW_PERCENT as int,
                ) as u128;
                match amount_for_shares(n_shares, total_shares, vault_equity) {
                    Ok(value) => Ok((value, n_shares)),
                    Err(e) => Err(e),
                }
            },
        }
    }

    /// A share count given in the old base, in the new one.
    pub open spec fn rescaled(withdraw_amount: u64, rebase_divisor: Option<u128>) -> Result<
        u128,
        ErrorCode,
    > {
        match rebase_divisor {
            Some(divisor) => div_u128(withdraw_amount as u128, divisor),
            None => Ok(withdraw_amount as u128),
        }
    }

    pub fn get_withdraw_value_and_shares(
        &self,
        withdraw_amount: u64,
        vault_equity: u64,
        shares: u128,
        total_shares: u128,
        rebase_divisor: Option<u128>,
    ) -> (r: Result<(u64, u128), ErrorCode>)
        ensures
            r == self.value_and_shares(
                withdraw_amount,
                vault_equity,
                shares,
                total_shares,
                rebase_divisor,
            ),
    {
        match self {
            WithdrawUnit::Token => {
                let n_shares: u128 = vault_amount_to_depositor_shares(
                    withdraw_amount,
                    total_shares,
                    vault_equity,
                )?;
                Ok((withdraw_amount, n_shares))
            },
            WithdrawUnit::Shares => {
                let n_shares: u128 = match rebase_divisor {
                    Some(divisor) => safe_div_u128(withdraw_amount as u128, divisor)?,
                    None => withdraw_amount as u128,
                };
                let value: u64 = depositor_shares_to_vault_amount(
                    n_shares,
                    total_shares,
                    vault_equity,
                )?;
                Ok((value, n_shares))
            },
            WithdrawUnit::SharesPercent => {
                if withdraw_amount as u128 > MAX_WITHDRAW_PERCENT {
                    return Err(ErrorCode::InvalidVaultWithdrawSize);
                }
                proof {
                    lemma_mul_div_part(
                        shares as int,
                        withdraw_amount as int,
                        MAX_WITHDRAW_PERCENT as int,
                    );
                }
                let n_shares: u128 = get_proportion_u128(
                    shares,
                    withdraw_amount as u128,
                    MAX_WITHDRAW_PERCENT,
                )?;
                let value: u64 = depositor_shares_to_vault_amount(
                    n_shares,
                    total_shares,
                    vault_equity,
                )?;
                Ok((value, n_shares))
            },
        }
    }
}

} // verus!
