//! A pending withdrawal: the shares set aside, the value they were quoted at, and since when.

use crate::error::ErrorCode;
use crate::math::{
    amount_for_shares, depositor_shares_to_vault_amount, div_u128, lemma_amount_for_shares_bound,
    mul_div, safe_div_u128, vault_amount_to_depositor_shares,
};
use crate::state::vault::Vault;
use vstd::prelude::*;

verus! {

/// The last withdraw request of a depositor. It is empty while `shares` is zero and pending
/// otherwise.
#[derive(Clone, Copy, Debug, PartialEq, Eq, Structural)]
pub struct WithdrawRequest {
    /// Shares asked for.
    pub shares: u128,
    /// Value that the shares were quoted at, and the most that redeeming them pays.
    pub value: u64,
    /// The depositor's shares when the request was made.
    pub vault_shares_before: u128,
    /// The vault's value when the request was made.
    pub vault_equity_before: u64,
    /// When the request was made or last cleared.
    pub ts: i64,
}

impl Default for WithdrawRequest {
    fn default() -> (r: Self)
        ensures
            r == Self::empty(0),
    {
        WithdrawRequest { shares: 0, value: 0, vault_shares_before: 0, vault_equity_before: 0, ts: 0 }
    }
}

impl WithdrawRequest {
    /// The empty request, cleared at `now`.
    pub open spec fn empty(now: i64) -> Self {
        WithdrawRequest {
            shares: 0,
            value: 0,
            vault_shares_before: 0,
            vault_equity_before: 0,
            ts: now,
        }
    }

    /// Whether a withdrawal is pending.
    pub open spec fn is_pending(self) -> bool {
        self.shares > 0
    }

    /// The request with its shares in a base `rebase_divisor` times coarser.
    pub open spec fn rebased(self, rebase_divisor: u128) -> Result<Self, ErrorCode> {
        match div_u128(self.shares, rebase_divisor) {
            Ok(shares) => Ok(WithdrawRequest { shares, ..self }),
            Err(e) => Err(e),
        }
    }

    /// The request that replaces `self` when a depositor with `current_shares` shares asks for
    /// `n_shares` of them, quoted at `withdraw_value`, in a vault worth `vault_equity`.
    pub open spec fn requested(
        self,
        current_shares: u128,
        n_shares: u128,
        withdraw_value: u64,
        vault_equity: u64,
        now: i64,
    ) -> Result<Self, ErrorCode> {
        if n_shares == 0 || n_shares > current_shares || withdraw_value > vault_equity {
            Err(ErrorCode::InvalidVaultWithdrawSize)
        } else {
            Ok(
                WithdrawRequest {
                    shares: n_shares,
                    value: withdraw_value,
                    vault_shares_before: current_shares,
                    vault_equity_before: vault_equity,
                    ts: now,
                },
            )
        }
    }

    /// Whether the redeem period has passed at `now`: the time-lock error until `redeem_period`
    /// seconds have passed since the request.
    pub open spec fn redeemable(self, redeem_period: i64, now: i64) -> Result<(), ErrorCode> {
        if now - self.ts < redeem_period {
            Err(ErrorCode::CannotWithdrawBeforeRedeemPeriodEnd)
        } else {
            Ok(())
        }
    }

    /// Shares that cancelling costs the depositor. Where the requested shares are worth no more
    /// now than they were quoted at, none. Where they are worth more, they are cut back to
    /// the number that is worth the quoted value once the difference has gone to the other
    /// holders: `value * (total_shares - shares) / (vault_equity - value)`.
    pub open spec fn shares_lost(self, total_shares: u128, vault_equity: u64) -> Result<
        u128,
        ErrorCode,
    > {
        match amount_for_shares(self.shares, total_shares, vault_equity) {
            Err(e) => Err(e),
            Ok(amount) => if amount > self.value {
                Ok(
                    (self.shares - mul_div(
                        self.value as int,
                        total_shares - self.shares,
                        vault_equity - self.value,
                    )) as u128,
                )
            } else {
                Ok(0u128)
            },
        }
    }

    /// What is left of the requested shares after a cancellation is a part of them.
    pub proof fn lemma_shares_kept_bound(self, total_shares: u128, vault_equity: u64)
        requires
            self.shares <= total_shares,
            total_shares > 0,
            mul_div(vault_equity as int, self.shares as int, total_shares as int) > self.value,
        ensures
            vault_equity > self.value,
            0 <= mul_div(
                self.value as int,
                total_shares - self.shares,
                vault_equity - self.value,
            ) <= self.shares,
    {
        lemma_amount_for_shares_bound(self.shares, total_shares, vault_equity);
        reveal(mul_div);
        let e: int = vault_equity as int;
        let n: int = self.shares as int;
        let t: int = total_shares as int;
        let v: int = self.value as int;
        assert(e * n > v * t) by (nonlinear_arith)
            requires
                (e * n) / t > v,
                t > 0,
        ;
        assert(v * (t - n) < n * (e - v)) by (nonlinear_arith)
            requires
                e * n > v * t,
        ;
        assert(0 <= (v * (t - n)) / (e - v) <= n) by (nonlinear_arith)
            requires
                v * (t - n) < n * (e - v),
                e - v > 0,
                v >= 0,
                t - n >= 0,
                n >= 0,
        ;
    }

    pub fn pending(&self) -> (r: bool)
        ensures
            r == self.is_pending(),
    {
        self.shares > 0
    }

    /// Brings the request's shares into a base `rebase_divisor` times coarser.
    pub fn rebase(&mut self, rebase_divisor: u128) -> (r: Result<(), ErrorCode>)
        ensures
            match r {
                Ok(_) => old(self).rebased(rebase_divisor) == Ok::<Self, ErrorCode>(*final(self)),
                Err(e) => old(self).rebased(rebase_divisor) == Err::<Self, ErrorCode>(e)
                    && *final(self) == *old(self),
            },
    {
        let shares: u128 = safe_div_u128(self.shares, rebase_divisor)?;
        self.shares = shares;
        Ok(())
    }

    pub fn calculate_shares_lost(&self, vault: &Vault, vault_equity: u64) -> (r: Result<
        u128,
        ErrorCode,
    >)
        ensures
            r == self.shares_lost(vault.total_shares, vault_equity),
    {
        let n_shares: u128 = self.shares;
        let amount: u64 = depositor_shares_to_vault_amount(
            n_shares,
            vault.total_shares,
            vault_equity,
        )?;
        if amount > self.value {
            proof {
                self.lemma_shares_kept_bound(vault.total_shares, vault_equity);
            }
            let kept: u128 = vault_amount_to_depositor_shares(
                self.value,
                vault.total_shares - n_shares,
                vault_equity - self.value,
            )?;
            Ok(n_shares - kept)
        } else {
            Ok(0)
        }
    }

    /// Records a request, in place of whatever request there was.
    pub fn set(
        &mut self,
        current_shares: u128,
        n_shares: u128,
        withdraw_value: u64,
        vault_equity: u64,
        now: i64,
    ) -> (r: Result<(), ErrorCode>)
        ensures
            match r {
                Ok(_) => old(self).requested(
                    current_shares,
                    n_shares,
                    withdraw_value,
                    vault_equity,
                    now,
                ) == Ok::<Self, ErrorCode>(*final(self)),
                Err(e) => old(self).requested(
                    current_shares,
                    n_shares,
                    withdraw_value,
                    vault_equity,
                    now,
                ) == Err::<Self, ErrorCode>(e) && *final(self) == *old(self),
            },
    {
        if n_shares == 0 || n_shares > current_shares || withdraw_value > vault_equity {
            return Err(ErrorCode::InvalidVaultWithdrawSize);
        }
        self.shares = n_shares;
        self.value = withdraw_value;
        self.vault_shares_before = current_shares;
        self.vault_equity_before = vault_equity;
        self.ts = now;
        Ok(())
    }

    /// Clears the request.
    pub fn reset(&mut self, now: i64)
        ensures
            *final(self) == Self::empty(now),
    {
        self.shares = 0;
        self.value = 0;
        self.vault_shares_before = 0;
        self.vault_equity_before = 0;
        self.ts = now;
    }

    pub fn check_redeem_period_finished(&self, vault: &Vault, now: i64) -> (r: Result<
        (),
        ErrorCode,
    >)
        ensures
            r == self.redeemable(vault.redeem_period, now),
    {
        let time_since_withdraw_request: i128 = now as i128 - self.ts as i128;
        if time_since_withdraw_request < vault.redeem_period as i128 {
            return Err(ErrorCode::CannotWithdrawBeforeRedeemPeriodEnd);
        }
        Ok(())
    }
}

} // verus!
