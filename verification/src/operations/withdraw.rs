//! Redeeming a withdraw request.

use crate::error::ErrorCode;
use crate::keys::{key_bytes, same_key};
use crate::math::{
    amount_for_shares, cast_u64_to_i64, depositor_shares_to_vault_amount, safe_sub_i64,
    safe_sub_u128, safe_sub_u64, to_i64, to_u128, to_u64,
};
use crate::proofs::operations::lemma_withdraw_kept;
use crate::state::events::{Events, FuelSeasonRecord, Shares, VaultDepositorAction};
use crate::state::fuel::{FuelOverflow, UserStats};
use crate::state::position::{record_of, shares_of, Position};
use crate::state::vault::{saturating_u64, Vault, VaultFee};
use crate::state::vault_depositor::VaultDepositor;
use crate::state::vault_protocol::VaultProtocol;
use crate::state::withdraw_request::WithdrawRequest;
use vstd::prelude::*;

verus! {

/// A position after a withdrawal.
pub struct Withdrawn {
    pub position: Position,
    /// What the depositor is to be paid.
    pub amount: u64,
    /// Whether the depositor is the vault's liquidation delegate, so that this withdrawal ends
    /// the forced payout.
    pub finishing_liquidation: bool,
    pub events: Events,
}

impl VaultDepositor {
    /// What redeeming the depositor's request pays at the price that `vault_equity` gives: what
    /// the requested shares are worth now, but no more than they were quoted at.
    pub open spec fn redeemable_amount(self, vault: Vault, vault_equity: u64) -> Result<
        u64,
        ErrorCode,
    > {
        match amount_for_shares(
            self.last_withdraw_request.shares,
            vault.total_shares,
            vault_equity,
        ) {
            Err(e) => Err(e),
            Ok(amount) => if amount <= self.last_withdraw_request.value {
                Ok(amount)
            } else {
                Ok(self.last_withdraw_request.value)
            },
        }
    }

    /// The depositor and the vault after the depositor's request has been paid out with
    /// `amount`: the requested shares leave the depositor, `user_shares` and `total_shares`
    /// alike, the amount goes to the withdrawal counters, the vault stops holding the
    /// request's value back, and the request is cleared.
    pub open spec fn paid_out(self, vault: Vault, amount: u64, now: i64) -> Result<
        (VaultDepositor, Vault),
        ErrorCode,
    > {
        let n_shares = self.last_withdraw_request.shares;
        match self.with_shares(self.vault_shares - n_shares, vault) {
            Err(e) => Err(e),
            Ok(depositor) => if to_i64(amount as int) is Err || to_i64(self.net_deposits - amount)
                is Err || to_i64(vault.net_deposits - amount) is Err || to_u128(
                vault.total_shares - n_shares,
            ) is Err || to_u128(vault.user_shares - n_shares) is Err || to_u64(
                vault.total_withdraw_requested - self.last_withdraw_request.value,
            ) is Err {
                Err(ErrorCode::MathError)
            } else {
                Ok(
                    (
                        VaultDepositor {
                            total_withdraws: saturating_u64(self.total_withdraws, amount),
                            net_deposits: (self.net_deposits - amount) as i64,
                            last_withdraw_request: WithdrawRequest::empty(now),
                            ..depositor
                        },
                        Vault {
                            total_withdraws: saturating_u64(vault.total_withdraws, amount),
                            net_deposits: (vault.net_deposits - amount) as i64,
                            total_shares: (vault.total_shares - n_shares) as u128,
                            user_shares: (vault.user_shares - n_shares) as u128,
                            total_withdraw_requested: (vault.total_withdraw_requested
                                - self.last_withdraw_request.value) as u64,
                            ..vault
                        },
                    ),
                )
            },
        }
    }

    /// The position after the depositor's withdraw request was redeemed at `now`.
    ///
    /// The redeem period comes first: before it has passed nothing else is looked at. Then, in
    /// this order: the rebase; fuel; the request must hold shares, and the depositor must
    /// still own as many; the annual fees; and the payout of `redeemable_amount`.
    pub open spec fn withdrawn(
        self,
        vault_equity: u64,
        vault: Vault,
        vault_protocol: Option<VaultProtocol>,
        now: i64,
        user_stats: UserStats,
        fuel_overflow: Option<FuelOverflow>,
        deposit_oracle_price: i64,
    ) -> Result<Withdrawn, ErrorCode> {
        match self.last_withdraw_request.redeemable(vault.redeem_period, now) {
            Err(e) => Err(e),
            Ok(_) => match self.rebased(vault, vault_protocol, vault_equity) {
                Err(e) => Err(e),
                Ok(rebased) => match rebased.position.depositor.fuel_settled(
                    now,
                    rebased.position.vault,
                    user_stats,
                    fuel_overflow,
                ) {
                    Err(e) => Err(e),
                    Ok(settled) => if settled.depositor.last_withdraw_request.shares == 0 {
                        Err(ErrorCode::InvalidVaultWithdraw)
                    } else if settled.depositor.vault_shares
                        < settled.depositor.last_withdraw_request.shares {
                        Err(ErrorCode::InsufficientVaultShares)
                    } else {
                        match settled.vault.fee_applied(
                            rebased.position.protocol,
                            vault_equity,
                            now,
                        ) {
                            Err(e) => Err(e),
                            Ok(charged) => match settled.depositor.redeemable_amount(
                                charged.vault,
                                vault_equity,
                            ) {
                                Err(e) => Err(e),
                                Ok(amount) => match settled.depositor.paid_out(
                                    charged.vault,
                                    amount,
                                    now,
                                ) {
                                    Err(e) => Err(e),
                                    Ok(paid) => Ok(
                                        Withdrawn {
                                            position: Position {
                                                depositor: paid.0,
                                                vault: paid.1,
                                                protocol: charged.protocol,
                                            },
                                            amount,
                                            finishing_liquidation: key_bytes(
                                                paid.1.liquidation_delegate,
                                            ) == key_bytes(paid.0.authority),
                                            events: Events {
                                                record: (Position {
                                                    depositor: paid.0,
                                                    vault: paid.1,
                                                    protocol: charged.protocol,
                                                }).record(
                                                    VaultDepositorAction::Withdraw,
                                                    now,
                                                    amount,
                                                    vault_equity,
                                                    (Position {
                                                        depositor: settled.depositor,
                                                        vault: settled.vault,
                                                        protocol: rebased.position.protocol,
                                                    }).shares(),
                                                    0,
                                                    0,
                                                    charged.fee,
                                                    deposit_oracle_price,
                                                ),
                                                fuel_season: settled.season,
                                            },
                                        },
                                    ),
                                },
                            },
                        }
                    },
                },
            },
        }
    }

    /// Redeems the depositor's withdraw request. Returns what the depositor is to be paid,
    /// whether the withdrawal ends a forced payout, and the records.
    pub fn withdraw(
        &mut self,
        vault_equity: u64,
        vault: &mut Vault,
        vault_protocol: &mut Option<VaultProtocol>,
        now: i64,
        user_stats: &UserStats,
        fuel_overflow: &Option<FuelOverflow>,
        deposit_oracle_price: i64,
    ) -> (r: Result<(u64, bool, Events), ErrorCode>)
        ensures
            match r {
                Ok(out) => old(self).withdrawn(
                    vault_equity,
                    *old(vault),
                    *old(vault_protocol),
                    now,
                    *user_stats,
                    *fuel_overflow,
                    deposit_oracle_price,
                ) == Ok::<Withdrawn, ErrorCode>(
                    Withdrawn {
                        position: Position {
                            depositor: *final(self),
                            vault: *final(vault),
                            protocol: *final(vault_protocol),
                        },
                        amount: out.0,
                        finishing_liquidation: out.1,
                        events: out.2,
                    },
                ),
                Err(e) => old(self).withdrawn(
                    vault_equity,
                    *old(vault),
                    *old(vault_protocol),
                    now,
                    *user_stats,
                    *fuel_overflow,
                    deposit_oracle_price,
                ) == Err::<Withdrawn, ErrorCode>(e) && *final(self) == *old(self) && *final(vault)
                    == *old(vault) && *final(vault_protocol) == *old(vault_protocol),
            },
            now - old(self).last_withdraw_request.ts < old(vault).redeem_period ==> r is Err
                && r->Err_0 == ErrorCode::CannotWithdrawBeforeRedeemPeriodEnd,
            final(self).cumulative_profit_share_amount == old(self).cumulative_profit_share_amount,
            old(vault).shares_consistent(*old(vault_protocol)) ==> final(vault).shares_consistent(
                *final(vault_protocol),
            ),
            final(vault).shares_base >= old(vault).shares_base,
    {
        proof {
            lemma_withdraw_kept(
                *self,
                vault_equity,
                *vault,
                *vault_protocol,
                now,
                *user_stats,
                *fuel_overflow,
                deposit_oracle_price,
            );
        }
        self.last_withdraw_request.check_redeem_period_finished(vault, now)?;
        let mut d: VaultDepositor = *self;
        let mut v: Vault = *vault;
        let mut p: Option<VaultProtocol> = *vault_protocol;
        d.apply_rebase(&mut v, &mut p, vault_equity)?;
        let (_, fuel_season): (u128, Option<FuelSeasonRecord>) = d.update_cumulative_fuel_amount(
            now,
            &mut v,
            user_stats,
            fuel_overflow,
        )?;
        let before: Shares = shares_of(&d, &v, &p);
        let n_shares: u128 = d.last_withdraw_request.shares;
        if n_shares == 0 {
            return Err(ErrorCode::InvalidVaultWithdraw);
        }
        if before.depositor < n_shares {
            return Err(ErrorCode::InsufficientVaultShares);
        }
        let fee: VaultFee = v.apply_fee(&mut p, vault_equity, now)?;
        let amount: u64 = depositor_shares_to_vault_amount(n_shares, v.total_shares, vault_equity)?;
        let withdraw_amount: u64 = if amount <= d.last_withdraw_request.value {
            amount
        } else {
            d.last_withdraw_request.value
        };
        pay_out(&mut d, &mut v, withdraw_amount, now)?;
        let record = record_of(
            &d,
            &v,
            &p,
            VaultDepositorAction::Withdraw,
            now,
            withdraw_amount,
            vault_equity,
            before,
            0,
            0,
            fee,
            deposit_oracle_price,
        );
        let finishing_liquidation: bool = same_key(&v.liquidation_delegate, &d.authority);
        *self = d;
        *vault = v;
        *vault_protocol = p;
        Ok((withdraw_amount, finishing_liquidation, Events { record, fuel_season }))
    }
}

/// Pays the depositor's request out with `amount`.
fn pay_out(depositor: &mut VaultDepositor, vault: &mut Vault, amount: u64, now: i64) -> (r: Result<
    (),
    ErrorCode,
>)
    ensures
        match r {
            Ok(_) => old(depositor).paid_out(*old(vault), amount, now) == Ok::<
                (VaultDepositor, Vault),
                ErrorCode,
            >((*final(depositor), *final(vault))),
            Err(e) => old(depositor).paid_out(*old(vault), amount, now) == Err::<
                (VaultDepositor, Vault),
                ErrorCode,
            >(e),
        },
{
    let n_shares: u128 = depositor.last_withdraw_request.shares;
    let value: u64 = depositor.last_withdraw_request.value;
    let net_before: i64 = depositor.net_deposits;
    depositor.decrease_vault_shares(n_shares, vault)?;
    let paid: i64 = cast_u64_to_i64(amount)?;
    let depositor_net: i64 = safe_sub_i64(net_before, paid)?;
    let vault_net: i64 = safe_sub_i64(vault.net_deposits, paid)?;
    let total_shares: u128 = safe_sub_u128(vault.total_shares, n_shares)?;
    let user_shares: u128 = safe_sub_u128(vault.user_shares, n_shares)?;
    let held_back: u64 = safe_sub_u64(vault.total_withdraw_requested, value)?;
    depositor.total_withdraws = depositor.total_withdraws.saturating_add(amount);
    depositor.net_deposits = depositor_net;
    depositor.last_withdraw_request.reset(now);
    vault.total_withdraws = vault.total_withdraws.saturating_add(amount);
    vault.net_deposits = vault_net;
    vault.total_shares = total_shares;
    vault.user_shares = user_shares;
    vault.total_withdraw_requested = held_back;
    Ok(())
}

} // verus!
