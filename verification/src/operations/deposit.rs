//! Depositing into a vault.

use crate::error::ErrorCode;
use crate::math::{
    cast_u64_to_i64, safe_add_i64, safe_add_u128, safe_add_u64, shares_for_amount, to_i64, to_u128,
    to_u64, vault_amount_to_depositor_shares,
};
use crate::proofs::operations::lemma_deposit_kept;
use crate::state::events::{Events, FuelSeasonRecord, Shares, VaultDepositorAction};
use crate::state::fuel::{FuelOverflow, UserStats};
use crate::state::position::{record_of, shares_of, Outcome, Position};
use crate::state::vault::{saturating_u64, Vault, VaultFee};
use crate::state::vault_depositor::VaultDepositor;
use crate::state::vault_protocol::VaultProtocol;
use vstd::prelude::*;

verus! {

/// Credits `amount` to the depositor and the vault, in shares at the price that `vault_equity`
/// gives.
fn credit(depositor: &mut VaultDepositor, vault: &mut Vault, amount: u64, vault_equity: u64) -> (r:
    Result<(), ErrorCode>)
    ensures
        match r {
            Ok(_) => old(depositor).credited(*old(vault), amount, vault_equity) == Ok::<
                (VaultDepositor, Vault),
                ErrorCode,
            >((*final(depositor), *final(vault))),
            Err(e) => old(depositor).credited(*old(vault), amount, vault_equity) == Err::<
                (VaultDepositor, Vault),
                ErrorCode,
            >(e),
        },
{
    let n_shares: u128 = vault_amount_to_depositor_shares(amount, vault.total_shares, vault_equity)?;
    let paid: i64 = cast_u64_to_i64(amount)?;
    let depositor_net: i64 = safe_add_i64(depositor.net_deposits, paid)?;
    let vault_net: i64 = safe_add_i64(vault.net_deposits, paid)?;
    depositor.increase_vault_shares(n_shares, vault)?;
    let total_shares: u128 = safe_add_u128(vault.total_shares, n_shares)?;
    let user_shares: u128 = safe_add_u128(vault.user_shares, n_shares)?;
    depositor.total_deposits = depositor.total_deposits.saturating_add(amount);
    depositor.net_deposits = depositor_net;
    vault.total_deposits = vault.total_deposits.saturating_add(amount);
    vault.net_deposits = vault_net;
    vault.total_shares = total_shares;
    vault.user_shares = user_shares;
    Ok(())
}

impl VaultDepositor {
    /// The depositor and the vault after `amount` has been paid in at the price that
    /// `vault_equity` gives: both have the shares that the amount buys, and the amount in their
    /// deposit counters.
    pub open spec fn credited(self, vault: Vault, amount: u64, vault_equity: u64) -> Result<
        (VaultDepositor, Vault),
        ErrorCode,
    > {
        match shares_for_amount(amount, vault.total_shares, vault_equity) {
            Err(e) => Err(e),
            Ok(n_shares) => if to_i64(amount as int) is Err || to_i64(self.net_deposits + amount)
                is Err || to_i64(vault.net_deposits + amount) is Err {
                Err(ErrorCode::MathError)
            } else {
                match self.with_shares(self.vault_shares + n_shares, vault) {
                    Err(e) => Err(e),
                    Ok(depositor) => if to_u128(vault.total_shares + n_shares) is Err || to_u128(
                        vault.user_shares + n_shares,
                    ) is Err {
                        Err(ErrorCode::MathError)
                    } else {
                        Ok(
                            (
                                VaultDepositor {
                                    total_deposits: saturating_u64(self.total_deposits, amount),
                                    net_deposits: (self.net_deposits + amount) as i64,
                                    ..depositor
                                },
                                Vault {
                                    total_deposits: saturating_u64(vault.total_deposits, amount),
                                    net_deposits: (vault.net_deposits + amount) as i64,
                                    total_shares: (vault.total_shares + n_shares) as u128,
                                    user_shares: (vault.user_shares + n_shares) as u128,
                                    ..vault
                                },
                            ),
                        )
                    },
                }
            },
        }
    }

    /// Whether the vault takes a deposit of `amount` from this depositor.
    ///
    /// It does not where the deposit would take the vault's value past `max_tokens`, where
    /// the amount is below `min_deposit_amount`, where the vault has shares but no value, or
    /// where the depositor has a withdraw request pending; the first of these that holds is
    /// the error.
    pub open spec fn deposit_allowed(self, amount: u64, vault_equity: u64, vault: Vault) -> Result<
        (),
        ErrorCode,
    > {
        if vault.max_tokens != 0 && to_u64(vault_equity + amount) is Err {
            Err(ErrorCode::MathError)
        } else if vault.max_tokens != 0 && vault.max_tokens < vault_equity + amount {
            Err(ErrorCode::VaultIsAtCapacity)
        } else if vault.min_deposit_amount != 0 && amount < vault.min_deposit_amount {
            Err(ErrorCode::InvalidVaultDeposit)
        } else if vault_equity == 0 && vault.total_shares != 0 {
            Err(ErrorCode::InvalidVaultForNewDepositors)
        } else if self.last_withdraw_request.is_pending() {
            Err(ErrorCode::WithdrawInProgress)
        } else {
            Ok(())
        }
    }

    /// The position after a deposit of `amount` into a vault worth `vault_equity` before it.
    ///
    /// In this order: the rebase; the annual fees; fuel and profit share; then the amount is
    /// credited in shares at the price that the vault then has. The record notes the shares
    /// as the rebase left them and as the deposit leaves them.
    pub open spec fn deposited(
        self,
        amount: u64,
        vault_equity: u64,
        vault: Vault,
        vault_protocol: Option<VaultProtocol>,
        now: i64,
        user_stats: UserStats,
        fuel_overflow: Option<FuelOverflow>,
        deposit_oracle_price: i64,
    ) -> Result<Outcome, ErrorCode> {
        match self.deposit_allowed(amount, vault_equity, vault) {
            Err(e) => Err(e),
            Ok(_) => match self.rebased(vault, vault_protocol, vault_equity) {
                Err(e) => Err(e),
                Ok(rebased) => match rebased.position.vault.fee_applied(
                    rebased.position.protocol,
                    vault_equity,
                    now,
                ) {
                    Err(e) => Err(e),
                    Ok(charged) => match rebased.position.depositor.profit_share_settled(
                        vault_equity,
                        charged.vault,
                        charged.protocol,
                        now,
                        user_stats,
                        fuel_overflow,
                    ) {
                        Err(e) => Err(e),
                        Ok(shared) => match shared.position.depositor.credited(
                            shared.position.vault,
                            amount,
                            vault_equity,
                        ) {
                            Err(e) => Err(e),
                            Ok(credited) => Ok(
                                Outcome {
                                    position: Position {
                                        depositor: credited.0,
                                        vault: credited.1,
                                        protocol: shared.position.protocol,
                                    },
                                    events: Events {
                                        record: (Position {
                                            depositor: credited.0,
                                            vault: credited.1,
                                            protocol: shared.position.protocol,
                                        }).record(
                                            VaultDepositorAction::Deposit,
                                            now,
                                            amount,
                                            vault_equity,
                                            rebased.position.shares(),
                                            shared.manager,
                                            shared.protocol,
                                            charged.fee,
                                            deposit_oracle_price,
                                        ),
                                        fuel_season: shared.season,
                                    },
                                },
                            ),
                        },
                    },
                },
            },
        }
    }

    /// Deposits `amount` into a vault that is worth `vault_equity` before the deposit.
    pub fn deposit(
        &mut self,
        amount: u64,
        vault_equity: u64,
        vault: &mut Vault,
        vault_protocol: &mut Option<VaultProtocol>,
        now: i64,
        user_stats: &UserStats,
        fuel_overflow: &Option<FuelOverflow>,
        deposit_oracle_price: i64,
    ) -> (r: Result<Events, ErrorCode>)
        ensures
            match r {
                Ok(events) => old(self).deposited(
                    amount,
                    vault_equity,
                    *old(vault),
                    *old(vault_protocol),
                    now,
                    *user_stats,
                    *fuel_overflow,
                    deposit_oracle_price,
                ) == Ok::<Outcome, ErrorCode>(
                    Outcome {
                        position: Position {
                            depositor: *final(self),
                            vault: *final(vault),
                            protocol: *final(vault_protocol),
                        },
                        events,
                    },
                ),
                Err(e) => old(self).deposited(
                    amount,
                    vault_equity,
                    *old(vault),
                    *old(vault_protocol),
                    now,
                    *user_stats,
                    *fuel_overflow,
                    deposit_oracle_price,
                ) == Err::<Outcome, ErrorCode>(e) && *final(self) == *old(self) && *final(vault)
                    == *old(vault) && *final(vault_protocol) == *old(vault_protocol),
            },
            final(self).cumulative_profit_share_amount >= old(self).cumulative_profit_share_amount,
            old(vault).shares_consistent(*old(vault_protocol)) ==> final(vault).shares_consistent(
                *final(vault_protocol),
            ),
            final(vault).shares_base >= old(vault).shares_base,
    {
        proof {
            lemma_deposit_kept(
                *self,
                amount,
                vault_equity,
                *vault,
                *vault_protocol,
                now,
                *user_stats,
                *fuel_overflow,
                deposit_oracle_price,
            );
        }
        if vault.max_tokens != 0 {
            let after: u64 = safe_add_u64(vault_equity, amount)?;
            if vault.max_tokens < after {
                return Err(ErrorCode::VaultIsAtCapacity);
            }
        }
        if vault.min_deposit_amount != 0 && amount < vault.min_deposit_amount {
            return Err(ErrorCode::InvalidVaultDeposit);
        }
        if vault_equity == 0 && vault.total_shares != 0 {
            return Err(ErrorCode::InvalidVaultForNewDepositors);
        }
        if self.last_withdraw_request.pending() {
            return Err(ErrorCode::WithdrawInProgress);
        }
        let mut d: VaultDepositor = *self;
        let mut v: Vault = *vault;
        let mut p: Option<VaultProtocol> = *vault_protocol;
        d.apply_rebase(&mut v, &mut p, vault_equity)?;
        let before: Shares = shares_of(&d, &v, &p);
        let fee: VaultFee = v.apply_fee(&mut p, vault_equity, now)?;
        let (manager_profit_share, protocol_profit_share, fuel_season): (
            u64,
            u64,
            Option<FuelSeasonRecord>,
        ) = d.apply_profit_share(vault_equity, &mut v, &mut p, now, user_stats, fuel_overflow)?;
        credit(&mut d, &mut v, amount, vault_equity)?;
        let record = record_of(
            &d,
            &v,
            &p,
            VaultDepositorAction::Deposit,
            now,
            amount,
            vault_equity,
            before,
            manager_profit_share,
            protocol_profit_share,
            fee,
            deposit_oracle_price,
        );
        *self = d;
        *vault = v;
        *vault_protocol = p;
        Ok(Events { record, fuel_season })
    }
}

} // verus!
