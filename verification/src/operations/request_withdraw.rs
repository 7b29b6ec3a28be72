//! Asking for a withdrawal.

use crate::error::ErrorCode;
use crate::math::{safe_add_u64, safe_sub_u64, to_u64};
use crate::proofs::operations::lemma_request_withdraw_kept;
use crate::state::events::{Events, FuelSeasonRecord, Shares, VaultDepositorAction};
use crate::state::fuel::{FuelOverflow, UserStats};
use crate::state::position::{record_of, shares_of, Outcome, Position};
use crate::state::vault::{Vault, VaultFee};
use crate::state::vault_depositor::VaultDepositor;
use crate::state::vault_protocol::VaultProtocol;
use crate::state::withdraw_request::WithdrawRequest;
use crate::state::withdraw_unit::WithdrawUnit;
use vstd::prelude::*;

verus! {

impl VaultDepositor {
    /// The depositor and the vault after a request for `n_shares` shares quoted at `value`
    /// has taken the place of the depositor's request: the vault no longer holds the old
    /// request's value back, and holds back `value`.
    pub open spec fn request_recorded(
        self,
        vault: Vault,
        n_shares: u128,
        value: u64,
        vault_equity: u64,
        now: i64,
    ) -> Result<(VaultDepositor, Vault), ErrorCode> {
        if n_shares == 0 {
            Err(ErrorCode::InvalidVaultWithdrawSize)
        } else {
            match self.shares_checked(vault) {
                Err(e) => Err(e),
                Ok(shares) => match to_u64(
                    vault.total_withdraw_requested - self.last_withdraw_request.value,
                ) {
                    Err(e) => Err(e),
                    Ok(released) => match self.last_withdraw_request.requested(
                        shares,
                        n_shares,
                        value,
                        vault_equity,
                        now,
                    ) {
                        Err(e) => Err(e),
                        Ok(request) => match to_u64(released + value) {
                            Err(e) => Err(e),
                            Ok(held_back) => Ok(
                                (
                                    VaultDepositor { last_withdraw_request: request, ..self },
                                    Vault { total_withdraw_requested: held_back, ..vault },
                                ),
                            ),
                        },
                    },
                },
            }
        }
    }

    /// The position after a withdraw request for `withdraw_amount` counted in `withdraw_unit`.
    ///
    /// In this order: the rebase; the annual fees; fuel and profit share; then the amount is
    /// turned into shares and a value at the price that the vault then has, and the request is
    /// recorded in place of any earlier one. The record's amount is the value of the request.
    pub open spec fn withdraw_requested(
        self,
        withdraw_amount: u64,
        withdraw_unit: WithdrawUnit,
        vault_equity: u64,
        vault: Vault,
        vault_protocol: Option<VaultProtocol>,
        now: i64,
        user_stats: UserStats,
        fuel_overflow: Option<FuelOverflow>,
        deposit_oracle_price: i64,
    ) -> Result<Outcome, ErrorCode> {
        match self.rebased(vault, vault_protocol, vault_equity) {
            Err(e) => Err(e),
            Ok(rebased) => match rebased.position.vault.fee_applied(
                rebased.position.protocol,
                vault_equity,
                now,
            ) {
                Err(e) => Err(e),
                Ok(charged) => match rebased.position.depositor.fuel_and_profit_share_settled(
                    vault_equity,
                    charged.vault,
                    charged.protocol,
                    now,
                    user_stats,
                    fuel_overflow,
                ) {
                    Err(e) => Err(e),
                    Ok(shared) => match withdraw_unit.value_and_shares(
                        withdraw_amount,
                        vault_equity,
                        shared.position.depositor.vault_shares,
                        shared.position.vault.total_shares,
                        rebased.divisor,
                    ) {
                        Err(e) => Err(e),
                        Ok(sized) => match shared.position.depositor.request_recorded(
                            shared.position.vault,
                            sized.1,
                            sized.0,
                            vault_equity,
                            now,
                        ) {
                            Err(e) => Err(e),
                            Ok(recorded) => Ok(
                                Outcome {
                                    position: Position {
                                        depositor: recorded.0,
                                        vault: recorded.1,
                                        protocol: shared.position.protocol,
                                    },
                                    events: Events {
                                        record: (Position {
                                            depositor: recorded.0,
                                            vault: recorded.1,
                                            protocol: shared.position.protocol,
                                        }).record(
                                            VaultDepositorAction::WithdrawRequest,
                                            now,
                                            sized.0,
                                            vault_equity,
                                            shared.position.shares(),
                                            shared.manager,
                                            shared.protocol,
                                            charged.fee,
                                            deposit_oracle_price,
                                        ),
                                        fuel_season: shared.season,
                                    },
                                },
                            ),
                        },
                    },
                },
            },
        }
    }

    /// Asks for a withdrawal of `withdraw_amount`, counted in `withdraw_unit`, at the price that
    /// `vault_equity` gives. A request that is already pending is replaced.
    pub fn request_withdraw(
        &mut self,
        withdraw_amount: u64,
        withdraw_unit: WithdrawUnit,
        vault_equity: u64,
        vault: &mut Vault,
        vault_protocol: &mut Option<VaultProtocol>,
        now: i64,
        user_stats: &UserStats,
        fuel_overflow: &Option<FuelOverflow>,
        deposit_oracle_price: i64,
    ) -> (r: Result<Events, ErrorCode>)
        ensures
            match r {
                Ok(events) => old(self).withdraw_requested(
                    withdraw_amount,
                    withdraw_unit,
                    vault_equity,
                    *old(vault),
                    *old(vault_protocol),
                    now,
                    *user_stats,
                    *fuel_overflow,
                    deposit_oracle_price,
                ) == Ok::<Outcome, ErrorCode>(
                    Outcome {
                        position: Position {
                            depositor: *final(self),
                            vault: *final(vault),
                            protocol: *final(vault_protocol),
                        },
                        events,
                    },
                ),
                Err(e) => old(self).withdraw_requested(
                    withdraw_amount,
                    withdraw_unit,
                    vault_equity,
                    *old(vault),
                    *old(vault_protocol),
                    now,
                    *user_stats,
                    *fuel_overflow,
                    deposit_oracle_price,
                ) == Err::<Outcome, ErrorCode>(e) && *final(self) == *old(self) && *final(vault)
                    == *old(vault) && *final(vault_protocol) == *old(vault_protocol),
            },
            final(self).cumulative_profit_share_amount >= old(self).cumulative_profit_share_amount,
            old(vault).shares_consistent(*old(vault_protocol)) ==> final(vault).shares_consistent(
                *final(vault_protocol),
            ),
            final(vault).shares_base >= old(vault).shares_base,
    {
        proof {
            lemma_request_withdraw_kept(
                *self,
                withdraw_amount,
                withdraw_unit,
                vault_equity,
                *vault,
                *vault_protocol,
                now,
                *user_stats,
                *fuel_overflow,
                deposit_oracle_price,
            );
        }
        let mut d: VaultDepositor = *self;
        let mut v: Vault = *vault;
        let mut p: Option<VaultProtocol> = *vault_protocol;
        let rebase_divisor: Option<u128> = d.apply_rebase(&mut v, &mut p, vault_equity)?;
        let fee: VaultFee = v.apply_fee(&mut p, vault_equity, now)?;
        let (manager_profit_share, protocol_profit_share, fuel_season): (
            u64,
            u64,
            Option<FuelSeasonRecord>,
        ) = d.settle_fuel_and_profit_share(
            vault_equity,
            &mut v,
            &mut p,
            now,
            user_stats,
            fuel_overflow,
        )?;
        let (withdraw_value, n_shares): (u64, u128) = withdraw_unit.get_withdraw_value_and_shares(
            withdraw_amount,
            vault_equity,
            d.vault_shares,
            v.total_shares,
            rebase_divisor,
        )?;
        if n_shares == 0 {
            return Err(ErrorCode::InvalidVaultWithdrawSize);
        }
        let vault_shares_before: u128 = d.checked_vault_shares(&v)?;
        let before: Shares = shares_of(&d, &v, &p);
        let released: u64 = safe_sub_u64(v.total_withdraw_requested, d.last_withdraw_request.value)?;
        let mut request: WithdrawRequest = d.last_withdraw_request;
        request.set(vault_shares_before, n_shares, withdraw_value, vault_equity, now)?;
        d.last_withdraw_request = request;
        v.total_withdraw_requested = safe_add_u64(released, withdraw_value)?;
        let record = record_of(
            &d,
            &v,
            &p,
            VaultDepositorAction::WithdrawRequest,
            now,
            withdraw_value,
            vault_equity,
            before,
            manager_profit_share,
            protocol_profit_share,
            fee,
            deposit_oracle_price,
        );
        *self = d;
        *vault = v;
        *vault_protocol = p;
        Ok(Events { record, fuel_season })
    }
}

} // verus!
