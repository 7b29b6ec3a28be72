//! Taking a withdraw request back.

use crate::error::ErrorCode;
use crate::math::{safe_sub_u128, safe_sub_u64, to_u128, to_u64};
use crate::proofs::operations::lemma_cancel_withdraw_request_kept;
use crate::state::events::{Events, FuelSeasonRecord, Shares, VaultDepositorAction};
use crate::state::fuel::{FuelOverflow, UserStats};
use crate::state::position::{record_of, shares_of, Outcome, Position};
use crate::state::vault::{Vault, VaultFee};
use crate::state::vault_depositor::VaultDepositor;
use crate::state::vault_protocol::VaultProtocol;
use crate::state::withdraw_request::WithdrawRequest;
use vstd::prelude::*;

verus! {

impl VaultDepositor {
    /// The depositor and the vault after the depositor has given up `lost` shares to the other
    /// holders: the shares leave the depositor, `user_shares` and `total_shares` alike.
    /// Nothing is given up where `lost` is zero or `owns_entire_vault` holds.
    pub open spec fn forfeited(self, vault: Vault, lost: u128, owns_entire_vault: bool) -> Result<
        (VaultDepositor, Vault),
        ErrorCode,
    > {
        if lost > 0 && !owns_entire_vault {
            match self.with_shares(self.vault_shares - lost, vault) {
                Err(e) => Err(e),
                Ok(depositor) => if to_u128(vault.total_shares - lost) is Err || to_u128(
                    vault.user_shares - lost,
                ) is Err {
                    Err(ErrorCode::MathError)
                } else {
                    Ok(
                        (
                            depositor,
                            Vault {
                                total_shares: (vault.total_shares - lost) as u128,
                                user_shares: (vault.user_shares - lost) as u128,
                                ..vault
                            },
                        ),
                    )
                },
            }
        } else if !self.base_valid(vault) {
            Err(ErrorCode::InvalidVaultRebase)
        } else {
            Ok((self, vault))
        }
    }

    /// The position after the depositor's withdraw request was cancelled at `now`.
    ///
    /// In this order: the rebase; the annual fees; fuel, but no profit share; then the
    /// depositor gives up the shares that `shares_lost` gives, unless it held all the shares
    /// of the vault when the rebase was done; the vault stops holding the request's value back;
    /// and the request is cleared.
    pub open spec fn withdraw_request_cancelled(
        self,
        vault_equity: u64,
        vault: Vault,
        vault_protocol: Option<VaultProtocol>,
        now: i64,
        user_stats: UserStats,
        fuel_overflow: Option<FuelOverflow>,
        deposit_oracle_price: i64,
    ) -> Result<Outcome, ErrorCode> {
        match self.rebased(vault, vault_protocol, vault_equity) {
            Err(e) => Err(e),
            Ok(rebased) => match rebased.position.vault.fee_applied(
                rebased.position.protocol,
                vault_equity,
                now,
            ) {
                Err(e) => Err(e),
                Ok(charged) => match rebased.position.depositor.fuel_settled(
                    now,
                    charged.vault,
                    user_stats,
                    fuel_overflow,
                ) {
                    Err(e) => Err(e),
                    Ok(settled) => match settled.depositor.last_withdraw_request.shares_lost(
                        settled.vault.total_shares,
                        vault_equity,
                    ) {
                        Err(e) => Err(e),
                        Ok(lost) => match settled.depositor.forfeited(
                            settled.vault,
                            lost,
                            rebased.position.vault.total_shares
                                == rebased.position.depositor.vault_shares,
                        ) {
                            Err(e) => Err(e),
                            Ok(left) => match to_u64(
                                left.1.total_withdraw_requested
                                    - left.0.last_withdraw_request.value,
                            ) {
                                Err(e) => Err(e),
                                Ok(held_back) => Ok(
                                    Outcome {
                                        position: Position {
                                            depositor: VaultDepositor {
                                                last_withdraw_request: WithdrawRequest::empty(now),
                                                ..left.0
                                            },
                                            vault: Vault {
                                                total_withdraw_requested: held_back,
                                                ..left.1
                                            },
                                            protocol: charged.protocol,
                                        },
                                        events: Events {
                                            record: (Position {
                                                depositor: left.0,
                                                vault: left.1,
                                                protocol: charged.protocol,
                                            }).record(
                                                VaultDepositorAction::CancelWithdrawRequest,
                                                now,
                                                0,
                                                vault_equity,
                                                rebased.position.shares(),
                                                0,
                                                0,
                                                charged.fee,
                                                deposit_oracle_price,
                                            ),
                                            fuel_season: settled.season,
                                        },
                                    },
                                ),
                            },
                        },
                    },
                },
            },
        }
    }

    /// Cancels the depositor's withdraw request. Where the requested shares are worth more
    /// than they were quoted at, the difference stays with the other holders.
    pub fn cancel_withdraw_request(
        &mut self,
        vault_equity: u64,
        vault: &mut Vault,
        vault_protocol: &mut Option<VaultProtocol>,
        now: i64,
        user_stats: &UserStats,
        fuel_overflow: &Option<FuelOverflow>,
        deposit_oracle_price: i64,
    ) -> (r: Result<Events, ErrorCode>)
        ensures
            match r {
                Ok(events) => old(self).withdraw_request_cancelled(
                    vault_equity,
                    *old(vault),
                    *old(vault_protocol),
                    now,
                    *user_stats,
                    *fuel_overflow,
                    deposit_oracle_price,
                ) == Ok::<Outcome, ErrorCode>(
                    Outcome {
                        position: Position {
                            depositor: *final(self),
                            vault: *final(vault),
                            protocol: *final(vault_protocol),
                        },
                        events,
                    },
                ),
                Err(e) => old(self).withdraw_request_cancelled(
                    vault_equity,
                    *old(vault),
                    *old(vault_protocol),
                    now,
                    *user_stats,
                    *fuel_overflow,
                    deposit_oracle_price,
                ) == Err::<Outcome, ErrorCode>(e) && *final(self) == *old(self) && *final(vault)
                    == *old(vault) && *final(vault_protocol) == *old(vault_protocol),
            },
            final(self).cumulative_profit_share_amount >= old(self).cumulative_profit_share_amount,
            old(vault).shares_consistent(*old(vault_protocol)) ==> final(vault).shares_consistent(
                *final(vault_protocol),
            ),
            final(vault).shares_base >= old(vault).shares_base,
    {
        proof {
            lemma_cancel_withdraw_request_kept(
                *self,
                vault_equity,
                *vault,
                *vault_protocol,
                now,
                *user_stats,
                *fuel_overflow,
                deposit_oracle_price,
            );
        }
        let mut d: VaultDepositor = *self;
        let mut v: Vault = *vault;
        let mut p: Option<VaultProtocol> = *vault_protocol;
        d.apply_rebase(&mut v, &mut p, vault_equity)?;
        let before: Shares = shares_of(&d, &v, &p);
        let fee: VaultFee = v.apply_fee(&mut p, vault_equity, now)?;
        let (_, fuel_season): (u128, Option<FuelSeasonRecord>) = d.update_cumulative_fuel_amount(
            now,
            &mut v,
            user_stats,
            fuel_overflow,
        )?;
        let vault_shares_lost: u128 = d.last_withdraw_request.calculate_shares_lost(
            &v,
            vault_equity,
        )?;
        let user_owns_entire_vault: bool = before.total == before.depositor;
        if vault_shares_lost > 0 && !user_owns_entire_vault {
            d.decrease_vault_shares(vault_shares_lost, &v)?;
            let total_shares: u128 = safe_sub_u128(v.total_shares, vault_shares_lost)?;
            let user_shares: u128 = safe_sub_u128(v.user_shares, vault_shares_lost)?;
            v.total_shares = total_shares;
            v.user_shares = user_shares;
        } else {
            d.validate_base(&v)?;
        }
        let record = record_of(
            &d,
            &v,
            &p,
            VaultDepositorAction::CancelWithdrawRequest,
            now,
            0,
            vault_equity,
            before,
            0,
            0,
            fee,
            deposit_oracle_price,
        );
        v.total_withdraw_requested = safe_sub_u64(
            v.total_withdraw_requested,
            d.last_withdraw_request.value,
        )?;
        d.last_withdraw_request.reset(now);
        *self = d;
        *vault = v;
        *vault_protocol = p;
        Ok(Events { record, fuel_season })
    }
}

} // verus!
