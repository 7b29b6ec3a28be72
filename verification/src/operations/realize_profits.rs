//! Charging a depositor's profit share on the manager's call.

use crate::error::ErrorCode;
use crate::proofs::operations::lemma_realize_profits_kept;
use crate::state::events::{Events, FuelSeasonRecord, Shares, VaultDepositorAction};
use crate::state::fuel::{FuelOverflow, UserStats};
use crate::state::position::{record_of, shares_of, Position};
use crate::state::vault::{saturating_u64, Vault, VaultFee};
use crate::state::vault_depositor::VaultDepositor;
use crate::state::vault_protocol::VaultProtocol;
use vstd::prelude::*;

verus! {

/// A position after profit was realized.
pub struct Realized {
    pub position: Position,
    /// The manager's and the protocol's profit share together.
    pub profit_share: u64,
    pub events: Events,
}

impl VaultDepositor {
    /// The position after the annual fees, and fuel and profit share for a depositor without
    /// a pending withdraw request. There is no rebase: a depositor whose shares are not in the
    /// vault's base is refused.
    pub open spec fn profits_realized(
        self,
        vault_equity: u64,
        vault: Vault,
        vault_protocol: Option<VaultProtocol>,
        now: i64,
        user_stats: UserStats,
        fuel_overflow: Option<FuelOverflow>,
        deposit_oracle_price: i64,
    ) -> Result<Realized, ErrorCode> {
        match vault.fee_applied(vault_protocol, vault_equity, now) {
            Err(e) => Err(e),
            Ok(charged) => if !self.base_valid(charged.vault) {
                Err(ErrorCode::InvalidVaultRebase)
            } else {
                match self.profit_share_settled(
                    vault_equity,
                    charged.vault,
                    charged.protocol,
                    now,
                    user_stats,
                    fuel_overflow,
                ) {
                    Err(e) => Err(e),
                    Ok(shared) => Ok(
                        Realized {
                            position: shared.position,
                            profit_share: saturating_u64(shared.manager, shared.protocol),
                            events: Events {
                                record: shared.position.record(
                                    VaultDepositorAction::FeePayment,
                                    now,
                                    0,
                                    vault_equity,
                                    (Position {
                                        depositor: self,
                                        vault: charged.vault,
                                        protocol: charged.protocol,
                                    }).shares(),
                                    shared.manager,
                                    shared.protocol,
                                    charged.fee,
                                    deposit_oracle_price,
                                ),
                                fuel_season: shared.season,
                            },
                        },
                    ),
                }
            },
        }
    }

    /// Charges the annual fees and the depositor's profit share, and returns the profit share
    /// with the records.
    pub fn realize_profits(
        &mut self,
        vault_equity: u64,
        vault: &mut Vault,
        vault_protocol: &mut Option<VaultProtocol>,
        now: i64,
        user_stats: &UserStats,
        fuel_overflow: &Option<FuelOverflow>,
        deposit_oracle_price: i64,
    ) -> (r: Result<(u64, Events), ErrorCode>)
        ensures
            match r {
                Ok(out) => old(self).profits_realized(
                    vault_equity,
                    *old(vault),
                    *old(vault_protocol),
                    now,
                    *user_stats,
                    *fuel_overflow,
                    deposit_oracle_price,
                ) == Ok::<Realized, ErrorCode>(
                    Realized {
                        position: Position {
                            depositor: *final(self),
                            vault: *final(vault),
                            protocol: *final(vault_protocol),
                        },
                        profit_share: out.0,
                        events: out.1,
                    },
                ),
                Err(e) => old(self).profits_realized(
                    vault_equity,
                    *old(vault),
                    *old(vault_protocol),
                    now,
                    *user_stats,
                    *fuel_overflow,
                    deposit_oracle_price,
                ) == Err::<Realized, ErrorCode>(e) && *final(self) == *old(self) && *final(vault)
                    == *old(vault) && *final(vault_protocol) == *old(vault_protocol),
            },
            final(self).cumulative_profit_share_amount >= old(self).cumulative_profit_share_amount,
            old(vault).shares_consistent(*old(vault_protocol)) ==> final(vault).shares_consistent(
                *final(vault_protocol),
            ),
            final(vault).shares_base >= old(vault).shares_base,
    {
        proof {
            lemma_realize_profits_kept(
                *self,
                vault_equity,
                *vault,
                *vault_protocol,
                now,
                *user_stats,
                *fuel_overflow,
                deposit_oracle_price,
            );
        }
        let mut d: VaultDepositor = *self;
        let mut v: Vault = *vault;
        let mut p: Option<VaultProtocol> = *vault_protocol;
        let fee: VaultFee = v.apply_fee(&mut p, vault_equity, now)?;
        d.validate_base(&v)?;
        let before: Shares = shares_of(&d, &v, &p);
        let (manager_profit_share, protocol_profit_share, fuel_season): (
            u64,
            u64,
            Option<FuelSeasonRecord>,
        ) = d.apply_profit_share(vault_equity, &mut v, &mut p, now, user_stats, fuel_overflow)?;
        let profit_share: u64 = manager_profit_share.saturating_add(protocol_profit_share);
        let record = record_of(
            &d,
            &v,
            &p,
            VaultDepositorAction::FeePayment,
            now,
            0,
            vault_equity,
            before,
            manager_profit_share,
            protocol_profit_share,
            fee,
            deposit_oracle_price,
        );
        *self = d;
        *vault = v;
        *vault_protocol = p;
        Ok((profit_share, Events { record, fuel_season }))
    }
}

} // verus!
