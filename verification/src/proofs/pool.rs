//! A vault with all its depositors, and what holds of it after any number of operations.

use crate::error::ErrorCode;
use crate::proofs::bases::{
    lemma_places_between, lemma_shares_in_raised_base, places_between, shares_in_vault_base,
};
use crate::proofs::operations::{
    carried, kept, lemma_apply_fee_kept, lemma_cancel_withdraw_request_kept, lemma_deposit_kept,
    lemma_realize_profits_kept, lemma_request_withdraw_kept, lemma_withdraw_kept,
};
use crate::proofs::stages::lemma_parts_divided;
use crate::state::fuel::{FuelOverflow, UserStats};
use crate::state::position::Position;
use crate::state::vault::Vault;
use crate::state::vault_depositor::VaultDepositor;
use crate::state::vault_protocol::VaultProtocol;
use crate::state::withdraw_unit::WithdrawUnit;
use vstd::prelude::*;

verus! {

/// An operation on a vault.
pub enum Operation {
    Deposit { amount: u64 },
    RequestWithdraw { withdraw_amount: u64, withdraw_unit: WithdrawUnit },
    CancelWithdrawRequest,
    Withdraw,
    RealizeProfits,
    /// The annual fees alone, which concern no depositor in particular.
    ApplyFee,
}

/// One call: the operation, the depositor that it is made for, and what the caller supplies.
pub struct Step {
    /// Index of the depositor among the pool's depositors.
    pub who: int,
    pub operation: Operation,
    pub vault_equity: u64,
    pub now: i64,
    pub user_stats: UserStats,
    pub fuel_overflow: Option<FuelOverflow>,
    pub deposit_oracle_price: i64,
}

/// A vault with all its depositors.
pub struct Pool {
    pub vault: Vault,
    pub protocol: Option<VaultProtocol>,
    pub depositors: Seq<VaultDepositor>,
}

/// Sum of the shares of `depositors`.
pub open spec fn sum_shares(depositors: Seq<VaultDepositor>) -> int
    decreases depositors.len(),
{
    if depositors.len() == 0 {
        0
    } else {
        sum_shares(depositors.drop_last()) + depositors.last().vault_shares
    }
}

/// Sum of the shares of `depositors`, each counted in the vault's base.
pub open spec fn sum_in_vault_base(depositors: Seq<VaultDepositor>, vault: Vault) -> int
    decreases depositors.len(),
{
    if depositors.len() == 0 {
        0
    } else {
        sum_in_vault_base(depositors.drop_last(), vault) + shares_in_vault_base(
            depositors.last(),
            vault,
        )
    }
}

impl Position {
    /// The position that `step` makes of this one, or the error with which it is refused.
    pub open spec fn after(self, step: Step) -> Result<Position, ErrorCode> {
        match step.operation {
            Operation::Deposit { amount } => match self.depositor.deposited(
                amount,
                step.vault_equity,
                self.vault,
                self.protocol,
                step.now,
                step.user_stats,
                step.fuel_overflow,
                step.deposit_oracle_price,
            ) {
                Ok(r) => Ok(r.position),
                Err(e) => Err(e),
            },
            Operation::RequestWithdraw {
                withdraw_amount,
                withdraw_unit,
            } => match self.depositor.withdraw_requested(
                withdraw_amount,
                withdraw_unit,
                step.vault_equity,
                self.vault,
                self.protocol,
                step.now,
                step.user_stats,
                step.fuel_overflow,
                step.deposit_oracle_price,
            ) {
                Ok(r) => Ok(r.position),
                Err(e) => Err(e),
            },
            Operation::CancelWithdrawRequest => match self.depositor.withdraw_request_cancelled(
                step.vault_equity,
                self.vault,
                self.protocol,
                step.now,
                step.user_stats,
                step.fuel_overflow,
                step.deposit_oracle_price,
            ) {
                Ok(r) => Ok(r.position),
                Err(e) => Err(e),
            },
            Operation::Withdraw => match self.depositor.withdrawn(
                step.vault_equity,
                self.vault,
                self.protocol,
                step.now,
                step.user_stats,
                step.fuel_overflow,
                step.deposit_oracle_price,
            ) {
                Ok(r) => Ok(r.position),
                Err(e) => Err(e),
            },
            Operation::RealizeProfits => match self.depositor.profits_realized(
                step.vault_equity,
                self.vault,
                self.protocol,
                step.now,
                step.user_stats,
                step.fuel_overflow,
                step.deposit_oracle_price,
            ) {
                Ok(r) => Ok(r.position),
                Err(e) => Err(e),
            },
            Operation::ApplyFee => match self.vault.fee_applied(
                self.protocol,
                step.vault_equity,
                step.now,
            ) {
                Ok(r) => Ok(
                    Position { depositor: self.depositor, vault: r.vault, protocol: r.protocol },
                ),
                Err(e) => Err(e),
            },
        }
    }

    /// Every operation that succeeds keeps what `kept` states, and carries the share counts as
    /// `carried` states.
    pub proof fn lemma_after_kept(self, step: Step)
        ensures
            self.after(step) matches Ok(next) ==> kept(self, next) && carried(self, next),
    {
        match step.operation {
            Operation::Deposit { amount } => {
                lemma_deposit_kept(
                    self.depositor,
                    amount,
                    step.vault_equity,
                    self.vault,
                    self.protocol,
                    step.now,
                    step.user_stats,
                    step.fuel_overflow,
                    step.deposit_oracle_price,
                );
            },
            Operation::RequestWithdraw { withdraw_amount, withdraw_unit } => {
                lemma_request_withdraw_kept(
                    self.depositor,
                    withdraw_amount,
                    withdraw_unit,
                    step.vault_equity,
                    self.vault,
                    self.protocol,
                    step.now,
                    step.user_stats,
                    step.fuel_overflow,
                    step.deposit_oracle_price,
                );
            },
            Operation::CancelWithdrawRequest => {
                lemma_cancel_withdraw_request_kept(
                    self.depositor,
                    step.vault_equity,
                    self.vault,
                    self.protocol,
                    step.now,
                    step.user_stats,
                    step.fuel_overflow,
                    step.deposit_oracle_price,
                );
            },
            Operation::Withdraw => {
                lemma_withdraw_kept(
                    self.depositor,
                    step.vault_equity,
                    self.vault,
                    self.protocol,
                    step.now,
                    step.user_stats,
                    step.fuel_overflow,
                    step.deposit_oracle_price,
                );
            },
            Operation::RealizeProfits => {
                lemma_realize_profits_kept(
                    self.depositor,
                    step.vault_equity,
                    self.vault,
                    self.protocol,
                    step.now,
                    step.user_stats,
                    step.fuel_overflow,
                    step.deposit_oracle_price,
                );
            },
            Operation::ApplyFee => {
                lemma_apply_fee_kept(
                    self.depositor,
                    step.vault_equity,
                    self.vault,
                    self.protocol,
                    step.now,
                );
            },
        }
    }
}

impl Pool {
    /// The position of the depositor at index `who`.
    pub open spec fn position(self, who: int) -> Position
        recommends
            0 <= who < self.depositors.len(),
    {
        Position { depositor: self.depositors[who], vault: self.vault, protocol: self.protocol }
    }

    /// The pool after `step`. A step that is refused, or names no depositor of the pool,
    /// changes nothing.
    pub open spec fn after_step(self, step: Step) -> Pool {
        if 0 <= step.who < self.depositors.len() {
            match self.position(step.who).after(step) {
                Ok(next) => Pool {
                    vault: next.vault,
                    protocol: next.protocol,
                    depositors: self.depositors.update(step.who, next.depositor),
                },
                Err(_) => self,
            }
        } else {
            self
        }
    }

    /// The pool after `steps`, one after the other.
    pub open spec fn after_steps(self, steps: Seq<Step>) -> Pool
        decreases steps.len(),
    {
        if steps.len() == 0 {
            self
        } else {
            self.after_steps(steps.drop_last()).after_step(steps.last())
        }
    }

    /// The total is the sum of the depositors', the protocol's and the manager's shares, none
    /// of them negative.
    pub open spec fn total_is_sum(self) -> bool {
        &&& self.vault.manager_shares(self.protocol) >= 0
        &&& self.vault.total_shares == self.vault.user_shares + self.vault.manager_shares(
            self.protocol,
        ) + crate::state::vault_protocol::protocol_shares(self.protocol)
    }

    /// Every depositor's shares are in the vault's base.
    pub open spec fn in_base(self) -> bool {
        forall|i: int|
            0 <= i < self.depositors.len() ==> (#[trigger] self.depositors[i]).base_valid(
                self.vault,
            )
    }

    /// `user_shares` is the sum of the depositors' shares, all of them in the vault's base.
    pub open spec fn user_shares_are_sum(self) -> bool {
        self.in_base() && self.vault.user_shares == sum_shares(self.depositors)
    }

    /// No depositor's base is ahead of the vault's.
    pub open spec fn none_ahead(self) -> bool {
        forall|i: int|
            0 <= i < self.depositors.len() ==> (#[trigger] self.depositors[i]).vault_shares_base
                <= self.vault.shares_base
    }

    /// `user_shares` covers the depositors' shares: counted in the vault's base, they sum to
    /// no more.
    pub open spec fn user_shares_cover(self) -> bool {
        self.none_ahead() && sum_in_vault_base(self.depositors, self.vault)
            <= self.vault.user_shares
    }

    /// No step, whether it rebases or not, lets the depositors' shares outgrow `user_shares`.
    pub proof fn lemma_step_keeps_cover(self, step: Step)
        requires
            self.user_shares_cover(),
        ensures
            self.after_step(step).user_shares_cover(),
    {
        if 0 <= step.who < self.depositors.len() {
            self.position(step.who).lemma_after_kept(step);
            match self.position(step.who).after(step) {
                Err(_) => {},
                Ok(next) => {
                    let after = self.after_step(step);
                    let places = places_between(self.vault, after.vault);
                    assert(self.depositors[step.who].vault_shares_base <= self.vault.shares_base);
                    lemma_places_between(self.vault, after.vault);
                    assert(after.none_ahead()) by {
                        assert forall|i: int| 0 <= i < after.depositors.len() implies (
                        #[trigger] after.depositors[i]).vault_shares_base
                            <= after.vault.shares_base by {
                            if i != step.who {
                                assert(self.depositors[i].vault_shares_base
                                    <= self.vault.shares_base);
                            }
                        }
                    }
                    lemma_sum_in_raised_base(self.depositors, self.vault, after.vault);
                    lemma_sum_in_vault_base_update(
                        self.depositors,
                        step.who,
                        next.depositor,
                        after.vault,
                    );
                    lemma_shares_in_raised_base(
                        self.depositors[step.who],
                        self.vault,
                        after.vault,
                    );
                    let sum: int = sum_in_vault_base(self.depositors, self.vault);
                    let user: int = self.vault.user_shares as int;
                    assert(sum / places <= user / places) by (nonlinear_arith)
                        requires
                            sum <= user,
                            places >= 1,
                    ;
                },
            }
        }
    }

    /// After any sequence of operations, rebases among them or not, `user_shares` covers the
    /// depositors' shares.
    pub proof fn lemma_steps_keep_cover(self, steps: Seq<Step>)
        requires
            self.user_shares_cover(),
        ensures
            self.after_steps(steps).user_shares_cover(),
        decreases steps.len(),
    {
        if steps.len() > 0 {
            self.lemma_steps_keep_cover(steps.drop_last());
            self.after_steps(steps.drop_last()).lemma_step_keeps_cover(steps.last());
        }
    }

    /// No step takes the manager's balance below zero: after every step the total is still
    /// the sum of the depositors', the protocol's and the manager's shares.
    pub proof fn lemma_step_keeps_total(self, step: Step)
        requires
            self.total_is_sum(),
        ensures
            self.after_step(step).total_is_sum(),
            self.after_step(step).vault.shares_base >= self.vault.shares_base,
            self.after_step(step).depositors.len() == self.depositors.len(),
    {
        if 0 <= step.who < self.depositors.len() {
            self.position(step.who).lemma_after_kept(step);
        }
    }

    /// After any sequence of operations the total is the sum of the depositors', the
    /// protocol's and the manager's shares, and the base has not gone back.
    pub proof fn lemma_steps_keep_total(self, steps: Seq<Step>)
        requires
            self.total_is_sum(),
        ensures
            self.after_steps(steps).total_is_sum(),
            self.after_steps(steps).vault.shares_base >= self.vault.shares_base,
            self.after_steps(steps).depositors.len() == self.depositors.len(),
        decreases steps.len(),
    {
        if steps.len() > 0 {
            self.lemma_steps_keep_total(steps.drop_last());
            self.after_steps(steps.drop_last()).lemma_step_keeps_total(steps.last());
        }
    }

    /// No step lowers a depositor's high-water mark.
    pub proof fn lemma_step_keeps_high_water_marks(self, step: Step, i: int)
        requires
            0 <= i < self.depositors.len(),
        ensures
            self.after_step(step).depositors.len() == self.depositors.len(),
            self.after_step(step).depositors[i].cumulative_profit_share_amount
                >= self.depositors[i].cumulative_profit_share_amount,
    {
        if 0 <= step.who < self.depositors.len() {
            self.position(step.who).lemma_after_kept(step);
        }
    }

    /// After any sequence of operations no depositor's high-water mark is lower than before.
    pub proof fn lemma_steps_keep_high_water_marks(self, steps: Seq<Step>, i: int)
        requires
            0 <= i < self.depositors.len(),
        ensures
            self.after_steps(steps).depositors.len() == self.depositors.len(),
            self.after_steps(steps).depositors[i].cumulative_profit_share_amount
                >= self.depositors[i].cumulative_profit_share_amount,
        decreases steps.len(),
    {
        if steps.len() > 0 {
            self.lemma_steps_keep_high_water_marks(steps.drop_last(), i);
            self.after_steps(steps.drop_last()).lemma_step_keeps_high_water_marks(steps.last(), i);
        }
    }

    /// A step that leaves the base alone keeps `user_shares` the sum of the depositors'
    /// shares.
    pub proof fn lemma_step_keeps_user_shares(self, step: Step)
        requires
            self.user_shares_are_sum(),
            self.after_step(step).vault.shares_base == self.vault.shares_base,
        ensures
            self.after_step(step).user_shares_are_sum(),
    {
        if 0 <= step.who < self.depositors.len() {
            self.position(step.who).lemma_after_kept(step);
            match self.position(step.who).after(step) {
                Err(_) => {},
                Ok(next) => {
                    lemma_sum_shares_update(self.depositors, step.who, next.depositor);
                    let after = self.after_step(step);
                    assert forall|i: int| 0 <= i < after.depositors.len() implies (
                    #[trigger] after.depositors[i]).base_valid(after.vault) by {
                        if i != step.who {
                            assert(self.depositors[i].base_valid(self.vault));
                        }
                    }
                },
            }
        }
    }

    /// After any sequence of operations that ends in the base in which it began, `user_shares`
    /// is the sum of the depositors' shares.
    pub proof fn lemma_steps_keep_user_shares(self, steps: Seq<Step>)
        requires
            self.total_is_sum(),
            self.user_shares_are_sum(),
            self.after_steps(steps).vault.shares_base == self.vault.shares_base,
        ensures
            self.after_steps(steps).user_shares_are_sum(),
        decreases steps.len(),
    {
        if steps.len() > 0 {
            let before = self.after_steps(steps.drop_last());
            self.lemma_steps_keep_total(steps.drop_last());
            before.lemma_step_keeps_total(steps.last());
            self.lemma_steps_keep_user_shares(steps.drop_last());
            before.lemma_step_keeps_user_shares(steps.last());
        }
    }
}

/// Replacing one depositor changes the sum of the shares by what that depositor's shares
/// change by.
pub proof fn lemma_sum_shares_update(
    depositors: Seq<VaultDepositor>,
    i: int,
    depositor: VaultDepositor,
)
    requires
        0 <= i < depositors.len(),
    ensures
        sum_shares(depositors.update(i, depositor)) == sum_shares(depositors)
            - depositors[i].vault_shares + depositor.vault_shares,
    decreases depositors.len(),
{
    let updated = depositors.update(i, depositor);
    if i == depositors.len() - 1 {
        assert(updated.drop_last() =~= depositors.drop_last());
    } else {
        lemma_sum_shares_update(depositors.drop_last(), i, depositor);
        assert(updated.drop_last() =~= depositors.drop_last().update(i, depositor));
    }
}

/// Replacing one depositor changes the sum of the shares in the vault's base by what that
/// depositor's shares in the vault's base change by.
pub proof fn lemma_sum_in_vault_base_update(
    depositors: Seq<VaultDepositor>,
    i: int,
    depositor: VaultDepositor,
    vault: Vault,
)
    requires
        0 <= i < depositors.len(),
    ensures
        sum_in_vault_base(depositors.update(i, depositor), vault) == sum_in_vault_base(
            depositors,
            vault,
        ) - shares_in_vault_base(depositors[i], vault) + shares_in_vault_base(depositor, vault),
    decreases depositors.len(),
{
    let updated = depositors.update(i, depositor);
    if i == depositors.len() - 1 {
        assert(updated.drop_last() =~= depositors.drop_last());
    } else {
        lemma_sum_in_vault_base_update(depositors.drop_last(), i, depositor, vault);
        assert(updated.drop_last() =~= depositors.drop_last().update(i, depositor));
    }
}

/// Counted in a later base, the depositors' shares sum to no more than their sum in the
/// earlier base comes to in the later one: each count is rounded down on its own.
pub proof fn lemma_sum_in_raised_base(depositors: Seq<VaultDepositor>, vault: Vault, raised: Vault)
    requires
        vault.shares_base <= raised.shares_base,
        forall|i: int|
            0 <= i < depositors.len() ==> (#[trigger] depositors[i]).vault_shares_base
                <= vault.shares_base,
    ensures
        sum_in_vault_base(depositors, raised) <= sum_in_vault_base(depositors, vault)
            / places_between(vault, raised),
        0 <= sum_in_vault_base(depositors, raised),
        0 <= sum_in_vault_base(depositors, vault),
    decreases depositors.len(),
{
    lemma_places_between(vault, raised);
    let places = places_between(vault, raised);
    if depositors.len() == 0 {
        assert(0int / places == 0) by (nonlinear_arith)
            requires
                places >= 1,
        ;
    } else {
        let rest = depositors.drop_last();
        assert forall|i: int| 0 <= i < rest.len() implies (#[trigger] rest[i]).vault_shares_base
            <= vault.shares_base by {
            assert(rest[i] == depositors[i]);
        }
        lemma_sum_in_raised_base(rest, vault, raised);
        lemma_shares_in_raised_base(depositors.last(), vault, raised);
        lemma_shares_in_raised_base(depositors.last(), raised, raised);
        let sum: int = sum_in_vault_base(rest, vault);
        let last: int = shares_in_vault_base(depositors.last(), vault);
        lemma_parts_divided(sum, last, sum + last, places);
    }
}

} // verus!
