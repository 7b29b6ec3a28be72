//! The exchange's fuel counters for the vault's trading account: the outside source of the
//! reward that the vault hands on to its depositors.

use crate::error::ErrorCode;
use crate::math::{safe_add_u128, to_u128};
use vstd::prelude::*;

verus! {

/// To whom the vault's fuel is handed.
#[derive(Clone, Copy, Debug, PartialEq, Eq, Structural)]
pub enum FuelDistributionMode {
    /// Depositors share all of it, in proportion to their shares of `user_shares`.
    UsersOnly,
    /// Depositors and the manager share it, in proportion to their shares of `total_shares`.
    UsersAndManager,
}

/// Fuel that the vault's trading account has earned so far, by source.
#[derive(Clone, Copy, Debug, PartialEq, Eq, Structural)]
pub struct UserStats {
    pub fuel_insurance: u32,
    pub fuel_deposits: u32,
    pub fuel_borrows: u32,
    pub fuel_positions: u32,
    pub fuel_taker: u32,
    pub fuel_maker: u32,
}

/// Fuel beyond what the counters of `UserStats` can hold, by source.
#[derive(Clone, Copy, Debug, PartialEq, Eq, Structural)]
pub struct FuelOverflow {
    pub fuel_insurance: u128,
    pub fuel_deposits: u128,
    pub fuel_borrows: u128,
    pub fuel_positions: u128,
    pub fuel_taker: u128,
    pub fuel_maker: u128,
}

impl Default for UserStats {
    fn default() -> (r: Self)
        ensures
            r.total() == 0,
    {
        UserStats {
            fuel_insurance: 0,
            fuel_deposits: 0,
            fuel_borrows: 0,
            fuel_positions: 0,
            fuel_taker: 0,
            fuel_maker: 0,
        }
    }
}

impl UserStats {
    /// Sum of the six counters.
    pub open spec fn total(self) -> int {
        self.fuel_insurance + self.fuel_deposits + self.fuel_borrows + self.fuel_positions
            + self.fuel_taker + self.fuel_maker
    }
}

impl Default for FuelOverflow {
    fn default() -> (r: Self)
        ensures
            r.total() == 0,
    {
        FuelOverflow {
            fuel_insurance: 0,
            fuel_deposits: 0,
            fuel_borrows: 0,
            fuel_positions: 0,
            fuel_taker: 0,
            fuel_maker: 0,
        }
    }
}

impl FuelOverflow {
    /// Sum of the six counters.
    pub open spec fn total(self) -> int {
        self.fuel_insurance + self.fuel_deposits + self.fuel_borrows + self.fuel_positions
            + self.fuel_taker + self.fuel_maker
    }
}

/// All the fuel that the account has earned: the counters and, where there is one, the
/// overflow. `MathError` when the sum does not fit in a `u128`.
pub open spec fn total_fuel(user_stats: UserStats, fuel_overflow: Option<FuelOverflow>) -> Result<
    u128,
    ErrorCode,
> {
    match fuel_overflow {
        None => to_u128(user_stats.total()),
        Some(overflow) => to_u128(user_stats.total() + overflow.total()),
    }
}

pub fn get_total_fuel(user_stats: &UserStats, fuel_overflow: &Option<FuelOverflow>) -> (r: Result<
    u128,
    ErrorCode,
>)
    ensures
        r == total_fuel(*user_stats, *fuel_overflow),
{
    let counted: u128 = user_stats.fuel_insurance as u128 + user_stats.fuel_deposits as u128
        + user_stats.fuel_borrows as u128 + user_stats.fuel_positions as u128
        + user_stats.fuel_taker as u128 + user_stats.fuel_maker as u128;
    match fuel_overflow {
        None => Ok(counted),
        Some(overflow) => {
            let a: u128 = safe_add_u128(counted, overflow.fuel_insurance)?;
            let b: u128 = safe_add_u128(a, overflow.fuel_deposits)?;
            let c: u128 = safe_add_u128(b, overflow.fuel_borrows)?;
            let d: u128 = safe_add_u128(c, overflow.fuel_positions)?;
            let e: u128 = safe_add_u128(d, overflow.fuel_taker)?;
            safe_add_u128(e, overflow.fuel_maker)
        },
    }
}

} // verus!
