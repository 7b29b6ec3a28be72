use vstd::prelude::*;

verus! {

/// Scale of percentages and fee rates: one million stands for 100%.
pub const PERCENTAGE_PRECISION: u128 = 1_000_000;

/// `PERCENTAGE_PRECISION` as a `u64`.
pub const PERCENTAGE_PRECISION_U64: u64 = 1_000_000;

/// Scale of token amounts: one million units make one whole token.
pub const QUOTE_PRECISION_U64: u64 = 1_000_000;

/// Seconds in the year over which annual fee rates are spread.
pub const ONE_YEAR: u64 = 31_536_000;

/// Scale of the per-share fuel accumulator.
pub const FUEL_SHARE_PRECISION: u128 = 1_000_000_000_000_000_000;

/// Value of `last_fuel_update_ts` that marks a depositor who joined after fuel tracking began
/// and has not been settled yet.
pub const MAGIC_FUEL_START_TS: u32 = 12345;

} // verus!
