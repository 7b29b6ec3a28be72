use anchor_lang::prelude::Pubkey;
use drift_vaults::constants::MAGIC_FUEL_START_TS;
use drift_vaults::state::fuel::get_total_fuel;
use drift_vaults::state::{FuelOverflow, FuelSeasonRecord, UserStats};
use drift_vaults::{ErrorCode, Vault, VaultDepositor};

fn vault_with_users(user_shares: u128) -> Vault {
    Vault {
        total_shares: 2 * user_shares,
        user_shares,
        ..Vault::default()
    }
}

#[test]
fn total_fuel_sums_the_counters() {
    let stats = UserStats {
        fuel_insurance: 1,
        fuel_deposits: 20,
        fuel_borrows: 300,
        fuel_positions: 4_000,
        fuel_taker: 50_000,
        fuel_maker: u32::MAX,
    };
    assert_eq!(get_total_fuel(&stats, &None), Ok(54_321 + u32::MAX as u128));
    let overflow = FuelOverflow {
        fuel_insurance: 1,
        fuel_deposits: 2,
        fuel_borrows: 3,
        fuel_positions: 4,
        fuel_taker: 5,
        fuel_maker: 1u128 << 100,
    };
    assert_eq!(
        get_total_fuel(&stats, &Some(overflow)),
        Ok(54_321 + u32::MAX as u128 + 15 + (1u128 << 100))
    );
    let too_much = FuelOverflow { fuel_taker: u128::MAX, ..FuelOverflow::default() };
    assert_eq!(get_total_fuel(&stats, &Some(too_much)), Err(ErrorCode::MathError));
    assert_eq!(get_total_fuel(&UserStats::default(), &Some(FuelOverflow::default())), Ok(0));
}

#[test]
fn new_depositor_earns_only_what_comes_after_it_joined() {
    let mut vault = vault_with_users(500_000);
    let mut vd = VaultDepositor::new(Pubkey::default(), Pubkey::default(), Pubkey::default(), 20_000);
    vd.vault_shares = 200_000;
    assert_eq!(vd.last_fuel_update_ts, MAGIC_FUEL_START_TS);
    let mut stats = UserStats { fuel_taker: 60_000, ..UserStats::default() };
    // the first settlement notes where the vault stands and credits nothing
    assert_eq!(vd.update_cumulative_fuel_amount(20_000, &mut vault, &stats, &None), Ok((0, None)));
    assert_eq!(vd.fuel_amount, 0);
    assert_eq!(vd.cumulative_fuel_per_share_amount, 120_000_000_000_000_000);
    assert_eq!(vd.last_fuel_update_ts, 20_000);
    // 10_000 more fuel over 500_000 shares, of which the depositor holds 200_000
    stats.fuel_taker += 10_000;
    assert_eq!(vd.update_cumulative_fuel_amount(30_000, &mut vault, &stats, &None), Ok((4_000, None)));
    assert_eq!(vd.fuel_amount, 4_000);
    assert_eq!(vd.cumulative_fuel_per_share_amount, 140_000_000_000_000_000);
    assert_eq!(vd.last_fuel_update_ts, 30_000);
    // the same second again: nothing is credited twice
    stats.fuel_taker += 10_000;
    assert_eq!(vd.update_cumulative_fuel_amount(30_000, &mut vault, &stats, &None), Ok((4_000, None)));
    assert_eq!(vault.cumulative_fuel, 70_000);
}

#[test]
fn depositor_of_a_past_season_forfeits_its_fuel() {
    let mut vault = vault_with_users(500_000);
    let authority = Pubkey::new_from_array([8u8; 32]);
    let mut vd = VaultDepositor::new(Pubkey::default(), Pubkey::default(), authority, 0);
    vd.vault_shares = 200_000;
    vd.last_fuel_update_ts = 5;
    vd.fuel_amount = 500;
    vd.cumulative_fuel_per_share_amount = 1_000_000_000_000_000_000;
    let stats = UserStats { fuel_taker: 60_000, ..UserStats::default() };
    let (fuel, season) = vd.update_cumulative_fuel_amount(1000, &mut vault, &stats, &None).unwrap();
    assert_eq!(fuel, 0);
    assert_eq!(
        season,
        Some(FuelSeasonRecord {
            ts: 1000,
            authority,
            fuel_insurance: 0,
            fuel_deposits: 0,
            fuel_borrows: 0,
            fuel_positions: 0,
            fuel_taker: 0,
            fuel_maker: 0,
            fuel_total: 500,
        })
    );
    assert_eq!(vd.fuel_amount, 0);
    assert_eq!(vd.cumulative_fuel_per_share_amount, 120_000_000_000_000_000);
    assert_eq!(vd.last_fuel_update_ts, 1000);
    // from here on it earns as any other
    let stats = UserStats { fuel_taker: 70_000, ..UserStats::default() };
    assert_eq!(vd.update_cumulative_fuel_amount(2000, &mut vault, &stats, &None), Ok((4_000, None)));
}

#[test]
fn reset_fuel_amount_hands_back_the_forfeited_total() {
    let authority = Pubkey::new_from_array([8u8; 32]);
    let mut vd = VaultDepositor::new(Pubkey::default(), Pubkey::default(), authority, 0);
    vd.fuel_amount = 77;
    vd.cumulative_fuel_per_share_amount = 5;
    let before = vd;
    let record = vd.reset_fuel_amount(4_294_967_296 + 9);
    assert_eq!(record.fuel_total, 77);
    assert_eq!(record.ts, 4_294_967_296 + 9);
    assert_eq!(record.authority, authority);
    assert_eq!(
        vd,
        VaultDepositor {
            fuel_amount: 0,
            cumulative_fuel_per_share_amount: 0,
            // the seconds wrap at 2^32
            last_fuel_update_ts: 9,
            ..before
        }
    );
}

#[test]
fn fuel_of_a_depositor_out_of_base_is_refused() {
    let mut vault = Vault { shares_base: 1, ..vault_with_users(500_000) };
    let mut vd = VaultDepositor::new(Pubkey::default(), Pubkey::default(), Pubkey::default(), 0);
    vd.vault_shares = 200_000;
    vd.last_fuel_update_ts = 5;
    let (vault_before, vd_before) = (vault, vd);
    let stats = UserStats { fuel_taker: 60_000, ..UserStats::default() };
    assert_eq!(
        vd.update_cumulative_fuel_amount(1000, &mut vault, &stats, &None),
        Err(ErrorCode::InvalidVaultRebase)
    );
    assert_eq!(vault, vault_before);
    assert_eq!(vd, vd_before);
}

#[test]
fn fuel_is_settled_by_every_operation_that_moves_shares() {
    let mut vault = Vault::default();
    let mut vd = VaultDepositor::new(Pubkey::default(), Pubkey::default(), Pubkey::default(), 0);
    vd.last_fuel_update_ts = 0;
    let mut stats = UserStats::default();
    vd.deposit(1_000_000, 1_000_000, &mut vault, &mut None, 10, &stats, &None, 0).unwrap();
    assert_eq!(vd.fuel_amount, 0);
    assert_eq!(vd.last_fuel_update_ts, 10);
    // the depositor holds all the 1_000_000 user shares: all new fuel is its own
    stats.fuel_deposits = 300;
    vd.deposit(1_000_000, 2_000_000, &mut vault, &mut None, 20, &stats, &None, 0).unwrap();
    assert_eq!(vd.fuel_amount, 300);
    assert_eq!(vault.cumulative_fuel, 300);
    assert_eq!(vault.user_shares, 2_000_000);
    stats.fuel_deposits = 500;
    vd.request_withdraw(
        1_000_000,
        drift_vaults::WithdrawUnit::Token,
        3_000_000,
        &mut vault,
        &mut None,
        30,
        &stats,
        &None,
        0,
    )
    .unwrap();
    assert_eq!(vd.fuel_amount, 500);
    stats.fuel_deposits = 600;
    vd.withdraw(3_000_000, &mut vault, &mut None, 40, &stats, &None, 0).unwrap();
    assert_eq!(vd.fuel_amount, 600);
    assert_eq!(vd.last_fuel_update_ts, 40);
}
