//! Shares counted across a rebase: what a share count in one base comes to in a later one.

use crate::state::vault::Vault;
use crate::state::vault_depositor::VaultDepositor;
use vstd::arithmetic::div_mod::lemma_div_denominator;
use vstd::arithmetic::power::{lemma_pow0, lemma_pow_adds, lemma_pow_positive, pow};
use vstd::prelude::*;

verus! {

/// The depositor's shares counted in the vault's base: divided by ten, and rounded down, for
/// each place that the depositor's base is behind the vault's.
pub open spec fn shares_in_vault_base(depositor: VaultDepositor, vault: Vault) -> int
    recommends
        depositor.vault_shares_base <= vault.shares_base,
{
    depositor.vault_shares as int / pow(
        10,
        (vault.shares_base - depositor.vault_shares_base) as nat,
    )
}

/// Ten to the number of places between two bases.
pub open spec fn places_between(from: Vault, to: Vault) -> int
    recommends
        from.shares_base <= to.shares_base,
{
    pow(10, (to.shares_base - from.shares_base) as nat)
}

/// Between a base and itself lies the factor one; between any two bases a factor of at
/// least one.
pub proof fn lemma_places_between(from: Vault, to: Vault)
    requires
        from.shares_base <= to.shares_base,
    ensures
        places_between(from, to) >= 1,
        from.shares_base == to.shares_base ==> places_between(from, to) == 1,
{
    lemma_pow_positive(10, (to.shares_base - from.shares_base) as nat);
    lemma_pow0(10);
}

/// Counting in the vault's base and then in a later one is counting in the later one.
pub proof fn lemma_shares_in_raised_base(depositor: VaultDepositor, vault: Vault, raised: Vault)
    requires
        depositor.vault_shares_base <= vault.shares_base <= raised.shares_base,
    ensures
        shares_in_vault_base(depositor, raised) == shares_in_vault_base(depositor, vault)
            / places_between(vault, raised),
        shares_in_vault_base(depositor, vault) >= 0,
{
    let a: nat = (vault.shares_base - depositor.vault_shares_base) as nat;
    let b: nat = (raised.shares_base - vault.shares_base) as nat;
    assert(a + b == (raised.shares_base - depositor.vault_shares_base) as nat);
    lemma_pow_adds(10, a, b);
    lemma_pow_positive(10, a);
    lemma_pow_positive(10, b);
    lemma_div_denominator(depositor.vault_shares as int, pow(10, a), pow(10, b));
    assert(depositor.vault_shares as int / pow(10, a) >= 0) by (nonlinear_arith)
        requires
            depositor.vault_shares >= 0,
            pow(10, a) > 0,
    ;
}

} // verus!
