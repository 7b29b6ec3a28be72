//! The host chain's account address, which the vault records carry but never look into.

use anchor_lang::prelude::Pubkey;
use vstd::prelude::*;

verus! {

/// Account address of the host chain: 32 bytes that Verus cannot see.
#[verifier::external_type_specification]
#[verifier::external_body]
pub struct ExPubkey(Pubkey);

/// The 32 bytes that an address holds: what `Pubkey::to_bytes` returns of it.
pub uninterp spec fn key_bytes(key: Pubkey) -> Seq<u8>;

/// The bytes of the address that stands for "nobody": 32 zeros.
pub open spec fn null_key_bytes() -> Seq<u8> {
    Seq::new(32, |i: int| 0u8)
}

/// `Pubkey`'s `==`. The type derives it from its one field, the byte array: two keys compare
/// equal exactly when they hold the same bytes.
#[verifier::external_body]
pub(crate) fn same_key(a: &Pubkey, b: &Pubkey) -> (r: bool)
    ensures
        r == (key_bytes(*a) == key_bytes(*b)),
{
    a == b
}

/// `Pubkey::default()`. The type derives it from its one field, the byte array: the default
/// key holds 32 zero bytes.
#[verifier::external_body]
pub(crate) fn default_key() -> (r: Pubkey)
    ensures
        key_bytes(r) == null_key_bytes(),
{
    Pubkey::default()
}

} // verus!
