//! Deterministic addresses of the per-identity records and of the fee vault.
use vstd::prelude::*;
use crate::keys::{keys_eq, Pubkey};

verus! {

/// The address and bump seed that the runtime derives for `seeds` under
/// `program_id`, or `None` when no bump seed gives an address off the curve.
pub uninterp spec fn program_address(seeds: Seq<Seq<u8>>, program_id: Seq<u8>) -> Option<(Seq<u8>, u8)>;

/// Relies on Pubkey::try_find_program_address: its result depends on the
/// seeds and the program id alone; it returns `None` rather than panicking.
#[verifier::external_body]
fn find_program_address(namespace: &Vec<u8>, key: &[u8; 32], program_id: &Pubkey) -> (r: Option<(Pubkey, u8)>)
    requires
        namespace@.len() <= 32,
    ensures
        match r {
            Some((a, b)) => program_address(seq![namespace@, key@], program_id@) == Some((a@, b)),
            None => program_address(seq![namespace@, key@], program_id@) is None,
        },
{
    let id = anchor_lang::prelude::Pubkey::new_from_array(*program_id);
    let seeds: [&[u8]; 2] = [namespace.as_slice(), key.as_ref()];
    anchor_lang::prelude::Pubkey::try_find_program_address(&seeds, &id).map(|(a, b)| (a.to_bytes(), b))
}

/// The namespace tag of user vaults.
pub open spec fn vault_tag() -> Seq<u8> {
    seq![118u8, 97u8, 117u8, 108u8, 116u8]
}

/// The namespace tag of allowances.
pub open spec fn allowance_tag() -> Seq<u8> {
    seq![97u8, 108u8, 108u8, 111u8, 119u8, 97u8, 110u8, 99u8, 101u8]
}

/// The namespace tag of the fee vault.
pub open spec fn fee_vault_tag() -> Seq<u8> {
    seq![102u8, 101u8, 101u8, 95u8, 118u8, 97u8, 117u8, 108u8, 116u8]
}

/// The address of the record in namespace `tag` keyed by `key`.
pub open spec fn derived(tag: Seq<u8>, key: Seq<u8>, program_id: Seq<u8>) -> Option<(Seq<u8>, u8)> {
    program_address(seq![tag, key], program_id)
}

/// Whether `addr` is the derived address of `key` in namespace `tag`.
pub open spec fn is_derived(addr: Seq<u8>, tag: Seq<u8>, key: Seq<u8>, program_id: Seq<u8>) -> bool {
    derived(tag, key, program_id) matches Some((a, _)) && a == addr
}

/// The bump seed of a derivation that succeeded.
pub open spec fn derived_bump(tag: Seq<u8>, key: Seq<u8>, program_id: Seq<u8>) -> u8 {
    derived(tag, key, program_id)->Some_0.1
}

fn tag_bytes(which: u8) -> (r: Vec<u8>)
    requires
        which < 3,
    ensures
        which == 0 ==> r@ == vault_tag(),
        which == 1 ==> r@ == allowance_tag(),
        which == 2 ==> r@ == fee_vault_tag(),
{
    let r = if which == 0 {
        vec![118u8, 97u8, 117u8, 108u8, 116u8]
    } else if which == 1 {
        vec![97u8, 108u8, 108u8, 111u8, 119u8, 97u8, 110u8, 99u8, 101u8]
    } else {
        vec![102u8, 101u8, 101u8, 95u8, 118u8, 97u8, 117u8, 108u8, 116u8]
    };
    assert(which == 0 ==> r@ =~= vault_tag());
    assert(which == 1 ==> r@ =~= allowance_tag());
    assert(which == 2 ==> r@ =~= fee_vault_tag());
    r
}

/// The address and bump seed of the vault of `hashed_id`.
pub fn vault_address(hashed_id: &[u8; 32], program_id: &Pubkey) -> (r: Option<(Pubkey, u8)>)
    ensures
        match r {
            Some((a, b)) => derived(vault_tag(), hashed_id@, program_id@) == Some((a@, b)),
            None => derived(vault_tag(), hashed_id@, program_id@) is None,
        },
{
    find_program_address(&tag_bytes(0), hashed_id, program_id)
}

/// The address and bump seed of the allowance of `hashed_id`.
pub fn allowance_address(hashed_id: &[u8; 32], program_id: &Pubkey) -> (r: Option<(Pubkey, u8)>)
    ensures
        match r {
            Some((a, b)) => derived(allowance_tag(), hashed_id@, program_id@) == Some((a@, b)),
            None => derived(allowance_tag(), hashed_id@, program_id@) is None,
        },
{
    find_program_address(&tag_bytes(1), hashed_id, program_id)
}

/// The address and bump seed of the fee vault of the configuration at
/// `config`.
pub fn fee_vault_address(config: &Pubkey, program_id: &Pubkey) -> (r: Option<(Pubkey, u8)>)
    ensures
        match r {
            Some((a, b)) => derived(fee_vault_tag(), config@, program_id@) == Some((a@, b)),
            None => derived(fee_vault_tag(), config@, program_id@) is None,
        },
{
    find_program_address(&tag_bytes(2), config, program_id)
}

/// Matches a derived address against the one supplied, giving its bump.
pub fn matching_bump(found: Option<(Pubkey, u8)>, supplied: &Pubkey) -> (r: Option<u8>)
    ensures
        match r {
            Some(b) => found matches Some((a, fb)) && a@ == supplied@ && fb == b,
            None => !(found matches Some((a, _)) && a@ == supplied@),
        },
{
    match found {
        Some((a, b)) => {
            if keys_eq(&a, supplied) {
                Some(b)
            } else {
                None
            }
        },
        None => None,
    }
}

} // verus!
