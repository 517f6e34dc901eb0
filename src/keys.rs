//! 32-byte keys: account addresses and hashed identities.
use vstd::prelude::*;

verus! {

/// An account address or an authority's public key.
pub type Pubkey = [u8; 32];

/// The all-zero key, used as the "not set" sentinel.
pub open spec fn zero_key() -> Seq<u8> {
    Seq::new(32, |i: int| 0u8)
}

/// Whether a key is the all-zero sentinel.
pub open spec fn is_zero(k: Seq<u8>) -> bool {
    forall|i: int| 0 <= i < k.len() ==> k[i] == 0u8
}

/// The all-zero key.
pub fn default_key() -> (r: Pubkey)
    ensures
        r@ == zero_key(),
        is_zero(r@),
{
    let r: Pubkey = [0u8; 32];
    assert(r@ =~= zero_key());
    r
}

/// Byte-wise comparison of two keys.
pub fn keys_eq(a: &Pubkey, b: &Pubkey) -> (r: bool)
    ensures
        r == (a@ == b@),
{
    let mut i: usize = 0;
    while i < 32
        invariant
            0 <= i <= 32,
            a@.len() == 32,
            b@.len() == 32,
            forall|j: int| 0 <= j < i ==> a@[j] == b@[j],
        decreases 32 - i,
    {
        if a[i] != b[i] {
            return false;
        }
        i = i + 1;
    }
    assert(a@ =~= b@);
    true
}

/// Whether every byte of the key is zero.
pub fn is_zero_key(k: &Pubkey) -> (r: bool)
    ensures
        r == is_zero(k@),
        r == (k@ == zero_key()),
{
    let mut i: usize = 0;
    while i < 32
        invariant
            0 <= i <= 32,
            k@.len() == 32,
            forall|j: int| 0 <= j < i ==> k@[j] == 0u8,
        decreases 32 - i,
    {
        if k[i] != 0 {
            assert(!(k@ =~= zero_key()));
            return false;
        }
        i = i + 1;
    }
    assert(k@ =~= zero_key());
    true
}

} // verus!
