//! Account addresses.
use vstd::prelude::*;

verus! {

/// A 32-byte account address.
pub type Pubkey = [u8; 32];

/// Byte-wise equality of two addresses.
pub fn key_eq(a: &Pubkey, b: &Pubkey) -> (r: bool)
    ensures
        r == (a@ == b@),
{
    let mut i: usize = 0;
    while i < 32
        invariant
            i <= 32,
            a@.len() == 32,
            b@.len() == 32,
            forall|j: int| 0 <= j < i ==> a@[j] == b@[j],
        decreases 32 - i,
    {
        if a[i] != b[i] {
            return false;
        }
        i = i + 1;
    }
    assert(a@ =~= b@);
    true
}

/// The all-zero address.
pub open spec fn zero_key() -> Seq<u8> {
    Seq::new(32, |_i: int| 0u8)
}

/// The all-zero address (the default of every address field).
pub fn zero_pubkey() -> (r: Pubkey)
    ensures
        r@ == zero_key(),
{
    let r = [0u8; 32];
    assert(r@ =~= zero_key());
    r
}

} // verus!
