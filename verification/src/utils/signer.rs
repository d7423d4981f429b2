//! Seeds of the program's signing authority.
use vstd::prelude::*;
use vstd::string::StringSliceAdditionalSpecFns;

verus! {

/// `bytemuck::bytes_of` on a `u8`: the byte itself, as a one-byte slice.
#[verifier::external_body]
fn bytes_of_u8(nonce: &u8) -> (r: &[u8])
    ensures
        r@ == seq![*nonce],
{
    bytemuck::bytes_of(nonce)
}

/// Seeds that sign for the program's vaults: `bump_signer` and the
/// signer's bump nonce.
pub fn get_signer_seeds(nonce: &u8) -> (r: [&[u8]; 2])
    ensures
        r[0]@ == "bump_signer".spec_bytes(),
        r[1]@ == seq![*nonce],
{
    ["bump_signer".as_bytes(), bytes_of_u8(nonce)]
}

} // verus!
