//! Program derived addresses of the exchange's accounts.
use vstd::prelude::*;
use vstd::string::StringSliceAdditionalSpecFns;

use crate::errors::{BumpErrorCode, BumpResult};
use crate::pubkey::Pubkey;

verus! {

/// The program derived address of `seeds` under `program_id`, with its
/// bump seed; `None` when no bump seed gives one.
pub uninterp spec fn program_address(seeds: Seq<Seq<u8>>, program_id: Seq<u8>) -> Option<(Seq<u8>, u8)>;

/// `Pubkey::try_find_program_address` of solana-program: searches the bump
/// seeds from the largest down for one whose address, with `seeds`, lies
/// off the curve. The result depends on the seeds and the program alone
/// and is named `program_address`; nothing else is claimed of it.
#[verifier::external_body]
fn try_find_program_address(seeds: &Vec<Vec<u8>>, program_id: &Pubkey) -> (r: Option<(Pubkey, u8)>)
    ensures
        r matches Some((k, b)) ==> program_address(seeds.deep_view(), program_id@) == Some((k@, b)),
        r is None ==> program_address(seeds.deep_view(), program_id@) is None,
{
    let refs: Vec<&[u8]> = seeds.iter().map(|s| s.as_slice()).collect();
    let id = solana_program::pubkey::Pubkey::new_from_array(*program_id);
    match solana_program::pubkey::Pubkey::try_find_program_address(&refs, &id) {
        Some((k, b)) => Some((k.to_bytes(), b)),
        None => None,
    }
}

/// Little-endian bytes of a `u16`.
pub open spec fn le_bytes_u16(x: u16) -> Seq<u8> {
    seq![(x % 256) as u8, (x / 256) as u8]
}

/// The address of `seeds` under `program_id`; a program without a viable
/// bump seed for them is refused.
pub open spec fn derived_key(seeds: Seq<Seq<u8>>, program_id: Seq<u8>, r: BumpResult<Pubkey>) -> bool {
    match program_address(seeds, program_id) {
        Some((k, _)) => r matches Ok(key) && key@ == k,
        None => r == Err::<Pubkey, BumpErrorCode>(BumpErrorCode::ProgramAddressNotFound),
    }
}

proof fn lemma_bytes_deep_view(v: Vec<u8>)
    ensures
        v.deep_view() == v@,
{
    assert(v.deep_view() =~= v@);
}

proof fn lemma_seeds_deep_view(seeds: Vec<Vec<u8>>)
    ensures
        seeds.deep_view() == seeds@.map_values(|v: Vec<u8>| v@),
{
    assert forall|i: int| 0 <= i < seeds@.len() implies seeds.deep_view()[i] == seeds@[i]@ by {
        lemma_bytes_deep_view(seeds@[i]);
    }
    assert(seeds.deep_view() =~= seeds@.map_values(|v: Vec<u8>| v@));
}

fn key_bytes(key: &Pubkey) -> (r: Vec<u8>)
    ensures
        r@ == key@,
{
    let mut v: Vec<u8> = Vec::new();
    let mut i: usize = 0;
    while i < 32
        invariant
            i <= 32,
            key@.len() == 32,
            v@ == key@.subrange(0, i as int),
        decreases 32 - i,
    {
        v.push(key[i]);
        i = i + 1;
    }
    assert(key@.subrange(0, 32) =~= key@);
    v
}

fn index_bytes(x: u16) -> (r: Vec<u8>)
    ensures
        r@ == le_bytes_u16(x),
{
    let v = vec![(x % 256) as u8, (x / 256) as u8];
    assert(v@ =~= le_bytes_u16(x));
    v
}

fn str_bytes(s: &str) -> (r: Vec<u8>)
    ensures
        r@ == s.spec_bytes(),
{
    vstd::slice::slice_to_vec(s.as_bytes())
}

fn derive(seeds: &Vec<Vec<u8>>, program_id: &Pubkey) -> (r: BumpResult<Pubkey>)
    ensures
        derived_key(seeds.deep_view(), program_id@, r),
{
    match try_find_program_address(seeds, program_id) {
        Some((address, _bump_seed)) => Ok(address),
        None => Err(BumpErrorCode::ProgramAddressNotFound),
    }
}

/// Address of a user's position in a market: seeds are the user, the
/// market's symbol and the margin mode (one byte, 1 for portfolio margin).
pub fn generate_position_key(
    user: &Pubkey,
    symbol: [u8; 32],
    is_portfolio_margin: bool,
    program_id: &Pubkey,
) -> (r: BumpResult<Pubkey>)
    ensures
        derived_key(
            seq![user@, symbol@, seq![if is_portfolio_margin { 1u8 } else { 0u8 }]],
            program_id@,
            r,
        ),
{
    let mode: Vec<u8> = if is_portfolio_margin {
        vec![1u8]
    } else {
        vec![0u8]
    };
    assert(mode@ =~= seq![if is_portfolio_margin { 1u8 } else { 0u8 }]);
    let seeds = vec![key_bytes(user), key_bytes(&symbol), mode];
    proof {
        lemma_seeds_deep_view(seeds);
    }
    assert(seeds.deep_view() =~= seq![
        user@,
        symbol@,
        seq![if is_portfolio_margin { 1u8 } else { 0u8 }],
    ]);
    derive(&seeds, program_id)
}

/// Address of a pool's token vault: seeds are `pool_mint_vault` and the
/// pool's index.
pub fn generate_pool_vault_key(pool_index: u16, program_id: &Pubkey) -> (r: BumpResult<Pubkey>)
    ensures
        derived_key(
            seq!["pool_mint_vault".spec_bytes(), le_bytes_u16(pool_index)],
            program_id@,
            r,
        ),
{
    let seeds = vec![str_bytes("pool_mint_vault"), index_bytes(pool_index)];
    proof {
        lemma_seeds_deep_view(seeds);
    }
    assert(seeds.deep_view() =~= seq![
        "pool_mint_vault".spec_bytes(),
        le_bytes_u16(pool_index),
    ]);
    derive(&seeds, program_id)
}

/// Address of a trade token's vault: seeds are `trade_token_vault` and the
/// token's index.
pub fn generate_trade_token_vault_key(trade_token_index: u16, program_id: &Pubkey) -> (r:
    BumpResult<Pubkey>)
    ensures
        derived_key(
            seq!["trade_token_vault".spec_bytes(), le_bytes_u16(trade_token_index)],
            program_id@,
            r,
        ),
{
    let seeds = vec![str_bytes("trade_token_vault"), index_bytes(trade_token_index)];
    proof {
        lemma_seeds_deep_view(seeds);
    }
    assert(seeds.deep_view() =~= seq![
        "trade_token_vault".spec_bytes(),
        le_bytes_u16(trade_token_index),
    ]);
    derive(&seeds, program_id)
}

/// Address of a pool: seeds are `pool` and the pool's index.
pub fn generate_pool_pda(pool_index: u16, program_id: &Pubkey) -> (r: BumpResult<Pubkey>)
    ensures
        derived_key(seq!["pool".spec_bytes(), le_bytes_u16(pool_index)], program_id@, r),
{
    let seeds = vec![str_bytes("pool"), index_bytes(pool_index)];
    proof {
        lemma_seeds_deep_view(seeds);
    }
    assert(seeds.deep_view() =~= seq!["pool".spec_bytes(), le_bytes_u16(pool_index)]);
    derive(&seeds, program_id)
}

/// Address of a market: seeds are `market` and the market's index.
pub fn generate_market_pda(market_index: u16, program_id: &Pubkey) -> (r: BumpResult<Pubkey>)
    ensures
        derived_key(seq!["market".spec_bytes(), le_bytes_u16(market_index)], program_id@, r),
{
    let seeds = vec![str_bytes("market"), index_bytes(market_index)];
    proof {
        lemma_seeds_deep_view(seeds);
    }
    assert(seeds.deep_view() =~= seq!["market".spec_bytes(), le_bytes_u16(market_index)]);
    derive(&seeds, program_id)
}

/// Address of a user account: seeds are `user` and its authority.
pub fn generate_user_pda(user_authority: &Pubkey, program_id: &Pubkey) -> (r: BumpResult<Pubkey>)
    ensures
        derived_key(seq!["user".spec_bytes(), user_authority@], program_id@, r),
{
    let seeds = vec![str_bytes("user"), key_bytes(user_authority)];
    proof {
        lemma_seeds_deep_view(seeds);
    }
    assert(seeds.deep_view() =~= seq!["user".spec_bytes(), user_authority@]);
    derive(&seeds, program_id)
}

} // verus!
