//! The vault signer: the address that a market's program derives from the market's
//! address and a nonce, and that owns the market's token vaults.

use crate::address::{create_program_address, program_address, Address};
use crate::error::{ClientError, ClientErrorView};
use vstd::bytes::{spec_u64_to_le_bytes, u64_to_le_bytes};
use vstd::prelude::*;

verus! {

/// Nonces below this bound are tried when a market is created.
pub const NONCE_SEARCH_BOUND: u64 = 100;

/// The two seeds of a vault signer: the market's address, then the nonce in eight
/// little-endian bytes.
pub open spec fn vault_signer_seeds(nonce: u64, market: Address) -> Seq<Seq<u8>> {
    seq![market@, spec_u64_to_le_bytes(nonce)]
}

/// The vault signer of `market` for `nonce` under `program_id`, where the nonce
/// derives one.
pub open spec fn vault_signer_key(nonce: u64, market: Address, program_id: Address) -> Option<
    Seq<u8>,
> {
    program_address(vault_signer_seeds(nonce, market), program_id@)
}

/// Whether `nonce` is the smallest nonce from `start` on that derives a vault signer,
/// and `key` the address it derives.
pub open spec fn is_first_vault_signer(
    market: Address,
    program_id: Address,
    start: u64,
    nonce: u64,
    key: Address,
) -> bool {
    &&& start <= nonce
    &&& vault_signer_key(nonce, market, program_id) == Some(key@)
    &&& forall|n: u64| start <= n < nonce ==> (#[trigger] vault_signer_key(
        n,
        market,
        program_id,
    )).is_none()
}

/// Whether no nonce in `start..bound` derives a vault signer.
pub open spec fn no_vault_signer(
    market: Address,
    program_id: Address,
    start: u64,
    bound: u64,
) -> bool {
    forall|n: u64| start <= n < bound ==> (#[trigger] vault_signer_key(
        n,
        market,
        program_id,
    )).is_none()
}

/// What a search over the nonces `start..bound` has to return.
pub open spec fn is_vault_signer_search(
    market: Address,
    program_id: Address,
    start: u64,
    bound: u64,
    found: Result<(u64, Address), ClientErrorView>,
) -> bool {
    match found {
        Ok((nonce, key)) => nonce < bound && is_first_vault_signer(
            market,
            program_id,
            start,
            nonce,
            key,
        ),
        Err(e) => e == ClientErrorView::DerivationExhausted && no_vault_signer(
            market,
            program_id,
            start,
            bound,
        ),
    }
}

/// The seeds of the vault signer of `market` for `nonce`.
pub fn gen_vault_signer_seeds(nonce: u64, market: &Address) -> (seeds: Vec<Vec<u8>>)
    ensures
        seeds.deep_view() == vault_signer_seeds(nonce, *market),
{
    let mut seeds: Vec<Vec<u8>> = Vec::new();
    seeds.push(market.to_vec());
    seeds.push(u64_to_le_bytes(nonce));
    assert(seeds@[0].deep_view() =~= market@);
    assert(seeds@[1].deep_view() =~= spec_u64_to_le_bytes(nonce));
    assert(seeds.deep_view() =~= vault_signer_seeds(nonce, *market));
    seeds
}

/// Derives the vault signer of `market` for `nonce` under `program_id`. Most nonces
/// derive one; `None` says that this one does not.
pub fn gen_vault_signer_key(nonce: u64, market: &Address, program_id: &Address) -> (key: Option<
    Address,
>)
    ensures
        match key {
            Some(a) => vault_signer_key(nonce, *market, *program_id) == Some(a@),
            None => vault_signer_key(nonce, *market, *program_id).is_none(),
        },
{
    let seeds = gen_vault_signer_seeds(nonce, market);
    create_program_address(&seeds, program_id)
}

/// Searches the nonces `start..bound` in rising order and returns the first that
/// derives a vault signer, with the address it derives. Where none does, the search
/// fails with `DerivationExhausted`.
pub fn find_vault_signer(market: &Address, program_id: &Address, start: u64, bound: u64) -> (found:
    Result<(u64, Address), ClientError>)
    ensures
        match found {
            Ok((nonce, key)) => is_vault_signer_search(
                *market,
                *program_id,
                start,
                bound,
                Ok((nonce, key)),
            ),
            Err(e) => is_vault_signer_search(*market, *program_id, start, bound, Err(e@)),
        },
{
    let mut nonce: u64 = start;
    while nonce < bound
        invariant
            start <= nonce,
            forall|n: u64| start <= n < nonce ==> (#[trigger] vault_signer_key(
                n,
                *market,
                *program_id,
            )).is_none(),
        decreases bound - nonce,
    {
        match gen_vault_signer_key(nonce, market, program_id) {
            Some(key) => {
                return Ok((nonce, key));
            },
            None => {},
        }
        nonce += 1;
    }
    Err(ClientError::DerivationExhausted)
}

/// The search is a function of its inputs: whatever two searches over the same market,
/// program, start and bound return, they return the same nonce and the same address, or
/// both fail.
pub proof fn lemma_vault_signer_search_is_deterministic(
    market: Address,
    program_id: Address,
    start: u64,
    bound: u64,
    first: Result<(u64, Address), ClientErrorView>,
    second: Result<(u64, Address), ClientErrorView>,
)
    requires
        is_vault_signer_search(market, program_id, start, bound, first),
        is_vault_signer_search(market, program_id, start, bound, second),
    ensures
        first == second,
{
    match (first, second) {
        (Ok((n1, k1)), Ok((n2, k2))) => {
            if n1 < n2 {
                assert(vault_signer_key(n1, market, program_id).is_none());
            }
            if n2 < n1 {
                assert(vault_signer_key(n2, market, program_id).is_none());
            }
            assert(k1@ == k2@);
            assert(k1.bytes =~= k2.bytes);
        },
        (Ok((n1, k1)), Err(_)) => {
            assert(vault_signer_key(n1, market, program_id).is_none());
        },
        (Err(_), Ok((n2, k2))) => {
            assert(vault_signer_key(n2, market, program_id).is_none());
        },
        (Err(_), Err(_)) => {},
    }
}

} // verus!
