//! Program-derived addresses of the vault, the delegate configuration and
//! the participant records, and their validation.

use vstd::prelude::*;
use crate::codec::keys_equal;
use crate::error::ErrorCode;

verus! {

/// The address derived from `seeds` under `program_id`, with its bump seed,
/// or none where no bump seed gives a valid derived address.
pub uninterp spec fn program_address(seeds: Seq<Seq<u8>>, program_id: Seq<u8>) -> Option<(Seq<u8>, u8)>;

/// The byte contents of a list of seeds.
pub open spec fn seeds_view(seeds: Seq<Vec<u8>>) -> Seq<Seq<u8>> {
    seeds.map_values(|s: Vec<u8>| s@)
}

/// Relies on solana_program's `Pubkey::try_find_program_address`: it tries
/// bump seeds from 255 down and returns the first derived address that is
/// off the curve, and none if there is none (or a seed is too long); the
/// result depends on the seeds and the program id alone.
#[verifier::external_body]
fn try_find_program_address(seeds: &Vec<Vec<u8>>, program_id: &[u8; 32]) -> (r: Option<([u8; 32], u8)>)
    ensures
        match r {
            Some((a, b)) => program_address(seeds_view(seeds@), program_id@) == Some((a@, b)),
            None => program_address(seeds_view(seeds@), program_id@).is_none(),
        },
{
    let refs: Vec<&[u8]> = seeds.iter().map(|s| s.as_slice()).collect();
    let id = solana_program::pubkey::Pubkey::new_from_array(*program_id);
    solana_program::pubkey::Pubkey::try_find_program_address(&refs, &id).map(|(k, b)| (k.to_bytes(), b))
}

/// The bytes of "vault".
pub open spec fn vault_tag() -> Seq<u8> {
    seq![118u8, 97, 117, 108, 116]
}

/// The bytes of "executor".
pub open spec fn executor_tag() -> Seq<u8> {
    seq![101u8, 120, 101, 99, 117, 116, 111, 114]
}

/// The bytes of "user_deposit".
pub open spec fn user_deposit_tag() -> Seq<u8> {
    seq![117u8, 115, 101, 114, 95, 100, 101, 112, 111, 115, 105, 116]
}

/// The bytes of "intent".
pub open spec fn intent_tag() -> Seq<u8> {
    seq![105u8, 110, 116, 101, 110, 116]
}

/// Seeds of the marker that records the use of the intent `intent_hash`.
pub open spec fn intent_seeds(intent_hash: Seq<u8>) -> Seq<Seq<u8>> {
    seq![intent_tag(), intent_hash]
}

/// Seeds of the shared vault holding account.
pub open spec fn vault_seeds() -> Seq<Seq<u8>> {
    seq![vault_tag()]
}

/// Seeds of the singleton delegate configuration.
pub open spec fn executor_seeds() -> Seq<Seq<u8>> {
    seq![executor_tag()]
}

/// Seeds of the participant record of `user`.
pub open spec fn user_deposit_seeds(user: Seq<u8>) -> Seq<Seq<u8>> {
    seq![user_deposit_tag(), user]
}

pub fn vault_seed_list() -> (r: Vec<Vec<u8>>)
    ensures
        seeds_view(r@) == vault_seeds(),
{
    let r = vec![vec![118u8, 97, 117, 108, 116]];
    assert(seeds_view(r@) =~= vault_seeds());
    r
}

pub fn executor_seed_list() -> (r: Vec<Vec<u8>>)
    ensures
        seeds_view(r@) == executor_seeds(),
{
    let r = vec![vec![101u8, 120, 101, 99, 117, 116, 111, 114]];
    assert(seeds_view(r@) =~= executor_seeds());
    r
}

pub fn user_deposit_seed_list(user: &[u8; 32]) -> (r: Vec<Vec<u8>>)
    ensures
        seeds_view(r@) == user_deposit_seeds(user@),
{
    let tag = vec![117u8, 115, 101, 114, 95, 100, 101, 112, 111, 115, 105, 116];
    let key = vstd::slice::slice_to_vec(user.as_slice());
    let r = vec![tag, key];
    assert(seeds_view(r@) =~= user_deposit_seeds(user@));
    r
}

pub fn intent_seed_list(intent_hash: &[u8; 32]) -> (r: Vec<Vec<u8>>)
    ensures
        seeds_view(r@) == intent_seeds(intent_hash@),
{
    let tag = vec![105u8, 110, 116, 101, 110, 116];
    let key = vstd::slice::slice_to_vec(intent_hash.as_slice());
    let r = vec![tag, key];
    assert(seeds_view(r@) =~= intent_seeds(intent_hash@));
    r
}

/// The derived address (and bump seed) of the marker of an intent.
pub fn intent_address(program_id: &[u8; 32], intent_hash: &[u8; 32]) -> (r: Option<([u8; 32], u8)>)
    ensures
        match r {
            Some((a, b)) => program_address(intent_seeds(intent_hash@), program_id@) == Some((a@, b)),
            None => program_address(intent_seeds(intent_hash@), program_id@).is_none(),
        },
{
    try_find_program_address(&intent_seed_list(intent_hash), program_id)
}

/// The seeds with the bump seed appended, as the derived account signs with.
pub fn with_bump(seeds: Vec<Vec<u8>>, bump: u8) -> (r: Vec<Vec<u8>>)
    ensures
        seeds_view(r@) == seeds_view(seeds@).push(seq![bump]),
{
    let mut r = seeds;
    let b = vec![bump];
    assert(b@ =~= seq![bump]);
    r.push(b);
    assert(seeds_view(r@).last() == seq![bump]);
    assert(seeds_view(r@) =~= seeds_view(seeds@).push(seq![bump]));
    r
}

/// The derived address (and bump seed) of the vault.
pub fn vault_address(program_id: &[u8; 32]) -> (r: Option<([u8; 32], u8)>)
    ensures
        match r {
            Some((a, b)) => program_address(vault_seeds(), program_id@) == Some((a@, b)),
            None => program_address(vault_seeds(), program_id@).is_none(),
        },
{
    try_find_program_address(&vault_seed_list(), program_id)
}

/// The derived address (and bump seed) of the delegate configuration.
pub fn executor_address(program_id: &[u8; 32]) -> (r: Option<([u8; 32], u8)>)
    ensures
        match r {
            Some((a, b)) => program_address(executor_seeds(), program_id@) == Some((a@, b)),
            None => program_address(executor_seeds(), program_id@).is_none(),
        },
{
    try_find_program_address(&executor_seed_list(), program_id)
}

/// The derived address (and bump seed) of the participant record of `user`.
pub fn user_deposit_address(program_id: &[u8; 32], user: &[u8; 32]) -> (r: Option<([u8; 32], u8)>)
    ensures
        match r {
            Some((a, b)) => program_address(user_deposit_seeds(user@), program_id@) == Some((a@, b)),
            None => program_address(user_deposit_seeds(user@), program_id@).is_none(),
        },
{
    try_find_program_address(&user_deposit_seed_list(user), program_id)
}

/// Whether `presented` is the address derived from `seeds`.
pub open spec fn is_derived(seeds: Seq<Seq<u8>>, program_id: Seq<u8>, presented: Seq<u8>) -> bool {
    program_address(seeds, program_id) matches Some((a, _)) && a == presented
}

/// Checks that `presented` is the address derived from `seeds`, returning
/// its bump seed; any other account is refused.
pub fn check_derived(seeds: &Vec<Vec<u8>>, program_id: &[u8; 32], presented: &[u8; 32]) -> (r: Result<u8, ErrorCode>)
    ensures
        match r {
            Ok(b) => program_address(seeds_view(seeds@), program_id@) == Some((presented@, b)),
            Err(e) => e == ErrorCode::InvalidAddress && !is_derived(seeds_view(seeds@), program_id@, presented@),
        },
{
    match try_find_program_address(seeds, program_id) {
        Some((a, b)) => {
            if keys_equal(&a, presented) {
                Ok(b)
            } else {
                Err(ErrorCode::InvalidAddress)
            }
        },
        None => Err(ErrorCode::InvalidAddress),
    }
}

} // verus!
