use anchor_lang::prelude::Pubkey;
use vstd::bytes::{spec_u128_to_le_bytes, u128_to_le_bytes};
use vstd::prelude::*;
use vstd::slice::slice_to_vec;

use crate::errors::{fails_with, DiceError};

verus! {

/// An account address: the thirty-two bytes of a public key.
pub type Address = [u8; 32];

/// The tag that opens the seeds of a pool: the ASCII letters of "vault".
pub open spec fn vault_tag() -> Seq<u8> {
    seq![0x76u8, 0x61u8, 0x75u8, 0x6cu8, 0x74u8]
}

/// The tag that opens the seeds of a bet record: the ASCII letters of "bet".
pub open spec fn bet_tag() -> Seq<u8> {
    seq![0x62u8, 0x65u8, 0x74u8]
}

/// The seeds of a house's pool: the vault tag, then the house's identity.
pub open spec fn pool_seeds(house: Seq<u8>) -> Seq<Seq<u8>> {
    seq![vault_tag(), house]
}

/// The seeds of a bet record: the bet tag, the pool's address, and the
/// player's seed as sixteen little-endian bytes.
pub open spec fn bet_seeds(pool: Seq<u8>, seed: u128) -> Seq<Seq<u8>> {
    seq![bet_tag(), pool, spec_u128_to_le_bytes(seed)]
}

/// What the addressing scheme derives from a list of seeds under a program:
/// the address and the bump that puts it off the curve, or nothing where no
/// bump does. The scheme hashes its arguments and reads nothing else.
pub uninterp spec fn program_address(seeds: Seq<Seq<u8>>, program_id: Seq<u8>) -> Option<
    (Seq<u8>, u8),
>;

/// The address of a house's pool under a program, with its bump.
pub open spec fn pool_address(program_id: Seq<u8>, house: Seq<u8>) -> Option<(Seq<u8>, u8)> {
    program_address(pool_seeds(house), program_id)
}

/// The address of a bet record under a program, with its bump.
pub open spec fn bet_address(program_id: Seq<u8>, pool: Seq<u8>, seed: u128) -> Option<
    (Seq<u8>, u8),
> {
    program_address(bet_seeds(pool, seed), program_id)
}

/// Whether `resolved` reports `derived` faithfully: the derived address and
/// bump where there is one, `AddressDerivationFailed` where there is none.
pub open spec fn reports(
    resolved: Result<(Address, u8), DiceError>,
    derived: Option<(Seq<u8>, u8)>,
) -> bool {
    match resolved {
        Ok((address, bump)) => derived == Some((address@, bump)),
        Err(e) => e == DiceError::AddressDerivationFailed && derived is None,
    }
}

/// Calls `Pubkey::try_find_program_address` of `anchor_lang` (which has it
/// from `solana_pubkey`) on the seeds and the program id.
///
/// Trusted, not proved: that the outcome is the one value that the scheme
/// assigns to these seeds and this program id, whoever asks and wherever.
#[verifier::external_body]
fn find_program_address(seeds: &Vec<Vec<u8>>, program_id: &Address) -> (found: Option<
    (Address, u8),
>)
    ensures
        program_address(seeds.deep_view(), program_id@) == match found {
            Some((address, bump)) => Some((address@, bump)),
            None => None,
        },
{
    let parts: Vec<&[u8]> = seeds.iter().map(|seed| seed.as_slice()).collect();
    let program = Pubkey::new_from_array(*program_id);
    match Pubkey::try_find_program_address(&parts, &program) {
        Some((address, bump)) => Some((address.to_bytes(), bump)),
        None => None,
    }
}

/// Turns the outcome of a derivation into an answer for the caller: the
/// address and bump as they are, and `AddressDerivationFailed` for none.
pub fn require_address(found: Option<(Address, u8)>) -> (resolved: Result<
    (Address, u8),
    DiceError,
>)
    ensures
        match found {
            Some(pair) => resolved matches Ok(handed) && handed == pair,
            None => fails_with(resolved, DiceError::AddressDerivationFailed),
        },
{
    match found {
        Some(pair) => Ok(pair),
        None => Err(DiceError::AddressDerivationFailed),
    }
}

/// Builds the seeds of a house's pool.
pub fn pool_seed_list(house: &Address) -> (seeds: Vec<Vec<u8>>)
    ensures
        seeds.deep_view() == pool_seeds(house@),
{
    let mut tag: Vec<u8> = Vec::new();
    tag.push(0x76u8);
    tag.push(0x61u8);
    tag.push(0x75u8);
    tag.push(0x6cu8);
    tag.push(0x74u8);
    let identity = slice_to_vec(house.as_slice());
    let mut seeds: Vec<Vec<u8>> = Vec::new();
    seeds.push(tag);
    seeds.push(identity);
    proof {
        assert(seeds@[0].deep_view() =~= vault_tag());
        assert(seeds@[1].deep_view() =~= house@);
        assert(seeds.deep_view() =~= pool_seeds(house@));
    }
    seeds
}

/// Builds the seeds of a bet record.
pub fn bet_seed_list(pool: &Address, seed: u128) -> (seeds: Vec<Vec<u8>>)
    ensures
        seeds.deep_view() == bet_seeds(pool@, seed),
{
    let mut tag: Vec<u8> = Vec::new();
    tag.push(0x62u8);
    tag.push(0x65u8);
    tag.push(0x74u8);
    let location = slice_to_vec(pool.as_slice());
    let nonce = u128_to_le_bytes(seed);
    let mut seeds: Vec<Vec<u8>> = Vec::new();
    seeds.push(tag);
    seeds.push(location);
    seeds.push(nonce);
    proof {
        assert(seeds@[0].deep_view() =~= bet_tag());
        assert(seeds@[1].deep_view() =~= pool@);
        assert(seeds@[2].deep_view() =~= spec_u128_to_le_bytes(seed));
        assert(seeds.deep_view() =~= bet_seeds(pool@, seed));
    }
    seeds
}

/// Resolves the address of a house's pool, and the bump that goes with it.
///
/// Fails with `AddressDerivationFailed` exactly when the scheme finds no
/// bump for the seeds, and with nothing else.
pub fn resolve_pool_address(program_id: &Address, house: &Address) -> (resolved: Result<
    (Address, u8),
    DiceError,
>)
    ensures
        reports(resolved, pool_address(program_id@, house@)),
{
    let seeds = pool_seed_list(house);
    require_address(find_program_address(&seeds, program_id))
}

/// Resolves the address of the bet record that `seed` selects under a pool,
/// and the bump that goes with it.
///
/// Fails with `AddressDerivationFailed` exactly when the scheme finds no
/// bump for the seeds, and with nothing else.
pub fn resolve_bet_address(program_id: &Address, pool: &Address, seed: u128) -> (resolved: Result<
    (Address, u8),
    DiceError,
>)
    ensures
        reports(resolved, bet_address(program_id@, pool@, seed)),
{
    let seeds = bet_seed_list(pool, seed);
    require_address(find_program_address(&seeds, program_id))
}

/// Two answers that report the same derivation are the same answer.
pub proof fn lemma_reports_one_answer(
    first: Result<(Address, u8), DiceError>,
    second: Result<(Address, u8), DiceError>,
    derived: Option<(Seq<u8>, u8)>,
)
    requires
        reports(first, derived),
        reports(second, derived),
    ensures
        first == second,
{
    if let Ok((a, _)) = first {
        if let Ok((b, _)) = second {
            assert(a =~= b);
        }
    }
}

/// Resolving the bet address twice for the same program, pool and seed
/// gives the same address and the same bump, or fails both times.
pub proof fn lemma_bet_address_is_stable(
    program_id: Address,
    pool: Address,
    seed: u128,
    first: Result<(Address, u8), DiceError>,
    second: Result<(Address, u8), DiceError>,
)
    requires
        reports(first, bet_address(program_id@, pool@, seed)),
        reports(second, bet_address(program_id@, pool@, seed)),
    ensures
        first == second,
{
    lemma_reports_one_answer(first, second, bet_address(program_id@, pool@, seed));
}

/// Resolving the pool address twice for the same program and house gives
/// the same address and the same bump, or fails both times.
pub proof fn lemma_pool_address_is_stable(
    program_id: Address,
    house: Address,
    first: Result<(Address, u8), DiceError>,
    second: Result<(Address, u8), DiceError>,
)
    requires
        reports(first, pool_address(program_id@, house@)),
        reports(second, pool_address(program_id@, house@)),
    ensures
        first == second,
{
    lemma_reports_one_answer(first, second, pool_address(program_id@, house@));
}

} // verus!
