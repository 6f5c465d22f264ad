use vstd::prelude::*;
use solana_program::pubkey::Pubkey;
use crate::error::DexError;
use crate::key::Key;

verus! {

/// The address that the host derives from the seeds `[seed, [bump]]` under
/// `program`, or `None` where those seeds give a point on the curve.
pub uninterp spec fn program_address(seed: Seq<u8>, bump: u8, program: Seq<u8>) -> Option<Seq<u8>>;

/// Relies on solana_program's `Pubkey::create_program_address` with the seeds
/// `[market, [bump]]`: two seeds within the length limits, so it fails only
/// where the hash lies on the curve.
#[verifier::external_body]
fn create_program_address(market: &Key, bump: u8, program: &Key) -> (r: Option<Key>)
    ensures
        match r {
            Some(k) => program_address(market@, bump, program@) == Some(k@),
            None => program_address(market@, bump, program@) is None,
        },
{
    let seeds: [&[u8]; 2] = [&market.bytes, &[bump]];
    Pubkey::create_program_address(&seeds, &Pubkey::new_from_array(program.bytes)).ok().map(
        |k| Key { bytes: k.to_bytes() },
    )
}

/// Relies on solana_program's `Pubkey::try_find_program_address` with the
/// seed `[market]`: it tries the bumps from 255 down to 1 with
/// `create_program_address` and returns the first address found.
#[verifier::external_body]
fn try_find_program_address(market: &Key, program: &Key) -> (r: Option<(Key, u8)>)
    ensures
        r matches Some((k, b)) ==> 1 <= b && program_address(market@, b, program@) == Some(k@)
            && forall|c: u8| b < c ==> program_address(market@, c, program@) is None,
        r is None ==> forall|c: u8| 1 <= c ==> program_address(market@, c, program@) is None,
{
    let seeds: [&[u8]; 1] = [&market.bytes];
    Pubkey::try_find_program_address(&seeds, &Pubkey::new_from_array(program.bytes)).map(
        |(k, b)| (Key { bytes: k.to_bytes() }, b),
    )
}

/// `authority` is the address derived from the market address and `bump`.
pub open spec fn authority_matches(market: Seq<u8>, bump: u8, program: Seq<u8>, authority: Seq<
    u8,
>) -> bool {
    program_address(market, bump, program) == Some(authority)
}

/// `(authority, bump)` is what the bounded bump search finds for the market:
/// the highest bump that derives an address, and that address.
pub open spec fn found_by_search(market: Seq<u8>, program: Seq<u8>, authority: Seq<u8>, bump: u8) -> bool {
    &&& 1 <= bump
    &&& program_address(market, bump, program) == Some(authority)
    &&& forall|c: u8| bump < c ==> program_address(market, c, program) is None
}

/// Searches the bumps for a program-derived authority of `market`.
pub fn derive_authority(market: &Key, program: &Key) -> (r: Result<(Key, u8), DexError>)
    ensures
        r matches Ok((k, b)) ==> found_by_search(market@, program@, k@, b),
        r is Err ==> r == Err::<(Key, u8), DexError>(DexError::DerivationError) && forall|c: u8|
            1 <= c ==> program_address(market@, c, program@) is None,
{
    match try_find_program_address(market, program) {
        Some((k, b)) => Ok((k, b)),
        None => Err(DexError::DerivationError),
    }
}

/// Re-derives the authority from the stored bump and compares it with the
/// account supplied as the authority.
pub fn verify_authority(market: &Key, bump: u8, program: &Key, supplied: &Key) -> (r: Result<
    (),
    DexError,
>)
    ensures
        r is Ok <==> authority_matches(market@, bump, program@, supplied@),
        r is Err ==> r == Err::<(), DexError>(DexError::ArgumentError),
{
    match create_program_address(market, bump, program) {
        Some(k) => {
            if crate::key::keys_equal(&k, supplied) {
                Ok(())
            } else {
                Err(DexError::ArgumentError)
            }
        },
        None => Err(DexError::ArgumentError),
    }
}

/// An authority found by the bump search at market creation is accepted by
/// every later re-derivation from the stored bump.
pub proof fn lemma_found_authority_verifies(market: Seq<u8>, program: Seq<u8>, authority: Seq<u8>, bump: u8)
    requires
        found_by_search(market, program, authority, bump),
    ensures
        authority_matches(market, bump, program, authority),
{
}

} // verus!
