//! The addressing scheme: where the record of a creator's split lives.
//!
//! A record's address is derived from the program, the tag `"split"`, the
//! creator and the split identifier, together with a bump byte that moves
//! the address off the signing curve. The derivation itself belongs to the
//! ledger's key library; this module fixes the seeds and states what the
//! instructions rely on.

use anchor_lang::prelude::Pubkey;
use vstd::prelude::*;
use vstd::utf8::encode_utf8;
use crate::identity::Identity;

verus! {

/// The bytes of `"split"`, the first seed of every record address.
pub const SPLIT_SEED_TAG: [u8; 5] = [115, 112, 108, 105, 116];

/// What `Pubkey::create_program_address` returns for these seeds and this
/// program: the derived address, or `None` where it reports an error.
pub uninterp spec fn program_address(seeds: Seq<Seq<u8>>, program_id: Seq<u8>) -> Option<Seq<u8>>;

/// What `Pubkey::try_find_program_address` returns for these seeds and this
/// program: the derived address with its bump, or `None`.
pub uninterp spec fn canonical_program_address(
    seeds: Seq<Seq<u8>>,
    program_id: Seq<u8>,
) -> Option<(Seq<u8>, u8)>;

/// The bytes of each seed, in order.
pub open spec fn seed_bytes(seeds: Seq<&[u8]>) -> Seq<Seq<u8>> {
    seeds.map_values(|seed: &[u8]| seed@)
}

/// `Pubkey::try_find_program_address`, on raw bytes.
///
/// Trusted: the result is the one named by [`canonical_program_address`],
/// and an address found with a bump is the address that
/// `Pubkey::create_program_address` derives from the same seeds followed by
/// that bump, as the search in the key library returns the first bump for
/// which that call succeeds.
#[verifier::external_body]
fn try_find_program_address(seeds: &[&[u8]], program_id: &[u8; 32]) -> (found: Option<
    ([u8; 32], u8),
>)
    ensures
        match found {
            Some((address, bump)) => {
                &&& canonical_program_address(seed_bytes(seeds@), program_id@) == Some(
                    (address@, bump),
                )
                &&& program_address(seed_bytes(seeds@).push(seq![bump]), program_id@) == Some(
                    address@,
                )
            },
            None => canonical_program_address(seed_bytes(seeds@), program_id@) is None,
        },
{
    match Pubkey::try_find_program_address(seeds, &Pubkey::new_from_array(*program_id)) {
        Some((address, bump)) => Some((address.to_bytes(), bump)),
        None => None,
    }
}

/// `Pubkey::create_program_address`, on raw bytes.
///
/// Trusted: the result is the one named by [`program_address`], an error of
/// either kind being `None`.
#[verifier::external_body]
fn create_program_address(seeds: &[&[u8]], program_id: &[u8; 32]) -> (derived: Option<[u8; 32]>)
    ensures
        match derived {
            Some(address) => program_address(seed_bytes(seeds@), program_id@) == Some(address@),
            None => program_address(seed_bytes(seeds@), program_id@) is None,
        },
{
    match Pubkey::create_program_address(seeds, &Pubkey::new_from_array(*program_id)) {
        Ok(address) => Some(address.to_bytes()),
        Err(_) => None,
    }
}

/// The seeds of the record that `creator` opens under `split_id`.
pub open spec fn split_seeds(creator: Seq<u8>, split_id: Seq<char>) -> Seq<Seq<u8>> {
    seq![SPLIT_SEED_TAG@, creator, encode_utf8(split_id)]
}

/// The address and bump of the record that `creator` opens under
/// `split_id`, if the key library finds one.
pub open spec fn canonical_split_address(
    program_id: Seq<u8>,
    creator: Seq<u8>,
    split_id: Seq<char>,
) -> Option<(Seq<u8>, u8)> {
    canonical_program_address(split_seeds(creator, split_id), program_id)
}

/// The address that the seeds of a record give with a stated bump.
pub open spec fn split_address_at(
    program_id: Seq<u8>,
    creator: Seq<u8>,
    split_id: Seq<char>,
    bump: u8,
) -> Option<Seq<u8>> {
    program_address(split_seeds(creator, split_id).push(seq![bump]), program_id)
}

/// The bytes of an address that may be missing.
pub open spec fn address_view(address: Option<Identity>) -> Option<Seq<u8>> {
    match address {
        Some(address) => Some(address@),
        None => None,
    }
}

/// The bytes of an address that may be missing, with its bump.
pub open spec fn found_view(found: Option<(Identity, u8)>) -> Option<(Seq<u8>, u8)> {
    match found {
        Some((address, bump)) => Some((address@, bump)),
        None => None,
    }
}

/// Searches the address of the record that `creator` opens under
/// `split_id`, and the bump that goes with it.
///
/// An address found with a bump is the one that
/// [`split_address_with_bump`] derives from that bump.
pub fn find_split_address(program_id: &Identity, creator: &Identity, split_id: &str) -> (found:
    Option<(Identity, u8)>)
    ensures
        found_view(found) == canonical_split_address(program_id@, creator@, split_id@),
        found matches Some((address, bump)) ==> split_address_at(
            program_id@,
            creator@,
            split_id@,
            bump,
        ) == Some(address@),
{
    let tag: [u8; 5] = SPLIT_SEED_TAG;
    let seeds: [&[u8]; 3] = [tag.as_slice(), creator.bytes.as_slice(), split_id.as_bytes()];
    assert(seed_bytes(seeds@) =~= split_seeds(creator@, split_id@));
    match try_find_program_address(seeds.as_slice(), &program_id.bytes) {
        Some((address, bump)) => Some((Identity::new(address), bump)),
        None => None,
    }
}

/// Derives the address of the record that `creator` opened under
/// `split_id` from the bump stored in it, without searching.
pub fn split_address_with_bump(
    program_id: &Identity,
    creator: &Identity,
    split_id: &str,
    bump: u8,
) -> (derived: Option<Identity>)
    ensures
        address_view(derived) == split_address_at(program_id@, creator@, split_id@, bump),
{
    let tag: [u8; 5] = SPLIT_SEED_TAG;
    let bump_seed: [u8; 1] = [bump];
    let seeds: [&[u8]; 4] = [
        tag.as_slice(),
        creator.bytes.as_slice(),
        split_id.as_bytes(),
        bump_seed.as_slice(),
    ];
    assert(bump_seed@ =~= seq![bump]);
    assert(seed_bytes(seeds@) =~= split_seeds(creator@, split_id@).push(seq![bump]));
    match create_program_address(seeds.as_slice(), &program_id.bytes) {
        Some(address) => Some(Identity::new(address)),
        None => None,
    }
}

} // verus!
