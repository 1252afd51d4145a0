//! Where records are stored: each address is derived from what identifies
//! the record, so that no two records can stand for the same thing.

use vstd::prelude::*;
use vstd::slice::slice_to_vec;
use vstd::utf8::encode_utf8;
use anchor_lang::solana_program::pubkey::Pubkey;
use crate::address::Address;

verus! {

/// The program-derived address for the given seeds under the given program,
/// with its bump seed, where there is one.
pub uninterp spec fn program_address(seeds: Seq<Seq<u8>>, program_id: Seq<u8>) -> Option<(Seq<u8>, u8)>;

/// The seeds as sequences of bytes.
pub open spec fn seeds_view(seeds: Seq<Vec<u8>>) -> Seq<Seq<u8>> {
    Seq::new(seeds.len(), |i: int| seeds[i]@)
}

/// An address and its bump seed as plain values.
pub open spec fn derived_view(derived: Option<(Address, u8)>) -> Option<(Seq<u8>, u8)> {
    match derived {
        Some((address, bump)) => Some((address@, bump)),
        None => None,
    }
}

/// The seeds of the address of a collection: a tag, the organizer and the
/// name. An organizer therefore has one collection of a given name at most.
pub open spec fn pass_collection_seeds(organizer: Address, name: Seq<char>) -> Seq<Seq<u8>> {
    seq![encode_utf8("pass-collection"@), organizer@, encode_utf8(name)]
}

/// The seeds of the address of a pass: a tag, the address of the collection
/// and the buyer. A buyer therefore has one pass of a given collection at
/// most.
pub open spec fn user_pass_seeds(pass_collection: Address, owner: Address) -> Seq<Seq<u8>> {
    seq![encode_utf8("user-pass"@), pass_collection@, owner@]
}

/// Searches the program-derived address for the seeds, by
/// `Pubkey::try_find_program_address`.
///
/// Believed, not proved: the outcome is a function of the seeds and the
/// program's address alone.
#[verifier::external_body]
pub(crate) fn find_program_address(seeds: &Vec<Vec<u8>>, program_id: &Address) -> (found: Option<(Address, u8)>)
    ensures
        derived_view(found) == program_address(seeds_view(seeds@), program_id@),
{
    let slices: Vec<&[u8]> = seeds.iter().map(|seed| seed.as_slice()).collect();
    let program_key = Pubkey::new_from_array(program_id.bytes);
    Pubkey::try_find_program_address(&slices, &program_key)
        .map(|(key, bump)| (Address { bytes: key.to_bytes() }, bump))
}

/// The address at which the collection of `organizer` named `name` is
/// stored under the program `program_id`, with its bump seed. `None` where
/// the seeds have no address.
pub fn pass_collection_address(program_id: &Address, organizer: &Address, name: &str) -> (found: Option<(Address, u8)>)
    ensures
        derived_view(found) == program_address(pass_collection_seeds(*organizer, name@), program_id@),
{
    let mut seeds: Vec<Vec<u8>> = Vec::new();
    seeds.push(slice_to_vec("pass-collection".as_bytes()));
    seeds.push(slice_to_vec(organizer.bytes.as_slice()));
    seeds.push(slice_to_vec(name.as_bytes()));
    proof {
        assert(seeds_view(seeds@) =~= pass_collection_seeds(*organizer, name@));
    }
    find_program_address(&seeds, program_id)
}

/// The address at which the pass of `owner` for the collection stored at
/// `pass_collection` is stored under the program `program_id`, with its bump
/// seed. `None` where the seeds have no address.
pub fn user_pass_address(program_id: &Address, pass_collection: &Address, owner: &Address) -> (found: Option<(Address, u8)>)
    ensures
        derived_view(found) == program_address(user_pass_seeds(*pass_collection, *owner), program_id@),
{
    let mut seeds: Vec<Vec<u8>> = Vec::new();
    seeds.push(slice_to_vec("user-pass".as_bytes()));
    seeds.push(slice_to_vec(pass_collection.bytes.as_slice()));
    seeds.push(slice_to_vec(owner.bytes.as_slice()));
    proof {
        assert(seeds_view(seeds@) =~= user_pass_seeds(*pass_collection, *owner));
    }
    find_program_address(&seeds, program_id)
}

} // verus!
