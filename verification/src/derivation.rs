//! Derived addresses: where a record lives follows from a tag, the record's
//! seeds and the program that owns it. No private key belongs to such an
//! address; the bump found with it is what the program later presents in
//! place of a signature.

use vstd::prelude::*;
use vstd::string::StrSliceExecFns;
use crate::identity::Identity;
use crate::identity::lemma_identity_by_bytes;

verus! {

/// The longest seed that a derivation takes, in bytes.
pub const MAX_SEED_LEN: usize = 32;

/// One more than the number of seeds that a derivation takes: the bump is
/// appended to them as a seed of its own.
pub const MAX_SEEDS: usize = 16;

/// An address together with the bump that completes its seeds.
#[derive(Clone, Copy, Debug, PartialEq, Eq)]
pub struct DerivedAddress {
    pub address: Identity,
    pub bump: u8,
}

/// What the runtime's address search yields for these seeds under this
/// program: the address's bytes and the bump, or nothing where no bump
/// gives an address.
pub uninterp spec fn program_address(seeds: Seq<Seq<u8>>, program: Seq<u8>) -> Option<(Seq<u8>, u8)>;

/// The seeds as byte sequences.
pub open spec fn seed_bytes(seeds: Seq<Vec<u8>>) -> Seq<Seq<u8>> {
    seeds.map_values(|seed: Vec<u8>| seed@)
}

/// Few enough seeds, none of them too long. Seeds that are not have no
/// address.
pub open spec fn seeds_admissible(seeds: Seq<Seq<u8>>) -> bool {
    &&& seeds.len() < MAX_SEEDS
    &&& forall|i: int| 0 <= i < seeds.len() ==> (#[trigger] seeds[i]).len() <= MAX_SEED_LEN
}

/// The identity with the given bytes. Of 32 bytes there is exactly one.
pub open spec fn identity_of(bytes: Seq<u8>) -> Identity {
    choose|id: Identity| id@ == bytes
}

/// Every identity is the identity of its own bytes.
pub proof fn lemma_identity_of_bytes(id: Identity)
    ensures
        identity_of(id@) == id,
{
    lemma_identity_by_bytes(id, identity_of(id@));
}

/// The address derived from `seeds` under `program`, with its bump.
pub open spec fn derived_address(seeds: Seq<Seq<u8>>, program: Identity) -> Option<DerivedAddress> {
    match program_address(seeds, program@) {
        Some((bytes, bump)) => Some(DerivedAddress { address: identity_of(bytes), bump }),
        None => None,
    }
}

/// Calls `Pubkey::try_find_program_address` of `anchor_lang` (re-exported
/// from `solana_program`). Trusted: the outcome is `program_address` of the
/// seeds' bytes and the program's bytes, and there is none for sixteen or
/// more seeds or for a seed longer than 32 bytes.
#[verifier::external_body]
fn try_find_program_address(seeds: &Vec<Vec<u8>>, program_id: &Identity) -> (found: Option<DerivedAddress>)
    ensures
        match found {
            Some(d) => program_address(seed_bytes(seeds@), program_id@) == Some((d.address@, d.bump)),
            None => program_address(seed_bytes(seeds@), program_id@) is None,
        },
        !seeds_admissible(seed_bytes(seeds@)) ==> found is None,
{
    let slices: Vec<&[u8]> = seeds.iter().map(|seed| seed.as_slice()).collect();
    let program = anchor_lang::prelude::Pubkey::new_from_array(program_id.bytes);
    match anchor_lang::prelude::Pubkey::try_find_program_address(&slices, &program) {
        Some((address, bump)) => Some(DerivedAddress { address: Identity { bytes: address.to_bytes() }, bump }),
        None => None,
    }
}

/// Whether `found` is what the search yields for these seeds under this
/// program: the same bytes and bump, or nothing where it yields nothing.
pub open spec fn is_search_outcome(found: Option<DerivedAddress>, seeds: Seq<Seq<u8>>, program: Identity) -> bool {
    match found {
        Some(d) => program_address(seeds, program@) == Some((d.address@, d.bump)),
        None => program_address(seeds, program@) is None,
    }
}

/// Whatever the search yields for given seeds and program is the one
/// derived address.
pub proof fn lemma_derived_address_unique(found: Option<DerivedAddress>, seeds: Seq<Seq<u8>>, program: Identity)
    requires
        is_search_outcome(found, seeds, program),
    ensures
        found == derived_address(seeds, program),
{
    if let Some(d) = found {
        lemma_identity_of_bytes(d.address);
    }
}

/// Searches the address that `seeds` derive under `program_id`.
pub fn find_program_address(seeds: &Vec<Vec<u8>>, program_id: &Identity) -> (found: Option<DerivedAddress>)
    ensures
        found == derived_address(seed_bytes(seeds@), *program_id),
        !seeds_admissible(seed_bytes(seeds@)) ==> found is None,
{
    let found = try_find_program_address(seeds, program_id);
    proof {
        lemma_derived_address_unique(found, seed_bytes(seeds@), *program_id);
    }
    found
}

/// The tag that opens the seeds of every project: `project` in ASCII.
pub open spec fn project_tag() -> Seq<u8> {
    seq![112u8, 114u8, 111u8, 106u8, 101u8, 99u8, 116u8]
}

/// The seeds of a project: the tag, the title's UTF-8 bytes, the creator's
/// bytes.
pub open spec fn project_seeds(title: Seq<char>, creator: Identity) -> Seq<Seq<u8>> {
    seq![project_tag(), vstd::utf8::encode_utf8(title), creator@]
}

/// The address of the project that `creator` opened under `title`.
pub open spec fn project_address(title: Seq<char>, creator: Identity, program: Identity) -> Option<DerivedAddress> {
    derived_address(project_seeds(title, creator), program)
}

/// Builds the seeds of a project.
pub fn make_project_seeds(title: &str, creator: &Identity) -> (seeds: Vec<Vec<u8>>)
    ensures
        seed_bytes(seeds@) == project_seeds(title@, *creator),
{
    let tag: Vec<u8> = vec![112u8, 114u8, 111u8, 106u8, 101u8, 99u8, 116u8];
    let mut seeds: Vec<Vec<u8>> = Vec::new();
    seeds.push(tag);
    seeds.push(title.as_bytes_vec());
    seeds.push(creator.to_vec());
    assert(seed_bytes(seeds@) =~= project_seeds(title@, *creator));
    seeds
}

/// Derives the address of the project that `creator` opened under `title`.
/// A title of more than 32 bytes has none.
pub fn find_project_address(title: &str, creator: &Identity, program_id: &Identity) -> (found: Option<DerivedAddress>)
    ensures
        found == project_address(title@, *creator, *program_id),
        vstd::utf8::encode_utf8(title@).len() > MAX_SEED_LEN ==> found is None,
{
    let seeds = make_project_seeds(title, creator);
    assert(seed_bytes(seeds@)[1] == vstd::utf8::encode_utf8(title@));
    find_program_address(&seeds, program_id)
}

} // verus!
