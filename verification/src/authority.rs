use vstd::prelude::*;
use vstd::bytes::{lemma_auto_spec_u64_to_from_le_bytes, spec_u64_to_le_bytes, u64_to_le_bytes};
use crate::identity::{lemma_identity_by_bytes, Identity};

verus! {

/// A custodian that no private key stands behind: the identity that was derived, and the bump
/// that made the derivation land on it.
#[derive(Clone, Copy, Debug, PartialEq, Eq)]
pub struct Authority {
    pub identity: Identity,
    pub bump: u8,
}

/// The address that is derived for the program `program_id` from `seeds`, with its bump, or
/// `None` where none is derived. It depends on the seeds and the program alone.
pub uninterp spec fn program_address(seeds: Seq<Seq<u8>>, program_id: Seq<u8>) -> Option<(Seq<u8>, u8)>;

/// What a list of seeds holds, seed by seed.
pub open spec fn seed_bytes(seeds: Seq<Vec<u8>>) -> Seq<Seq<u8>> {
    Seq::new(seeds.len(), |i: int| seeds[i]@)
}

/// The identity with the given bytes.
pub open spec fn identity_of(bytes: Seq<u8>) -> Identity {
    choose|id: Identity| id@ == bytes
}

/// The custodian that is derived for the program `program_id` from `seeds`.
pub open spec fn derived_authority(seeds: Seq<Seq<u8>>, program_id: Identity) -> Option<Authority> {
    match program_address(seeds, program_id@) {
        Some((bytes, bump)) => Some(Authority { identity: identity_of(bytes), bump }),
        None => None,
    }
}

/// The namespace of the custodian of a listing's escrow: the text `listing`.
pub open spec fn listing_namespace() -> Seq<u8> {
    seq![108u8, 105u8, 115u8, 116u8, 105u8, 110u8, 103u8]
}

/// The namespace of the custodian of the mint: the text `mint-authority`.
pub open spec fn mint_namespace() -> Seq<u8> {
    seq![
        109u8, 105u8, 110u8, 116u8, 45u8, 97u8, 117u8, 116u8, 104u8, 111u8, 114u8, 105u8, 116u8,
        121u8,
    ]
}

/// The seeds of a listing's custodian: the namespace, the seller, and the listing's number in
/// little-endian bytes.
pub open spec fn listing_seed_bytes(seller: Identity, listing_id: u64) -> Seq<Seq<u8>> {
    seq![listing_namespace(), seller@, spec_u64_to_le_bytes(listing_id)]
}

/// The seeds of the mint's custodian: the namespace alone.
pub open spec fn mint_seed_bytes() -> Seq<Seq<u8>> {
    seq![mint_namespace()]
}

/// The custodian of the escrow of the listing that `seller` opened under `listing_id`.
pub open spec fn listing_custodian(program_id: Identity, seller: Identity, listing_id: u64) -> Option<
    Authority,
> {
    derived_authority(listing_seed_bytes(seller, listing_id), program_id)
}

/// The custodian of the mint.
pub open spec fn mint_custodian(program_id: Identity) -> Option<Authority> {
    derived_authority(mint_seed_bytes(), program_id)
}

/// The only identity with the bytes of `id` is `id`.
pub proof fn lemma_identity_of_view(id: Identity)
    ensures
        identity_of(id@) == id,
{
    lemma_identity_by_bytes(identity_of(id@), id);
}

/// Two listings have the same seeds only if they have the same seller and the same number, and
/// no listing has the seeds of the mint's custodian.
pub proof fn lemma_listing_seeds_distinct(
    seller: Identity,
    listing_id: u64,
    other_seller: Identity,
    other_id: u64,
)
    ensures
        listing_seed_bytes(seller, listing_id) == listing_seed_bytes(other_seller, other_id)
            <==> seller == other_seller && listing_id == other_id,
        listing_seed_bytes(seller, listing_id) != mint_seed_bytes(),
{
    let a = listing_seed_bytes(seller, listing_id);
    let b = listing_seed_bytes(other_seller, other_id);
    if a == b {
        assert(a[1] == b[1]);
        assert(a[2] == b[2]);
        lemma_identity_by_bytes(seller, other_seller);
        lemma_auto_spec_u64_to_from_le_bytes();
    }
    assert(a.len() == 3);
    assert(mint_seed_bytes().len() == 1);
}

/// `anchor_lang::prelude::Pubkey::try_find_program_address`, called on the seeds and the
/// program's bytes. Its result depends on those alone, and is what `program_address` names;
/// nothing more is claimed of it.
#[verifier::external_body]
fn find_program_address(seeds: &Vec<Vec<u8>>, program_id: &Identity) -> (found: Option<(Identity, u8)>)
    ensures
        match found {
            Some((id, bump)) => program_address(seed_bytes(seeds@), program_id@) == Some((id@, bump)),
            None => program_address(seed_bytes(seeds@), program_id@) is None,
        },
{
    let parts: Vec<&[u8]> = seeds.iter().map(|seed| seed.as_slice()).collect();
    let program = anchor_lang::prelude::Pubkey::new_from_array(program_id.bytes);
    match anchor_lang::prelude::Pubkey::try_find_program_address(&parts, &program) {
        Some((key, bump)) => Some((Identity { bytes: key.to_bytes() }, bump)),
        None => None,
    }
}

/// Derives the custodian that belongs to `seeds` under the program `program_id`. The same seeds
/// and program give the same custodian every time.
pub fn derive_authority(seeds: &Vec<Vec<u8>>, program_id: &Identity) -> (custodian: Option<Authority>)
    ensures
        custodian == derived_authority(seed_bytes(seeds@), *program_id),
{
    match find_program_address(seeds, program_id) {
        Some((identity, bump)) => {
            proof {
                lemma_identity_of_view(identity);
            }
            Some(Authority { identity, bump })
        },
        None => None,
    }
}

/// The seeds of the custodian of the listing that `seller` opened under `listing_id`.
pub fn listing_seeds(seller: &Identity, listing_id: u64) -> (seeds: Vec<Vec<u8>>)
    ensures
        seed_bytes(seeds@) == listing_seed_bytes(*seller, listing_id),
{
    let namespace: Vec<u8> = vec![108u8, 105u8, 115u8, 116u8, 105u8, 110u8, 103u8];
    assert(namespace@ =~= listing_namespace());
    let mut seeds: Vec<Vec<u8>> = Vec::new();
    seeds.push(namespace);
    seeds.push(seller.to_vec());
    seeds.push(u64_to_le_bytes(listing_id));
    assert(seed_bytes(seeds@) =~= listing_seed_bytes(*seller, listing_id));
    seeds
}

/// The seeds of the custodian of the mint.
pub fn mint_authority_seeds() -> (seeds: Vec<Vec<u8>>)
    ensures
        seed_bytes(seeds@) == mint_seed_bytes(),
{
    let namespace: Vec<u8> = vec![
        109u8, 105u8, 110u8, 116u8, 45u8, 97u8, 117u8, 116u8, 104u8, 111u8, 114u8, 105u8, 116u8,
        121u8,
    ];
    assert(namespace@ =~= mint_namespace());
    let mut seeds: Vec<Vec<u8>> = Vec::new();
    seeds.push(namespace);
    assert(seed_bytes(seeds@) =~= mint_seed_bytes());
    seeds
}

/// The seeds under which a custodian signs: its own seeds, then its bump as one more seed.
pub fn signer_seeds(seeds: Vec<Vec<u8>>, bump: u8) -> (signed: Vec<Vec<u8>>)
    ensures
        seed_bytes(signed@) == seed_bytes(seeds@).push(seq![bump]),
{
    let mut signed = seeds;
    let last: Vec<u8> = vec![bump];
    assert(last@ =~= seq![bump]);
    signed.push(last);
    assert(seed_bytes(signed@) =~= seed_bytes(seeds@).push(seq![bump]));
    signed
}

/// Derives the custodian of the escrow of the listing that `seller` opened under `listing_id`.
pub fn derive_listing_authority(program_id: &Identity, seller: &Identity, listing_id: u64) -> (custodian:
    Option<Authority>)
    ensures
        custodian == listing_custodian(*program_id, *seller, listing_id),
{
    let seeds = listing_seeds(seller, listing_id);
    derive_authority(&seeds, program_id)
}

/// Derives the custodian of the mint.
pub fn derive_mint_authority(program_id: &Identity) -> (custodian: Option<Authority>)
    ensures
        custodian == mint_custodian(*program_id),
{
    let seeds = mint_authority_seeds();
    derive_authority(&seeds, program_id)
}

} // verus!
