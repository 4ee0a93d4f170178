//! Derived authority addresses.
//!
//! The pool's custody identity and a collateral item's metadata record are
//! both addressed by a deterministic derivation from fixed seed lists. The
//! derivation itself is a hash computed by the host library; this module
//! names its result and checks addresses against it.

use vstd::prelude::*;
use crate::codec::{identity_to_bytes, spec_identity_bytes, Identity};

verus! {

/// The address and bump seed that the host's hash-based derivation yields
/// for a seed list under a deriving program, when one exists.
pub uninterp spec fn derived_address(seeds: Seq<Seq<u8>>, program_id: Seq<u8>) -> Option<
    (Seq<u8>, u8),
>;

/// Relies on `solana_program::pubkey::Pubkey::try_find_program_address`
/// (solana-program 1.14.29, src/pubkey.rs): a deterministic, total function
/// of the seed list and the deriving program's address.
#[verifier::external_body]
fn find_program_address(seeds: &Vec<Vec<u8>>, program_id: &Identity) -> (r: Option<(Identity, u8)>)
    ensures
        match r {
            Some(p) => derived_address(seeds.deep_view(), spec_identity_bytes(*program_id))
                == Some((spec_identity_bytes(p.0), p.1)),
            None => derived_address(seeds.deep_view(), spec_identity_bytes(*program_id)) is None,
        },
{
    let mut seed_slices: Vec<&[u8]> = Vec::new();
    for s in seeds.iter() {
        seed_slices.push(s.as_slice());
    }
    let pid_bytes = identity_to_bytes(program_id);
    let mut pid_arr = [0u8; 32];
    pid_arr.copy_from_slice(pid_bytes.as_slice());
    let pid = solana_program::pubkey::Pubkey::new_from_array(pid_arr);
    match solana_program::pubkey::Pubkey::try_find_program_address(seed_slices.as_slice(), &pid) {
        Some((pk, bump)) => Some(
            (crate::codec::identity_from_bytes(&pk.to_bytes().to_vec()), bump),
        ),
        None => None,
    }
}

/// The fixed seed prefix of the pool's custody identity.
pub open spec fn pool_seed_prefix() -> Seq<u8> {
    seq![
        110u8,
        102u8,
        116u8,
        95u8,
        115u8,
        116u8,
        97u8,
        107u8,
        105u8,
        110u8,
        103u8,
        95u8,
        99u8,
        111u8,
        110u8,
        116u8,
        114u8,
        97u8,
        99u8,
        116u8,
    ]
}

/// The fixed seed prefix of a metadata record's address.
pub open spec fn metadata_seed_prefix() -> Seq<u8> {
    seq![109u8, 101u8, 116u8, 97u8, 100u8, 97u8, 116u8, 97u8]
}

/// The seed list that derives the pool's custody identity.
pub open spec fn pool_authority_seeds(platform_key: Identity) -> Seq<Seq<u8>> {
    seq![pool_seed_prefix(), spec_identity_bytes(platform_key)]
}

/// The seed list that derives a collateral item's metadata record address.
pub open spec fn metadata_address_seeds(metadata_program: Identity, nft_mint: Identity) -> Seq<
    Seq<u8>,
> {
    seq![
        metadata_seed_prefix(),
        spec_identity_bytes(metadata_program),
        spec_identity_bytes(nft_mint),
    ]
}

/// The fixed seed prefix of the pool's custody identity, as a buffer.
fn pool_seed_prefix_bytes() -> (r: Vec<u8>)
    ensures
        r@ == pool_seed_prefix(),
{
    let mut out: Vec<u8> = Vec::new();
    out.push(110u8);
    out.push(102u8);
    out.push(116u8);
    out.push(95u8);
    out.push(115u8);
    out.push(116u8);
    out.push(97u8);
    out.push(107u8);
    out.push(105u8);
    out.push(110u8);
    out.push(103u8);
    out.push(95u8);
    out.push(99u8);
    out.push(111u8);
    out.push(110u8);
    out.push(116u8);
    out.push(114u8);
    out.push(97u8);
    out.push(99u8);
    out.push(116u8);
    proof {
        assert(out@ =~= pool_seed_prefix());
    }
    out
}

/// The fixed seed prefix of a metadata record's address, as a buffer.
fn metadata_seed_prefix_bytes() -> (r: Vec<u8>)
    ensures
        r@ == metadata_seed_prefix(),
{
    let mut out: Vec<u8> = Vec::new();
    out.push(109u8);
    out.push(101u8);
    out.push(116u8);
    out.push(97u8);
    out.push(100u8);
    out.push(97u8);
    out.push(116u8);
    out.push(97u8);
    proof {
        assert(out@ =~= metadata_seed_prefix());
    }
    out
}

/// The deep view of a byte buffer is its view.
proof fn lemma_bytes_deep_view(v: Vec<u8>)
    ensures
        v.deep_view() =~= v@,
{
}

/// Derives the pool's custody identity and its bump seed.
pub fn pool_authority(platform_key: &Identity, program_id: &Identity) -> (r: Option<
    (Identity, u8),
>)
    ensures
        match r {
            Some(p) => derived_address(
                pool_authority_seeds(*platform_key),
                spec_identity_bytes(*program_id),
            ) == Some((spec_identity_bytes(p.0), p.1)),
            None => derived_address(
                pool_authority_seeds(*platform_key),
                spec_identity_bytes(*program_id),
            ) is None,
        },
{
    let mut seeds: Vec<Vec<u8>> = Vec::new();
    seeds.push(pool_seed_prefix_bytes());
    seeds.push(identity_to_bytes(platform_key));
    proof {
        lemma_bytes_deep_view(seeds@[0]);
        lemma_bytes_deep_view(seeds@[1]);
        assert(seeds.deep_view() =~= pool_authority_seeds(*platform_key));
    }
    find_program_address(&seeds, program_id)
}

/// Derives the metadata record address of a collateral item under the
/// metadata program.
pub fn metadata_address(metadata_program: &Identity, nft_mint: &Identity) -> (r: Option<
    (Identity, u8),
>)
    ensures
        match r {
            Some(p) => derived_address(
                metadata_address_seeds(*metadata_program, *nft_mint),
                spec_identity_bytes(*metadata_program),
            ) == Some((spec_identity_bytes(p.0), p.1)),
            None => derived_address(
                metadata_address_seeds(*metadata_program, *nft_mint),
                spec_identity_bytes(*metadata_program),
            ) is None,
        },
{
    let mut seeds: Vec<Vec<u8>> = Vec::new();
    seeds.push(metadata_seed_prefix_bytes());
    seeds.push(identity_to_bytes(metadata_program));
    seeds.push(identity_to_bytes(nft_mint));
    proof {
        lemma_bytes_deep_view(seeds@[0]);
        lemma_bytes_deep_view(seeds@[1]);
        lemma_bytes_deep_view(seeds@[2]);
        assert(seeds.deep_view() =~= metadata_address_seeds(*metadata_program, *nft_mint));
    }
    find_program_address(&seeds, metadata_program)
}

} // verus!
