use metaplex_token_metadata::state::{Key, MAX_METADATA_LEN};
use nft_staking_contract::error::NFTStakingContractError;
use nft_staking_contract::metadata::{classify_rarity, metadata_rarity, Rarity};

fn name_bytes(s: &str) -> Vec<u8> {
    s.as_bytes().to_vec()
}

#[test]
fn classifies_the_four_tags() {
    assert!(classify_rarity(&name_bytes("Degen CO")).unwrap() == Rarity::Common);
    assert!(classify_rarity(&name_bytes("Degen RA")).unwrap() == Rarity::Rare);
    assert!(classify_rarity(&name_bytes("Degen EP")).unwrap() == Rarity::Epic);
    assert!(classify_rarity(&name_bytes("Degen LE")).unwrap() == Rarity::Legendary);
}

#[test]
fn points_match_the_tiers() {
    assert_eq!(Rarity::Common.points(), 10);
    assert_eq!(Rarity::Rare.points(), 20);
    assert_eq!(Rarity::Epic.points(), 50);
    assert_eq!(Rarity::Legendary.points(), 100);
}

#[test]
fn trims_zero_padding_around_the_tag() {
    assert!(classify_rarity(&name_bytes("Degen CO\0\0\0\0")).unwrap() == Rarity::Common);
    assert!(classify_rarity(&name_bytes("Degen \0LE\0")).unwrap() == Rarity::Legendary);
}

#[test]
fn only_the_second_word_counts() {
    // The tag is the word after the first space; later words are ignored.
    assert!(classify_rarity(&name_bytes("Degen RA extra")).unwrap() == Rarity::Rare);
    // A doubled space makes the second word empty.
    assert!(matches!(
        classify_rarity(&name_bytes("Degen  CO")),
        Err(NFTStakingContractError::InvalidNFTMetadata)
    ));
}

#[test]
fn rejects_unknown_or_missing_tags() {
    assert!(matches!(
        classify_rarity(&name_bytes("Degen XX")),
        Err(NFTStakingContractError::InvalidNFTMetadata)
    ));
    assert!(matches!(
        classify_rarity(&name_bytes("NoSpaces")),
        Err(NFTStakingContractError::InvalidNFTMetadata)
    ));
    assert!(matches!(
        classify_rarity(&name_bytes("")),
        Err(NFTStakingContractError::InvalidNFTMetadata)
    ));
    assert!(matches!(
        classify_rarity(&name_bytes("Degen CORE")),
        Err(NFTStakingContractError::InvalidNFTMetadata)
    ));
}

fn borsh_string(out: &mut Vec<u8>, s: &str) {
    out.extend_from_slice(&(s.len() as u32).to_le_bytes());
    out.extend_from_slice(s.as_bytes());
}

/// A metadata record image in the metadata program's serialized form: kind
/// byte, update authority, mint, then the data struct (three
/// length-prefixed strings, a fee, no creators), two flags, and no edition
/// nonce, zero-padded to the record's full width.
fn metadata_image(name: &str) -> Vec<u8> {
    let mut out: Vec<u8> = Vec::new();
    out.push(Key::MetadataV1 as u8);
    out.extend_from_slice(&[7u8; 32]);
    out.extend_from_slice(&[8u8; 32]);
    borsh_string(&mut out, name);
    borsh_string(&mut out, "DGN");
    borsh_string(&mut out, "https://example.invalid/dgn.json");
    out.extend_from_slice(&500u16.to_le_bytes());
    out.push(0); // no creators
    out.push(0); // primary sale not happened
    out.push(1); // mutable
    out.push(0); // no edition nonce
    out.resize(MAX_METADATA_LEN, 0);
    out
}

#[test]
fn metadata_rarity_reads_the_real_record_format() {
    // The record is parsed by the metadata program's own deserializer, so a
    // genuine serialized record must classify by its name.
    let image = metadata_image("Degen EP\0\0\0");
    assert!(metadata_rarity(&image).unwrap() == Rarity::Epic);
    let image2 = metadata_image("Degen CO");
    assert!(metadata_rarity(&image2).unwrap() == Rarity::Common);
}

#[test]
fn metadata_rarity_rejects_bad_records() {
    assert!(matches!(
        metadata_rarity(&Vec::new()),
        Err(NFTStakingContractError::InvalidNFTMetadata)
    ));

    // A record of the wrong kind byte is not a metadata record.
    let mut wrong_kind = metadata_image("Degen CO");
    wrong_kind[0] = Key::EditionV1 as u8;
    assert!(matches!(
        metadata_rarity(&wrong_kind),
        Err(NFTStakingContractError::InvalidNFTMetadata)
    ));

    // A record of the wrong length is rejected by the parser too.
    let mut truncated = metadata_image("Degen CO");
    truncated.pop();
    assert!(matches!(
        metadata_rarity(&truncated),
        Err(NFTStakingContractError::InvalidNFTMetadata)
    ));

    // A genuine record whose name carries no known tag fails closed.
    let unknown = metadata_image("Degen QQ");
    assert!(matches!(
        metadata_rarity(&unknown),
        Err(NFTStakingContractError::InvalidNFTMetadata)
    ));
}
