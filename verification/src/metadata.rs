//! Rarity classification of collateral items.
//!
//! A staked item's metadata record carries a display name whose second
//! space-separated word, stripped of trailing padding, is the item's rarity
//! tag. The tag maps to a fixed point weight; an unrecognized tag fails the
//! whole operation, never defaulting to zero points.

use vstd::prelude::*;
use crate::error::NFTStakingContractError;

verus! {

/// A rarity tier of a collateral item, with its fixed point weight.
#[derive(Debug, PartialEq, Eq, Structural, Copy, Clone)]
pub enum Rarity {
    /// Tag `CO`, worth 10 points.
    Common,
    /// Tag `RA`, worth 20 points.
    Rare,
    /// Tag `EP`, worth 50 points.
    Epic,
    /// Tag `LE`, worth 100 points.
    Legendary,
}

impl Rarity {
    /// The point weight of this tier.
    pub open spec fn spec_points(self) -> u64 {
        match self {
            Rarity::Common => 10,
            Rarity::Rare => 20,
            Rarity::Epic => 50,
            Rarity::Legendary => 100,
        }
    }

    /// The point weight of this tier.
    pub fn points(&self) -> (r: u64)
        ensures
            r == self.spec_points(),
    {
        match self {
            Rarity::Common => 10,
            Rarity::Rare => 20,
            Rarity::Epic => 50,
            Rarity::Legendary => 100,
        }
    }
}

/// The index of the first occurrence of `b` in `s`, if any.
pub open spec fn spec_find_byte(s: Seq<u8>, b: u8) -> Option<int>
    decreases s.len(),
{
    if s.len() == 0 {
        None
    } else if s[0] == b {
        Some(0int)
    } else {
        match spec_find_byte(s.subrange(1, s.len() as int), b) {
            Some(i) => Some(i + 1),
            None => None,
        }
    }
}

/// The second space-separated word of `s`: the bytes strictly between the
/// first space and the next space (or the end). Absent when `s` holds no
/// space at all.
pub open spec fn spec_second_token(s: Seq<u8>) -> Option<Seq<u8>> {
    match spec_find_byte(s, 32) {
        None => None,
        Some(i) => {
            let rest = s.subrange(i + 1, s.len() as int);
            match spec_find_byte(rest, 32) {
                None => Some(rest),
                Some(j) => Some(rest.subrange(0, j)),
            }
        },
    }
}

/// `t` with its leading zero bytes removed.
pub open spec fn spec_trim_zeros_front(t: Seq<u8>) -> Seq<u8>
    decreases t.len(),
{
    if t.len() > 0 && t[0] == 0 {
        spec_trim_zeros_front(t.subrange(1, t.len() as int))
    } else {
        t
    }
}

/// `t` with its trailing zero bytes removed.
pub open spec fn spec_trim_zeros_back(t: Seq<u8>) -> Seq<u8>
    decreases t.len(),
{
    if t.len() > 0 && t[t.len() - 1] == 0 {
        spec_trim_zeros_back(t.subrange(0, t.len() - 1))
    } else {
        t
    }
}

/// `t` with leading and trailing zero bytes removed.
pub open spec fn spec_trim_zeros(t: Seq<u8>) -> Seq<u8> {
    spec_trim_zeros_back(spec_trim_zeros_front(t))
}

/// The rarity tier a trimmed tag names, if any: `CO`, `RA`, `EP` or `LE`.
pub open spec fn spec_rarity_of_tag(tag: Seq<u8>) -> Option<Rarity> {
    if tag == seq![67u8, 79u8] {
        Some(Rarity::Common)
    } else if tag == seq![82u8, 65u8] {
        Some(Rarity::Rare)
    } else if tag == seq![69u8, 80u8] {
        Some(Rarity::Epic)
    } else if tag == seq![76u8, 69u8] {
        Some(Rarity::Legendary)
    } else {
        None
    }
}

/// What classifying a display name yields: the tier named by the second
/// word's trimmed tag, or the invalid-metadata error.
pub open spec fn spec_classify(name: Seq<u8>) -> Result<Rarity, NFTStakingContractError> {
    match spec_second_token(name) {
        None => Err(NFTStakingContractError::InvalidNFTMetadata),
        Some(t) => match spec_rarity_of_tag(spec_trim_zeros(t)) {
            None => Err(NFTStakingContractError::InvalidNFTMetadata),
            Some(r) => Ok(r),
        },
    }
}

/// A byte that occurs at `i`, and nowhere earlier, is the first occurrence.
proof fn lemma_find_byte_at(s: Seq<u8>, b: u8, i: int)
    requires
        0 <= i < s.len(),
        s[i] == b,
        forall|j: int| 0 <= j < i ==> s[j] != b,
    ensures
        spec_find_byte(s, b) == Some(i),
    decreases i,
{
    if i > 0 {
        lemma_find_byte_at(s.subrange(1, s.len() as int), b, i - 1);
    }
}

/// A byte that occurs nowhere in `s` is not found.
proof fn lemma_find_byte_none(s: Seq<u8>, b: u8)
    requires
        forall|j: int| 0 <= j < s.len() ==> s[j] != b,
    ensures
        spec_find_byte(s, b) is None,
    decreases s.len(),
{
    if s.len() > 0 {
        lemma_find_byte_none(s.subrange(1, s.len() as int), b);
    }
}

/// Trimming leading zeros keeps exactly the suffix from the first non-zero
/// byte.
proof fn lemma_trim_front_range(t: Seq<u8>, a: int)
    requires
        0 <= a <= t.len(),
        forall|j: int| 0 <= j < a ==> t[j] == 0,
        a < t.len() ==> t[a] != 0,
    ensures
        spec_trim_zeros_front(t) == t.subrange(a, t.len() as int),
    decreases a,
{
    if a == 0 {
        assert(t.subrange(0, t.len() as int) =~= t);
    } else {
        lemma_trim_front_range(t.subrange(1, t.len() as int), a - 1);
        assert(t.subrange(1, t.len() as int).subrange(a - 1, t.len() - 1) =~= t.subrange(
            a,
            t.len() as int,
        ));
    }
}

/// Trimming trailing zeros keeps exactly the prefix up to the last non-zero
/// byte.
proof fn lemma_trim_back_range(t: Seq<u8>, b: int)
    requires
        0 <= b <= t.len(),
        forall|j: int| b <= j < t.len() ==> t[j] == 0,
        b > 0 ==> t[b - 1] != 0,
    ensures
        spec_trim_zeros_back(t) == t.subrange(0, b),
    decreases t.len() - b,
{
    if b == t.len() {
        assert(t.subrange(0, t.len() as int) =~= t);
    } else {
        lemma_trim_back_range(t.subrange(0, t.len() - 1), b);
        assert(t.subrange(0, t.len() - 1).subrange(0, b) =~= t.subrange(0, b));
    }
}

/// Classifies a display name into its rarity tier.
#[verifier::rlimit(60)]
pub fn classify_rarity(name: &Vec<u8>) -> (r: Result<Rarity, NFTStakingContractError>)
    ensures
        r == spec_classify(name@),
{
    let n = name.len();
    let mut i: usize = 0;
    while i < n && name[i] != 32
        invariant
            0 <= i <= n,
            n == name@.len(),
            forall|j: int| 0 <= j < i ==> name@[j] != 32,
        decreases n - i,
    {
        i = i + 1;
    }
    if i == n {
        proof {
            lemma_find_byte_none(name@, 32);
        }
        return Err(NFTStakingContractError::InvalidNFTMetadata);
    }
    proof {
        lemma_find_byte_at(name@, 32, i as int);
    }
    let start = i + 1;
    let mut j: usize = start;
    while j < n && name[j] != 32
        invariant
            start <= j <= n,
            n == name@.len(),
            forall|k: int| start <= k < j ==> name@[k] != 32,
        decreases n - j,
    {
        j = j + 1;
    }
    let ghost rest = name@.subrange(start as int, n as int);
    proof {
        if j == n {
            assert(forall|k: int| 0 <= k < rest.len() ==> rest[k] != 32);
            lemma_find_byte_none(rest, 32);
        } else {
            assert(rest[j - start] == 32);
            assert(forall|k: int| 0 <= k < j - start ==> rest[k] != 32);
            lemma_find_byte_at(rest, 32, j - start);
            assert(rest.subrange(0, j - start) =~= name@.subrange(start as int, j as int));
        }
        assert(spec_second_token(name@) == Some(name@.subrange(start as int, j as int)));
    }
    let ghost token = name@.subrange(start as int, j as int);
    let mut a: usize = start;
    while a < j && name[a] == 0
        invariant
            start <= a <= j <= n,
            n == name@.len(),
            forall|k: int| start <= k < a ==> name@[k] == 0,
        decreases j - a,
    {
        a = a + 1;
    }
    proof {
        assert(forall|k: int| 0 <= k < a - start ==> token[k] == 0);
        lemma_trim_front_range(token, a - start);
        assert(token.subrange(a - start, token.len() as int) =~= name@.subrange(
            a as int,
            j as int,
        ));
    }
    let ghost front_trimmed = name@.subrange(a as int, j as int);
    let mut b: usize = j;
    while b > a && name[b - 1] == 0
        invariant
            a <= b <= j <= n,
            n == name@.len(),
            forall|k: int| b <= k < j ==> name@[k] == 0,
        decreases b - a,
    {
        b = b - 1;
    }
    proof {
        assert(forall|k: int| b - a <= k < front_trimmed.len() ==> front_trimmed[k] == 0);
        lemma_trim_back_range(front_trimmed, b - a);
        assert(front_trimmed.subrange(0, b - a) =~= name@.subrange(a as int, b as int));
        assert(spec_trim_zeros(token) == name@.subrange(a as int, b as int));
    }
    let ghost tag = name@.subrange(a as int, b as int);
    if b - a == 2 {
        let c0 = name[a];
        let c1 = name[a + 1];
        proof {
            assert(tag.len() == 2 && tag[0] == c0 && tag[1] == c1);
        }
        if c0 == 67 && c1 == 79 {
            proof {
                assert(tag =~= seq![67u8, 79u8]);
            }
            Ok(Rarity::Common)
        } else if c0 == 82 && c1 == 65 {
            proof {
                assert(tag =~= seq![82u8, 65u8]);
            }
            Ok(Rarity::Rare)
        } else if c0 == 69 && c1 == 80 {
            proof {
                assert(tag =~= seq![69u8, 80u8]);
            }
            Ok(Rarity::Epic)
        } else if c0 == 76 && c1 == 69 {
            proof {
                assert(tag =~= seq![76u8, 69u8]);
            }
            Ok(Rarity::Legendary)
        } else {
            proof {
                assert(spec_rarity_of_tag(tag) is None);
            }
            Err(NFTStakingContractError::InvalidNFTMetadata)
        }
    } else {
        proof {
            assert(tag.len() != 2);
            assert(spec_rarity_of_tag(tag) is None);
        }
        Err(NFTStakingContractError::InvalidNFTMetadata)
    }
}

/// The display name the metadata program's parser yields for a metadata
/// record image, if the image deserializes as a metadata record.
pub uninterp spec fn metadata_name_of(d: Seq<u8>) -> Option<Seq<u8>>;

/// Relies on `metaplex_token_metadata::utils::try_from_slice_checked`
/// deserializing a `Metadata` record (metaplex-token-metadata 0.0.1,
/// src/utils.rs): the result depends on the record's bytes alone. The image
/// must not be empty: the parser reads its first byte unconditionally.
#[verifier::external_body]
fn parse_metadata_name(data: &Vec<u8>) -> (r: Option<Vec<u8>>)
    requires
        data@.len() >= 1,
    ensures
        match r {
            Some(name) => metadata_name_of(data@) == Some(name@),
            None => metadata_name_of(data@) is None,
        },
{
    let parsed = metaplex_token_metadata::utils::try_from_slice_checked::<
        metaplex_token_metadata::state::Metadata,
    >(
        data.as_slice(),
        metaplex_token_metadata::state::Key::MetadataV1,
        metaplex_token_metadata::state::MAX_METADATA_LEN,
    );
    match parsed {
        Ok(m) => Some(m.data.name.into_bytes()),
        Err(_) => None,
    }
}

/// What classifying a metadata record image yields: an empty or
/// undeserializable image, or a name without a known rarity tag, is invalid
/// metadata.
pub open spec fn spec_metadata_rarity(d: Seq<u8>) -> Result<Rarity, NFTStakingContractError> {
    if d.len() == 0 {
        Err(NFTStakingContractError::InvalidNFTMetadata)
    } else {
        match metadata_name_of(d) {
            None => Err(NFTStakingContractError::InvalidNFTMetadata),
            Some(name) => spec_classify(name),
        }
    }
}

/// Classifies the item whose metadata record image is `data`.
pub fn metadata_rarity(data: &Vec<u8>) -> (r: Result<Rarity, NFTStakingContractError>)
    ensures
        r == spec_metadata_rarity(data@),
{
    if data.len() == 0 {
        return Err(NFTStakingContractError::InvalidNFTMetadata);
    }
    match parse_metadata_name(data) {
        None => Err(NFTStakingContractError::InvalidNFTMetadata),
        Some(name) => classify_rarity(&name),
    }
}

} // verus!
