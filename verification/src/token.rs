//! Trusted views of the token program's account and mint records.
//!
//! The staking ledger validates token accounts by parsing their packed
//! images through the token program's own codec. Each wrapper here makes
//! exactly one outside call; its contract restates what that codec's source
//! does, byte for byte.

use vstd::prelude::*;
use vstd::bytes::spec_u64_from_le_bytes;
use crate::codec::{spec_identity_of_bytes, Identity};

verus! {

/// The fields of a token account that the validation layer reads.
#[derive(Debug, PartialEq, Eq, Structural, Copy, Clone)]
pub struct TokenAccountView {
    /// The mint the account holds.
    pub mint: Identity,
    /// The identity that owns the account's tokens.
    pub owner: Identity,
    /// The amount of tokens held.
    pub amount: u64,
}

/// Whether the four bytes at `off` are a parseable optional-field tag:
/// little-endian 0 (absent) or 1 (present).
pub open spec fn coption_tag_wf(d: Seq<u8>, off: int) -> bool {
    (d[off] == 0 || d[off] == 1) && d[off + 1] == 0 && d[off + 2] == 0 && d[off + 3] == 0
}

/// Whether `d` is a parseable token-account image: 165 bytes, with valid
/// optional-field tags for delegate (72), native marker (109) and close
/// authority (129), and a state byte (108) of at most 2.
pub open spec fn spl_account_bytes_wf(d: Seq<u8>) -> bool {
    &&& d.len() == 165
    &&& coption_tag_wf(d, 72)
    &&& (d[108] == 0 || d[108] == 1 || d[108] == 2)
    &&& coption_tag_wf(d, 109)
    &&& coption_tag_wf(d, 129)
}

/// The fields stored in a token-account image: mint at 0..32, owner at
/// 32..64, amount at 64..72 little-endian.
pub open spec fn spec_token_account_of(d: Seq<u8>) -> TokenAccountView {
    TokenAccountView {
        mint: spec_identity_of_bytes(d.subrange(0, 32)),
        owner: spec_identity_of_bytes(d.subrange(32, 64)),
        amount: spec_u64_from_le_bytes(d.subrange(64, 72)),
    }
}

/// Relies on `spl_token::state::Account::unpack` (spl-token 3.5.0,
/// src/state.rs): parses a 165-byte image at fixed offsets and fails on a
/// wrong length, a malformed optional-field tag, a state byte above 2, or an
/// uninitialized state byte of 0.
#[verifier::external_body]
pub fn unpack_token_account(data: &Vec<u8>) -> (r: Option<TokenAccountView>)
    ensures
        match r {
            Some(a) => spl_account_bytes_wf(data@) && data@[108] != 0 && a
                == spec_token_account_of(data@),
            None => !(spl_account_bytes_wf(data@) && data@[108] != 0),
        },
{
    let parsed = <spl_token::state::Account as solana_program::program_pack::Pack>::unpack(
        data.as_slice(),
    );
    match parsed {
        Ok(a) => Some(
            TokenAccountView {
                mint: crate::codec::identity_from_bytes(&a.mint.to_bytes().to_vec()),
                owner: crate::codec::identity_from_bytes(&a.owner.to_bytes().to_vec()),
                amount: a.amount,
            },
        ),
        Err(_) => None,
    }
}

/// Whether `d` is a parseable mint image: 82 bytes, with valid
/// optional-field tags for the mint authority (0) and freeze authority (46),
/// and an initialization byte (45) of 0 or 1.
pub open spec fn spl_mint_bytes_wf(d: Seq<u8>) -> bool {
    &&& d.len() == 82
    &&& coption_tag_wf(d, 0)
    &&& (d[45] == 0 || d[45] == 1)
    &&& coption_tag_wf(d, 46)
}

/// Relies on `spl_token::state::Mint::unpack` (spl-token 3.5.0,
/// src/state.rs): parses an 82-byte image at fixed offsets, fails on a wrong
/// length, a malformed optional-field tag, or an initialization byte other
/// than 1, and stores the decimal count at byte 44.
#[verifier::external_body]
pub fn unpack_token_mint(data: &Vec<u8>) -> (r: Option<u8>)
    ensures
        match r {
            Some(dec) => spl_mint_bytes_wf(data@) && data@[45] == 1 && dec == data@[44],
            None => !(spl_mint_bytes_wf(data@) && data@[45] == 1),
        },
{
    let parsed = <spl_token::state::Mint as solana_program::program_pack::Pack>::unpack(
        data.as_slice(),
    );
    match parsed {
        Ok(m) => Some(m.decimals),
        Err(_) => None,
    }
}

/// The token program's fixed address.
pub open spec fn spec_spl_token_id() -> Identity {
    Identity {
        w0: 10637895772709248262,
        w1: 12428223917890587609,
        w2: 10463932726783620124,
        w3: 12178014311288245306,
    }
}

/// Relies on `spl_token::id()`: the token program's fixed, publicly known
/// address.
#[verifier::external_body]
pub fn spl_token_program_id() -> (r: Identity)
    ensures
        r == spec_spl_token_id(),
{
    crate::codec::identity_from_bytes(&spl_token::id().to_bytes().to_vec())
}

} // verus!
