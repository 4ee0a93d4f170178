//! Identities and little-endian byte helpers shared by the record codecs.
//!
//! Every persistent record is a fixed-width byte layout: a leading one-byte
//! initialization flag, little-endian unsigned scalars, and fixed 32-byte
//! identities. An identity is modelled as four little-endian 64-bit words,
//! which concatenate to exactly the 32 bytes stored on the wire.

use vstd::prelude::*;
use vstd::bytes::{spec_u64_from_le_bytes, spec_u64_to_le_bytes, u64_from_le_bytes, u64_to_le_bytes};
use vstd::slice::slice_subrange;

verus! {

/// A fixed 32-byte identity (an address, a key, or a mint), as the four
/// little-endian 64-bit words of its byte image.
#[derive(Debug, PartialEq, Eq, Structural, Copy, Clone)]
pub struct Identity {
    /// Bytes 0..8, little-endian.
    pub w0: u64,
    /// Bytes 8..16, little-endian.
    pub w1: u64,
    /// Bytes 16..24, little-endian.
    pub w2: u64,
    /// Bytes 24..32, little-endian.
    pub w3: u64,
}

/// The 32-byte image of an identity.
pub open spec fn spec_identity_bytes(id: Identity) -> Seq<u8> {
    spec_u64_to_le_bytes(id.w0) + spec_u64_to_le_bytes(id.w1) + spec_u64_to_le_bytes(id.w2)
        + spec_u64_to_le_bytes(id.w3)
}

/// The identity stored in a 32-byte image.
pub open spec fn spec_identity_of_bytes(d: Seq<u8>) -> Identity {
    Identity {
        w0: spec_u64_from_le_bytes(d.subrange(0, 8)),
        w1: spec_u64_from_le_bytes(d.subrange(8, 16)),
        w2: spec_u64_from_le_bytes(d.subrange(16, 24)),
        w3: spec_u64_from_le_bytes(d.subrange(24, 32)),
    }
}

/// An identity's image is 32 bytes, and packing then parsing restores it.
pub proof fn lemma_identity_bytes_roundtrip(id: Identity)
    ensures
        spec_identity_bytes(id).len() == 32,
        spec_identity_of_bytes(spec_identity_bytes(id)) == id,
{
    vstd::bytes::lemma_auto_spec_u64_to_from_le_bytes();
    let b = spec_identity_bytes(id);
    assert(b.subrange(0, 8) =~= spec_u64_to_le_bytes(id.w0));
    assert(b.subrange(8, 16) =~= spec_u64_to_le_bytes(id.w1));
    assert(b.subrange(16, 24) =~= spec_u64_to_le_bytes(id.w2));
    assert(b.subrange(24, 32) =~= spec_u64_to_le_bytes(id.w3));
}

/// Two identities are equal exactly when their byte images are.
pub proof fn lemma_identity_bytes_injective(a: Identity, b: Identity)
    ensures
        (spec_identity_bytes(a) == spec_identity_bytes(b)) == (a == b),
{
    if spec_identity_bytes(a) == spec_identity_bytes(b) {
        lemma_identity_bytes_roundtrip(a);
        lemma_identity_bytes_roundtrip(b);
    }
}

/// Appends the eight little-endian bytes of `v` to `out`.
pub fn push_u64_le(out: &mut Vec<u8>, v: u64)
    ensures
        final(out)@ == old(out)@ + spec_u64_to_le_bytes(v),
{
    proof {
        vstd::bytes::lemma_auto_spec_u64_to_from_le_bytes();
    }
    let mut bytes = u64_to_le_bytes(v);
    out.append(&mut bytes);
}

/// Appends the 32-byte image of `id` to `out`.
pub fn push_identity(out: &mut Vec<u8>, id: &Identity)
    ensures
        final(out)@ == old(out)@ + spec_identity_bytes(*id),
{
    push_u64_le(out, id.w0);
    push_u64_le(out, id.w1);
    push_u64_le(out, id.w2);
    push_u64_le(out, id.w3);
    proof {
        assert(out@ =~= old(out)@ + spec_identity_bytes(*id));
    }
}

/// Reads the little-endian `u64` stored at `off`.
pub fn read_u64_at(d: &Vec<u8>, off: usize) -> (r: u64)
    requires
        off + 8 <= d@.len(),
    ensures
        r == spec_u64_from_le_bytes(d@.subrange(off as int, off + 8)),
{
    let len = d.len();
    let s = slice_subrange(d.as_slice(), off, off + 8);
    u64_from_le_bytes(s)
}

/// Reads the identity stored at `off`.
pub fn read_identity_at(d: &Vec<u8>, off: usize) -> (r: Identity)
    requires
        off + 32 <= d@.len(),
    ensures
        r == spec_identity_of_bytes(d@.subrange(off as int, off + 32)),
{
    let len = d.len();
    let r = Identity {
        w0: read_u64_at(d, off),
        w1: read_u64_at(d, off + 8),
        w2: read_u64_at(d, off + 16),
        w3: read_u64_at(d, off + 24),
    };
    proof {
        let sub = d@.subrange(off as int, off + 32);
        assert(sub.subrange(0, 8) =~= d@.subrange(off as int, off + 8));
        assert(sub.subrange(8, 16) =~= d@.subrange(off + 8, off + 16));
        assert(sub.subrange(16, 24) =~= d@.subrange(off + 16, off + 24));
        assert(sub.subrange(24, 32) =~= d@.subrange(off + 24, off + 32));
    }
    r
}

/// The 32-byte image of `id` as a fresh buffer.
pub fn identity_to_bytes(id: &Identity) -> (r: Vec<u8>)
    ensures
        r@ == spec_identity_bytes(*id),
        r@.len() == 32,
{
    let mut out: Vec<u8> = Vec::new();
    push_identity(&mut out, id);
    proof {
        lemma_identity_bytes_roundtrip(*id);
        assert(out@ =~= spec_identity_bytes(*id));
    }
    out
}

/// The identity stored in a 32-byte buffer.
pub fn identity_from_bytes(d: &Vec<u8>) -> (r: Identity)
    requires
        d@.len() == 32,
    ensures
        r == spec_identity_of_bytes(d@),
{
    let r = read_identity_at(d, 0);
    proof {
        assert(d@.subrange(0, 32) =~= d@);
    }
    r
}

/// A sequence of `n` zero bytes.
pub open spec fn zero_bytes(n: nat) -> Seq<u8> {
    Seq::new(n, |i: int| 0u8)
}

/// A buffer of `n` zero bytes.
pub fn zeroed_buffer(n: usize) -> (r: Vec<u8>)
    ensures
        r@ == zero_bytes(n as nat),
{
    let mut out: Vec<u8> = Vec::new();
    let mut i: usize = 0;
    while i < n
        invariant
            0 <= i <= n,
            out@ =~= zero_bytes(i as nat),
        decreases n - i,
    {
        out.push(0u8);
        i = i + 1;
    }
    proof {
        assert(out@ =~= zero_bytes(n as nat));
    }
    out
}

} // verus!
