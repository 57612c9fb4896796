//! Commitment digests.
//!
//! Every commitment in the escrow is a 32-byte Keccak-256 digest.  The digest
//! itself is computed by the host environment; everything the library states
//! about it goes through the uninterpreted name [`keccak_of`].

use vstd::prelude::*;

verus! {

/// The Keccak-256 digest of a byte sequence.  The digest is a function of
/// the input bytes alone, so one name serves every call site.
pub uninterp spec fn keccak_of(data: Seq<u8>) -> Seq<u8>;

/// Relies on `near_sdk::env::keccak256_array` (from `near_sdk_env`): the
/// Keccak-256 digest of the input bytes, 32 bytes, computed locally by
/// `sha3::Keccak256` and a function of the input alone.
#[verifier::external_body]
pub(crate) fn keccak256(data: &Vec<u8>) -> (r: [u8; 32])
    ensures
        r@ == keccak_of(data@),
{
    near_sdk::env::keccak256_array(data.as_slice())
}

/// Hex digit (lowercase) for one nibble.
pub open spec fn spec_hex_digit(nibble: u8) -> char {
    seq!['0', '1', '2', '3', '4', '5', '6', '7', '8', '9', 'a', 'b', 'c', 'd', 'e', 'f'][nibble as int]
}

/// Lowercase hexadecimal rendering of a byte sequence: two digits per byte,
/// high nibble first.
pub open spec fn spec_hex_lower(data: Seq<u8>) -> Seq<char>
    decreases data.len(),
{
    if data.len() == 0 {
        Seq::empty()
    } else {
        seq![
            spec_hex_digit(data.first() >> 4u8),
            spec_hex_digit(data.first() & 0x0Fu8),
        ] + spec_hex_lower(data.drop_first())
    }
}

/// Relies on `hex::encode`: lowercase hexadecimal, two digits per byte,
/// high nibble first.
#[verifier::external_body]
pub(crate) fn hex_encode(data: &Vec<u8>) -> (r: String)
    ensures
        r@ == spec_hex_lower(data@),
{
    hex::encode(data.as_slice())
}

/// Byte-for-byte equality of two 32-byte digests.
pub fn digest_eq(a: &[u8; 32], b: &[u8; 32]) -> (r: bool)
    ensures
        r == (a@ == b@),
{
    let mut i: usize = 0;
    while i < 32
        invariant
            0 <= i <= 32,
            forall|j: int| 0 <= j < i ==> a@[j] == b@[j],
        decreases 32 - i,
    {
        if a[i] != b[i] {
            return false;
        }
        i = i + 1;
    }
    proof {
        assert(a@ =~= b@);
    }
    true
}

/// Lexicographic order on byte sequences, the order Rust's own comparison
/// of byte arrays uses.
pub open spec fn spec_lex_le(a: Seq<u8>, b: Seq<u8>) -> bool
    decreases a.len(),
{
    if a.len() == 0 {
        true
    } else if b.len() == 0 {
        false
    } else if a.first() < b.first() {
        true
    } else if a.first() > b.first() {
        false
    } else {
        spec_lex_le(a.drop_first(), b.drop_first())
    }
}

/// Lexicographic comparison of two 32-byte digests.
pub fn lex_le(a: &[u8; 32], b: &[u8; 32]) -> (r: bool)
    ensures
        r == spec_lex_le(a@, b@),
{
    let mut i: usize = 0;
    proof {
        assert(a@.skip(0) =~= a@);
        assert(b@.skip(0) =~= b@);
    }
    while i < 32
        invariant
            0 <= i <= 32,
            spec_lex_le(a@, b@) == spec_lex_le(a@.skip(i as int), b@.skip(i as int)),
        decreases 32 - i,
    {
        proof {
            assert(a@.skip(i as int).drop_first() =~= a@.skip(i as int + 1));
            assert(b@.skip(i as int).drop_first() =~= b@.skip(i as int + 1));
        }
        if a[i] < b[i] {
            return true;
        }
        if a[i] > b[i] {
            return false;
        }
        i = i + 1;
    }
    proof {
        assert(a@.skip(32) =~= Seq::<u8>::empty());
    }
    true
}

/// Byte-for-byte equality of two byte vectors.
pub fn bytes_eq(a: &Vec<u8>, b: &Vec<u8>) -> (r: bool)
    ensures
        r == (a@ == b@),
{
    if a.len() != b.len() {
        return false;
    }
    let mut i: usize = 0;
    while i < a.len()
        invariant
            a@.len() == b@.len(),
            0 <= i <= a@.len(),
            forall|j: int| 0 <= j < i ==> a@[j] == b@[j],
        decreases a@.len() - i,
    {
        if a[i] != b[i] {
            return false;
        }
        i = i + 1;
    }
    proof {
        assert(a@ =~= b@);
    }
    true
}

/// Appends every byte of `src` to a byte buffer.
pub fn push_bytes(dst: &mut Vec<u8>, src: &Vec<u8>)
    ensures
        final(dst)@ == old(dst)@ + src@,
{
    let mut i: usize = 0;
    while i < src.len()
        invariant
            0 <= i <= src@.len(),
            dst@ == old(dst)@ + src@.take(i as int),
        decreases src@.len() - i,
    {
        dst.push(src[i]);
        proof {
            assert(old(dst)@ + src@.take(i as int) + seq![src@[i as int]] =~= old(dst)@
                + src@.take(i as int + 1));
        }
        i = i + 1;
    }
    proof {
        assert(src@.take(src@.len() as int) =~= src@);
    }
}

/// Appends the bytes of a 32-byte digest to a byte buffer.
pub fn push_digest(dst: &mut Vec<u8>, src: &[u8; 32])
    ensures
        final(dst)@ == old(dst)@ + src@,
{
    let mut i: usize = 0;
    while i < 32
        invariant
            0 <= i <= 32,
            dst@ == old(dst)@ + src@.take(i as int),
        decreases 32 - i,
    {
        dst.push(src[i]);
        proof {
            assert(old(dst)@ + src@.take(i as int) + seq![src@[i as int]] =~= old(dst)@
                + src@.take(i as int + 1));
        }
        i = i + 1;
    }
    proof {
        assert(src@.take(32) =~= src@);
    }
}

} // verus!
