//! The hash function over a block's fields, the hexadecimal encoding of
//! hashes, and the difficulty predicate over leading hex digits.

use vstd::prelude::*;
use vstd::bytes::{spec_u128_to_le_bytes, spec_u64_to_le_bytes, u128_to_le_bytes, u64_to_le_bytes};
use vstd::utf8::encode_utf8;
use sha2::Digest;

verus! {

/// The SHA-256 digest of a byte sequence. Left without a body: nothing in
/// this crate restates the algorithm; the `sha256` wrapper below ties the
/// name to the `sha2` crate's implementation.
pub uninterp spec fn sha256_of(input: Seq<u8>) -> Seq<u8>;

/// Relies on sha2's `Sha256::digest`: the digest is a pure function of the
/// input bytes alone, and is 32 bytes long.
#[verifier::external_body]
pub fn sha256(input: &Vec<u8>) -> (r: Vec<u8>)
    ensures
        r@ == sha256_of(input@),
        r@.len() == 32,
{
    sha2::Sha256::digest(input.as_slice()).to_vec()
}

/// The lowercase hexadecimal digit for a nibble value.
pub open spec fn hex_digit_char(n: u8) -> char
    recommends
        n < 16,
{
    if n == 0 { '0' } else if n == 1 { '1' } else if n == 2 { '2' } else if n == 3 { '3' }
    else if n == 4 { '4' } else if n == 5 { '5' } else if n == 6 { '6' } else if n == 7 { '7' }
    else if n == 8 { '8' } else if n == 9 { '9' } else if n == 10 { 'a' } else if n == 11 { 'b' }
    else if n == 12 { 'c' } else if n == 13 { 'd' } else if n == 14 { 'e' } else { 'f' }
}

/// The value of the `i`-th hex digit of a byte sequence, high nibble of
/// each byte first.
pub open spec fn nibble(bytes: Seq<u8>, i: int) -> u8
    recommends
        0 <= i < 2 * bytes.len(),
{
    if i % 2 == 0 {
        bytes[i / 2] >> 4
    } else {
        bytes[i / 2] & 0x0f
    }
}

/// The lowercase hexadecimal encoding of a byte sequence: two digits per
/// byte, high nibble first.
pub open spec fn spec_hex_encode(bytes: Seq<u8>) -> Seq<char> {
    Seq::new(2 * bytes.len(), |i: int| hex_digit_char(nibble(bytes, i)))
}

/// Relies on hex's `encode`: lowercase hexadecimal, two digits per byte,
/// high nibble first.
#[verifier::external_body]
pub fn hex_encode(bytes: &Vec<u8>) -> (r: String)
    ensures
        r@ == spec_hex_encode(bytes@),
{
    hex::encode(bytes)
}

/// A hash meets difficulty `d` when its hexadecimal encoding starts with
/// `d` zero characters.
pub open spec fn meets_difficulty(hash: Seq<u8>, d: nat) -> bool {
    &&& d <= 2 * hash.len()
    &&& forall|i: int| 0 <= i < d ==> #[trigger] spec_hex_encode(hash)[i] == '0'
}

/// Whether the first `difficulty` hex digits of `hash` are all `'0'`.
pub fn check_difficulty(hash: &Vec<u8>, difficulty: u8) -> (r: bool)
    ensures
        r == meets_difficulty(hash@, difficulty as nat),
{
    let d = difficulty as usize;
    let mut i: usize = 0;
    while i < d
        invariant
            i <= d,
            d == difficulty as usize,
            forall|j: int|
                0 <= j < i ==> j < 2 * hash@.len() && #[trigger] spec_hex_encode(hash@)[j] == '0',
        decreases d - i,
    {
        let byte_idx = i / 2;
        if byte_idx >= hash.len() {
            proof {
                assert(i >= 2 * hash@.len());
                assert(!meets_difficulty(hash@, difficulty as nat));
            }
            return false;
        }
        let b = hash[byte_idx];
        let nib: u8 = if i % 2 == 0 { b >> 4 } else { b & 0x0f };
        if nib != 0 {
            proof {
                assert(i < 2 * hash@.len());
                assert(spec_hex_encode(hash@)[i as int] == hex_digit_char(nibble(hash@, i as int)));
                assert(nibble(hash@, i as int) == nib);
                assert(spec_hex_encode(hash@)[i as int] != '0');
                assert(!meets_difficulty(hash@, difficulty as nat));
            }
            return false;
        }
        proof {
            assert(spec_hex_encode(hash@)[i as int] == hex_digit_char(nib));
        }
        i += 1;
    }
    proof {
        if d > 0 {
            assert(spec_hex_encode(hash@)[d - 1] == '0');
            assert(d - 1 < 2 * hash@.len());
        }
        assert(meets_difficulty(hash@, difficulty as nat));
    }
    true
}

/// The exact byte sequence hashed for a block: the predecessor hash, then
/// the UTF-8 bytes of the payload, then the creation time in nanoseconds
/// since the Unix epoch as 16 little-endian bytes, then the nonce as 8
/// little-endian bytes. Field order and byte order are part of the
/// contract: changing them changes every derived hash.
pub open spec fn spec_hash_input(
    previous_hash: Seq<u8>,
    data: Seq<char>,
    timestamp_nanos: u128,
    nonce: u64,
) -> Seq<u8> {
    previous_hash + encode_utf8(data) + spec_u128_to_le_bytes(timestamp_nanos)
        + spec_u64_to_le_bytes(nonce)
}

/// The hash stamped into a block: SHA-256 over the block's hash input.
pub open spec fn spec_block_hash(
    previous_hash: Seq<u8>,
    data: Seq<char>,
    timestamp_nanos: u128,
    nonce: u64,
) -> Seq<u8> {
    sha256_of(spec_hash_input(previous_hash, data, timestamp_nanos, nonce))
}

/// Builds the hash input bytes for the given block fields.
pub fn build_hash_input(
    previous_hash: &Vec<u8>,
    data: &str,
    timestamp_nanos: u128,
    nonce: u64,
) -> (r: Vec<u8>)
    ensures
        r@ == spec_hash_input(previous_hash@, data@, timestamp_nanos, nonce),
{
    let mut input: Vec<u8> = Vec::new();
    input.extend_from_slice(previous_hash.as_slice());
    proof {
        assert(input@ =~= previous_hash@);
    }
    input.extend_from_slice(data.as_bytes());
    proof {
        assert(input@ =~= previous_hash@ + encode_utf8(data@));
    }
    let ts_bytes = u128_to_le_bytes(timestamp_nanos);
    input.extend_from_slice(ts_bytes.as_slice());
    proof {
        assert(input@ =~= previous_hash@ + encode_utf8(data@)
            + spec_u128_to_le_bytes(timestamp_nanos));
    }
    let nonce_bytes = u64_to_le_bytes(nonce);
    input.extend_from_slice(nonce_bytes.as_slice());
    proof {
        assert(input@ =~= spec_hash_input(previous_hash@, data@, timestamp_nanos, nonce));
    }
    input
}

/// Whether two byte vectors hold the same bytes.
pub fn bytes_eq(a: &Vec<u8>, b: &Vec<u8>) -> (r: bool)
    ensures
        r == (a@ == b@),
{
    if a.len() != b.len() {
        return false;
    }
    let mut i: usize = 0;
    while i < a.len()
        invariant
            a@.len() == b@.len(),
            i <= a@.len(),
            forall|j: int| 0 <= j < i ==> a@[j] == b@[j],
        decreases a@.len() - i,
    {
        if a[i] != b[i] {
            return false;
        }
        i += 1;
    }
    proof {
        assert(a@ =~= b@);
    }
    true
}

} // verus!
