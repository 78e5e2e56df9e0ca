//! SHA-256, HMAC-SHA256 and hexadecimal text.
//!
//! The two hash functions are computed by `ring`, the hexadecimal text by
//! `hex`. The hashes are known to the proofs by name only: a digest is a
//! function of the bytes that went in, and it has 32 bytes.

use vstd::prelude::*;

verus! {

/// The SHA-256 digest of `data`.
pub uninterp spec fn sha256(data: Seq<u8>) -> Seq<u8>;

/// The HMAC-SHA256 tag of `data` under `key`.
pub uninterp spec fn hmac_sha256(key: Seq<u8>, data: Seq<u8>) -> Seq<u8>;

/// The number of bytes in a SHA-256 digest and in an HMAC-SHA256 tag.
pub open spec fn digest_len() -> nat {
    32
}

/// SHA-256 is defined for messages of fewer than 2^64 bits: of fewer than
/// this many bytes.
pub open spec fn digest_input_limit() -> nat {
    0x2000_0000_0000_0000
}

/// HMAC-SHA256 hashes a block of 64 bytes before the message, so its
/// message has to be shorter by that.
pub open spec fn hmac_input_limit() -> nat {
    0x1FFF_FFFF_FFFF_FFC0
}

/// `ring::digest::digest` with `SHA256`: the digest of `data`, 32 bytes.
/// The call panics on a message of 2^61 bytes or more.
#[verifier::external_body]
pub(crate) fn sha256_digest(data: &[u8]) -> (digest: Vec<u8>)
    requires
        data@.len() < digest_input_limit(),
    ensures
        digest@ == sha256(data@),
        digest@.len() == digest_len(),
{
    ring::digest::digest(&ring::digest::SHA256, data).as_ref().to_vec()
}

/// `ring::hmac::sign` with a key that `ring::hmac::Key::new` makes of `key`
/// for `HMAC_SHA256`: the tag of `msg`, 32 bytes. The calls panic on a key
/// of 2^61 bytes or more and on a message of 2^61 - 64 bytes or more.
#[verifier::external_body]
pub(crate) fn sign(key: &[u8], msg: &[u8]) -> (tag: Vec<u8>)
    requires
        key@.len() < digest_input_limit(),
        msg@.len() < hmac_input_limit(),
    ensures
        tag@ == hmac_sha256(key@, msg@),
        tag@.len() == digest_len(),
{
    let s_key = ring::hmac::Key::new(ring::hmac::HMAC_SHA256, key);
    ring::hmac::sign(&s_key, msg).as_ref().to_vec()
}

/// The lower-case hexadecimal digit of `n`.
pub open spec fn hex_digit(n: int) -> char {
    if n < 10 {
        (0x30 + n) as char
    } else {
        (0x61 + n - 10) as char
    }
}

/// The hexadecimal text of `data`: two lower-case digits for each byte, the
/// high half first.
pub open spec fn hex_text(data: Seq<u8>) -> Seq<char> {
    Seq::new(
        2 * data.len(),
        |i: int|
            if i % 2 == 0 {
                hex_digit(data[i / 2] as int / 16)
            } else {
                hex_digit(data[i / 2] as int % 16)
            },
    )
}

/// `hex::encode`: each byte of `data` as two lower-case hexadecimal digits.
#[verifier::external_body]
pub(crate) fn hex_encode(data: &[u8]) -> (text: String)
    requires
        2 * data@.len() <= usize::MAX,
    ensures
        text@ == hex_text(data@),
{
    hex::encode(data)
}

/// Different bytes have different hexadecimal texts.
pub proof fn hex_text_is_injective(a: Seq<u8>, b: Seq<u8>)
    requires
        hex_text(a) == hex_text(b),
    ensures
        a == b,
{
    assert(hex_text(a).len() == 2 * a.len());
    assert(hex_text(b).len() == 2 * b.len());
    assert forall|j: int| 0 <= j < a.len() implies a[j] == b[j] by {
        let hi_a = hex_text(a)[2 * j];
        let lo_a = hex_text(a)[2 * j + 1];
        let hi_b = hex_text(b)[2 * j];
        let lo_b = hex_text(b)[2 * j + 1];
        assert(hi_a == hex_digit(a[j] as int / 16));
        assert(lo_a == hex_digit(a[j] as int % 16));
        assert(hi_b == hex_digit(b[j] as int / 16));
        assert(lo_b == hex_digit(b[j] as int % 16));
        assert(hi_a == hi_b);
        assert(lo_a == lo_b);
    }
    assert(a =~= b);
}

/// The SHA-256 digest of `data` in hexadecimal: 64 characters.
pub fn hash_hex(data: &[u8]) -> (text: String)
    requires
        data@.len() < digest_input_limit(),
    ensures
        text@ == hex_text(sha256(data@)),
        text@.len() == 2 * digest_len(),
{
    let digest = sha256_digest(data);
    hex_encode(digest.as_slice())
}

} // verus!
