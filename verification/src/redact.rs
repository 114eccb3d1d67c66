//! What may be said of a lease token in a log.

use crate::ids::{hex_char, uuid_byte, uuid_bytes, uuid_text};
use sha2::{Digest, Sha256};
use vstd::prelude::*;
use vstd::slice::slice_subrange;

verus! {

/// The bytes as two lower-case hexadecimal digits each.
pub open spec fn hex_text(bytes: Seq<u8>) -> Seq<char> {
    Seq::new(
        2 * bytes.len(),
        |i: int|
            if i % 2 == 0 {
                hex_char((bytes[i / 2] / 16) as nat)
            } else {
                hex_char((bytes[i / 2] % 16) as nat)
            },
    )
}

fn hex_digit(d: u8) -> (c: char)
    requires
        d < 16,
    ensures
        c == hex_char(d as nat),
{
    if d < 10 {
        (48 + d) as char
    } else {
        (87 + d) as char
    }
}

/// Writes bytes in hexadecimal.
pub fn encode(bytes: &[u8]) -> (s: String)
    ensures
        s@ == hex_text(bytes@),
{
    let mut s = String::new();
    let mut i: usize = 0;
    while i < bytes.len()
        invariant
            i <= bytes.len(),
            s@ == hex_text(bytes@.take(i as int)),
        decreases bytes.len() - i,
    {
        s.push(hex_digit(bytes[i] / 16));
        s.push(hex_digit(bytes[i] % 16));
        assert(s@ =~= hex_text(bytes@.take(i + 1)));
        i = i + 1;
    }
    assert(bytes@.take(i as int) =~= bytes@);
    s
}

/// The SHA-256 digest of some bytes.
pub uninterp spec fn sha256(bytes: Seq<u8>) -> Seq<u8>;

/// Calls `sha2::Sha256::digest`. The digest is a function of the bytes, which `sha256` names, and is
/// 32 bytes long.
#[verifier::external_body]
fn digest_of(bytes: &[u8]) -> (digest: Vec<u8>)
    ensures
        digest@ == sha256(bytes@),
        digest@.len() == 32,
{
    Sha256::digest(bytes).to_vec()
}

/// The bytes of an identifier, most significant first.
pub open spec fn id_bytes(id: u128) -> Seq<u8> {
    Seq::new(16, |i: int| uuid_byte(id, i))
}

/// A fingerprint of a lease token: enough to see that two log lines speak of the same token, and not
/// enough to use it. It is shorter than the text of the token, so that this cannot occur in it.
pub fn lease_token_hash(token: u128) -> (s: String)
    ensures
        s@ == hex_text(sha256(id_bytes(token)).take(6)),
        s@.len() == 12,
        s@.len() < uuid_text(token).len(),
{
    let bytes = uuid_bytes(token);
    assert(bytes@ =~= id_bytes(token));
    let digest = digest_of(bytes.as_slice());
    assert(digest@.subrange(0, 6) =~= sha256(id_bytes(token)).take(6));
    encode(slice_subrange(digest.as_slice(), 0, 6))
}

} // verus!
