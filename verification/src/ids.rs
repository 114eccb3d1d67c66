//! Identifiers: 128-bit numbers in the usual hyphenated form.

use vstd::prelude::*;

verus! {

/// A lower-case hexadecimal digit.
pub open spec fn hex_char(d: nat) -> char {
    if d < 10 {
        ('0' as nat + d) as char
    } else {
        ('a' as nat + d - 10) as char
    }
}

/// Four bits of `id`: those at position `i`, counted from the most significant ones.
pub open spec fn nibble(id: u128, i: nat) -> nat {
    ((id >> ((124 - 4 * i) as u128)) & 0xf) as nat
}

/// The hyphenated text of an identifier: 32 lower-case hexadecimal digits, with hyphens after the
/// eighth, twelfth, sixteenth and twentieth.
pub open spec fn uuid_text(id: u128) -> Seq<char> {
    Seq::new(
        36,
        |i: int|
            if i == 8 || i == 13 || i == 18 || i == 23 {
                '-'
            } else {
                hex_char(nibble(id, (i - hyphens_before(i)) as nat))
            },
    )
}

/// The hyphens that stand before place `i` of the text.
pub open spec fn hyphens_before(i: int) -> int {
    if i <= 8 {
        0
    } else if i <= 13 {
        1
    } else if i <= 18 {
        2
    } else if i <= 23 {
        3
    } else {
        4
    }
}

/// Byte `i` of an identifier, the most significant one first.
pub open spec fn uuid_byte(id: u128, i: int) -> u8 {
    ((id >> ((120 - 8 * i) as u128)) & 0xff) as u8
}

/// Calls the `Display` formatting of `uuid::Uuid`, which prints the hyphenated form in lower case.
/// `Uuid::parse_str` reads the same identifier back.
#[verifier::external_body]
pub(crate) fn format_uuid(id: u128) -> (s: String)
    ensures
        s@ == uuid_text(id),
        uuid_parsed(s@) == Some(id),
{
    uuid::Uuid::from_u128(id).to_string()
}

/// Calls `Uuid::as_bytes`, which gives the sixteen bytes, the most significant one first.
#[verifier::external_body]
pub(crate) fn uuid_bytes(id: u128) -> (bytes: Vec<u8>)
    ensures
        bytes@ == Seq::new(16, |i: int| uuid_byte(id, i)),
{
    uuid::Uuid::from_u128(id).as_bytes().to_vec()
}

/// The identifier that `Uuid::parse_str` reads from a text, if it accepts the text.
pub uninterp spec fn uuid_parsed(s: Seq<char>) -> Option<u128>;

/// Calls `Uuid::parse_str`. It accepts several forms; what it makes of a text is a function of the
/// text, which `uuid_parsed` names.
#[verifier::external_body]
pub(crate) fn parse_uuid(s: &str) -> (r: Option<u128>)
    ensures
        r == uuid_parsed(s@),
{
    match uuid::Uuid::parse_str(s) {
        Ok(id) => Some(id.as_u128()),
        Err(_) => None,
    }
}

proof fn lemma_nibbles(a: u128, b: u128)
    by (bit_vector)
    requires
        (a >> 124u128) & 0xf == (b >> 124u128) & 0xf,
        (a >> 120u128) & 0xf == (b >> 120u128) & 0xf,
        (a >> 116u128) & 0xf == (b >> 116u128) & 0xf,
        (a >> 112u128) & 0xf == (b >> 112u128) & 0xf,
        (a >> 108u128) & 0xf == (b >> 108u128) & 0xf,
        (a >> 104u128) & 0xf == (b >> 104u128) & 0xf,
        (a >> 100u128) & 0xf == (b >> 100u128) & 0xf,
        (a >> 96u128) & 0xf == (b >> 96u128) & 0xf,
        (a >> 92u128) & 0xf == (b >> 92u128) & 0xf,
        (a >> 88u128) & 0xf == (b >> 88u128) & 0xf,
        (a >> 84u128) & 0xf == (b >> 84u128) & 0xf,
        (a >> 80u128) & 0xf == (b >> 80u128) & 0xf,
        (a >> 76u128) & 0xf == (b >> 76u128) & 0xf,
        (a >> 72u128) & 0xf == (b >> 72u128) & 0xf,
        (a >> 68u128) & 0xf == (b >> 68u128) & 0xf,
        (a >> 64u128) & 0xf == (b >> 64u128) & 0xf,
        (a >> 60u128) & 0xf == (b >> 60u128) & 0xf,
        (a >> 56u128) & 0xf == (b >> 56u128) & 0xf,
        (a >> 52u128) & 0xf == (b >> 52u128) & 0xf,
        (a >> 48u128) & 0xf == (b >> 48u128) & 0xf,
        (a >> 44u128) & 0xf == (b >> 44u128) & 0xf,
        (a >> 40u128) & 0xf == (b >> 40u128) & 0xf,
        (a >> 36u128) & 0xf == (b >> 36u128) & 0xf,
        (a >> 32u128) & 0xf == (b >> 32u128) & 0xf,
        (a >> 28u128) & 0xf == (b >> 28u128) & 0xf,
        (a >> 24u128) & 0xf == (b >> 24u128) & 0xf,
        (a >> 20u128) & 0xf == (b >> 20u128) & 0xf,
        (a >> 16u128) & 0xf == (b >> 16u128) & 0xf,
        (a >> 12u128) & 0xf == (b >> 12u128) & 0xf,
        (a >> 8u128) & 0xf == (b >> 8u128) & 0xf,
        (a >> 4u128) & 0xf == (b >> 4u128) & 0xf,
        (a >> 0u128) & 0xf == (b >> 0u128) & 0xf,
    ensures
        a == b,
{
}

proof fn lemma_hex_char_injective(x: nat, y: nat)
    requires
        x < 16,
        y < 16,
        hex_char(x) == hex_char(y),
    ensures
        x == y,
{
}

/// Where digit `n` of the 32 stands in the text.
spec fn place_of(n: int) -> int {
    if n < 8 {
        n
    } else if n < 12 {
        n + 1
    } else if n < 16 {
        n + 2
    } else if n < 20 {
        n + 3
    } else {
        n + 4
    }
}

proof fn lemma_same_nibble(a: u128, b: u128, n: nat)
    requires
        uuid_text(a) == uuid_text(b),
        n < 32,
    ensures
        nibble(a, n) == nibble(b, n),
{
    let shift = (124 - 4 * n) as u128;
    assert((a >> shift) & 0xf <= 15) by (bit_vector);
    assert((b >> shift) & 0xf <= 15) by (bit_vector);
    let place = place_of(n as int);
    assert(uuid_text(a)[place] == hex_char(nibble(a, n)));
    assert(uuid_text(b)[place] == hex_char(nibble(b, n)));
    lemma_hex_char_injective(nibble(a, n), nibble(b, n));
}

/// Different identifiers have different texts.
pub proof fn law_uuid_text_injective(a: u128, b: u128)
    requires
        uuid_text(a) == uuid_text(b),
    ensures
        a == b,
{
    assert forall|n: nat| n < 32 implies #[trigger] nibble(a, n) == nibble(b, n) by {
        lemma_same_nibble(a, b, n);
    }
    assert(nibble(a, 0) == nibble(b, 0));
    assert(nibble(a, 1) == nibble(b, 1));
    assert(nibble(a, 2) == nibble(b, 2));
    assert(nibble(a, 3) == nibble(b, 3));
    assert(nibble(a, 4) == nibble(b, 4));
    assert(nibble(a, 5) == nibble(b, 5));
    assert(nibble(a, 6) == nibble(b, 6));
    assert(nibble(a, 7) == nibble(b, 7));
    assert(nibble(a, 8) == nibble(b, 8));
    assert(nibble(a, 9) == nibble(b, 9));
    assert(nibble(a, 10) == nibble(b, 10));
    assert(nibble(a, 11) == nibble(b, 11));
    assert(nibble(a, 12) == nibble(b, 12));
    assert(nibble(a, 13) == nibble(b, 13));
    assert(nibble(a, 14) == nibble(b, 14));
    assert(nibble(a, 15) == nibble(b, 15));
    assert(nibble(a, 16) == nibble(b, 16));
    assert(nibble(a, 17) == nibble(b, 17));
    assert(nibble(a, 18) == nibble(b, 18));
    assert(nibble(a, 19) == nibble(b, 19));
    assert(nibble(a, 20) == nibble(b, 20));
    assert(nibble(a, 21) == nibble(b, 21));
    assert(nibble(a, 22) == nibble(b, 22));
    assert(nibble(a, 23) == nibble(b, 23));
    assert(nibble(a, 24) == nibble(b, 24));
    assert(nibble(a, 25) == nibble(b, 25));
    assert(nibble(a, 26) == nibble(b, 26));
    assert(nibble(a, 27) == nibble(b, 27));
    assert(nibble(a, 28) == nibble(b, 28));
    assert(nibble(a, 29) == nibble(b, 29));
    assert(nibble(a, 30) == nibble(b, 30));
    assert(nibble(a, 31) == nibble(b, 31));
    lemma_nibbles(a, b);
}

} // verus!
