//! Fresh identifiers: formatting sixteen bytes of entropy as a version-4
//! UUID string, `xxxxxxxx-xxxx-4xxx-yxxx-xxxxxxxxxxxx` with lowercase
//! hexadecimal digits, where the version and variant bits are forced as RFC
//! 4122 asks.

use vstd::prelude::*;

verus! {

/// The lowercase hexadecimal digit for a nibble.
pub open spec fn hex_char(n: u8) -> char
    recommends
        n < 16,
{
    if n == 0 { '0' }
    else if n == 1 { '1' }
    else if n == 2 { '2' }
    else if n == 3 { '3' }
    else if n == 4 { '4' }
    else if n == 5 { '5' }
    else if n == 6 { '6' }
    else if n == 7 { '7' }
    else if n == 8 { '8' }
    else if n == 9 { '9' }
    else if n == 10 { 'a' }
    else if n == 11 { 'b' }
    else if n == 12 { 'c' }
    else if n == 13 { 'd' }
    else if n == 14 { 'e' }
    else { 'f' }
}

/// The two lowercase hexadecimal digits of a byte, high nibble first.
pub open spec fn hex_pair(b: u8) -> Seq<char> {
    seq![hex_char(b >> 4), hex_char(b & 0x0f)]
}

/// The seventh byte of a version-4 UUID: the high nibble is forced to 4.
pub open spec fn version_byte(b: u8) -> u8 {
    (b & 0x0f) | 0x40
}

/// The ninth byte of a version-4 UUID: the two high bits are forced to `10`.
pub open spec fn variant_byte(b: u8) -> u8 {
    (b & 0x3f) | 0x80
}

/// The version-4 UUID string formatted from sixteen bytes of entropy.
pub open spec fn spec_uuid_v4(b: Seq<u8>) -> Seq<char>
    recommends
        b.len() == 16,
{
    hex_pair(b[0]) + hex_pair(b[1]) + hex_pair(b[2]) + hex_pair(b[3])
        + seq!['-'] + hex_pair(b[4]) + hex_pair(b[5])
        + seq!['-'] + hex_pair(version_byte(b[6])) + hex_pair(b[7])
        + seq!['-'] + hex_pair(variant_byte(b[8])) + hex_pair(b[9])
        + seq!['-'] + hex_pair(b[10]) + hex_pair(b[11]) + hex_pair(b[12])
        + hex_pair(b[13]) + hex_pair(b[14]) + hex_pair(b[15])
}

/// Distinct nibbles have distinct hexadecimal digits.
proof fn lemma_hex_char_injective(m: u8, n: u8)
    requires
        m < 16,
        n < 16,
        hex_char(m) == hex_char(n),
    ensures
        m == n,
{
}

/// A byte is recovered from its two hexadecimal digits.
proof fn lemma_byte_from_chars(x: u8, y: u8)
    requires
        hex_char(x >> 4) == hex_char(y >> 4),
        hex_char(x & 0x0f) == hex_char(y & 0x0f),
    ensures
        x == y,
{
    assert(x >> 4 < 16 && (x & 0x0f) < 16) by (bit_vector);
    assert(y >> 4 < 16 && (y & 0x0f) < 16) by (bit_vector);
    lemma_hex_char_injective(x >> 4, y >> 4);
    lemma_hex_char_injective(x & 0x0f, y & 0x0f);
    assert(x == y) by (bit_vector)
        requires
            x >> 4 == y >> 4 && (x & 0x0f) == (y & 0x0f),
    ;
}

/// Each character of the formatted identifier, by position: hexadecimal
/// digits of the entropy bytes, with hyphens after the 8th, 12th, 16th and
/// 20th digit, and the version and variant bytes in place of the seventh and
/// ninth bytes.
pub proof fn lemma_uuid_v4_chars(b: Seq<u8>)
    requires
        b.len() == 16,
    ensures
        spec_uuid_v4(b).len() == 36,
        spec_uuid_v4(b)[0] == hex_char(b[0] >> 4),
        spec_uuid_v4(b)[1] == hex_char(b[0] & 0x0f),
        spec_uuid_v4(b)[2] == hex_char(b[1] >> 4),
        spec_uuid_v4(b)[3] == hex_char(b[1] & 0x0f),
        spec_uuid_v4(b)[4] == hex_char(b[2] >> 4),
        spec_uuid_v4(b)[5] == hex_char(b[2] & 0x0f),
        spec_uuid_v4(b)[6] == hex_char(b[3] >> 4),
        spec_uuid_v4(b)[7] == hex_char(b[3] & 0x0f),
        spec_uuid_v4(b)[8] == '-',
        spec_uuid_v4(b)[9] == hex_char(b[4] >> 4),
        spec_uuid_v4(b)[10] == hex_char(b[4] & 0x0f),
        spec_uuid_v4(b)[11] == hex_char(b[5] >> 4),
        spec_uuid_v4(b)[12] == hex_char(b[5] & 0x0f),
        spec_uuid_v4(b)[13] == '-',
        spec_uuid_v4(b)[14] == hex_char(version_byte(b[6]) >> 4),
        spec_uuid_v4(b)[15] == hex_char(version_byte(b[6]) & 0x0f),
        spec_uuid_v4(b)[16] == hex_char(b[7] >> 4),
        spec_uuid_v4(b)[17] == hex_char(b[7] & 0x0f),
        spec_uuid_v4(b)[18] == '-',
        spec_uuid_v4(b)[19] == hex_char(variant_byte(b[8]) >> 4),
        spec_uuid_v4(b)[20] == hex_char(variant_byte(b[8]) & 0x0f),
        spec_uuid_v4(b)[21] == hex_char(b[9] >> 4),
        spec_uuid_v4(b)[22] == hex_char(b[9] & 0x0f),
        spec_uuid_v4(b)[23] == '-',
        spec_uuid_v4(b)[24] == hex_char(b[10] >> 4),
        spec_uuid_v4(b)[25] == hex_char(b[10] & 0x0f),
        spec_uuid_v4(b)[26] == hex_char(b[11] >> 4),
        spec_uuid_v4(b)[27] == hex_char(b[11] & 0x0f),
        spec_uuid_v4(b)[28] == hex_char(b[12] >> 4),
        spec_uuid_v4(b)[29] == hex_char(b[12] & 0x0f),
        spec_uuid_v4(b)[30] == hex_char(b[13] >> 4),
        spec_uuid_v4(b)[31] == hex_char(b[13] & 0x0f),
        spec_uuid_v4(b)[32] == hex_char(b[14] >> 4),
        spec_uuid_v4(b)[33] == hex_char(b[14] & 0x0f),
        spec_uuid_v4(b)[34] == hex_char(b[15] >> 4),
        spec_uuid_v4(b)[35] == hex_char(b[15] & 0x0f),
{
}

/// The formatted identifier is 36 characters: hyphens at positions 8, 13,
/// 18 and 23, the version digit `4` at position 14, and a variant digit of
/// `8`, `9`, `a` or `b` at position 19.
pub proof fn lemma_uuid_v4_format(b: Seq<u8>)
    requires
        b.len() == 16,
    ensures
        spec_uuid_v4(b).len() == 36,
        spec_uuid_v4(b)[8] == '-',
        spec_uuid_v4(b)[13] == '-',
        spec_uuid_v4(b)[18] == '-',
        spec_uuid_v4(b)[23] == '-',
        spec_uuid_v4(b)[14] == '4',
        spec_uuid_v4(b)[19] == '8' || spec_uuid_v4(b)[19] == '9' || spec_uuid_v4(b)[19] == 'a'
            || spec_uuid_v4(b)[19] == 'b',
{
    lemma_uuid_v4_chars(b);
    let x = b[6];
    let y = b[8];
    assert(((x & 0x0f) | 0x40) >> 4 == 4) by (bit_vector);
    assert((((y & 0x3f) | 0x80) >> 4 == 8) || (((y & 0x3f) | 0x80) >> 4 == 9) || (((y & 0x3f)
        | 0x80) >> 4 == 10) || (((y & 0x3f) | 0x80) >> 4 == 11)) by (bit_vector);
}

/// Identifiers formatted from entropy that differs anywhere outside the
/// forced version and variant bits are distinct: equal identifiers force
/// every other byte to agree, and the seventh and ninth bytes to agree once
/// the forced bits are applied.
#[verifier::rlimit(100)]
pub proof fn lemma_uuid_v4_injective(b1: Seq<u8>, b2: Seq<u8>)
    requires
        b1.len() == 16,
        b2.len() == 16,
        spec_uuid_v4(b1) == spec_uuid_v4(b2),
    ensures
        forall|i: int| 0 <= i < 16 && i != 6 && i != 8 ==> b1[i] == b2[i],
        version_byte(b1[6]) == version_byte(b2[6]),
        variant_byte(b1[8]) == variant_byte(b2[8]),
{
    let u1 = spec_uuid_v4(b1);
    let u2 = spec_uuid_v4(b2);
    lemma_uuid_v4_chars(b1);
    lemma_uuid_v4_chars(b2);
    assert(b1[0] == b2[0]) by {
        assert(u1[0] == u2[0] && u1[1] == u2[1]);
        lemma_byte_from_chars(b1[0], b2[0]);
    }
    assert(b1[1] == b2[1]) by {
        assert(u1[2] == u2[2] && u1[3] == u2[3]);
        lemma_byte_from_chars(b1[1], b2[1]);
    }
    assert(b1[2] == b2[2]) by {
        assert(u1[4] == u2[4] && u1[5] == u2[5]);
        lemma_byte_from_chars(b1[2], b2[2]);
    }
    assert(b1[3] == b2[3]) by {
        assert(u1[6] == u2[6] && u1[7] == u2[7]);
        lemma_byte_from_chars(b1[3], b2[3]);
    }
    assert(b1[4] == b2[4]) by {
        assert(u1[9] == u2[9] && u1[10] == u2[10]);
        lemma_byte_from_chars(b1[4], b2[4]);
    }
    assert(b1[5] == b2[5]) by {
        assert(u1[11] == u2[11] && u1[12] == u2[12]);
        lemma_byte_from_chars(b1[5], b2[5]);
    }
    assert(version_byte(b1[6]) == version_byte(b2[6])) by {
        assert(u1[14] == u2[14] && u1[15] == u2[15]);
        lemma_byte_from_chars(version_byte(b1[6]), version_byte(b2[6]));
    }
    assert(b1[7] == b2[7]) by {
        assert(u1[16] == u2[16] && u1[17] == u2[17]);
        lemma_byte_from_chars(b1[7], b2[7]);
    }
    assert(variant_byte(b1[8]) == variant_byte(b2[8])) by {
        assert(u1[19] == u2[19] && u1[20] == u2[20]);
        lemma_byte_from_chars(variant_byte(b1[8]), variant_byte(b2[8]));
    }
    assert(b1[9] == b2[9]) by {
        assert(u1[21] == u2[21] && u1[22] == u2[22]);
        lemma_byte_from_chars(b1[9], b2[9]);
    }
    assert(b1[10] == b2[10]) by {
        assert(u1[24] == u2[24] && u1[25] == u2[25]);
        lemma_byte_from_chars(b1[10], b2[10]);
    }
    assert(b1[11] == b2[11]) by {
        assert(u1[26] == u2[26] && u1[27] == u2[27]);
        lemma_byte_from_chars(b1[11], b2[11]);
    }
    assert(b1[12] == b2[12]) by {
        assert(u1[28] == u2[28] && u1[29] == u2[29]);
        lemma_byte_from_chars(b1[12], b2[12]);
    }
    assert(b1[13] == b2[13]) by {
        assert(u1[30] == u2[30] && u1[31] == u2[31]);
        lemma_byte_from_chars(b1[13], b2[13]);
    }
    assert(b1[14] == b2[14]) by {
        assert(u1[32] == u2[32] && u1[33] == u2[33]);
        lemma_byte_from_chars(b1[14], b2[14]);
    }
    assert(b1[15] == b2[15]) by {
        assert(u1[34] == u2[34] && u1[35] == u2[35]);
        lemma_byte_from_chars(b1[15], b2[15]);
    }
}

/// Entropy that differs in any byte outside the forced version and variant
/// bits formats to a distinct identifier.
pub proof fn lemma_uuid_v4_distinct(b1: Seq<u8>, b2: Seq<u8>, i: int)
    requires
        b1.len() == 16,
        b2.len() == 16,
        0 <= i < 16,
        i != 6,
        i != 8,
        b1[i] != b2[i],
    ensures
        spec_uuid_v4(b1) != spec_uuid_v4(b2),
{
    if spec_uuid_v4(b1) == spec_uuid_v4(b2) {
        lemma_uuid_v4_injective(b1, b2);
        assert(false);
    }
}

/// The lowercase hexadecimal digit for a nibble, as a one-character string.
fn hex_char_str(n: u8) -> (r: &'static str)
    requires
        n < 16,
    ensures
        r@ == seq![hex_char(n)],
{
    proof {
        reveal_strlit("0");
        reveal_strlit("1");
        reveal_strlit("2");
        reveal_strlit("3");
        reveal_strlit("4");
        reveal_strlit("5");
        reveal_strlit("6");
        reveal_strlit("7");
        reveal_strlit("8");
        reveal_strlit("9");
        reveal_strlit("a");
        reveal_strlit("b");
        reveal_strlit("c");
        reveal_strlit("d");
        reveal_strlit("e");
        reveal_strlit("f");
    }
    let r: &'static str = if n == 0 { "0" }
    else if n == 1 { "1" }
    else if n == 2 { "2" }
    else if n == 3 { "3" }
    else if n == 4 { "4" }
    else if n == 5 { "5" }
    else if n == 6 { "6" }
    else if n == 7 { "7" }
    else if n == 8 { "8" }
    else if n == 9 { "9" }
    else if n == 10 { "a" }
    else if n == 11 { "b" }
    else if n == 12 { "c" }
    else if n == 13 { "d" }
    else if n == 14 { "e" }
    else { "f" };
    proof {
        assert(r@ =~= seq![hex_char(n)]);
    }
    r
}

/// Appends the two hexadecimal digits of a byte to a string.
fn push_hex_byte(s: &mut String, b: u8)
    ensures
        final(s)@ == old(s)@ + hex_pair(b),
{
    proof {
        assert(b >> 4 < 16) by (bit_vector);
        assert(b & 0x0f < 16) by (bit_vector);
    }
    s.append(hex_char_str(b >> 4));
    s.append(hex_char_str(b & 0x0f));
    proof {
        assert(final(s)@ =~= old(s)@ + hex_pair(b));
    }
}

/// Formats sixteen bytes of entropy as a version-4 UUID string.
pub fn uuid_v4(entropy: &[u8; 16]) -> (r: String)
    ensures
        r@ == spec_uuid_v4(entropy@),
{
    proof {
        reveal_strlit("-");
    }
    let mut s = String::new();
    push_hex_byte(&mut s, entropy[0]);
    push_hex_byte(&mut s, entropy[1]);
    push_hex_byte(&mut s, entropy[2]);
    push_hex_byte(&mut s, entropy[3]);
    s.append("-");
    push_hex_byte(&mut s, entropy[4]);
    push_hex_byte(&mut s, entropy[5]);
    s.append("-");
    push_hex_byte(&mut s, (entropy[6] & 0x0f) | 0x40);
    push_hex_byte(&mut s, entropy[7]);
    s.append("-");
    push_hex_byte(&mut s, (entropy[8] & 0x3f) | 0x80);
    push_hex_byte(&mut s, entropy[9]);
    s.append("-");
    push_hex_byte(&mut s, entropy[10]);
    push_hex_byte(&mut s, entropy[11]);
    push_hex_byte(&mut s, entropy[12]);
    push_hex_byte(&mut s, entropy[13]);
    push_hex_byte(&mut s, entropy[14]);
    push_hex_byte(&mut s, entropy[15]);
    proof {
        assert(s@ =~= spec_uuid_v4(entropy@));
    }
    s
}

} // verus!
