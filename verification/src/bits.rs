use vstd::prelude::*;

verus! {

/// The unsigned value (0..=255) of the two's-complement byte `x`.
pub open spec fn byte_of(x: i8) -> int {
    if x < 0 {
        x + 256
    } else {
        x as int
    }
}

/// The signed byte whose two's-complement pattern is the unsigned value `b` (0..=255).
pub open spec fn i8_of(b: int) -> i8 {
    if b >= 128 {
        (b - 256) as i8
    } else {
        b as i8
    }
}

/// The signed byte that an 8-bit register holds after storing the integer `n` (modulo 256).
pub open spec fn wrap8(n: int) -> i8 {
    i8_of(n % 256)
}

/// The unsigned value (0..=65535) of the two's-complement word `x`.
pub open spec fn word_of(x: i16) -> int {
    if x < 0 {
        x + 65536
    } else {
        x as int
    }
}

/// The 16-bit unsigned value of the integer `n` taken modulo 65536.
pub open spec fn wrap16(n: int) -> u16 {
    (n % 65536) as u16
}

/// The eight bits of the byte value `b`, most significant first, each 0 or 1.
pub open spec fn bits8(b: int) -> Seq<u8> {
    seq![
        ((b / 128) % 2) as u8,
        ((b / 64) % 2) as u8,
        ((b / 32) % 2) as u8,
        ((b / 16) % 2) as u8,
        ((b / 8) % 2) as u8,
        ((b / 4) % 2) as u8,
        ((b / 2) % 2) as u8,
        (b % 2) as u8,
    ]
}

/// The sixteen bits of the word value `w`, most significant first.
pub open spec fn bits16(w: int) -> Seq<u8> {
    bits8(w / 256) + bits8(w % 256)
}

/// Whether `s` is exactly eight entries, each 0 or 1.
pub open spec fn is_bit_octet(s: Seq<u8>) -> bool {
    &&& s.len() == 8
    &&& forall|k: int| 0 <= k < 8 ==> #[trigger] s[k] <= 1
}

/// The byte value written by the bit octet `s`, most significant bit first.
pub open spec fn octet_value(s: Seq<u8>) -> int {
    s[0] * 128 + s[1] * 64 + s[2] * 32 + s[3] * 16 + s[4] * 8 + s[5] * 4 + s[6] * 2 + s[7]
}

/// The eight bits of a byte read back give the byte.
pub proof fn lemma_octet_of_bits8(b: u8)
    ensures
        is_bit_octet(bits8(b as int)),
        octet_value(bits8(b as int)) == b,
{
    let s = bits8(b as int);
    assert forall|k: int| 0 <= k < 8 implies #[trigger] s[k] <= 1 by {}
    assert((b / 128) % 2 * 128 + (b / 64) % 2 * 64 + (b / 32) % 2 * 32 + (b / 16) % 2 * 16
        + (b / 8) % 2 * 8 + (b / 4) % 2 * 4 + (b / 2) % 2 * 2 + b % 2 == b) by (bit_vector);
}

/// A bit octet is the bits of its value.
pub proof fn lemma_bits8_of_octet(s: Seq<u8>)
    requires
        is_bit_octet(s),
    ensures
        0 <= octet_value(s) < 256,
        bits8(octet_value(s)) == s,
{
    assert(s[0] <= 1 && s[1] <= 1 && s[2] <= 1 && s[3] <= 1);
    assert(s[4] <= 1 && s[5] <= 1 && s[6] <= 1 && s[7] <= 1);
    assert(bits8(octet_value(s)) =~= s);
}

/// `to_byte(x)` is the unsigned value of the signed byte `x`.
pub fn to_byte(x: i8) -> (r: u8)
    ensures
        r == byte_of(x),
{
    if x < 0 {
        (x as i16 + 256) as u8
    } else {
        x as u8
    }
}

/// `from_byte(b)` is the signed byte with the bit pattern of `b`.
pub fn from_byte(b: u8) -> (r: i8)
    ensures
        r == i8_of(b as int),
{
    if b >= 128 {
        (b as i16 - 256) as i8
    } else {
        b as i8
    }
}

/// `to_word(x)` is the unsigned value of the signed word `x`.
pub fn to_word(x: i16) -> (r: u16)
    ensures
        r == word_of(x),
{
    if x < 0 {
        (x as i32 + 65536) as u16
    } else {
        x as u16
    }
}

/// Appends the eight bits of `b`, most significant first.
pub fn push_bits8(out: &mut Vec<u8>, b: u8)
    ensures
        final(out)@ == old(out)@ + bits8(b as int),
{
    out.push((b / 128) % 2);
    out.push((b / 64) % 2);
    out.push((b / 32) % 2);
    out.push((b / 16) % 2);
    out.push((b / 8) % 2);
    out.push((b / 4) % 2);
    out.push((b / 2) % 2);
    out.push(b % 2);
    assert(out@ =~= old(out)@ + bits8(b as int));
}

/// The byte an 8-bit register holds after storing `x` (in -256..=255).
pub fn wrap_small(x: i16) -> (r: i8)
    requires
        -256 <= x <= 255,
    ensures
        r == wrap8(x as int),
{
    if x > 127 {
        (x - 256) as i8
    } else if x < -128 {
        (x + 256) as i8
    } else {
        x as i8
    }
}

} // verus!
