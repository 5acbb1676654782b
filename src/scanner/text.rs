//! Byte-level view of UTF-8 source text: what character starts at a position,
//! how wide it is, and where the next character boundary lies.
use vstd::prelude::*;
use vstd::utf8::*;

verus! {

broadcast use vstd::utf8::group_utf8_lib;

/// The bytes from `p` to the end of `b`.
pub open spec fn rest(b: Seq<u8>, p: int) -> Seq<u8> {
    b.subrange(p, b.len() as int)
}

/// The scalar value of the character that starts at `p`.
pub open spec fn char_at(b: Seq<u8>, p: int) -> u32 {
    decode_first_scalar(rest(b, p))
}

/// The number of bytes of the character that starts at `p`.
pub open spec fn width_at(b: Seq<u8>, p: int) -> int {
    length_of_first_scalar(rest(b, p))
}

/// `b` holds the byte `c` at index `i`.
pub open spec fn byte_is(b: Seq<u8>, i: int, c: u8) -> bool {
    0 <= i < b.len() && b[i] == c
}

/// The UTF-8 length-prefix rule: the width announced by a lead byte.
pub open spec fn utf8_width(lead: u8) -> int {
    if lead < 0x80 {
        1
    } else if lead < 0xE0 {
        2
    } else if lead < 0xF0 {
        3
    } else {
        4
    }
}

/// The character that starts at `p`, as text; empty at the end of input.
pub open spec fn char_text(b: Seq<u8>, p: int) -> Seq<char> {
    if 0 <= p < b.len() {
        decode_utf8(b.subrange(p, p + width_at(b, p)))
    } else {
        seq![]
    }
}

pub open spec fn is_ascii_digit(c: u8) -> bool {
    '0' as u8 <= c <= '9' as u8
}

proof fn lemma_bits_width_2(x: u8, y: u8)
    ensures
        0xC0 <= x <= 0xC1 ==> (((x & 0x1F) as u32) << 6u32 | ((y & 0x3F) as u32)) < 0x80,
        (((x & 0x1F) as u32) << 6u32 | ((y & 0x3F) as u32)) == 0xA0 ==> (x & 0x1F) == 2,
        (((x & 0x1F) as u32) << 6u32 | ((y & 0x3F) as u32)) < 0x800,
{
    assert((((x & 0x1F) as u32) << 6u32 | ((y & 0x3F) as u32)) < 0x800) by (bit_vector);
    assert(0xC0 <= x <= 0xC1 ==> (((x & 0x1F) as u32) << 6u32 | ((y & 0x3F) as u32)) < 0x80)
        by (bit_vector);
    assert((((x & 0x1F) as u32) << 6u32 | ((y & 0x3F) as u32)) == 0xA0 ==> (x & 0x1F) == 2)
        by (bit_vector);
}

proof fn lemma_bits_width_3(x: u8, y: u8, z: u8)
    ensures
        ({
            let cp = ((x & 0x0F) as u32) << 12u32 | ((y & 0x3F) as u32) << 6u32 | ((z & 0x3F) as u32);
            &&& (0x1000 <= cp < 0x2000 ==> (x & 0x0F) == 1)
            &&& (0x2000 <= cp < 0x3000 ==> (x & 0x0F) == 2)
            &&& (0x3000 <= cp < 0x4000 ==> (x & 0x0F) == 3)
            &&& (0xF000 <= cp ==> (x & 0x0F) == 0x0F)
            &&& cp < 0x10000
        }),
{
    assert({
        let cp = ((x & 0x0F) as u32) << 12u32 | ((y & 0x3F) as u32) << 6u32 | ((z & 0x3F) as u32);
        &&& (0x1000 <= cp < 0x2000 ==> (x & 0x0F) == 1)
        &&& (0x2000 <= cp < 0x3000 ==> (x & 0x0F) == 2)
        &&& (0x3000 <= cp < 0x4000 ==> (x & 0x0F) == 3)
        &&& (0xF000 <= cp ==> (x & 0x0F) == 0x0F)
        &&& cp < 0x10000
    }) by (bit_vector);
}

proof fn lemma_bits_width_4(x: u8, y: u8, z: u8, w: u8)
    ensures
        0xF5 <= x <= 0xF7 ==> (((x & 0x07) as u32) << 18u32 | ((y & 0x3F) as u32) << 12u32 | ((
        z & 0x3F) as u32) << 6u32 | ((w & 0x3F) as u32)) > 0x10FFFF,
{
    assert(0xF5 <= x <= 0xF7 ==> (((x & 0x07) as u32) << 18u32 | ((y & 0x3F) as u32) << 12u32 | ((
    z & 0x3F) as u32) << 6u32 | ((w & 0x3F) as u32)) > 0x10FFFF) by (bit_vector);
}

proof fn lemma_low_bits(x: u8)
    ensures
        x < 0x80 ==> (x & 0x7F) == x,
        0xE0 <= x <= 0xEF ==> (x & 0x0F) == x - 0xE0,
        0xC0 <= x <= 0xDF ==> (x & 0x1F) == x - 0xC0,
{
    assert(x < 0x80 ==> (x & 0x7F) == x) by (bit_vector);
    assert(0xE0 <= x <= 0xEF ==> (x & 0x0F) == x - 0xE0) by (bit_vector);
    assert(0xC0 <= x <= 0xDF ==> (x & 0x1F) == x - 0xC0) by (bit_vector);
}

/// What holds of the character that starts at a boundary of valid UTF-8: it is
/// well formed, its width follows the lead byte, the next boundary follows it,
/// and a few facts tie its scalar value to the lead byte.
pub proof fn lemma_char_step(b: Seq<u8>, p: int)
    requires
        valid_utf8(b),
        is_char_boundary(b, p),
        0 <= p < b.len(),
    ensures
        valid_first_scalar(rest(b, p)),
        width_at(b, p) == utf8_width(b[p]),
        p + width_at(b, p) <= b.len(),
        is_char_boundary(b, p + width_at(b, p)),
        is_scalar(char_at(b, p)),
        b[p] < 0x80 ==> char_at(b, p) == b[p] as u32,
        0x80 <= b[p] ==> 0xC2 <= b[p] <= 0xF4 && char_at(b, p) >= 0x80,
        char_at(b, p) == 0xA0 ==> b[p] == 0xC2,
        0x1000 <= char_at(b, p) < 0x2000 ==> b[p] == 0xE1,
        0x2000 <= char_at(b, p) < 0x3000 ==> b[p] == 0xE2,
        0x3000 <= char_at(b, p) < 0x4000 ==> b[p] == 0xE3,
        0xF000 <= char_at(b, p) < 0x10000 ==> b[p] == 0xEF,
{
    let r = rest(b, p);
    valid_utf8_split(b, p);
    assert(valid_utf8(r));
    assert(r[0] == b[p]);
    is_char_boundary_iff_not_is_continuation_byte(b, p);
    assert(valid_first_scalar(r));
    let w = length_of_first_scalar(r);
    let x = r[0];
    lemma_low_bits(x);
    if is_leading_byte_width_2(x) {
        lemma_bits_width_2(x, r[1]);
    } else if is_leading_byte_width_3(x) {
        lemma_bits_width_3(x, r[1], r[2]);
    } else if is_leading_byte_width_4(x) {
        lemma_bits_width_4(x, r[1], r[2], r[3]);
    }
    let tail = pop_first_scalar(r);
    assert(valid_utf8(tail));
    if p + w < b.len() {
        assert(tail.len() > 0);
        assert(valid_first_scalar(tail));
        assert(0 <= p + w < b.len());
        assert(tail[0] == b[p + w]);
        is_char_boundary_iff_not_is_continuation_byte(b, p + w);
    } else {
        is_char_boundary_start_end_of_seq(b);
    }
}

/// After an ASCII byte at a boundary, the next index is a boundary too.
pub proof fn lemma_ascii_step(b: Seq<u8>, p: int)
    requires
        valid_utf8(b),
        is_char_boundary(b, p),
        0 <= p < b.len(),
        b[p] < 0x80,
    ensures
        is_char_boundary(b, p + 1),
        width_at(b, p) == 1,
        char_at(b, p) == b[p] as u32,
{
    lemma_char_step(b, p);
}

} // verus!

verus! {

/// A boundary of valid UTF-8 stays a boundary in every prefix that contains it.
pub proof fn lemma_boundary_prefix(b: Seq<u8>, end: int, i: int)
    requires
        valid_utf8(b),
        is_char_boundary(b, end),
        is_char_boundary(b, i),
        0 <= i <= end <= b.len(),
    ensures
        valid_utf8(b.subrange(0, end)),
        is_char_boundary(b.subrange(0, end), i),
{
    let h = b.subrange(0, end);
    valid_utf8_split(b, end);
    if i < end {
        is_char_boundary_iff_not_is_continuation_byte(b, i);
        assert(h[i] == b[i]);
        is_char_boundary_iff_not_is_continuation_byte(h, i);
    } else {
        is_char_boundary_start_end_of_seq(h);
    }
}

} // verus!
