//! Little-endian encoding of colors, three 32-bit channels in twelve bytes.

use vstd::prelude::*;

verus! {

/// Bytes taken by one encoded color.
pub const COLOR_LEN: usize = 12;

/// A color of three channels (hue, saturation, value), each held as the bit
/// pattern of a single-precision float. The codec never looks at the values.
#[derive(Clone, Copy, Debug, PartialEq, Eq, Structural)]
pub struct Color {
    pub h: u32,
    pub s: u32,
    pub v: u32,
}

/// The four little-endian bytes of `x`.
pub open spec fn word_bytes(x: u32) -> Seq<u8> {
    seq![
        (x % 0x100) as u8,
        (x / 0x100 % 0x100) as u8,
        (x / 0x10000 % 0x100) as u8,
        (x / 0x1000000) as u8,
    ]
}

/// The word whose little-endian bytes are the first four of `b`.
pub open spec fn word_of(b: Seq<u8>) -> u32
    recommends
        b.len() >= 4,
{
    (b[0] + 0x100 * b[1] + 0x10000 * b[2] + 0x1000000 * b[3]) as u32
}

/// The twelve bytes of a color: h, s, v in that order, each little-endian.
pub open spec fn color_bytes(c: Color) -> Seq<u8> {
    word_bytes(c.h) + word_bytes(c.s) + word_bytes(c.v)
}

/// The color held in the first twelve bytes of `b`.
pub open spec fn color_of(b: Seq<u8>) -> Color
    recommends
        b.len() >= 12,
{
    Color {
        h: word_of(b.subrange(0, 4)),
        s: word_of(b.subrange(4, 8)),
        v: word_of(b.subrange(8, 12)),
    }
}

/// Reading back the bytes of a word gives the word.
pub proof fn lemma_word_round_trip(x: u32)
    ensures
        word_of(word_bytes(x)) == x,
{
    assert(x % 0x100 + 0x100 * (x / 0x100 % 0x100) + 0x10000 * (x / 0x10000 % 0x100)
        + 0x1000000 * (x / 0x1000000) == x) by (bit_vector);
}

/// Decoding an encoded color gives back the same three channels, bit for bit.
pub proof fn lemma_color_round_trip(c: Color)
    ensures
        color_of(color_bytes(c)) == c,
{
    let b = color_bytes(c);
    lemma_word_round_trip(c.h);
    lemma_word_round_trip(c.s);
    lemma_word_round_trip(c.v);
    assert(b.subrange(0, 4) =~= word_bytes(c.h));
    assert(b.subrange(4, 8) =~= word_bytes(c.s));
    assert(b.subrange(8, 12) =~= word_bytes(c.v));
}

/// Appends the little-endian bytes of `x` to `out`.
fn push_word(out: &mut Vec<u8>, x: u32)
    ensures
        final(out)@ == old(out)@ + word_bytes(x),
{
    assert((x & 0xff) == x % 0x100 && ((x >> 8) & 0xff) == x / 0x100 % 0x100 && ((x >> 16)
        & 0xff) == x / 0x10000 % 0x100 && (x >> 24) == x / 0x1000000) by (bit_vector);
    let b0 = (x & 0xff) as u8;
    let b1 = ((x >> 8) & 0xff) as u8;
    let b2 = ((x >> 16) & 0xff) as u8;
    let b3 = (x >> 24) as u8;
    out.push(b0);
    out.push(b1);
    out.push(b2);
    out.push(b3);
    assert(final(out)@ =~= old(out)@ + word_bytes(x));
}

/// Appends the twelve bytes of `c` to `out`.
pub fn push_color(out: &mut Vec<u8>, c: Color)
    ensures
        final(out)@ == old(out)@ + color_bytes(c),
{
    push_word(out, c.h);
    push_word(out, c.s);
    push_word(out, c.v);
    assert(final(out)@ =~= old(out)@ + color_bytes(c));
}

/// The twelve bytes of `c`.
pub fn encode_color(c: Color) -> (r: Vec<u8>)
    ensures
        r@ == color_bytes(c),
        r@.len() == COLOR_LEN,
{
    let mut r: Vec<u8> = Vec::new();
    push_color(&mut r, c);
    assert(r@ =~= color_bytes(c));
    r
}

/// The word in the four bytes of `data` from `at` on.
fn read_word(data: &[u8], at: usize) -> (r: u32)
    requires
        at + 4 <= data@.len(),
    ensures
        r == word_of(data@.subrange(at as int, at + 4)),
{
    let b0 = data[at] as u32;
    let b1 = data[at + 1] as u32;
    let b2 = data[at + 2] as u32;
    let b3 = data[at + 3] as u32;
    let r = b0 | (b1 << 8) | (b2 << 16) | (b3 << 24);
    assert(r == b0 + 0x100 * b1 + 0x10000 * b2 + 0x1000000 * b3) by (bit_vector)
        requires
            b0 < 0x100,
            b1 < 0x100,
            b2 < 0x100,
            b3 < 0x100,
            r == b0 | (b1 << 8) | (b2 << 16) | (b3 << 24),
    ;
    r
}

/// The color in the twelve bytes of `data` from `at` on.
pub fn decode_color_at(data: &[u8], at: usize) -> (r: Color)
    requires
        at + COLOR_LEN <= data@.len(),
    ensures
        r == color_of(data@.subrange(at as int, at + COLOR_LEN)),
{
    let n = data.len();
    assert(at + 8 < n);
    let h = read_word(data, at);
    let s = read_word(data, at + 4);
    let v = read_word(data, at + 8);
    let ghost w = data@.subrange(at as int, at + COLOR_LEN);
    assert(w.subrange(0, 4) =~= data@.subrange(at as int, at + 4));
    assert(w.subrange(4, 8) =~= data@.subrange(at + 4, at + 8));
    assert(w.subrange(8, 12) =~= data@.subrange(at + 8, at + 12));
    Color { h, s, v }
}

/// The color in the first twelve bytes of `data`; later bytes are not read.
pub fn decode_color(data: &[u8]) -> (r: Color)
    requires
        data@.len() >= COLOR_LEN,
    ensures
        r == color_of(data@),
{
    let r = decode_color_at(data, 0);
    let ghost w = data@.subrange(0, 12);
    assert(w.subrange(0, 4) =~= data@.subrange(0, 4));
    assert(w.subrange(4, 8) =~= data@.subrange(4, 8));
    assert(w.subrange(8, 12) =~= data@.subrange(8, 12));
    r
}

} // verus!
