//! The wire frames: the outbound commands and the fixed-size reply.

use vstd::prelude::*;
use crate::codec::{Color, COLOR_LEN, color_bytes, color_of, push_color, decode_color_at, lemma_color_round_trip};

verus! {

/// Kind byte of the command that does nothing.
pub const KIND_IDLE: u8 = 0;

/// Kind byte of the command that sets a pattern and two colors.
pub const KIND_SET_PATTERN: u8 = 1;

/// Kind byte of the command that asks the device for its state.
pub const KIND_QUERY_STATE: u8 = 2;

/// Length of a SetPattern frame: kind, pattern id, two colors.
pub const SET_PATTERN_LEN: usize = 26;

/// Length of a QueryState frame: the kind byte alone.
pub const QUERY_LEN: usize = 1;

/// Length of the device's reply: pattern id, two colors, one reserved byte.
pub const REPLY_LEN: usize = 26;

/// What the device reports of its state.
#[derive(Clone, Copy, Debug, PartialEq, Eq, Structural)]
pub struct Reply {
    pub pattern: u8,
    pub color_a: Color,
    pub color_b: Color,
}

/// The SetPattern frame: `[1][pattern][color a][color b]`.
pub open spec fn set_pattern_bytes(pattern: u8, color_a: Color, color_b: Color) -> Seq<u8> {
    seq![KIND_SET_PATTERN, pattern] + color_bytes(color_a) + color_bytes(color_b)
}

/// The QueryState frame: the kind byte alone.
pub open spec fn query_bytes() -> Seq<u8> {
    seq![KIND_QUERY_STATE]
}

/// The reply held in `b`: pattern id at 0, color a at 1..13, color b at
/// 13..25; byte 25 is reserved and not read.
pub open spec fn reply_of(b: Seq<u8>) -> Reply
    recommends
        b.len() == REPLY_LEN,
{
    Reply {
        pattern: b[0],
        color_a: color_of(b.subrange(1, 13)),
        color_b: color_of(b.subrange(13, 25)),
    }
}

/// Builds the SetPattern frame. It is always 26 bytes long, with the kind at
/// 0, the pattern id at 1, color a at 2..14 and color b at 14..26.
pub fn set_pattern_frame(pattern: u8, color_a: Color, color_b: Color) -> (r: Vec<u8>)
    ensures
        r@ == set_pattern_bytes(pattern, color_a, color_b),
        r@.len() == SET_PATTERN_LEN,
        r@[0] == KIND_SET_PATTERN,
        r@[1] == pattern,
        r@.subrange(2, 14) == color_bytes(color_a),
        r@.subrange(14, 26) == color_bytes(color_b),
        color_of(r@.subrange(2, 14)) == color_a,
        color_of(r@.subrange(14, 26)) == color_b,
{
    let mut r: Vec<u8> = Vec::new();
    r.push(KIND_SET_PATTERN);
    r.push(pattern);
    push_color(&mut r, color_a);
    push_color(&mut r, color_b);
    assert(r@ =~= set_pattern_bytes(pattern, color_a, color_b));
    assert(r@.subrange(2, 14) =~= color_bytes(color_a));
    assert(r@.subrange(14, 26) =~= color_bytes(color_b));
    proof {
        lemma_color_round_trip(color_a);
        lemma_color_round_trip(color_b);
    }
    r
}

/// Builds the QueryState frame, one byte long.
pub fn query_frame() -> (r: Vec<u8>)
    ensures
        r@ == query_bytes(),
        r@.len() == QUERY_LEN,
{
    let mut r: Vec<u8> = Vec::new();
    r.push(KIND_QUERY_STATE);
    assert(r@ =~= query_bytes());
    r
}

/// Reads the device's reply out of the buffer that one exact read filled.
pub fn decode_reply(buf: &[u8; REPLY_LEN]) -> (r: Reply)
    ensures
        r == reply_of(buf@),
{
    let data = buf.as_slice();
    let color_a = decode_color_at(data, 1);
    let color_b = decode_color_at(data, 1 + COLOR_LEN);
    Reply { pattern: buf[0], color_a, color_b }
}

/// A reply that carries a pattern id and two encoded colors reads back as
/// them, whatever its reserved byte holds.
pub proof fn lemma_reply_round_trip(pattern: u8, color_a: Color, color_b: Color, reserved: u8)
    ensures
        reply_of(seq![pattern] + color_bytes(color_a) + color_bytes(color_b) + seq![reserved])
            == (Reply { pattern, color_a, color_b }),
{
    let b = seq![pattern] + color_bytes(color_a) + color_bytes(color_b) + seq![reserved];
    assert(b.subrange(1, 13) =~= color_bytes(color_a));
    assert(b.subrange(13, 25) =~= color_bytes(color_b));
    lemma_color_round_trip(color_a);
    lemma_color_round_trip(color_b);
}

} // verus!
