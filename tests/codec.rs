use serial_light::codec::{decode_color, encode_color, Color};
use serial_light::frame::{decode_reply, query_frame, set_pattern_frame, Reply};

fn color(h: f32, s: f32, v: f32) -> Color {
    Color { h: h.to_bits(), s: s.to_bits(), v: v.to_bits() }
}

fn float_bytes(vals: &[f32]) -> Vec<u8> {
    let mut out = Vec::new();
    for v in vals {
        out.extend_from_slice(&v.to_le_bytes());
    }
    out
}

#[test]
fn encode_color_is_little_endian_floats() {
    let c = color(0.1, 0.2, 0.3);
    assert_eq!(encode_color(c), float_bytes(&[0.1, 0.2, 0.3]));
}

#[test]
fn encode_color_exact_bytes() {
    let c = Color { h: 0x0403_0201, s: 0, v: 0xff00_00ff };
    assert_eq!(encode_color(c), vec![1, 2, 3, 4, 0, 0, 0, 0, 0xff, 0, 0, 0xff]);
}

#[test]
fn color_round_trip_on_floats() {
    for (h, s, v) in [
        (0.0f32, 0.5f32, 1.0f32),
        (0.1, 0.2, 0.3),
        (-3.25, f32::MAX, f32::MIN_POSITIVE),
        (f32::INFINITY, -0.0, 1.0e-40),
    ] {
        let c = color(h, s, v);
        let back = decode_color(&encode_color(c));
        assert_eq!(back, c);
        assert_eq!(f32::from_bits(back.h).to_bits(), h.to_bits());
        assert_eq!(f32::from_bits(back.s).to_bits(), s.to_bits());
        assert_eq!(f32::from_bits(back.v).to_bits(), v.to_bits());
    }
}

#[test]
fn color_round_trip_keeps_nan_bits() {
    let c = Color { h: 0x7fc0_0001, s: 0xffff_ffff, v: 0 };
    assert_eq!(decode_color(&encode_color(c)), c);
}

#[test]
fn decode_color_reads_only_first_twelve_bytes() {
    let mut bytes = float_bytes(&[0.25, 0.5, 0.75]);
    bytes.extend_from_slice(&[9, 9, 9, 9]);
    assert_eq!(decode_color(&bytes), color(0.25, 0.5, 0.75));
}

#[test]
fn set_pattern_frame_is_26_bytes() {
    let f = set_pattern_frame(200, color(1.0, 1.0, 1.0), color(0.0, 0.0, 0.0));
    assert_eq!(f.len(), 26);
}

#[test]
fn set_pattern_frame_field_order() {
    let a = color(0.1, 0.2, 0.3);
    let b = color(0.9, 0.8, 0.7);
    let f = set_pattern_frame(3, a, b);
    assert_eq!(f[0], 1);
    assert_eq!(f[1], 3);
    assert_eq!(f[2..14].to_vec(), encode_color(a));
    assert_eq!(f[14..26].to_vec(), encode_color(b));
    assert_eq!(decode_color(&f[2..14]), a);
    assert_eq!(decode_color(&f[14..26]), b);
}

#[test]
fn query_frame_is_one_byte() {
    assert_eq!(query_frame(), vec![2]);
}

#[test]
fn decode_reply_fields() {
    let mut buf = [0u8; 26];
    buf[0] = 7;
    buf[1..13].copy_from_slice(&float_bytes(&[0.5, 0.5, 0.5]));
    buf[13..25].copy_from_slice(&float_bytes(&[1.0, 0.0, 0.0]));
    buf[25] = 0xaa;
    assert_eq!(
        decode_reply(&buf),
        Reply { pattern: 7, color_a: color(0.5, 0.5, 0.5), color_b: color(1.0, 0.0, 0.0) }
    );
}
