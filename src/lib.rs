//! Host side of a small binary protocol for an addressable light: the color
//! codec, the wire frames, and the decisions of one command exchange.
//!
//! Colors travel as IEEE-754 single-precision values; this library holds each
//! channel as its 32-bit pattern, so every conversion here is exact.

pub mod args;
pub mod codec;
pub mod frame;
pub mod exchange;
pub mod ports;
