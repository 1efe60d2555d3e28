//! Colours, carried bit for bit.

use vstd::prelude::*;

verus! {

/// The IEEE 754 binary64 pattern of the number zero.
pub const CHANNEL_ZERO: u64 = 0;

/// The IEEE 754 binary64 pattern of the number one.
pub const CHANNEL_ONE: u64 = 0x3FF0_0000_0000_0000;

/// Four colour channels: red, green, blue and alpha.
///
/// The layer never computes with a colour, it only hands it on. Each
/// channel is therefore stored as the IEEE 754 binary64 bit pattern of
/// its value, which loses nothing. Channels are conventionally in the
/// range zero to one; nothing here clamps them.
#[derive(Clone, Copy, Debug, PartialEq, Eq, Structural)]
pub struct Color {
    pub r: u64,
    pub g: u64,
    pub b: u64,
    pub a: u64,
}

impl Color {
    /// The opaque colour with the given three channels.
    pub open spec fn opaque(r: u64, g: u64, b: u64) -> Color {
        Color { r, g, b, a: CHANNEL_ONE }
    }

    /// A colour from the bit patterns of its four channels.
    pub fn from_bits(r: u64, g: u64, b: u64, a: u64) -> (c: Color)
        ensures
            c == (Color { r, g, b, a }),
    {
        Color { r, g, b, a }
    }

    /// Opaque white: every channel is one.
    pub fn white() -> (c: Color)
        ensures
            c == Color::opaque(CHANNEL_ONE, CHANNEL_ONE, CHANNEL_ONE),
    {
        Color { r: CHANNEL_ONE, g: CHANNEL_ONE, b: CHANNEL_ONE, a: CHANNEL_ONE }
    }

    /// Opaque black.
    pub fn black() -> (c: Color)
        ensures
            c == Color::opaque(CHANNEL_ZERO, CHANNEL_ZERO, CHANNEL_ZERO),
    {
        Color { r: CHANNEL_ZERO, g: CHANNEL_ZERO, b: CHANNEL_ZERO, a: CHANNEL_ONE }
    }

    /// Opaque red.
    pub fn red() -> (c: Color)
        ensures
            c == Color::opaque(CHANNEL_ONE, CHANNEL_ZERO, CHANNEL_ZERO),
    {
        Color { r: CHANNEL_ONE, g: CHANNEL_ZERO, b: CHANNEL_ZERO, a: CHANNEL_ONE }
    }

    /// Opaque green.
    pub fn green() -> (c: Color)
        ensures
            c == Color::opaque(CHANNEL_ZERO, CHANNEL_ONE, CHANNEL_ZERO),
    {
        Color { r: CHANNEL_ZERO, g: CHANNEL_ONE, b: CHANNEL_ZERO, a: CHANNEL_ONE }
    }

    /// Opaque blue.
    pub fn blue() -> (c: Color)
        ensures
            c == Color::opaque(CHANNEL_ZERO, CHANNEL_ZERO, CHANNEL_ONE),
    {
        Color { r: CHANNEL_ZERO, g: CHANNEL_ZERO, b: CHANNEL_ONE, a: CHANNEL_ONE }
    }

    /// Fully transparent black: every channel is zero.
    pub fn transparent() -> (c: Color)
        ensures
            c == (Color { r: CHANNEL_ZERO, g: CHANNEL_ZERO, b: CHANNEL_ZERO, a: CHANNEL_ZERO }),
    {
        Color { r: CHANNEL_ZERO, g: CHANNEL_ZERO, b: CHANNEL_ZERO, a: CHANNEL_ZERO }
    }
}

} // verus!
