//! Packed 32-bit colors.
//!
//! A `Color` stores four 8-bit channels in one word, most significant
//! byte first: alpha, red, green, blue.

use vstd::prelude::*;

verus! {

/// Order of the packed channels, most significant byte first: alpha,
/// red, green, blue.
#[derive(Clone, Copy, Debug, Hash, PartialEq, Eq, PartialOrd, Structural)]
pub struct Color(pub u32);

/// The packed word holding the four 8-bit channels.
pub open spec fn pack_channels(red: u8, green: u8, blue: u8, alpha: u8) -> u32 {
    ((alpha as u32) << 24) | ((red as u32) << 16) | ((green as u32) << 8) | (blue as u32)
}

/// The 8-bit channel stored at byte `byte` (0 = least significant) of
/// the packed word `word`.
pub open spec fn channel_at(word: u32, byte: u32) -> u8 {
    ((word >> (byte * 8)) & 0xFF) as u8
}

impl Color {
    /// Packs four 8-bit channels into one word.
    pub fn new(red: u8, green: u8, blue: u8, alpha: u8) -> (c: Color)
        ensures
            c.0 == pack_channels(red, green, blue, alpha),
    {
        Color(((alpha as u32) << 24) | ((red as u32) << 16) | ((green as u32) << 8) | (blue as u32))
    }

    /// The red channel of the packed word.
    pub fn red(self) -> (v: u8)
        ensures
            v == channel_at(self.0, 2),
    {
        ((self.0 >> 16) & 0xFF) as u8
    }

    /// The green channel of the packed word.
    pub fn green(self) -> (v: u8)
        ensures
            v == channel_at(self.0, 1),
    {
        ((self.0 >> 8) & 0xFF) as u8
    }

    /// The blue channel of the packed word.
    pub fn blue(self) -> (v: u8)
        ensures
            v == channel_at(self.0, 0),
    {
        let word: u32 = self.0;
        proof {
            assert((word & 0xFF) as u8 == ((word >> 0) & 0xFF) as u8) by (bit_vector);
        }
        (word & 0xFF) as u8
    }

    /// The alpha channel of the packed word.
    pub fn alpha(self) -> (v: u8)
        ensures
            v == channel_at(self.0, 3),
    {
        ((self.0 >> 24) & 0xFF) as u8
    }

    /// Fully transparent black: every channel zero.
    pub fn black_transparent() -> (c: Color)
        ensures
            c.0 == 0x0000_0000u32,
    {
        Color(0x0000_0000)
    }

    /// Opaque black: full alpha, zero color channels.
    pub fn black_opaque() -> (c: Color)
        ensures
            c.0 == 0xFF00_0000u32,
    {
        Color(0xFF00_0000)
    }

    /// Opaque pure red.
    pub fn opaque_red() -> (c: Color)
        ensures
            c.0 == pack_channels(0xFF, 0x00, 0x00, 0xFF),
    {
        proof {
            assert((((0xFFu8 as u32) << 24) | ((0xFFu8 as u32) << 16) | ((0x00u8 as u32) << 8) | (
            0x00u8 as u32)) == 0xFFFF_0000u32) by (bit_vector);
        }
        Color(0xFFFF_0000)
    }

    /// Opaque pure green.
    pub fn opaque_green() -> (c: Color)
        ensures
            c.0 == pack_channels(0x00, 0xFF, 0x00, 0xFF),
    {
        proof {
            assert((((0xFFu8 as u32) << 24) | ((0x00u8 as u32) << 16) | ((0xFFu8 as u32) << 8) | (
            0x00u8 as u32)) == 0xFF00_FF00u32) by (bit_vector);
        }
        Color(0xFF00_FF00)
    }

    /// Opaque pure blue.
    pub fn opaque_blue() -> (c: Color)
        ensures
            c.0 == pack_channels(0x00, 0x00, 0xFF, 0xFF),
    {
        proof {
            assert((((0xFFu8 as u32) << 24) | ((0x00u8 as u32) << 16) | ((0x00u8 as u32) << 8) | (
            0xFFu8 as u32)) == 0xFF00_00FFu32) by (bit_vector);
        }
        Color(0xFF00_00FF)
    }
}

impl Default for Color {
    /// The default color is opaque black.
    fn default() -> (c: Color)
        ensures
            c.0 == 0xFF00_0000u32,
    {
        Color(0xFF00_0000)
    }
}

/// Law: packing four 8-bit channels and reading each one back through
/// its accessor reproduces the packed channels exactly.
pub proof fn lemma_color_round_trip(red: u8, green: u8, blue: u8, alpha: u8)
    ensures
        channel_at(pack_channels(red, green, blue, alpha), 2) == red,
        channel_at(pack_channels(red, green, blue, alpha), 1) == green,
        channel_at(pack_channels(red, green, blue, alpha), 0) == blue,
        channel_at(pack_channels(red, green, blue, alpha), 3) == alpha,
{
    assert((((((alpha as u32) << 24) | ((red as u32) << 16) | ((green as u32) << 8)
        | (blue as u32)) >> 16) & 0xFF) as u8 == red) by (bit_vector);
    assert((((((alpha as u32) << 24) | ((red as u32) << 16) | ((green as u32) << 8)
        | (blue as u32)) >> 8) & 0xFF) as u8 == green) by (bit_vector);
    assert((((((alpha as u32) << 24) | ((red as u32) << 16) | ((green as u32) << 8)
        | (blue as u32)) >> 0) & 0xFF) as u8 == blue) by (bit_vector);
    assert((((((alpha as u32) << 24) | ((red as u32) << 16) | ((green as u32) << 8)
        | (blue as u32)) >> 24) & 0xFF) as u8 == alpha) by (bit_vector);
}

} // verus!
