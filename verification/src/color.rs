//! The hardware palette and the attribute byte that packs two of its colours.

use vstd::prelude::*;

verus! {

/// The sixteen colours of the hardware palette, in palette order.
#[derive(Debug, Clone, Copy, PartialEq, Eq, Structural)]
pub enum Color {
    Black,
    Blue,
    Green,
    Cyan,
    Red,
    Magenta,
    Brown,
    LightGray,
    DarkGray,
    LightBlue,
    LightGreen,
    LightCyan,
    LightRed,
    Pink,
    Yellow,
    White,
}

impl Color {
    /// The position of the colour in the palette: `Black` is 0, `White` is 15.
    pub open spec fn spec_index(self) -> u8 {
        match self {
            Color::Black => 0,
            Color::Blue => 1,
            Color::Green => 2,
            Color::Cyan => 3,
            Color::Red => 4,
            Color::Magenta => 5,
            Color::Brown => 6,
            Color::LightGray => 7,
            Color::DarkGray => 8,
            Color::LightBlue => 9,
            Color::LightGreen => 10,
            Color::LightCyan => 11,
            Color::LightRed => 12,
            Color::Pink => 13,
            Color::Yellow => 14,
            Color::White => 15,
        }
    }

    /// The position of the colour in the palette.
    #[verifier::when_used_as_spec(spec_index)]
    pub fn index(self) -> (n: u8)
        ensures
            n == self.spec_index(),
            n < 16,
    {
        match self {
            Color::Black => 0,
            Color::Blue => 1,
            Color::Green => 2,
            Color::Cyan => 3,
            Color::Red => 4,
            Color::Magenta => 5,
            Color::Brown => 6,
            Color::LightGray => 7,
            Color::DarkGray => 8,
            Color::LightBlue => 9,
            Color::LightGreen => 10,
            Color::LightCyan => 11,
            Color::LightRed => 12,
            Color::Pink => 13,
            Color::Yellow => 14,
            Color::White => 15,
        }
    }
}

/// An attribute byte: the background colour in the high four bits, the
/// foreground colour in the low four. Every byte is a valid attribute.
#[derive(Debug, Clone, Copy, PartialEq, Eq, Structural)]
pub struct ColorCode(u8);

impl ColorCode {
    /// The attribute as the byte that the hardware reads.
    pub closed spec fn spec_bits(self) -> u8 {
        self.0
    }

    /// The palette index of the foreground colour.
    pub open spec fn foreground(self) -> u8 {
        self.bits() % 16
    }

    /// The palette index of the background colour.
    pub open spec fn background(self) -> u8 {
        self.bits() / 16
    }

    /// The attribute with a given foreground and background colour.
    pub open spec fn spec_new(foreground: Color, background: Color) -> ColorCode {
        ColorCode::spec_from_bits((16 * background.index() + foreground.index()) as u8)
    }

    /// Packs a foreground and a background colour into one attribute.
    #[verifier::when_used_as_spec(spec_new)]
    pub fn new(foreground: Color, background: Color) -> (code: ColorCode)
        ensures
            code == ColorCode::spec_new(foreground, background),
            code.bits() == 16 * background.index() + foreground.index(),
            code.bits() == (background.index() << 4) | foreground.index(),
            code.foreground() == foreground.index(),
            code.background() == background.index(),
    {
        let low: u8 = foreground.index();
        let high: u8 = background.index();
        assert((high << 4) | low == 16 * high + low) by (bit_vector)
            requires
                low < 16,
                high < 16,
        ;
        ColorCode((high << 4) | low)
    }

    /// The attribute that a given byte encodes.
    pub closed spec fn spec_from_bits(bits: u8) -> ColorCode {
        ColorCode(bits)
    }

    /// The attribute that a given byte encodes.
    #[verifier::when_used_as_spec(spec_from_bits)]
    pub fn from_bits(bits: u8) -> (code: ColorCode)
        ensures
            code == ColorCode::spec_from_bits(bits),
            code.bits() == bits,
    {
        ColorCode(bits)
    }

    /// The attribute as the byte that the hardware reads.
    #[verifier::when_used_as_spec(spec_bits)]
    pub fn bits(self) -> (bits: u8)
        ensures
            bits == self.spec_bits(),
        no_unwind
    {
        self.0
    }
}

/// The attribute that a byte encodes has that byte.
pub proof fn lemma_from_bits_bits(bits: u8)
    ensures
        ColorCode::spec_from_bits(bits).bits() == bits,
{
}

/// An attribute is the one that its byte encodes.
pub proof fn lemma_bits_from_bits(code: ColorCode)
    ensures
        ColorCode::spec_from_bits(code.bits()) == code,
{
}

} // verus!
