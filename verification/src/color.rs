//! The display's fixed palette and its one-byte attribute encoding.

use vstd::prelude::*;

verus! {

/// The sixteen colours of the display's palette.
#[derive(Debug, Clone, Copy, PartialEq, Eq, Structural)]
pub enum Color {
    Black,
    Blue,
    Green,
    Cyan,
    Red,
    Magenta,
    Brown,
    LightGray,
    DarkGray,
    LightBlue,
    LightGreen,
    LightCyan,
    LightRed,
    Pink,
    Yellow,
    White,
}

impl Color {
    /// The colour's four-bit code in the display's encoding.
    pub open spec fn code(self) -> u8 {
        match self {
            Color::Black => 0,
            Color::Blue => 1,
            Color::Green => 2,
            Color::Cyan => 3,
            Color::Red => 4,
            Color::Magenta => 5,
            Color::Brown => 6,
            Color::LightGray => 7,
            Color::DarkGray => 8,
            Color::LightBlue => 9,
            Color::LightGreen => 10,
            Color::LightCyan => 11,
            Color::LightRed => 12,
            Color::Pink => 13,
            Color::Yellow => 14,
            Color::White => 15,
        }
    }

    /// The colour's code as a byte.
    pub fn to_u8(self) -> (code: u8)
        ensures
            code == self.code(),
            code <= 15,
    {
        match self {
            Color::Black => 0,
            Color::Blue => 1,
            Color::Green => 2,
            Color::Cyan => 3,
            Color::Red => 4,
            Color::Magenta => 5,
            Color::Brown => 6,
            Color::LightGray => 7,
            Color::DarkGray => 8,
            Color::LightBlue => 9,
            Color::LightGreen => 10,
            Color::LightCyan => 11,
            Color::LightRed => 12,
            Color::Pink => 13,
            Color::Yellow => 14,
            Color::White => 15,
        }
    }
}

/// An attribute byte: the foreground colour in the low nibble, the
/// background colour in the high nibble.
#[derive(Debug, Clone, Copy, PartialEq, Eq, Structural)]
pub struct ColorCode(pub u8);

impl ColorCode {
    /// The attribute byte of a foreground and a background colour.
    pub open spec fn pack(foreground: Color, background: Color) -> u8 {
        (background.code() << 4) | foreground.code()
    }

    /// Packs a foreground and a background colour into an attribute byte.
    pub fn new(foreground: Color, background: Color) -> (code: ColorCode)
        ensures
            code.0 == Self::pack(foreground, background),
            code.0 == 16 * background.code() + foreground.code(),
            code.0 & 0x0f == foreground.code(),
            code.0 >> 4 == background.code(),
    {
        let fg: u8 = foreground.to_u8();
        let bg: u8 = background.to_u8();
        let packed: u8 = (bg << 4) | fg;
        assert(packed == 16 * bg + fg && packed & 0x0f == fg && packed >> 4 == bg) by (bit_vector)
            requires
                packed == (bg << 4) | fg,
                fg <= 15,
                bg <= 15,
        ;
        ColorCode(packed)
    }
}

impl Default for ColorCode {
    /// White on black.
    fn default() -> (code: ColorCode)
        ensures
            code.0 == 0x0f,
            code.0 == ColorCode::pack(Color::White, Color::Black),
    {
        ColorCode::new(Color::White, Color::Black)
    }
}

} // verus!
