use vstd::prelude::*;

verus! {

/// The sixteen colors of the text mode, each a 4-bit index.
#[derive(Clone, Copy, Debug, PartialEq, Eq, Structural)]
pub enum Color {
    Black,
    Blue,
    Green,
    Cyan,
    Red,
    Pink,
    Brown,
    LightGray,
    DarkGray,
    LightBlue,
    LightGreen,
    LightCyan,
    LightRed,
    LightPink,
    Yellow,
    White,
}

/// The standard attribute: green characters on a black background
/// (foreground in the high nibble, background in the low nibble).
pub const CGA_STD_ATTR: u8 = 0x20;

impl Color {
    /// The fixed 4-bit index of a color.
    pub open spec fn index(self) -> u8 {
        match self {
            Color::Black => 0,
            Color::Blue => 1,
            Color::Green => 2,
            Color::Cyan => 3,
            Color::Red => 4,
            Color::Pink => 5,
            Color::Brown => 6,
            Color::LightGray => 7,
            Color::DarkGray => 8,
            Color::LightBlue => 9,
            Color::LightGreen => 10,
            Color::LightCyan => 11,
            Color::LightRed => 12,
            Color::LightPink => 13,
            Color::Yellow => 14,
            Color::White => 15,
        }
    }

    pub fn value(self) -> (r: u8)
        ensures
            r == self.index(),
            r < 16,
    {
        match self {
            Color::Black => 0,
            Color::Blue => 1,
            Color::Green => 2,
            Color::Cyan => 3,
            Color::Red => 4,
            Color::Pink => 5,
            Color::Brown => 6,
            Color::LightGray => 7,
            Color::DarkGray => 8,
            Color::LightBlue => 9,
            Color::LightGreen => 10,
            Color::LightCyan => 11,
            Color::LightRed => 12,
            Color::LightPink => 13,
            Color::Yellow => 14,
            Color::White => 15,
        }
    }
}

/// The attribute byte of a foreground and a background color:
/// foreground in the high nibble, background in the low nibble; the blink
/// hint leaves it as it is.
pub open spec fn attribute_byte(fg: Color, bg: Color, blink: bool) -> u8 {
    (fg.index() * 16 + bg.index()) as u8
}

/// The foreground color index held in an attribute byte.
pub open spec fn foreground_of(b: u8) -> u8 {
    b / 16
}

/// The background color index held in an attribute byte.
pub open spec fn background_of(b: u8) -> u8 {
    b % 16
}

/// Packs `fg` into the high nibble and `bg` into the low nibble.
///
/// With a 4-bit foreground in the high nibble, bit 7 is the foreground's
/// top bit, so `blink` is accepted as a hint and leaves the byte as it is:
/// setting bit 7 would turn a dark foreground into a light one.
pub fn encode_attribute(fg: Color, bg: Color, blink: bool) -> (r: u8)
    ensures
        r == attribute_byte(fg, bg, blink),
        foreground_of(r) == fg.index(),
        background_of(r) == bg.index(),
{
    let f = fg.value();
    let b = bg.value();
    let r: u8 = (f << 4) | b;
    assert((f << 4) | b == f * 16 + b) by (bit_vector)
        requires
            f < 16,
            b < 16,
    ;
    r
}

/// The standard attribute is green on black.
pub proof fn std_attr_is_green_on_black()
    ensures
        CGA_STD_ATTR == attribute_byte(Color::Green, Color::Black, false),
        foreground_of(CGA_STD_ATTR) == Color::Green.index(),
        background_of(CGA_STD_ATTR) == Color::Black.index(),
{
}

/// The encodings with and without the blink hint differ in no bit but
/// bit 7, and both decode to the foreground and background they were made of.
pub proof fn blink_is_cosmetic(fg: Color, bg: Color)
    ensures
        attribute_byte(fg, bg, false) & 0x7f == attribute_byte(fg, bg, true) & 0x7f,
        foreground_of(attribute_byte(fg, bg, false)) == fg.index(),
        background_of(attribute_byte(fg, bg, false)) == bg.index(),
        foreground_of(attribute_byte(fg, bg, true)) == fg.index(),
        background_of(attribute_byte(fg, bg, true)) == bg.index(),
{
}

} // verus!
