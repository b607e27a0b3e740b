//! Plain-value models of the ANSI color vocabulary that the terminal state
//! machine reports: 24-bit colors, named colors and cell colors.
use vstd::prelude::*;

verus! {

/// A 24-bit RGB color.
#[derive(Debug, Clone, Copy, PartialEq, Eq, Structural)]
pub struct Rgb {
    pub r: u8,
    pub g: u8,
    pub b: u8,
}

/// Builds an RGB color from its components.
pub fn rgb(r: u8, g: u8, b: u8) -> (c: Rgb)
    ensures
        c == (Rgb { r, g, b }),
{
    Rgb { r, g, b }
}

/// Number of entries in the terminal's table of color overrides.
pub const COLOR_COUNT: usize = 269;

/// A named terminal color: the sixteen ANSI colors, the special
/// foreground/background/cursor colors, and the dim and bright variants.
#[derive(Debug, Clone, Copy, PartialEq, Eq, Structural)]
pub enum NamedColor {
    Black,
    Red,
    Green,
    Yellow,
    Blue,
    Magenta,
    Cyan,
    White,
    BrightBlack,
    BrightRed,
    BrightGreen,
    BrightYellow,
    BrightBlue,
    BrightMagenta,
    BrightCyan,
    BrightWhite,
    Foreground,
    Background,
    Cursor,
    DimBlack,
    DimRed,
    DimGreen,
    DimYellow,
    DimBlue,
    DimMagenta,
    DimCyan,
    DimWhite,
    BrightForeground,
    DimForeground,
}

/// The slot of a named color in the table of color overrides: the sixteen
/// ANSI colors occupy slots 0 to 15, the special colors follow from 256 on.
pub open spec fn named_slot(name: NamedColor) -> nat {
    match name {
        NamedColor::Black => 0,
        NamedColor::Red => 1,
        NamedColor::Green => 2,
        NamedColor::Yellow => 3,
        NamedColor::Blue => 4,
        NamedColor::Magenta => 5,
        NamedColor::Cyan => 6,
        NamedColor::White => 7,
        NamedColor::BrightBlack => 8,
        NamedColor::BrightRed => 9,
        NamedColor::BrightGreen => 10,
        NamedColor::BrightYellow => 11,
        NamedColor::BrightBlue => 12,
        NamedColor::BrightMagenta => 13,
        NamedColor::BrightCyan => 14,
        NamedColor::BrightWhite => 15,
        NamedColor::Foreground => 256,
        NamedColor::Background => 257,
        NamedColor::Cursor => 258,
        NamedColor::DimBlack => 259,
        NamedColor::DimRed => 260,
        NamedColor::DimGreen => 261,
        NamedColor::DimYellow => 262,
        NamedColor::DimBlue => 263,
        NamedColor::DimMagenta => 264,
        NamedColor::DimCyan => 265,
        NamedColor::DimWhite => 266,
        NamedColor::BrightForeground => 267,
        NamedColor::DimForeground => 268,
    }
}

/// The ANSI color with the given index, for indices 0 to 15.
pub open spec fn ansi_name(idx: u8) -> NamedColor
    recommends
        idx < 16,
{
    if idx == 0 {
        NamedColor::Black
    } else if idx == 1 {
        NamedColor::Red
    } else if idx == 2 {
        NamedColor::Green
    } else if idx == 3 {
        NamedColor::Yellow
    } else if idx == 4 {
        NamedColor::Blue
    } else if idx == 5 {
        NamedColor::Magenta
    } else if idx == 6 {
        NamedColor::Cyan
    } else if idx == 7 {
        NamedColor::White
    } else if idx == 8 {
        NamedColor::BrightBlack
    } else if idx == 9 {
        NamedColor::BrightRed
    } else if idx == 10 {
        NamedColor::BrightGreen
    } else if idx == 11 {
        NamedColor::BrightYellow
    } else if idx == 12 {
        NamedColor::BrightBlue
    } else if idx == 13 {
        NamedColor::BrightMagenta
    } else if idx == 14 {
        NamedColor::BrightCyan
    } else {
        NamedColor::BrightWhite
    }
}

impl NamedColor {
    /// The slot of this color in the table of color overrides.
    pub fn slot(self) -> (i: usize)
        ensures
            i == named_slot(self),
            i < COLOR_COUNT,
    {
        match self {
            NamedColor::Black => 0,
            NamedColor::Red => 1,
            NamedColor::Green => 2,
            NamedColor::Yellow => 3,
            NamedColor::Blue => 4,
            NamedColor::Magenta => 5,
            NamedColor::Cyan => 6,
            NamedColor::White => 7,
            NamedColor::BrightBlack => 8,
            NamedColor::BrightRed => 9,
            NamedColor::BrightGreen => 10,
            NamedColor::BrightYellow => 11,
            NamedColor::BrightBlue => 12,
            NamedColor::BrightMagenta => 13,
            NamedColor::BrightCyan => 14,
            NamedColor::BrightWhite => 15,
            NamedColor::Foreground => 256,
            NamedColor::Background => 257,
            NamedColor::Cursor => 258,
            NamedColor::DimBlack => 259,
            NamedColor::DimRed => 260,
            NamedColor::DimGreen => 261,
            NamedColor::DimYellow => 262,
            NamedColor::DimBlue => 263,
            NamedColor::DimMagenta => 264,
            NamedColor::DimCyan => 265,
            NamedColor::DimWhite => 266,
            NamedColor::BrightForeground => 267,
            NamedColor::DimForeground => 268,
        }
    }

    /// The ANSI color with the given index (0 to 15).
    pub fn from_ansi_index(idx: u8) -> (name: NamedColor)
        requires
            idx < 16,
        ensures
            name == ansi_name(idx),
            named_slot(name) == idx,
    {
        match idx {
            0 => NamedColor::Black,
            1 => NamedColor::Red,
            2 => NamedColor::Green,
            3 => NamedColor::Yellow,
            4 => NamedColor::Blue,
            5 => NamedColor::Magenta,
            6 => NamedColor::Cyan,
            7 => NamedColor::White,
            8 => NamedColor::BrightBlack,
            9 => NamedColor::BrightRed,
            10 => NamedColor::BrightGreen,
            11 => NamedColor::BrightYellow,
            12 => NamedColor::BrightBlue,
            13 => NamedColor::BrightMagenta,
            14 => NamedColor::BrightCyan,
            _ => NamedColor::BrightWhite,
        }
    }
}

/// The color of a terminal cell: a named color, a direct 24-bit color, or
/// an index into the 256-color palette.
#[derive(Debug, Clone, Copy, PartialEq, Eq, Structural)]
pub enum TermColor {
    Named(NamedColor),
    Spec(Rgb),
    Indexed(u8),
}

/// The shape in which the cursor is drawn.
#[derive(Debug, Clone, Copy, PartialEq, Eq, Structural)]
pub enum CursorShape {
    Block,
    Underline,
    Beam,
    HollowBlock,
    Hidden,
}

} // verus!
