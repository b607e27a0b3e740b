//! Color themes: the four built-in palettes and the mapping from named
//! terminal colors to the palette's entries.
use vstd::prelude::*;

use crate::ansi::{NamedColor, Rgb};

verus! {

/// A terminal color theme.
#[derive(Debug, Clone, Copy, PartialEq, Eq, Structural)]
pub enum Theme {
    Dracula,
    GruvboxDark,
    TokyoNight,
    CatppuccinMocha,
}

/// The sixteen ANSI colors plus foreground, background and cursor.
#[derive(Debug, Clone, Copy, PartialEq, Eq, Structural)]
pub struct Palette {
    pub foreground: Rgb,
    pub background: Rgb,
    pub cursor: Rgb,
    pub black: Rgb,
    pub red: Rgb,
    pub green: Rgb,
    pub yellow: Rgb,
    pub blue: Rgb,
    pub magenta: Rgb,
    pub cyan: Rgb,
    pub white: Rgb,
    pub bright_black: Rgb,
    pub bright_red: Rgb,
    pub bright_green: Rgb,
    pub bright_yellow: Rgb,
    pub bright_blue: Rgb,
    pub bright_magenta: Rgb,
    pub bright_cyan: Rgb,
    pub bright_white: Rgb,
}

/// The display name of a theme.
pub open spec fn theme_name(t: Theme) -> Seq<char> {
    match t {
        Theme::Dracula => "Dracula"@,
        Theme::GruvboxDark => "Gruvbox Dark"@,
        Theme::TokyoNight => "Tokyo Night"@,
        Theme::CatppuccinMocha => "Catppuccin Mocha"@,
    }
}

/// The palette of a theme.
pub open spec fn theme_palette(t: Theme) -> Palette {
    match t {
        Theme::Dracula => dracula_palette(),
        Theme::GruvboxDark => gruvbox_dark_palette(),
        Theme::TokyoNight => tokyo_night_palette(),
        Theme::CatppuccinMocha => catppuccin_mocha_palette(),
    }
}

/// The entry of a palette that a named color stands for: each ANSI color
/// and the foreground and background have their own entry, every other
/// named color falls back to the foreground.
pub open spec fn palette_color(p: Palette, name: NamedColor) -> Rgb {
    match name {
        NamedColor::Black => p.black,
        NamedColor::Red => p.red,
        NamedColor::Green => p.green,
        NamedColor::Yellow => p.yellow,
        NamedColor::Blue => p.blue,
        NamedColor::Magenta => p.magenta,
        NamedColor::Cyan => p.cyan,
        NamedColor::White => p.white,
        NamedColor::BrightBlack => p.bright_black,
        NamedColor::BrightRed => p.bright_red,
        NamedColor::BrightGreen => p.bright_green,
        NamedColor::BrightYellow => p.bright_yellow,
        NamedColor::BrightBlue => p.bright_blue,
        NamedColor::BrightMagenta => p.bright_magenta,
        NamedColor::BrightCyan => p.bright_cyan,
        NamedColor::BrightWhite => p.bright_white,
        NamedColor::Foreground => p.foreground,
        NamedColor::Background => p.background,
        _ => p.foreground,
    }
}

impl Theme {
    /// Every theme, in the order the settings overlay lists them.
    pub const ALL: [Theme; 4] = [Theme::Dracula, Theme::GruvboxDark, Theme::TokyoNight, Theme::CatppuccinMocha];

    /// The display name of the theme.
    pub fn name(self) -> (name: &'static str)
        ensures
            name@ == theme_name(self),
    {
        match self {
            Theme::Dracula => "Dracula",
            Theme::GruvboxDark => "Gruvbox Dark",
            Theme::TokyoNight => "Tokyo Night",
            Theme::CatppuccinMocha => "Catppuccin Mocha",
        }
    }

    /// The palette of the theme.
    pub fn palette(self) -> (p: Palette)
        ensures
            p == theme_palette(self),
    {
        match self {
            Theme::Dracula => Palette {
                foreground: Rgb { r: 248, g: 248, b: 242 },
                background: Rgb { r: 40, g: 42, b: 54 },
                cursor: Rgb { r: 248, g: 248, b: 242 },
                black: Rgb { r: 33, g: 34, b: 44 },
                red: Rgb { r: 255, g: 85, b: 85 },
                green: Rgb { r: 80, g: 250, b: 123 },
                yellow: Rgb { r: 241, g: 250, b: 140 },
                blue: Rgb { r: 98, g: 114, b: 164 },
                magenta: Rgb { r: 255, g: 121, b: 198 },
                cyan: Rgb { r: 139, g: 233, b: 253 },
                white: Rgb { r: 248, g: 248, b: 242 },
                bright_black: Rgb { r: 98, g: 114, b: 164 },
                bright_red: Rgb { r: 255, g: 110, b: 110 },
                bright_green: Rgb { r: 105, g: 255, b: 148 },
                bright_yellow: Rgb { r: 255, g: 255, b: 165 },
                bright_blue: Rgb { r: 123, g: 139, b: 189 },
                bright_magenta: Rgb { r: 255, g: 146, b: 223 },
                bright_cyan: Rgb { r: 164, g: 255, b: 255 },
                bright_white: Rgb { r: 255, g: 255, b: 255 },
            },
            Theme::GruvboxDark => Palette {
                foreground: Rgb { r: 235, g: 219, b: 178 },
                background: Rgb { r: 40, g: 40, b: 40 },
                cursor: Rgb { r: 235, g: 219, b: 178 },
                black: Rgb { r: 40, g: 40, b: 40 },
                red: Rgb { r: 204, g: 36, b: 29 },
                green: Rgb { r: 152, g: 151, b: 26 },
                yellow: Rgb { r: 215, g: 153, b: 33 },
                blue: Rgb { r: 69, g: 133, b: 136 },
                magenta: Rgb { r: 177, g: 98, b: 134 },
                cyan: Rgb { r: 104, g: 157, b: 106 },
                white: Rgb { r: 168, g: 153, b: 132 },
                bright_black: Rgb { r: 146, g: 131, b: 116 },
                bright_red: Rgb { r: 251, g: 73, b: 52 },
                bright_green: Rgb { r: 184, g: 187, b: 38 },
                bright_yellow: Rgb { r: 250, g: 189, b: 47 },
                bright_blue: Rgb { r: 131, g: 165, b: 152 },
                bright_magenta: Rgb { r: 211, g: 134, b: 155 },
                bright_cyan: Rgb { r: 142, g: 192, b: 124 },
                bright_white: Rgb { r: 235, g: 219, b: 178 },
            },
            Theme::TokyoNight => Palette {
                foreground: Rgb { r: 192, g: 202, b: 245 },
                background: Rgb { r: 26, g: 27, b: 38 },
                cursor: Rgb { r: 192, g: 202, b: 245 },
                black: Rgb { r: 21, g: 22, b: 30 },
                red: Rgb { r: 247, g: 118, b: 142 },
                green: Rgb { r: 158, g: 206, b: 106 },
                yellow: Rgb { r: 224, g: 175, b: 104 },
                blue: Rgb { r: 122, g: 162, b: 247 },
                magenta: Rgb { r: 187, g: 154, b: 247 },
                cyan: Rgb { r: 125, g: 207, b: 255 },
                white: Rgb { r: 169, g: 177, b: 214 },
                bright_black: Rgb { r: 65, g: 72, b: 104 },
                bright_red: Rgb { r: 247, g: 118, b: 142 },
                bright_green: Rgb { r: 158, g: 206, b: 106 },
                bright_yellow: Rgb { r: 224, g: 175, b: 104 },
                bright_blue: Rgb { r: 122, g: 162, b: 247 },
                bright_magenta: Rgb { r: 187, g: 154, b: 247 },
                bright_cyan: Rgb { r: 125, g: 207, b: 255 },
                bright_white: Rgb { r: 192, g: 202, b: 245 },
            },
            Theme::CatppuccinMocha => Palette {
                foreground: Rgb { r: 205, g: 214, b: 244 },
                background: Rgb { r: 30, g: 30, b: 46 },
                cursor: Rgb { r: 245, g: 224, b: 220 },
                black: Rgb { r: 69, g: 71, b: 90 },
                red: Rgb { r: 243, g: 139, b: 168 },
                green: Rgb { r: 166, g: 227, b: 161 },
                yellow: Rgb { r: 249, g: 226, b: 175 },
                blue: Rgb { r: 137, g: 180, b: 250 },
                magenta: Rgb { r: 245, g: 194, b: 231 },
                cyan: Rgb { r: 148, g: 226, b: 213 },
                white: Rgb { r: 186, g: 194, b: 222 },
                bright_black: Rgb { r: 88, g: 91, b: 112 },
                bright_red: Rgb { r: 243, g: 139, b: 168 },
                bright_green: Rgb { r: 166, g: 227, b: 161 },
                bright_yellow: Rgb { r: 249, g: 226, b: 175 },
                bright_blue: Rgb { r: 137, g: 180, b: 250 },
                bright_magenta: Rgb { r: 245, g: 194, b: 231 },
                bright_cyan: Rgb { r: 148, g: 226, b: 213 },
                bright_white: Rgb { r: 205, g: 214, b: 244 },
            },
        }
    }
}

impl Palette {
    /// Resolve a named terminal color to an RGB value.
    pub fn resolve_named(self, name: NamedColor) -> (c: Rgb)
        ensures
            c == palette_color(self, name),
            name == NamedColor::Black ==> c == self.black,
            name == NamedColor::Red ==> c == self.red,
            name == NamedColor::Green ==> c == self.green,
            name == NamedColor::Yellow ==> c == self.yellow,
            name == NamedColor::Blue ==> c == self.blue,
            name == NamedColor::Magenta ==> c == self.magenta,
            name == NamedColor::Cyan ==> c == self.cyan,
            name == NamedColor::White ==> c == self.white,
            name == NamedColor::BrightBlack ==> c == self.bright_black,
            name == NamedColor::BrightRed ==> c == self.bright_red,
            name == NamedColor::BrightGreen ==> c == self.bright_green,
            name == NamedColor::BrightYellow ==> c == self.bright_yellow,
            name == NamedColor::BrightBlue ==> c == self.bright_blue,
            name == NamedColor::BrightMagenta ==> c == self.bright_magenta,
            name == NamedColor::BrightCyan ==> c == self.bright_cyan,
            name == NamedColor::BrightWhite ==> c == self.bright_white,
            name == NamedColor::Foreground ==> c == self.foreground,
            name == NamedColor::Background ==> c == self.background,
            !(name == NamedColor::Black || name == NamedColor::Red || name == NamedColor::Green || name == NamedColor::Yellow || name == NamedColor::Blue || name == NamedColor::Magenta || name == NamedColor::Cyan || name == NamedColor::White || name == NamedColor::BrightBlack || name == NamedColor::BrightRed || name == NamedColor::BrightGreen || name == NamedColor::BrightYellow || name == NamedColor::BrightBlue || name == NamedColor::BrightMagenta || name == NamedColor::BrightCyan || name == NamedColor::BrightWhite || name == NamedColor::Foreground || name == NamedColor::Background) ==> c == self.foreground,
    {
        match name {
            NamedColor::Black => self.black,
            NamedColor::Red => self.red,
            NamedColor::Green => self.green,
            NamedColor::Yellow => self.yellow,
            NamedColor::Blue => self.blue,
            NamedColor::Magenta => self.magenta,
            NamedColor::Cyan => self.cyan,
            NamedColor::White => self.white,
            NamedColor::BrightBlack => self.bright_black,
            NamedColor::BrightRed => self.bright_red,
            NamedColor::BrightGreen => self.bright_green,
            NamedColor::BrightYellow => self.bright_yellow,
            NamedColor::BrightBlue => self.bright_blue,
            NamedColor::BrightMagenta => self.bright_magenta,
            NamedColor::BrightCyan => self.bright_cyan,
            NamedColor::BrightWhite => self.bright_white,
            NamedColor::Foreground => self.foreground,
            NamedColor::Background => self.background,
            _ => self.foreground,
        }
    }
}

/// Each of the sixteen ANSI colors and the foreground and background take
/// the palette entry of the same name; every other named color (cursor,
/// dim and bright foreground variants) takes the foreground.
pub proof fn lemma_named_colors_take_their_entry(p: Palette)
    ensures
        palette_color(p, NamedColor::Black) == p.black,
        palette_color(p, NamedColor::Red) == p.red,
        palette_color(p, NamedColor::Green) == p.green,
        palette_color(p, NamedColor::Yellow) == p.yellow,
        palette_color(p, NamedColor::Blue) == p.blue,
        palette_color(p, NamedColor::Magenta) == p.magenta,
        palette_color(p, NamedColor::Cyan) == p.cyan,
        palette_color(p, NamedColor::White) == p.white,
        palette_color(p, NamedColor::BrightBlack) == p.bright_black,
        palette_color(p, NamedColor::BrightRed) == p.bright_red,
        palette_color(p, NamedColor::BrightGreen) == p.bright_green,
        palette_color(p, NamedColor::BrightYellow) == p.bright_yellow,
        palette_color(p, NamedColor::BrightBlue) == p.bright_blue,
        palette_color(p, NamedColor::BrightMagenta) == p.bright_magenta,
        palette_color(p, NamedColor::BrightCyan) == p.bright_cyan,
        palette_color(p, NamedColor::BrightWhite) == p.bright_white,
        palette_color(p, NamedColor::Foreground) == p.foreground,
        palette_color(p, NamedColor::Background) == p.background,
        palette_color(p, NamedColor::Cursor) == p.foreground,
        palette_color(p, NamedColor::DimBlack) == p.foreground,
        palette_color(p, NamedColor::DimRed) == p.foreground,
        palette_color(p, NamedColor::DimGreen) == p.foreground,
        palette_color(p, NamedColor::DimYellow) == p.foreground,
        palette_color(p, NamedColor::DimBlue) == p.foreground,
        palette_color(p, NamedColor::DimMagenta) == p.foreground,
        palette_color(p, NamedColor::DimCyan) == p.foreground,
        palette_color(p, NamedColor::DimWhite) == p.foreground,
        palette_color(p, NamedColor::BrightForeground) == p.foreground,
        palette_color(p, NamedColor::DimForeground) == p.foreground,
{
}

/// Different themes have different display names.
pub proof fn lemma_theme_names_distinct(a: Theme, b: Theme)
    requires
        a != b,
    ensures
        theme_name(a) != theme_name(b),
{
    reveal_strlit("Dracula");
    reveal_strlit("Gruvbox Dark");
    reveal_strlit("Tokyo Night");
    reveal_strlit("Catppuccin Mocha");
    assert(theme_name(a).len() != theme_name(b).len() || theme_name(a)[0] != theme_name(b)[0]);
}

/// The Dracula palette (https://draculatheme.com/contribute).
pub open spec fn dracula_palette() -> Palette {
    Palette {
        foreground: Rgb { r: 248, g: 248, b: 242 },
        background: Rgb { r: 40, g: 42, b: 54 },
        cursor: Rgb { r: 248, g: 248, b: 242 },
        black: Rgb { r: 33, g: 34, b: 44 },
        red: Rgb { r: 255, g: 85, b: 85 },
        green: Rgb { r: 80, g: 250, b: 123 },
        yellow: Rgb { r: 241, g: 250, b: 140 },
        blue: Rgb { r: 98, g: 114, b: 164 },
        magenta: Rgb { r: 255, g: 121, b: 198 },
        cyan: Rgb { r: 139, g: 233, b: 253 },
        white: Rgb { r: 248, g: 248, b: 242 },
        bright_black: Rgb { r: 98, g: 114, b: 164 },
        bright_red: Rgb { r: 255, g: 110, b: 110 },
        bright_green: Rgb { r: 105, g: 255, b: 148 },
        bright_yellow: Rgb { r: 255, g: 255, b: 165 },
        bright_blue: Rgb { r: 123, g: 139, b: 189 },
        bright_magenta: Rgb { r: 255, g: 146, b: 223 },
        bright_cyan: Rgb { r: 164, g: 255, b: 255 },
        bright_white: Rgb { r: 255, g: 255, b: 255 },
    }
}

/// The Gruvbox Dark palette (https://github.com/morhetz/gruvbox).
pub open spec fn gruvbox_dark_palette() -> Palette {
    Palette {
        foreground: Rgb { r: 235, g: 219, b: 178 },
        background: Rgb { r: 40, g: 40, b: 40 },
        cursor: Rgb { r: 235, g: 219, b: 178 },
        black: Rgb { r: 40, g: 40, b: 40 },
        red: Rgb { r: 204, g: 36, b: 29 },
        green: Rgb { r: 152, g: 151, b: 26 },
        yellow: Rgb { r: 215, g: 153, b: 33 },
        blue: Rgb { r: 69, g: 133, b: 136 },
        magenta: Rgb { r: 177, g: 98, b: 134 },
        cyan: Rgb { r: 104, g: 157, b: 106 },
        white: Rgb { r: 168, g: 153, b: 132 },
        bright_black: Rgb { r: 146, g: 131, b: 116 },
        bright_red: Rgb { r: 251, g: 73, b: 52 },
        bright_green: Rgb { r: 184, g: 187, b: 38 },
        bright_yellow: Rgb { r: 250, g: 189, b: 47 },
        bright_blue: Rgb { r: 131, g: 165, b: 152 },
        bright_magenta: Rgb { r: 211, g: 134, b: 155 },
        bright_cyan: Rgb { r: 142, g: 192, b: 124 },
        bright_white: Rgb { r: 235, g: 219, b: 178 },
    }
}

/// The Tokyo Night palette (https://github.com/enkia/tokyo-night-vscode-theme).
pub open spec fn tokyo_night_palette() -> Palette {
    Palette {
        foreground: Rgb { r: 192, g: 202, b: 245 },
        background: Rgb { r: 26, g: 27, b: 38 },
        cursor: Rgb { r: 192, g: 202, b: 245 },
        black: Rgb { r: 21, g: 22, b: 30 },
        red: Rgb { r: 247, g: 118, b: 142 },
        green: Rgb { r: 158, g: 206, b: 106 },
        yellow: Rgb { r: 224, g: 175, b: 104 },
        blue: Rgb { r: 122, g: 162, b: 247 },
        magenta: Rgb { r: 187, g: 154, b: 247 },
        cyan: Rgb { r: 125, g: 207, b: 255 },
        white: Rgb { r: 169, g: 177, b: 214 },
        bright_black: Rgb { r: 65, g: 72, b: 104 },
        bright_red: Rgb { r: 247, g: 118, b: 142 },
        bright_green: Rgb { r: 158, g: 206, b: 106 },
        bright_yellow: Rgb { r: 224, g: 175, b: 104 },
        bright_blue: Rgb { r: 122, g: 162, b: 247 },
        bright_magenta: Rgb { r: 187, g: 154, b: 247 },
        bright_cyan: Rgb { r: 125, g: 207, b: 255 },
        bright_white: Rgb { r: 192, g: 202, b: 245 },
    }
}

/// The Catppuccin Mocha palette (https://github.com/catppuccin/catppuccin).
pub open spec fn catppuccin_mocha_palette() -> Palette {
    Palette {
        foreground: Rgb { r: 205, g: 214, b: 244 },
        background: Rgb { r: 30, g: 30, b: 46 },
        cursor: Rgb { r: 245, g: 224, b: 220 },
        black: Rgb { r: 69, g: 71, b: 90 },
        red: Rgb { r: 243, g: 139, b: 168 },
        green: Rgb { r: 166, g: 227, b: 161 },
        yellow: Rgb { r: 249, g: 226, b: 175 },
        blue: Rgb { r: 137, g: 180, b: 250 },
        magenta: Rgb { r: 245, g: 194, b: 231 },
        cyan: Rgb { r: 148, g: 226, b: 213 },
        white: Rgb { r: 186, g: 194, b: 222 },
        bright_black: Rgb { r: 88, g: 91, b: 112 },
        bright_red: Rgb { r: 243, g: 139, b: 168 },
        bright_green: Rgb { r: 166, g: 227, b: 161 },
        bright_yellow: Rgb { r: 249, g: 226, b: 175 },
        bright_blue: Rgb { r: 137, g: 180, b: 250 },
        bright_magenta: Rgb { r: 245, g: 194, b: 231 },
        bright_cyan: Rgb { r: 148, g: 226, b: 213 },
        bright_white: Rgb { r: 205, g: 214, b: 244 },
    }
}

} // verus!
