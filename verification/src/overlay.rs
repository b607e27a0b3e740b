//! What the settings overlay lists: one row per theme, with the selected
//! one marked and six color swatches from its palette.
use vstd::prelude::*;

use crate::ansi::Rgb;
use crate::theme::{theme_palette, Palette, Theme};

verus! {

/// The swatches shown for a palette: red, green, yellow, blue, magenta,
/// cyan.
pub open spec fn swatches_of(p: Palette) -> Seq<Rgb> {
    seq![p.red, p.green, p.yellow, p.blue, p.magenta, p.cyan]
}

/// The color swatches shown next to a theme's name.
pub fn swatch_colors(p: Palette) -> (colors: [Rgb; 6])
    ensures
        colors@ == swatches_of(p),
{
    [p.red, p.green, p.yellow, p.blue, p.magenta, p.cyan]
}

/// One row of the overlay's theme list.
#[derive(Debug, Clone, Copy)]
pub struct ThemeRow {
    pub theme: Theme,
    pub selected: bool,
    pub swatches: [Rgb; 6],
}

/// The overlay's theme list: every theme in order, the current one
/// selected, each with its swatches.
pub fn theme_rows(current: Theme) -> (rows: Vec<ThemeRow>)
    ensures
        rows@.len() == 4,
        forall|i: int|
            0 <= i < 4 ==> {
                let row = #[trigger] rows@[i];
                &&& row.theme == seq![Theme::Dracula, Theme::GruvboxDark, Theme::TokyoNight, Theme::CatppuccinMocha][i]
                &&& row.selected == (row.theme == current)
                &&& row.swatches@ == swatches_of(theme_palette(row.theme))
            },
{
    let all = Theme::ALL;
    assert(all@ =~= seq![Theme::Dracula, Theme::GruvboxDark, Theme::TokyoNight, Theme::CatppuccinMocha]);
    let mut rows: Vec<ThemeRow> = Vec::new();
    let mut i: usize = 0;
    while i < 4
        invariant
            i <= 4,
            all@ == seq![Theme::Dracula, Theme::GruvboxDark, Theme::TokyoNight, Theme::CatppuccinMocha],
            rows@.len() == i,
            forall|k: int|
                0 <= k < i ==> {
                    let row = #[trigger] rows@[k];
                    &&& row.theme == all@[k]
                    &&& row.selected == (row.theme == current)
                    &&& row.swatches@ == swatches_of(theme_palette(row.theme))
                },
        decreases 4 - i,
    {
        let t = all[i];
        rows.push(ThemeRow { theme: t, selected: t == current, swatches: swatch_colors(t.palette()) });
        i = i + 1;
    }
    rows
}

/// The theme after a click on the list: the clicked theme, else the
/// current one.
pub fn select_theme(current: Theme, clicked: Option<Theme>) -> (t: Theme)
    ensures
        t == (match clicked {
            Some(c) => c,
            None => current,
        }),
{
    match clicked {
        Some(c) => c,
        None => current,
    }
}

} // verus!
