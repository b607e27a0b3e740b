//! Color resolution for terminal cells and the layout of one frame of the
//! terminal grid: which backgrounds to fill, which glyphs to draw in which
//! color, and where the cursor goes.
use vstd::prelude::*;

use crate::ansi::{
    ansi_name, named_slot, CursorShape, NamedColor, Rgb, TermColor, COLOR_COUNT,
};
use crate::theme::{palette_color, Palette};

verus! {

/// The level of one channel of the 6x6x6 color cube.
pub open spec fn cube_level(v: int) -> int {
    if v == 0 {
        0
    } else {
        55 + 40 * v
    }
}

/// The standard 256-color palette entry for indices 16 to 255: a 6x6x6
/// color cube for 16 to 231, a 24-step grayscale ramp for 232 to 255.
pub open spec fn indexed_rgb(idx: u8) -> Rgb
    recommends
        16 <= idx,
{
    if idx < 232 {
        let i: int = idx - 16;
        Rgb {
            r: cube_level(i / 36) as u8,
            g: cube_level((i / 6) % 6) as u8,
            b: cube_level(i % 6) as u8,
        }
    } else {
        let v: int = 8 + 10 * (idx - 232);
        Rgb { r: v as u8, g: v as u8, b: v as u8 }
    }
}

/// The RGB value of a cell color: a direct color is itself; a named or
/// indexed color takes the terminal's override in `colors` where one is
/// set, else the theme's entry (named colors and indices 0 to 15), else
/// the standard 256-color palette.
pub open spec fn term_rgb(color: TermColor, colors: Seq<Option<Rgb>>, palette: Palette) -> Rgb {
    match color {
        TermColor::Spec(c) => c,
        TermColor::Named(name) => match colors[named_slot(name) as int] {
            Some(c) => c,
            None => palette_color(palette, name),
        },
        TermColor::Indexed(idx) => match colors[idx as int] {
            Some(c) => c,
            None => if idx < 16 {
                palette_color(palette, ansi_name(idx))
            } else {
                indexed_rgb(idx)
            },
        },
    }
}

fn cube_value(v: u8) -> (out: u8)
    requires
        v < 6,
    ensures
        out == cube_level(v as int),
{
    if v == 0 {
        0
    } else {
        55 + 40 * v
    }
}

/// Standard 256-color palette lookup for indexed colors 16 to 255.
pub fn indexed_color(idx: u8) -> (c: Rgb)
    requires
        16 <= idx,
    ensures
        c == indexed_rgb(idx),
{
    if idx < 232 {
        let i: u8 = idx - 16;
        let r: u8 = (i / 36) % 6;
        let g: u8 = (i / 6) % 6;
        let b: u8 = i % 6;
        assert(i / 36 < 6);
        return Rgb { r: cube_value(r), g: cube_value(g), b: cube_value(b) };
    }
    let v: u8 = 8 + 10 * (idx - 232);
    Rgb { r: v, g: v, b: v }
}

/// Resolve a terminal color to an RGB triplet, giving the terminal's color
/// overrides priority over the theme palette.
pub fn resolve_term_rgb(color: TermColor, colors: &[Option<Rgb>], palette: Palette) -> (c: Rgb)
    requires
        colors@.len() == COLOR_COUNT,
    ensures
        c == term_rgb(color, colors@, palette),
{
    match color {
        TermColor::Spec(rgb) => rgb,
        TermColor::Named(name) => {
            let idx: usize = name.slot();
            match colors[idx] {
                Some(c) => c,
                None => palette.resolve_named(name),
            }
        },
        TermColor::Indexed(idx) => {
            match colors[idx as usize] {
                Some(c) => c,
                None => {
                    if idx < 16 {
                        palette.resolve_named(NamedColor::from_ansi_index(idx))
                    } else {
                        indexed_color(idx)
                    }
                },
            }
        },
    }
}


proof fn lemma_cube_level_injective(a: int, b: int)
    requires
        0 <= a < 6,
        0 <= b < 6,
        cube_level(a) == cube_level(b),
    ensures
        a == b,
{
}

proof fn lemma_cube_index_digits(i: int)
    requires
        0 <= i < 216,
    ensures
        i == 36 * (i / 36) + 6 * ((i / 6) % 6) + i % 6,
        0 <= i / 36 < 6,
{
}

/// The entries 16 to 255 of the 256-color palette are pairwise distinct
/// colors: no cube color repeats, and no gray of the ramp is a cube color.
pub proof fn lemma_indexed_rgb_injective(a: u8, b: u8)
    requires
        16 <= a,
        16 <= b,
        a != b,
    ensures
        indexed_rgb(a) != indexed_rgb(b),
{
    let ca = indexed_rgb(a);
    let cb = indexed_rgb(b);
    if a < 232 && b < 232 {
        let i: int = a - 16;
        let j: int = b - 16;
        lemma_cube_index_digits(i);
        lemma_cube_index_digits(j);
        if ca == cb {
            lemma_cube_level_injective(i / 36, j / 36);
            lemma_cube_level_injective((i / 6) % 6, (j / 6) % 6);
            lemma_cube_level_injective(i % 6, j % 6);
        }
    } else if a < 232 {
        let i: int = a - 16;
        lemma_cube_index_digits(i);
    } else if b < 232 {
        let j: int = b - 16;
        lemma_cube_index_digits(j);
    }
}

/// A color the terminal has overridden (through an OSC sequence) wins over
/// the theme and the standard palette, for named and indexed colors alike.
pub proof fn lemma_overrides_take_priority(
    color: TermColor,
    colors: Seq<Option<Rgb>>,
    palette: Palette,
    c: Rgb,
)
    requires
        colors.len() == COLOR_COUNT,
    ensures
        color matches TermColor::Named(name) && colors[named_slot(name) as int] == Some(c)
            ==> term_rgb(color, colors, palette) == c,
        color matches TermColor::Indexed(idx) && colors[idx as int] == Some(c) ==> term_rgb(
            color,
            colors,
            palette,
        ) == c,
{
}

/// Indices 0 to 15 of the 256-color palette and the sixteen named ANSI
/// colors resolve to the same RGB value, overrides included.
pub proof fn lemma_low_indices_match_ansi_names(
    idx: u8,
    colors: Seq<Option<Rgb>>,
    palette: Palette,
)
    requires
        idx < 16,
        colors.len() == COLOR_COUNT,
    ensures
        term_rgb(TermColor::Indexed(idx), colors, palette) == term_rgb(
            TermColor::Named(ansi_name(idx)),
            colors,
            palette,
        ),
{
    assert(named_slot(ansi_name(idx)) == idx);
}


/// One cell of the grid as the terminal reports it, with its line already
/// counted from the top of the screen.
#[derive(Debug, Clone, Copy, PartialEq, Eq, Structural)]
pub struct GridCell {
    pub line: usize,
    pub column: usize,
    pub c: char,
    pub fg: TermColor,
    pub bg: TermColor,
    pub inverse: bool,
}

/// A glyph to draw and its color.
#[derive(Debug, Clone, Copy, PartialEq, Eq, Structural)]
pub struct TextCell {
    pub c: char,
    pub fg: Rgb,
}

/// A cell whose background differs from the window's and must be filled.
#[derive(Debug, Clone, Copy, PartialEq, Eq, Structural)]
pub struct BackgroundCell {
    pub line: usize,
    pub column: usize,
    pub color: Rgb,
}

/// Where and in which shape the cursor is drawn.
#[derive(Debug, Clone, Copy, PartialEq, Eq, Structural)]
pub struct CursorMark {
    pub line: usize,
    pub column: usize,
    pub shape: CursorShape,
}

/// What one frame of the terminal grid draws.
pub struct FrameLayout {
    /// Backgrounds to fill, in the order the cells came.
    pub backgrounds: Vec<BackgroundCell>,
    /// For each screen line, its glyphs in the order the cells came.
    pub lines: Vec<Vec<TextCell>>,
    /// The cursor, where it is visible.
    pub cursor: Option<CursorMark>,
}

/// The colors a cell is drawn with, foreground first: swapped for an
/// inverse cell.
pub open spec fn drawn_colors(cell: GridCell) -> (TermColor, TermColor) {
    if cell.inverse {
        (cell.bg, cell.fg)
    } else {
        (cell.fg, cell.bg)
    }
}

/// The glyph a cell shows: a NUL cell shows a blank.
pub open spec fn shown_char(c: char) -> char {
    if c == '\0' {
        ' '
    } else {
        c
    }
}

/// The glyph and color that a cell contributes to its line.
pub open spec fn text_cell(cell: GridCell, colors: Seq<Option<Rgb>>, palette: Palette) -> TextCell {
    TextCell { c: shown_char(cell.c), fg: term_rgb(drawn_colors(cell).0, colors, palette) }
}

/// Whether a cell's drawn background must be filled: it is not the
/// terminal's default background.
pub open spec fn fills_background(cell: GridCell) -> bool {
    drawn_colors(cell).1 != TermColor::Named(NamedColor::Background)
}

/// The glyphs of screen line `line`, from the cells in the order given.
pub open spec fn line_text(
    cells: Seq<GridCell>,
    line: int,
    colors: Seq<Option<Rgb>>,
    palette: Palette,
) -> Seq<TextCell>
    decreases cells.len(),
{
    if cells.len() == 0 {
        Seq::empty()
    } else {
        let prev = line_text(cells.drop_last(), line, colors, palette);
        if cells.last().line == line {
            prev.push(text_cell(cells.last(), colors, palette))
        } else {
            prev
        }
    }
}

/// The backgrounds to fill, from the cells on the screen's `rows` lines,
/// in the order given.
pub open spec fn background_fills(
    cells: Seq<GridCell>,
    rows: nat,
    colors: Seq<Option<Rgb>>,
    palette: Palette,
) -> Seq<BackgroundCell>
    decreases cells.len(),
{
    if cells.len() == 0 {
        Seq::empty()
    } else {
        let prev = background_fills(cells.drop_last(), rows, colors, palette);
        let cell = cells.last();
        if cell.line < rows && fills_background(cell) {
            prev.push(
                BackgroundCell {
                    line: cell.line,
                    column: cell.column,
                    color: term_rgb(drawn_colors(cell).1, colors, palette),
                },
            )
        } else {
            prev
        }
    }
}

/// The cursor as drawn: only on one of the screen's lines and when not
/// hidden.
pub open spec fn drawn_cursor(cursor: CursorMark, rows: nat) -> Option<CursorMark> {
    if cursor.line < rows && cursor.shape != CursorShape::Hidden {
        Some(cursor)
    } else {
        None
    }
}

/// Cells below the screen draw nothing: appending them to a frame's cells
/// changes neither the glyphs of any screen line nor the backgrounds.
pub proof fn lemma_offscreen_cells_draw_nothing(
    cells: Seq<GridCell>,
    extra: Seq<GridCell>,
    rows: nat,
    colors: Seq<Option<Rgb>>,
    palette: Palette,
)
    requires
        forall|i: int| 0 <= i < extra.len() ==> #[trigger] extra[i].line >= rows,
    ensures
        background_fills(cells + extra, rows, colors, palette) == background_fills(
            cells,
            rows,
            colors,
            palette,
        ),
        forall|l: int|
            0 <= l < rows ==> #[trigger] line_text(cells + extra, l, colors, palette) == line_text(
                cells,
                l,
                colors,
                palette,
            ),
    decreases extra.len(),
{
    if extra.len() == 0 {
        assert(cells + extra =~= cells);
    } else {
        let shorter = extra.drop_last();
        assert forall|i: int| 0 <= i < shorter.len() implies #[trigger] shorter[i].line >= rows by {
            assert(shorter[i] == extra[i]);
        }
        lemma_offscreen_cells_draw_nothing(cells, shorter, rows, colors, palette);
        let all = cells + extra;
        assert(all.drop_last() =~= cells + shorter);
        assert(all.last() == extra[extra.len() - 1]);
        assert forall|l: int| 0 <= l < rows implies #[trigger] line_text(all, l, colors, palette)
            == line_text(cells, l, colors, palette) by {
            assert(line_text(all, l, colors, palette) == line_text(cells + shorter, l, colors, palette));
        }
    }
}

/// The cursor is drawn, unchanged and whatever its shape (block,
/// underline, beam or hollow block), exactly when it is on one of the
/// screen's lines and not hidden.
pub proof fn lemma_visible_cursor_is_drawn(cursor: CursorMark, rows: nat)
    ensures
        cursor.line < rows && cursor.shape != CursorShape::Hidden ==> drawn_cursor(cursor, rows)
            == Some(cursor),
        cursor.line >= rows || cursor.shape == CursorShape::Hidden ==> drawn_cursor(cursor, rows)
            is None,
        cursor.shape == CursorShape::Block && cursor.line < rows ==> drawn_cursor(cursor, rows)
            == Some(cursor),
{
}

/// Lay out one frame of a grid with `rows` screen lines: cells below the
/// screen are skipped, the others are split by line, their colors resolved
/// against the overrides and the palette, and the backgrounds that differ
/// from the default collected.
pub fn layout_frame(
    rows: usize,
    cells: &[GridCell],
    colors: &[Option<Rgb>],
    palette: Palette,
    cursor: CursorMark,
) -> (frame: FrameLayout)
    requires
        colors@.len() == COLOR_COUNT,
    ensures
        frame.lines@.len() == rows,
        forall|l: int|
            0 <= l < rows ==> #[trigger] frame.lines@[l]@ == line_text(cells@, l, colors@, palette),
        frame.backgrounds@ == background_fills(cells@, rows as nat, colors@, palette),
        frame.cursor == drawn_cursor(cursor, rows as nat),
        frame.cursor == (if cursor.line < rows && cursor.shape != CursorShape::Hidden {
            Some(cursor)
        } else {
            None
        }),
{
    let mut lines: Vec<Vec<TextCell>> = Vec::new();
    let mut r: usize = 0;
    while r < rows
        invariant
            r <= rows,
            lines@.len() == r,
            forall|l: int| 0 <= l < r ==> #[trigger] lines@[l]@ == Seq::<TextCell>::empty(),
        decreases rows - r,
    {
        lines.push(Vec::new());
        r = r + 1;
    }
    let mut backgrounds: Vec<BackgroundCell> = Vec::new();
    let mut i: usize = 0;
    while i < cells.len()
        invariant
            i <= cells@.len(),
            colors@.len() == COLOR_COUNT,
            lines@.len() == rows,
            forall|l: int|
                0 <= l < rows ==> #[trigger] lines@[l]@ == line_text(
                    cells@.take(i as int),
                    l,
                    colors@,
                    palette,
                ),
            backgrounds@ == background_fills(cells@.take(i as int), rows as nat, colors@, palette),
        decreases cells@.len() - i,
    {
        let cell = cells[i];
        let ghost prefix = cells@.take(i as int);
        let ghost next = cells@.take(i as int + 1);
        assert(next.drop_last() =~= prefix);
        assert(next.last() == cell);
        if cell.line < rows {
            let (fg_color, bg_color) = if cell.inverse {
                (cell.bg, cell.fg)
            } else {
                (cell.fg, cell.bg)
            };
            if bg_color != TermColor::Named(NamedColor::Background) {
                let color = resolve_term_rgb(bg_color, colors, palette);
                backgrounds.push(BackgroundCell { line: cell.line, column: cell.column, color });
            }
            let c = if cell.c == '\0' {
                ' '
            } else {
                cell.c
            };
            let fg = resolve_term_rgb(fg_color, colors, palette);
            let ghost before = lines@;
            lines[cell.line].push(TextCell { c, fg });
            assert forall|l: int| 0 <= l < rows implies #[trigger] lines@[l]@ == line_text(
                next,
                l,
                colors@,
                palette,
            ) by {
                if l != cell.line {
                    assert(lines@[l] == before[l]);
                }
            }
        } else {
            assert forall|l: int| 0 <= l < rows implies #[trigger] lines@[l]@ == line_text(
                next,
                l,
                colors@,
                palette,
            ) by {
                assert(line_text(next, l, colors@, palette) == line_text(prefix, l, colors@, palette));
            }
        }
        i = i + 1;
    }
    assert(cells@.take(cells@.len() as int) =~= cells@);
    let drawn = if cursor.line < rows && cursor.shape != CursorShape::Hidden {
        Some(cursor)
    } else {
        None
    };
    FrameLayout { backgrounds, lines, cursor: drawn }
}

} // verus!
