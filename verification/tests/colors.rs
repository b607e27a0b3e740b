use std::collections::HashSet;

use tvterm::ansi::{rgb, CursorShape, NamedColor, Rgb, TermColor, COLOR_COUNT};
use tvterm::overlay::{select_theme, swatch_colors, theme_rows};
use tvterm::text::{indexed_color, layout_frame, resolve_term_rgb, CursorMark, GridCell, TextCell};
use tvterm::theme::Theme;

fn no_overrides() -> Vec<Option<Rgb>> {
    vec![None; COLOR_COUNT]
}

#[test]
fn theme_names() {
    assert_eq!(Theme::Dracula.name(), "Dracula");
    assert_eq!(Theme::GruvboxDark.name(), "Gruvbox Dark");
    assert_eq!(Theme::TokyoNight.name(), "Tokyo Night");
    assert_eq!(Theme::CatppuccinMocha.name(), "Catppuccin Mocha");
}

#[test]
fn theme_names_are_distinct() {
    let names: HashSet<&str> = Theme::ALL.iter().map(|t| t.name()).collect();
    assert_eq!(names.len(), 4);
}

#[test]
fn all_themes_in_order() {
    assert_eq!(
        Theme::ALL,
        [Theme::Dracula, Theme::GruvboxDark, Theme::TokyoNight, Theme::CatppuccinMocha]
    );
}

#[test]
fn palettes_hold_their_colors() {
    let d = Theme::Dracula.palette();
    assert_eq!(d.red, rgb(255, 85, 85));
    assert_eq!(d.background, rgb(40, 42, 54));
    let g = Theme::GruvboxDark.palette();
    assert_eq!(g.bright_yellow, rgb(250, 189, 47));
    let t = Theme::TokyoNight.palette();
    assert_eq!(t.bright_black, rgb(65, 72, 104));
    let c = Theme::CatppuccinMocha.palette();
    assert_eq!(c.cursor, rgb(245, 224, 220));
    assert_eq!(c.foreground, rgb(205, 214, 244));
}

#[test]
fn resolve_named_maps_each_entry() {
    let p = Theme::CatppuccinMocha.palette();
    assert_eq!(p.resolve_named(NamedColor::Black), p.black);
    assert_eq!(p.resolve_named(NamedColor::BrightWhite), p.bright_white);
    assert_eq!(p.resolve_named(NamedColor::Background), p.background);
    assert_eq!(p.resolve_named(NamedColor::Foreground), p.foreground);
}

#[test]
fn resolve_named_falls_back_to_foreground() {
    let p = Theme::CatppuccinMocha.palette();
    assert_ne!(p.cursor, p.foreground);
    assert_eq!(p.resolve_named(NamedColor::Cursor), p.foreground);
    assert_eq!(p.resolve_named(NamedColor::DimRed), p.foreground);
    assert_eq!(p.resolve_named(NamedColor::BrightForeground), p.foreground);
}

#[test]
fn named_color_slots() {
    assert_eq!(NamedColor::Black.slot(), 0);
    assert_eq!(NamedColor::BrightWhite.slot(), 15);
    assert_eq!(NamedColor::Foreground.slot(), 256);
    assert_eq!(NamedColor::Background.slot(), 257);
    assert_eq!(NamedColor::DimForeground.slot(), 268);
    assert_eq!(NamedColor::from_ansi_index(9), NamedColor::BrightRed);
}

#[test]
fn indexed_color_cube_and_ramp() {
    assert_eq!(indexed_color(16), rgb(0, 0, 0));
    assert_eq!(indexed_color(21), rgb(0, 0, 255));
    assert_eq!(indexed_color(196), rgb(255, 0, 0));
    assert_eq!(indexed_color(110), rgb(135, 175, 215));
    assert_eq!(indexed_color(231), rgb(255, 255, 255));
    assert_eq!(indexed_color(232), rgb(8, 8, 8));
    assert_eq!(indexed_color(244), rgb(128, 128, 128));
    assert_eq!(indexed_color(255), rgb(238, 238, 238));
}

#[test]
fn indexed_colors_are_distinct() {
    let all: HashSet<(u8, u8, u8)> = (16..=255u8)
        .map(|i| {
            let c = indexed_color(i);
            (c.r, c.g, c.b)
        })
        .collect();
    assert_eq!(all.len(), 240);
}

#[test]
fn resolve_direct_color() {
    let p = Theme::Dracula.palette();
    let c = rgb(1, 2, 3);
    assert_eq!(resolve_term_rgb(TermColor::Spec(c), &no_overrides(), p), c);
}

#[test]
fn resolve_uses_palette_and_cube() {
    let p = Theme::Dracula.palette();
    let colors = no_overrides();
    assert_eq!(resolve_term_rgb(TermColor::Named(NamedColor::Green), &colors, p), p.green);
    assert_eq!(resolve_term_rgb(TermColor::Indexed(1), &colors, p), p.red);
    assert_eq!(resolve_term_rgb(TermColor::Indexed(100), &colors, p), indexed_color(100));
}

#[test]
fn resolve_overrides_take_priority() {
    let p = Theme::Dracula.palette();
    let mut colors = no_overrides();
    colors[257] = Some(rgb(9, 9, 9));
    colors[3] = Some(rgb(7, 7, 7));
    colors[200] = Some(rgb(5, 5, 5));
    assert_eq!(resolve_term_rgb(TermColor::Named(NamedColor::Background), &colors, p), rgb(9, 9, 9));
    assert_eq!(resolve_term_rgb(TermColor::Indexed(3), &colors, p), rgb(7, 7, 7));
    assert_eq!(resolve_term_rgb(TermColor::Named(NamedColor::Yellow), &colors, p), rgb(7, 7, 7));
    assert_eq!(resolve_term_rgb(TermColor::Indexed(200), &colors, p), rgb(5, 5, 5));
}

#[test]
fn low_indices_match_ansi_names() {
    let p = Theme::TokyoNight.palette();
    let mut colors = no_overrides();
    colors[12] = Some(rgb(1, 1, 1));
    for i in 0..16u8 {
        let name = NamedColor::from_ansi_index(i);
        assert_eq!(
            resolve_term_rgb(TermColor::Indexed(i), &colors, p),
            resolve_term_rgb(TermColor::Named(name), &colors, p)
        );
    }
}

fn cell(line: usize, column: usize, c: char, fg: TermColor, bg: TermColor, inverse: bool) -> GridCell {
    GridCell { line, column, c, fg, bg, inverse }
}

#[test]
fn layout_frame_splits_lines_and_skips_offscreen() {
    let p = Theme::Dracula.palette();
    let colors = no_overrides();
    let fg = TermColor::Named(NamedColor::Foreground);
    let bg = TermColor::Named(NamedColor::Background);
    let cells = vec![
        cell(0, 0, 'h', fg, bg, false),
        cell(1, 0, '\0', TermColor::Named(NamedColor::Red), bg, false),
        cell(0, 1, 'i', fg, bg, false),
        cell(5, 0, 'x', fg, bg, false),
    ];
    let cursor = CursorMark { line: 1, column: 1, shape: CursorShape::Beam };
    let frame = layout_frame(2, &cells, &colors, p, cursor);
    assert_eq!(frame.lines.len(), 2);
    assert_eq!(
        frame.lines[0],
        vec![TextCell { c: 'h', fg: p.foreground }, TextCell { c: 'i', fg: p.foreground }]
    );
    assert_eq!(frame.lines[1], vec![TextCell { c: ' ', fg: p.red }]);
    assert!(frame.backgrounds.is_empty());
    assert_eq!(frame.cursor, Some(cursor));
}

#[test]
fn layout_frame_inverse_and_backgrounds() {
    let p = Theme::GruvboxDark.palette();
    let colors = no_overrides();
    let bg = TermColor::Named(NamedColor::Background);
    let cells = vec![
        cell(0, 3, 'a', TermColor::Indexed(2), bg, true),
        cell(0, 4, 'b', TermColor::Spec(rgb(1, 2, 3)), TermColor::Indexed(4), false),
        cell(9, 0, 'c', TermColor::Spec(rgb(1, 2, 3)), TermColor::Indexed(4), false),
    ];
    let cursor = CursorMark { line: 0, column: 0, shape: CursorShape::Hidden };
    let frame = layout_frame(1, &cells, &colors, p, cursor);
    assert_eq!(frame.lines[0][0], TextCell { c: 'a', fg: p.background });
    assert_eq!(frame.lines[0][1], TextCell { c: 'b', fg: rgb(1, 2, 3) });
    assert_eq!(frame.backgrounds.len(), 2);
    assert_eq!((frame.backgrounds[0].line, frame.backgrounds[0].column), (0, 3));
    assert_eq!(frame.backgrounds[0].color, p.green);
    assert_eq!(frame.backgrounds[1].color, p.blue);
    assert_eq!(frame.cursor, None);
}

#[test]
fn layout_frame_cursor_below_screen() {
    let p = Theme::GruvboxDark.palette();
    let cursor = CursorMark { line: 3, column: 0, shape: CursorShape::Block };
    let frame = layout_frame(3, &[], &no_overrides(), p, cursor);
    assert_eq!(frame.cursor, None);
    assert!(frame.lines.iter().all(|l| l.is_empty()));
}

#[test]
fn overlay_rows_mark_current_theme() {
    let rows = theme_rows(Theme::TokyoNight);
    assert_eq!(rows.len(), 4);
    let selected: Vec<Theme> = rows.iter().filter(|r| r.selected).map(|r| r.theme).collect();
    assert_eq!(selected, vec![Theme::TokyoNight]);
    assert_eq!(rows[0].theme, Theme::Dracula);
    assert_eq!(rows[0].swatches, swatch_colors(Theme::Dracula.palette()));
    let p = Theme::Dracula.palette();
    assert_eq!(swatch_colors(p), [p.red, p.green, p.yellow, p.blue, p.magenta, p.cyan]);
}

#[test]
fn overlay_selection() {
    assert_eq!(select_theme(Theme::Dracula, None), Theme::Dracula);
    assert_eq!(select_theme(Theme::Dracula, Some(Theme::GruvboxDark)), Theme::GruvboxDark);
}

#[test]
fn offscreen_cells_draw_nothing() {
    let p = Theme::Dracula.palette();
    let colors = no_overrides();
    let fg = TermColor::Indexed(200);
    let bg = TermColor::Indexed(17);
    let cursor = CursorMark { line: 0, column: 0, shape: CursorShape::Underline };
    let base = vec![cell(0, 0, 'a', fg, bg, false), cell(1, 2, 'b', bg, fg, true)];
    let mut more = base.clone();
    more.push(cell(2, 0, 'z', fg, bg, false));
    more.push(cell(usize::MAX, 7, 'y', fg, bg, true));
    let a = layout_frame(2, &base, &colors, p, cursor);
    let b = layout_frame(2, &more, &colors, p, cursor);
    assert_eq!(a.lines, b.lines);
    assert_eq!(a.backgrounds, b.backgrounds);
    assert_eq!(a.backgrounds.len(), 2);
}
