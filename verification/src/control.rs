//! The decisions of the window's event loop: what a window event, a key
//! press or a notice from the PTY reader makes the terminal do. The loop
//! itself performs the actions and reports the events.
use vstd::prelude::*;

use crate::input::{key_bytes, translate_key, Key, Modifiers};
use crate::UserEvent;

verus! {

/// Columns of the grid before the window reports its size.
pub const INITIAL_COLS: u16 = 80;

/// Rows of the grid before the window reports its size.
pub const INITIAL_ROWS: u16 = 24;

/// What the window remembers between events.
#[derive(Debug, Clone, Copy, PartialEq, Eq, Structural)]
pub struct InputState {
    pub modifiers: Modifiers,
    pub overlay_visible: bool,
}

impl InputState {
    /// No modifier held, settings overlay hidden.
    pub fn new() -> (s: InputState)
        ensures
            s.modifiers == (Modifiers { ctrl: false, alt: false, shift: false }),
            !s.overlay_visible,
    {
        InputState { modifiers: Modifiers { ctrl: false, alt: false, shift: false }, overlay_visible: false }
    }
}

/// What a key press leads to.
#[derive(Debug)]
pub enum KeyAction {
    /// Nothing.
    Ignore,
    /// Show or hide the settings overlay.
    ToggleOverlay,
    /// Send these bytes to the shell.
    Send(Vec<u8>),
}

/// Whether a key press is the overlay shortcut: Ctrl+Shift+O, the letter
/// in either case.
pub open spec fn is_overlay_shortcut(key: Key, m: Modifiers) -> bool {
    &&& m.ctrl
    &&& m.shift
    &&& key matches Key::Character(c) && (c@ == seq!['o'] || c@ == seq!['O'])
}

/// The bytes a key event sends, if any: nothing on release or when the
/// settings UI took the event; the shortcut sends nothing either.
pub open spec fn key_event_bytes(pressed: bool, key: Key, m: Modifiers, ui_consumed: bool) -> Option<
    Seq<u8>,
> {
    if !pressed || is_overlay_shortcut(key, m) || ui_consumed {
        None
    } else {
        key_bytes(key, m)
    }
}

fn is_overlay_key(key: &Key, m: Modifiers) -> (b: bool)
    ensures
        b == is_overlay_shortcut(*key, m),
{
    if m.ctrl && m.shift {
        if let Key::Character(c) = key {
            let s = c.as_str();
            if s.unicode_len() == 1 {
                let ch = s.get_char(0);
                if ch == 'o' || ch == 'O' {
                    assert(c@ =~= seq![ch]);
                    return true;
                }
            }
            assert(!(c@ =~= seq!['o']) && !(c@ =~= seq!['O'])) by {
                if c@.len() == 1 {
                    assert(c@[0] != 'o' && c@[0] != 'O');
                }
            }
        }
    }
    false
}

/// Decide what a key event does. A release does nothing; Ctrl+Shift+O
/// toggles the overlay even when the settings UI took the event; otherwise
/// the key is sent to the shell unless the settings UI took it.
pub fn key_action(pressed: bool, key: &Key, modifiers: Modifiers, ui_consumed: bool) -> (a: KeyAction)
    ensures
        (a is ToggleOverlay) <==> (pressed && is_overlay_shortcut(*key, modifiers)),
        a matches KeyAction::Send(v) ==> key_event_bytes(pressed, *key, modifiers, ui_consumed)
            == Some(v@),
        (a is Ignore) ==> !(pressed && is_overlay_shortcut(*key, modifiers)) && key_event_bytes(
            pressed,
            *key,
            modifiers,
            ui_consumed,
        ) is None,
{
    if !pressed {
        return KeyAction::Ignore;
    }
    if is_overlay_key(key, modifiers) {
        return KeyAction::ToggleOverlay;
    }
    if ui_consumed {
        return KeyAction::Ignore;
    }
    match translate_key(key, modifiers) {
        Some(bytes) => KeyAction::Send(bytes),
        None => KeyAction::Ignore,
    }
}

/// A window event, with what the loop already computed from it.
#[derive(Debug)]
pub enum WindowInput {
    CloseRequested,
    ModifiersChanged(Modifiers),
    /// The window's new size in pixels, and the grid that fits it once the
    /// cell size is known.
    Resized { width: u32, height: u32, grid: Option<(usize, usize)> },
    RedrawRequested,
    /// A wheel turn, in whole lines.
    MouseWheel { lines: i32 },
    Keyboard { pressed: bool, key: Key },
    Other,
}

/// A new grid size for the terminal, and the same size for the PTY.
#[derive(Debug, Clone, Copy, PartialEq, Eq, Structural)]
pub struct GridResize {
    pub cols: usize,
    pub rows: usize,
    pub pty_cols: u16,
    pub pty_rows: u16,
}

/// What the loop does in answer to a window event.
#[derive(Debug)]
pub struct WindowReaction {
    pub exit: bool,
    pub request_redraw: bool,
    pub render: bool,
    pub resize_surface: Option<(u32, u32)>,
    pub resize_grid: Option<GridResize>,
    pub scroll: Option<i32>,
    pub write: Option<Vec<u8>>,
}

/// A size truncated to the 16 bits that the PTY takes.
pub open spec fn pty_dim(n: usize) -> u16 {
    (n % 65536) as u16
}

/// The grid resize that a window resize asks for: only when the cell size
/// is known and at least one column and one row fit.
pub open spec fn grid_resize_of(grid: Option<(usize, usize)>) -> Option<GridResize> {
    match grid {
        Some((cols, rows)) => if cols > 0 && rows > 0 {
            Some(GridResize { cols, rows, pty_cols: pty_dim(cols), pty_rows: pty_dim(rows) })
        } else {
            None
        },
        None => None,
    }
}

fn grid_resize(grid: Option<(usize, usize)>) -> (r: Option<GridResize>)
    ensures
        r == grid_resize_of(grid),
{
    match grid {
        Some((cols, rows)) => {
            if cols > 0 && rows > 0 {
                let pty_cols: u16 = (cols % 65536) as u16;
                let pty_rows: u16 = (rows % 65536) as u16;
                Some(GridResize { cols, rows, pty_cols, pty_rows })
            } else {
                None
            }
        },
        None => None,
    }
}

/// The window's state after an event: a modifier change is remembered, the
/// overlay shortcut flips the overlay, nothing else changes the state.
pub open spec fn next_input_state(s: InputState, event: WindowInput) -> InputState {
    match event {
        WindowInput::ModifiersChanged(m) => InputState { modifiers: m, ..s },
        WindowInput::Keyboard { pressed, key } => if pressed && is_overlay_shortcut(
            key,
            s.modifiers,
        ) {
            InputState { overlay_visible: !s.overlay_visible, ..s }
        } else {
            s
        },
        _ => s,
    }
}

/// React to a window event. `ui_repaint` and `ui_consumed` say whether the
/// settings UI wants a repaint and whether it took the event.
pub fn on_window_event(
    state: &mut InputState,
    event: WindowInput,
    ui_repaint: bool,
    ui_consumed: bool,
) -> (r: WindowReaction)
    ensures
        r.exit <==> event is CloseRequested,
        r.render <==> event is RedrawRequested,
        *final(state) == next_input_state(*old(state), event),
        event matches WindowInput::ModifiersChanged(m) ==> final(state).modifiers == m,
        !(event is ModifiersChanged) ==> final(state).modifiers == old(state).modifiers,
        !(event is Keyboard) ==> final(state).overlay_visible == old(state).overlay_visible,
        r.resize_surface == (match event {
            WindowInput::Resized { width, height, .. } => Some((width, height)),
            _ => None,
        }),
        r.resize_grid == (match event {
            WindowInput::Resized { grid, .. } => grid_resize_of(grid),
            _ => None,
        }),
        r.scroll == (match event {
            WindowInput::MouseWheel { lines } => if !ui_consumed && lines != 0 {
                Some(lines)
            } else {
                None
            },
            _ => None,
        }),
        r.write is Some <==> (match event {
            WindowInput::Keyboard { pressed, key } => key_event_bytes(
                pressed,
                key,
                old(state).modifiers,
                ui_consumed,
            ) is Some,
            _ => false,
        }),
        r.write matches Some(v) ==> (match event {
            WindowInput::Keyboard { pressed, key } => key_event_bytes(
                pressed,
                key,
                old(state).modifiers,
                ui_consumed,
            ) == Some(v@),
            _ => false,
        }),
        r.request_redraw == (ui_repaint || match event {
            WindowInput::Resized { .. } => true,
            WindowInput::MouseWheel { lines } => !ui_consumed && lines != 0,
            WindowInput::Keyboard { pressed, key } => pressed && is_overlay_shortcut(
                key,
                old(state).modifiers,
            ),
            _ => false,
        }),
{
    let mut r = WindowReaction {
        exit: false,
        request_redraw: ui_repaint,
        render: false,
        resize_surface: None,
        resize_grid: None,
        scroll: None,
        write: None,
    };
    match event {
        WindowInput::CloseRequested => {
            r.exit = true;
        },
        WindowInput::ModifiersChanged(m) => {
            state.modifiers = m;
        },
        WindowInput::Resized { width, height, grid } => {
            r.resize_surface = Some((width, height));
            r.resize_grid = grid_resize(grid);
            r.request_redraw = true;
        },
        WindowInput::RedrawRequested => {
            r.render = true;
        },
        WindowInput::MouseWheel { lines } => {
            if !ui_consumed && lines != 0 {
                r.scroll = Some(lines);
                r.request_redraw = true;
            }
        },
        WindowInput::Keyboard { pressed, key } => {
            match key_action(pressed, &key, state.modifiers, ui_consumed) {
                KeyAction::ToggleOverlay => {
                    state.overlay_visible = !state.overlay_visible;
                    r.request_redraw = true;
                },
                KeyAction::Send(bytes) => {
                    r.write = Some(bytes);
                },
                KeyAction::Ignore => {},
            }
        },
        WindowInput::Other => {},
    }
    r
}

/// What the loop does in answer to a notice from the PTY reader.
#[derive(Debug, Clone, Copy, PartialEq, Eq, Structural)]
pub struct UserReaction {
    pub request_redraw: bool,
    pub exit: bool,
}

/// React to a notice from the PTY reader, once any output it announced has
/// been fed to the terminal: redraw if output came, quit when the shell
/// exited.
pub fn on_user_event(event: UserEvent, had_output: bool) -> (r: UserReaction)
    ensures
        r.exit <==> event == UserEvent::PtyExited,
        r.request_redraw <==> (event == UserEvent::PtyOutput && had_output),
{
    match event {
        UserEvent::PtyOutput => UserReaction { request_redraw: had_output, exit: false },
        UserEvent::PtyExited => UserReaction { request_redraw: false, exit: true },
    }
}

/// A modifier change replaces the remembered modifiers by the new ones,
/// whatever they were, and leaves the overlay as it was; no other event
/// changes the remembered modifiers.
pub proof fn lemma_modifier_change_replaces_modifiers(s: InputState, m: Modifiers, event: WindowInput)
    ensures
        next_input_state(s, WindowInput::ModifiersChanged(m)).modifiers == m,
        next_input_state(s, WindowInput::ModifiersChanged(m)).overlay_visible == s.overlay_visible,
        !(event is ModifiersChanged) ==> next_input_state(s, event).modifiers == s.modifiers,
{
}

/// Pressing the overlay shortcut twice leaves the window as it was.
pub proof fn lemma_overlay_shortcut_twice_restores(s: InputState, key: Key)
    requires
        is_overlay_shortcut(key, s.modifiers),
    ensures
        next_input_state(
            next_input_state(s, WindowInput::Keyboard { pressed: true, key }),
            WindowInput::Keyboard { pressed: true, key },
        ) == s,
{
}

/// A key reaches the shell only when pressed, not taken by the settings UI
/// and not the overlay shortcut, and then it sends what the key encodes.
pub proof fn lemma_only_unclaimed_presses_reach_shell(
    pressed: bool,
    key: Key,
    m: Modifiers,
    ui_consumed: bool,
)
    ensures
        key_event_bytes(pressed, key, m, ui_consumed) is Some ==> pressed && !ui_consumed
            && !is_overlay_shortcut(key, m),
        pressed && !ui_consumed && !is_overlay_shortcut(key, m) ==> key_event_bytes(
            pressed,
            key,
            m,
            ui_consumed,
        ) == key_bytes(key, m),
{
}

} // verus!
