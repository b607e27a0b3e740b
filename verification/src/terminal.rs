//! The terminal's grid size and the routing of the events that the
//! terminal state machine emits.
use vstd::prelude::*;
use vstd::utf8::encode_utf8;

use crate::UserEvent;

verus! {

/// Lines of scrollback history kept above the screen.
pub const SCROLLBACK_LINES: usize = 10_000;

/// Terminal dimensions: the screen's columns and rows.
#[derive(Debug, Clone, Copy, PartialEq, Eq, Structural)]
pub struct TermSize {
    pub cols: usize,
    pub rows: usize,
}

impl TermSize {
    /// All lines of the grid: the screen plus the scrollback history.
    pub fn total_lines(&self) -> (n: usize)
        requires
            self.rows + SCROLLBACK_LINES <= usize::MAX,
        ensures
            n == self.rows + SCROLLBACK_LINES,
    {
        self.rows + SCROLLBACK_LINES
    }

    /// The lines on screen.
    pub fn screen_lines(&self) -> (n: usize)
        ensures
            n == self.rows,
    {
        self.rows
    }

    /// The columns on screen.
    pub fn columns(&self) -> (n: usize)
        ensures
            n == self.cols,
    {
        self.cols
    }
}

/// An event that the terminal state machine emits.
#[derive(Debug)]
pub enum TermEvent {
    /// The grid changed and should be redrawn.
    Wakeup,
    /// The terminal answers the shell with this text.
    PtyWrite(String),
    /// The shell set the window title.
    Title(String),
    /// The terminal wants the program to exit.
    Exit,
    Bell,
    Other,
}

/// Where a terminal event goes.
#[derive(Debug)]
pub enum ProxyAction {
    /// Wake the window's event loop with this event.
    Notify(UserEvent),
    /// Queue these bytes for the PTY.
    WritePty(Vec<u8>),
    /// Report the new title.
    ReportTitle(String),
    /// Report the bell.
    ReportBell,
    Ignore,
}

/// Route a terminal event: a wakeup announces output, an exit announces
/// the shell's end, a reply is queued for the PTY as UTF-8, the title and
/// the bell are reported, anything else is dropped.
pub fn proxy_action(event: TermEvent) -> (a: ProxyAction)
    ensures
        (event is Wakeup) <==> (a == ProxyAction::Notify(UserEvent::PtyOutput)),
        (event is Exit) <==> (a == ProxyAction::Notify(UserEvent::PtyExited)),
        (event is PtyWrite) <==> (a is WritePty),
        event matches TermEvent::PtyWrite(text) ==> a matches ProxyAction::WritePty(bytes)
            && bytes@ == encode_utf8(text@),
        (event is Title) <==> (a is ReportTitle),
        event matches TermEvent::Title(t) ==> a matches ProxyAction::ReportTitle(r) && r@ == t@,
        (event is Bell) <==> (a is ReportBell),
        (event is Other) <==> (a is Ignore),
{
    match event {
        TermEvent::Wakeup => ProxyAction::Notify(UserEvent::PtyOutput),
        TermEvent::PtyWrite(text) => ProxyAction::WritePty(vstd::slice::slice_to_vec(text.as_str().as_bytes())),
        TermEvent::Title(title) => ProxyAction::ReportTitle(title),
        TermEvent::Exit => ProxyAction::Notify(UserEvent::PtyExited),
        TermEvent::Bell => ProxyAction::ReportBell,
        TermEvent::Other => ProxyAction::Ignore,
    }
}

} // verus!
