//! Verified core of a transparent, GPU-rendered terminal emulator: key
//! encoding, color resolution, themes, frame layout and the decisions that
//! drive the window, PTY and renderer.
use vstd::prelude::*;

pub mod ansi;
pub mod control;
pub mod input;
pub mod overlay;
pub mod pty;
pub mod renderer;
pub mod terminal;
pub mod text;
pub mod theme;

verus! {

/// Custom events sent to the window's event loop.
#[derive(Debug, Clone, Copy, PartialEq, Eq, Structural)]
pub enum UserEvent {
    /// New PTY output is available.
    PtyOutput,
    /// The shell process has exited.
    PtyExited,
}

} // verus!
