//! The loop that reads the shell's output from the PTY: what each read
//! makes it do.
use vstd::prelude::*;

verus! {

/// Bytes the reader asks for at a time.
pub const READ_BUFFER_SIZE: usize = 4096;

/// The outcome of one read from the PTY.
#[derive(Debug, Clone, Copy, PartialEq, Eq, Structural)]
pub enum ReadOutcome {
    /// This many bytes were read; none means the end of the output.
    Bytes(usize),
    Failed,
}

/// What the reader does after a read.
#[derive(Debug, Clone, Copy, PartialEq, Eq, Structural)]
pub enum ReaderStep {
    /// Forward the first `n` bytes of the buffer and announce output.
    Forward(usize),
    /// Announce that the shell has exited and stop reading.
    ShellExited,
}

/// Decide what the reader does with one read: bytes are forwarded; the end
/// of the output, or a failed read, means the shell has gone.
pub fn reader_step(outcome: ReadOutcome) -> (step: ReaderStep)
    ensures
        step == (match outcome {
            ReadOutcome::Bytes(n) => if n == 0 {
                ReaderStep::ShellExited
            } else {
                ReaderStep::Forward(n)
            },
            ReadOutcome::Failed => ReaderStep::ShellExited,
        }),
{
    match outcome {
        ReadOutcome::Bytes(0) => ReaderStep::ShellExited,
        ReadOutcome::Bytes(n) => ReaderStep::Forward(n),
        ReadOutcome::Failed => ReaderStep::ShellExited,
    }
}

} // verus!
