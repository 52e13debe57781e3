//! The window-size adapter: the terminal's row/column dimensions, read from
//! the controlling terminal and propagated to the PTY master.
//!
//! The policy throughout the library is one-directional: the truth is read
//! from the real terminal (standard output) and written into the PTY master,
//! never the reverse. Reading the real size goes through trusted calls here;
//! applying a size to the master descriptor is a plain terminal-control call
//! the driver makes with the values the library hands it.

use vstd::prelude::*;

verus! {

/// A terminal's dimensions. The OS structure carries two further reserved
/// 16-bit fields with no meaning; they are always written as zero and never
/// read, so they have no place in the model.
#[derive(Clone, Copy, PartialEq, Eq, Structural, Debug)]
pub struct WindowSize {
    pub rows: u16,
    pub cols: u16,
}

impl WindowSize {
    /// A size with the given dimensions.
    pub fn new(rows: u16, cols: u16) -> (r: WindowSize)
        ensures
            r.rows == rows,
            r.cols == cols,
    {
        WindowSize { rows, cols }
    }
}

/// Relies on atty::is(atty::Stream::Stdout): reports whether standard output
/// is attached to a terminal device. The answer depends on how the process
/// was invoked, so nothing relates two calls.
#[verifier::external_body]
fn stdout_is_terminal() -> (r: bool) {
    atty::is(atty::Stream::Stdout)
}

/// Relies on termion::terminal_size: queries standard output's terminal for
/// its current (columns, rows) through the window-size ioctl, and fails when
/// standard output is not a terminal. The size is whatever the terminal
/// reports at the moment of the call, so nothing relates two calls.
#[verifier::external_body]
fn stdout_terminal_size() -> (r: Option<WindowSize>) {
    match termion::terminal_size() {
        Ok((cols, rows)) => Some(WindowSize { rows, cols }),
        Err(_) => None,
    }
}

/// The adapter's gating decision, over plain values: a size is reported only
/// from a descriptor that is a terminal — the queried size then passes
/// through unchanged — and from anything else the answer is the normal
/// absence of a terminal (output redirected to a file), not an error,
/// whatever a query might have said.
pub fn size_decision(is_terminal: bool, queried: Option<WindowSize>) -> (r: Option<WindowSize>)
    ensures
        r == if is_terminal {
            queried
        } else {
            None::<WindowSize>
        },
{
    if is_terminal {
        queried
    } else {
        None
    }
}

/// The controlling terminal's current size, read from standard output, or
/// `None` when standard output is not a terminal device. The terminal check
/// gates the query: when it fails, no size is queried and the answer is the
/// absent size, by the contract of [`size_decision`]; when it holds, the
/// queried size is handed through unchanged.
pub fn get_size() -> (r: Option<WindowSize>)
{
    let is_terminal = stdout_is_terminal();
    let queried = if is_terminal {
        stdout_terminal_size()
    } else {
        None
    };
    size_decision(is_terminal, queried)
}

} // verus!
