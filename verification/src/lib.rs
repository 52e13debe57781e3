//! A pseudo-terminal proxy library.
//!
//! The library models and verifies the decision logic of a PTY session:
//! allocating a PTY pair and forking into a parent (holding the master) and a
//! child (which becomes the login shell), relaying bytes between the real
//! terminal and the PTY master in both directions, and keeping the master's
//! window size synchronized with the controlling terminal's.
//!
//! Blocking reads and writes, raw-mode switching, signal registration, and the
//! process-image replacement are performed by an unverified driver around the
//! library; the library states exactly what must be done with each outcome
//! those calls produce.

pub mod fd_winsize;
pub mod relay;
pub mod session;
pub mod shell;
pub mod watcher;
