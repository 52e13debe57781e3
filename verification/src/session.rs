//! The PTY session: allocate a PTY pair and duplicate the process into a
//! parent holding the master and a child whose controlling terminal is the
//! slave.
//!
//! Each process instance observes exactly one [`Session`] variant, decided
//! once at fork time. The parent keeps the fork handle alive for the whole
//! session — dropping it closes the master descriptor — and relays bytes
//! through the master handle; the child's only further step is to replace
//! its process image with the login shell chosen by
//! [`crate::shell::shell_command`].

use vstd::prelude::*;

verus! {

/// The handle pty's fork returns; it owns the PTY descriptors, and its drop
/// closes the master.
#[verifier::external_type_specification]
#[verifier::external_body]
pub struct ExFork(pty::fork::Fork);

/// The PTY master I/O handle; a plain copy of the master descriptor.
#[verifier::external_type_specification]
#[verifier::external_body]
pub struct ExMaster(pty::fork::Master);

/// The error pty's fork constructor reports when PTY allocation or process
/// duplication fails.
#[verifier::external_type_specification]
#[verifier::external_body]
pub struct ExForkError(pty::fork::ForkError);

/// The fork outcome this process observes: it is the parent, holding the PTY
/// master, or it is the child, whose controlling terminal is the PTY slave.
pub enum Session {
    /// This process holds the PTY master. The fork handle owns the
    /// descriptors and must stay alive for the whole session; the master
    /// handle is what the relay reads from and writes to.
    Parent(pty::fork::Fork, pty::fork::Master),
    /// This process is the child; its stdin, stdout and stderr are the PTY
    /// slave, and it should become the shell.
    Child,
}

/// An unrecoverable setup failure: no session can exist without a PTY pair
/// and a successful fork, so the program aborts on it.
#[derive(Clone, Copy, PartialEq, Eq, Structural, Debug)]
pub enum FatalOsError {
    /// PTY allocation or process duplication failed.
    SessionSetup,
}

/// Relies on pty::fork::Fork::from_ptmx: allocates a PTY pair through the
/// PTY multiplexer and forks the process. In the parent it returns the
/// variant holding the child's pid and the master handle; in the child it
/// makes the slave the controlling terminal on stdin, stdout and stderr and
/// returns the slave variant; it fails when allocation or duplication fails.
/// Which variant comes back is the fork outcome, so nothing relates two
/// calls.
#[verifier::external_body]
fn pty_fork() -> (r: Result<pty::fork::Fork, pty::fork::ForkError>) {
    pty::fork::Fork::from_ptmx()
}

/// Relies on pty::fork::Fork::is_parent: hands out a copy of the master
/// handle when this process is the fork's parent, and fails (with the
/// is-child error, its only error source) when it is the child.
#[verifier::external_body]
fn fork_master(fork: &pty::fork::Fork) -> (r: Option<pty::fork::Master>) {
    match fork.is_parent() {
        Ok(master) => Some(master),
        Err(_) => None,
    }
}

/// Begin a session: allocate the PTY pair and fork. Exactly one variant is
/// observed per process; the error is the unrecoverable setup failure. Which
/// outcome occurs is decided by the OS, not by any argument.
pub fn create_session() -> (r: Result<Session, FatalOsError>)
    ensures
        r matches Err(e) ==> e == FatalOsError::SessionSetup,
{
    match pty_fork() {
        Err(_) => Err(FatalOsError::SessionSetup),
        Ok(fork) => match fork_master(&fork) {
            Some(master) => Ok(Session::Parent(fork, master)),
            None => Ok(Session::Child),
        },
    }
}

} // verus!
