//! The resize watcher: keeps the PTY master's window size equal to the
//! controlling terminal's for the whole session.
//!
//! The OS reports a size change as an asynchronous notification whose
//! delivery context may do almost nothing; the handler therefore only sets a
//! shared flag, and a watcher loop polls the flag, queries the current size and
//! applies it to the master. [`ResizeFlag`] is that flag's state machine:
//! the driver calls [`ResizeFlag::notify`] from the notification side and
//! [`ResizeFlag::watcher_step`] from the watcher side. A freshly created
//! flag is already pending, so the watcher's first step performs the
//! unconditional initial synchronization before any bytes are relayed.

use vstd::prelude::*;

use crate::fd_winsize::WindowSize;

verus! {

/// The flag a size-change notification flips after one delivery: set,
/// whatever it held before.
pub open spec fn notified(pending: bool) -> bool {
    true
}

/// The flag after `n` size-change notifications have been delivered.
pub open spec fn after_notifications(pending: bool, n: nat) -> bool
    decreases n,
{
    if n == 0 {
        pending
    } else {
        notified(after_notifications(pending, (n - 1) as nat))
    }
}

/// What one check of the watcher does to the flag: it learns whether a
/// resync is owed and leaves the flag cleared.
pub open spec fn checked(pending: bool) -> (bool, bool) {
    (pending, false)
}

/// The pending-resync flag shared between the notification side and the
/// watcher loop. This is the state machine of that flag; the driver realizes
/// it over a primitive the delivery context may touch.
pub struct ResizeFlag {
    pending: bool,
}

impl ResizeFlag {
    /// Whether a resync is owed.
    pub closed spec fn is_pending(&self) -> bool {
        self.pending
    }

    /// A fresh flag, created at session start. It starts out pending: the
    /// initial synchronization is owed unconditionally, before any data
    /// flows, so the shell sees the correct size from its first prompt.
    pub fn new() -> (r: ResizeFlag)
        ensures
            r.is_pending(),
    {
        ResizeFlag { pending: true }
    }

    /// One size-change notification: set the flag, idempotently. This is all
    /// the delivery context does; the work is deferred to the watcher.
    pub fn notify(&mut self)
        ensures
            final(self).is_pending() == notified(old(self).is_pending()),
            final(self).is_pending(),
    {
        self.pending = true;
    }

    /// One check by the watcher loop: report whether a resync is owed and
    /// clear the flag.
    pub fn take(&mut self) -> (r: bool)
        ensures
            (r, final(self).is_pending()) == checked(old(self).is_pending()),
            r == old(self).is_pending(),
            !final(self).is_pending(),
    {
        let r = self.pending;
        self.pending = false;
        r
    }

    /// One pass of the watcher loop, given the controlling terminal's
    /// current size: if a resync is owed, clear the flag and hand back
    /// exactly that size for the driver to apply to the PTY master (nothing,
    /// when there is no terminal to read a size from); otherwise do nothing.
    pub fn watcher_step(&mut self, terminal_size: Option<WindowSize>) -> (r: Option<WindowSize>)
        ensures
            !final(self).is_pending(),
            r == if old(self).is_pending() {
                terminal_size
            } else {
                None::<WindowSize>
            },
    {
        if self.take() {
            terminal_size
        } else {
            None
        }
    }
}

/// Coalescing law: however many size-change notifications (at least one)
/// arrive before the watcher's next check, the set transition is never lost
/// — the flag is pending at that check — and the check performs exactly one
/// resync and clears the flag; a further check without new notifications
/// performs none.
pub proof fn lemma_notifications_coalesce(pending: bool, n: nat)
    requires
        n >= 1,
    ensures
        after_notifications(pending, n),
        checked(after_notifications(pending, n)).0,
        !checked(after_notifications(pending, n)).1,
        !checked(checked(after_notifications(pending, n)).1).0,
    decreases n,
{
    if n > 1 {
        lemma_notifications_coalesce(pending, (n - 1) as nat);
    }
}

} // verus!
