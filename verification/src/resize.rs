//! The record of window-change notifications.
//!
//! A notification only marks that the size of the window may have changed.
//! Any number of them between two polls count as one, since the size is asked
//! for anew after each poll that reports a change.

use vstd::prelude::*;

verus! {

/// Whether the window-change handler is installed, and whether a notification
/// has arrived since the last poll.
#[derive(Clone, Copy, Debug, PartialEq, Eq, Structural)]
pub struct ResizeMonitor {
    installed: bool,
    pending: bool,
}

impl ResizeMonitor {
    /// Whether the handler has been installed.
    pub closed spec fn installed(self) -> bool {
        self.installed
    }

    /// Whether a notification is waiting to be reported.
    pub closed spec fn pending(self) -> bool {
        self.pending
    }

    /// The monitor once the handler is installed.
    pub closed spec fn after_install(self) -> ResizeMonitor {
        ResizeMonitor { installed: true, pending: self.pending }
    }

    /// The monitor after a notification.
    pub closed spec fn after_signal(self) -> ResizeMonitor {
        ResizeMonitor { installed: self.installed, pending: true }
    }

    /// The monitor after a poll.
    pub closed spec fn after_poll(self) -> ResizeMonitor {
        ResizeMonitor { installed: self.installed, pending: false }
    }

    /// A monitor with no handler installed and nothing pending.
    pub fn new() -> (m: ResizeMonitor)
        ensures
            !m.installed(),
            !m.pending(),
    {
        ResizeMonitor { installed: false, pending: false }
    }

    pub fn is_installed(&self) -> (b: bool)
        ensures
            b == self.installed(),
    {
        self.installed
    }

    /// Marks the handler as installed. The result says whether this call is
    /// the first, the one on which the handler has to be registered.
    pub fn install_sigwinch_handler(&mut self) -> (first: bool)
        ensures
            first == !old(self).installed(),
            *final(self) == old(self).after_install(),
            final(self).installed(),
            final(self).pending() == old(self).pending(),
    {
        let first = !self.installed;
        self.installed = true;
        first
    }

    /// Records a window-change notification.
    pub fn sigwinch_handler(&mut self)
        ensures
            *final(self) == old(self).after_signal(),
            final(self).pending(),
            final(self).installed() == old(self).installed(),
    {
        self.pending = true;
    }

    /// Reports whether a notification arrived since the last poll, and clears
    /// the record.
    pub fn poll_and_clear(&mut self) -> (seen: bool)
        ensures
            seen == old(self).pending(),
            *final(self) == old(self).after_poll(),
            !final(self).pending(),
            final(self).installed() == old(self).installed(),
    {
        let seen = self.pending;
        self.pending = false;
        seen
    }
}

/// What installing, a notification and a poll each do to the two records.
pub proof fn lemma_monitor_steps(m: ResizeMonitor)
    ensures
        m.after_install().installed(),
        m.after_install().pending() == m.pending(),
        m.after_signal().pending(),
        m.after_signal().installed() == m.installed(),
        !m.after_poll().pending(),
        m.after_poll().installed() == m.installed(),
{
}

/// After a notification the next poll reports a change, and a poll that
/// follows a poll directly reports none, however many polls follow.
pub proof fn lemma_reported_exactly_once(m: ResizeMonitor)
    ensures
        m.after_signal().pending(),
        !m.after_signal().after_poll().pending(),
        !m.after_poll().pending(),
        m.after_poll().after_poll() == m.after_poll(),
{
}

/// Notifications between two polls count as one.
pub proof fn lemma_notifications_coalesce(m: ResizeMonitor)
    ensures
        m.after_signal().after_signal() == m.after_signal(),
{
}

/// Installing twice is the same as installing once.
pub proof fn lemma_install_idempotent(m: ResizeMonitor)
    ensures
        m.after_install().after_install() == m.after_install(),
{
}

} // verus!
