use vstd::prelude::*;

verus! {

/// A single-shot-per-round notification slot.
///
/// `notify` wakes a pending waiter or records one pending notification if
/// none is waiting; at most one notification is buffered, so a second
/// `notify` before any wait is absorbed. `try_wait` consumes the buffered
/// notification if one is present. A notification sent before a wait begins
/// is never lost. The blocking itself happens outside this model: a caller
/// that gets `false` from `try_wait` is a waiter that would suspend.
pub struct Signal {
    slot: bool,
}

impl Signal {
    /// Whether a notification is buffered and not yet consumed.
    pub closed spec fn pending(self) -> bool {
        self.slot
    }

    /// A fresh signal holds no notification.
    pub fn new() -> (s: Signal)
        ensures
            !s.pending(),
    {
        Signal { slot: false }
    }

    /// Record one notification; an already-buffered one is absorbed.
    pub fn notify(&mut self)
        ensures
            final(self).pending(),
    {
        self.slot = true;
    }

    /// Whether a notification is buffered now; mirrors `pending`.
    pub fn pending_now(&self) -> (r: bool)
        ensures
            r == self.pending(),
    {
        self.slot
    }

    /// Consume the buffered notification, reporting whether there was one.
    pub fn try_wait(&mut self) -> (r: bool)
        ensures
            r == old(self).pending(),
            !final(self).pending(),
    {
        let r = self.slot;
        self.slot = false;
        r
    }
}

} // verus!
