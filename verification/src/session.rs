use vstd::prelude::*;
use crate::signal::Signal;

verus! {

/// Where a coordination round stands.
///
/// A round moves `Idle → Appending → Written → Flushing → Durable`.
/// `Written → Flushing` happens only when the write-complete signal is
/// consumed; `Flushing → Durable` only on a successful sync, which publishes
/// the offset captured when flushing began. `Durable` is terminal for the
/// round, but a new append may start the next round from there.
#[derive(Clone, Copy, Debug, PartialEq, Eq, Structural)]
pub enum Phase {
    Idle,
    Appending,
    Written,
    Flushing,
    Durable,
}

/// The shared coordination state of one append-flush-observe session.
///
/// Two monotonically non-decreasing offsets — `written` (bytes physically
/// present in the file, durability unknown) and `durable` (bytes guaranteed
/// to survive a crash) — plus the two signals that drive the handshake and
/// the per-round phase. The durable offset is only ever advanced to a value
/// previously captured from the written offset, so `durable <= written`
/// holds at every observation point.
pub struct Session {
    written: usize,
    durable: usize,
    captured: usize,
    write_done: Signal,
    flush_done: Signal,
    phase: Phase,
}

impl Session {
    /// Bytes physically present in the file, durability unknown.
    pub closed spec fn written(self) -> usize {
        self.written
    }

    /// Bytes guaranteed to survive a crash.
    pub closed spec fn durable(self) -> usize {
        self.durable
    }

    /// The written offset captured when the current flush began.
    /// Meaningful only while the phase is `Flushing`.
    pub closed spec fn captured(self) -> usize {
        self.captured
    }

    /// Where the current round stands.
    pub closed spec fn phase(self) -> Phase {
        self.phase
    }

    /// Whether a write-complete notification is buffered.
    pub closed spec fn write_pending(self) -> bool {
        self.write_done.pending()
    }

    /// Whether a flush-complete notification is buffered.
    pub closed spec fn flush_pending(self) -> bool {
        self.flush_done.pending()
    }

    /// The coordination invariant: the durable offset never exceeds the
    /// written offset; a flush in progress holds a captured offset between
    /// the two; and a buffered write-complete notification means the round
    /// stands at `Written`.
    pub open spec fn wf(self) -> bool {
        &&& self.durable() <= self.written()
        &&& (self.phase() is Flushing ==> self.durable() <= self.captured() <= self.written())
        &&& (self.write_pending() ==> self.phase() is Written)
    }

    /// Whether a new append may start: the session is idle or the previous
    /// round has completed.
    pub open spec fn can_append(self) -> bool {
        self.phase() is Idle || self.phase() is Durable
    }

    /// Whether the durabilizer has work: either a write-complete notification
    /// waits to be consumed, or a flush already in progress may be retried.
    pub open spec fn flush_ready(self) -> bool {
        self.write_pending() || self.phase() is Flushing
    }

    /// A fresh session: nothing written, nothing durable, no notification
    /// buffered, no round in progress.
    pub fn new() -> (s: Session)
        ensures
            s.wf(),
            s.written() == 0,
            s.durable() == 0,
            s.phase() is Idle,
            !s.write_pending(),
            !s.flush_pending(),
    {
        Session {
            written: 0,
            durable: 0,
            captured: 0,
            write_done: Signal::new(),
            flush_done: Signal::new(),
            phase: Phase::Idle,
        }
    }

    /// The appender starts a round: the write syscall is now outstanding.
    /// Offsets and signals are untouched until its outcome is known.
    pub fn begin_append(&mut self)
        requires
            old(self).wf(),
            old(self).can_append(),
        ensures
            final(self).wf(),
            final(self).phase() is Appending,
            final(self).written() == old(self).written(),
            final(self).durable() == old(self).durable(),
            !final(self).write_pending(),
            final(self).flush_pending() == old(self).flush_pending(),
    {
        self.phase = Phase::Appending;
    }

    /// The write syscall succeeded: advance the written offset by the number
    /// of bytes appended and buffer the write-complete notification. The
    /// durable offset is untouched; both offsets are non-decreasing.
    pub fn record_write_success(&mut self, len: usize)
        requires
            old(self).wf(),
            old(self).phase() is Appending,
            old(self).written() + len <= usize::MAX,
        ensures
            final(self).wf(),
            final(self).phase() is Written,
            final(self).written() == old(self).written() + len,
            final(self).durable() == old(self).durable(),
            final(self).write_pending(),
            final(self).flush_pending() == old(self).flush_pending(),
    {
        self.written = self.written + len;
        self.write_done.notify();
        self.phase = Phase::Written;
    }

    /// The write syscall failed: from the protocol's point of view the append
    /// never happened. No offset advances, no notification is buffered, and
    /// the session returns to idle; downstream roles simply stay blocked.
    pub fn record_write_failure(&mut self)
        requires
            old(self).wf(),
            old(self).phase() is Appending,
        ensures
            final(self).wf(),
            final(self).phase() is Idle,
            final(self).written() == old(self).written(),
            final(self).durable() == old(self).durable(),
            !final(self).write_pending(),
            final(self).flush_pending() == old(self).flush_pending(),
    {
        self.phase = Phase::Idle;
    }

    /// The durabilizer consumes the write-complete notification, if any, and
    /// captures the written offset as it stands at this moment — more bytes
    /// may arrive later and will be picked up by a later round. Returns the
    /// captured offset, or `None` when no notification was buffered (a real
    /// durabilizer would suspend).
    pub fn begin_flush(&mut self) -> (r: Option<usize>)
        requires
            old(self).wf(),
        ensures
            final(self).wf(),
            final(self).written() == old(self).written(),
            final(self).durable() == old(self).durable(),
            !final(self).write_pending(),
            final(self).flush_pending() == old(self).flush_pending(),
            old(self).write_pending() ==> {
                &&& r == Some(old(self).written())
                &&& final(self).phase() is Flushing
                &&& final(self).captured() == old(self).written()
            },
            !old(self).write_pending() ==> {
                &&& r is None
                &&& final(self).phase() == old(self).phase()
                &&& final(self).captured() == old(self).captured()
            },
    {
        if self.write_done.try_wait() {
            let w = self.written;
            self.captured = w;
            self.phase = Phase::Flushing;
            Some(w)
        } else {
            None
        }
    }

    /// The durability barrier succeeded: publish the captured offset — never
    /// more than what the barrier covered — and buffer the flush-complete
    /// notification. Returns the newly published durable offset.
    pub fn record_sync_success(&mut self) -> (r: usize)
        requires
            old(self).wf(),
            old(self).phase() is Flushing,
        ensures
            final(self).wf(),
            final(self).phase() is Durable,
            r == old(self).captured(),
            final(self).durable() == old(self).captured(),
            old(self).durable() <= final(self).durable(),
            final(self).written() == old(self).written(),
            !final(self).write_pending(),
            final(self).flush_pending(),
    {
        let c = self.captured;
        self.durable = c;
        self.flush_done.notify();
        self.phase = Phase::Durable;
        c
    }

    /// The durability barrier failed: publish nothing and signal nothing, so
    /// waiters stall rather than trust durability that did not happen. The
    /// flush stays in progress and may be retried with the same captured
    /// offset.
    pub fn record_sync_failure(&mut self)
        requires
            old(self).wf(),
            old(self).phase() is Flushing,
        ensures
            final(self).wf(),
            final(self).phase() is Flushing,
            final(self).written() == old(self).written(),
            final(self).durable() == old(self).durable(),
            final(self).captured() == old(self).captured(),
            !final(self).write_pending(),
            final(self).flush_pending() == old(self).flush_pending(),
    {
    }

    /// An observer consumes the flush-complete notification, if any, and
    /// loads the durable offset: `[0, durable)` is the only byte range safe
    /// to consume. Returns `None` when no notification was buffered (a real
    /// observer would suspend). Observers never move offsets or the phase.
    pub fn await_flush(&mut self) -> (r: Option<usize>)
        requires
            old(self).wf(),
        ensures
            final(self).wf(),
            final(self).written() == old(self).written(),
            final(self).durable() == old(self).durable(),
            final(self).captured() == old(self).captured(),
            final(self).phase() == old(self).phase(),
            final(self).write_pending() == old(self).write_pending(),
            !final(self).flush_pending(),
            old(self).flush_pending() ==> r == Some(old(self).durable()),
            !old(self).flush_pending() ==> r is None,
    {
        if self.flush_done.try_wait() {
            Some(self.durable)
        } else {
            None
        }
    }

    /// Load the written offset.
    pub fn written_offset(&self) -> (r: usize)
        ensures
            r == self.written(),
    {
        self.written
    }

    /// Load the durable offset.
    pub fn durable_offset(&self) -> (r: usize)
        ensures
            r == self.durable(),
    {
        self.durable
    }

    /// Whether a new append may start now; mirrors `can_append`.
    pub fn ready_to_append(&self) -> (r: bool)
        ensures
            r == self.can_append(),
    {
        match self.phase {
            Phase::Idle => true,
            Phase::Durable => true,
            _ => false,
        }
    }

    /// Whether the durabilizer has work now; mirrors `flush_ready`.
    pub fn ready_to_flush(&self) -> (r: bool)
        ensures
            r == self.flush_ready(),
    {
        match self.phase {
            Phase::Flushing => true,
            _ => self.write_done.pending_now(),
        }
    }
}

/// The durable offset never exceeds the written offset: holds in every
/// well-formed session state, so at every observation point of every round.
pub proof fn lemma_durable_le_written(s: Session)
    requires
        s.wf(),
    ensures
        s.durable() <= s.written(),
{
}

} // verus!
