use vstd::prelude::*;
use crate::errors::SessionError;
use crate::observer::check_direct_read;
use crate::session::Session;
use crate::storage::MemFile;

verus! {

/// The three roles composed over one in-memory store.
///
/// This couples a `Session` to the `MemFile` it coordinates over, which is
/// where the protocol's promises become statements about bytes: the written
/// offset always equals the store's length, so the durable prefix
/// `[0, durable)` always lies within the store and reads back exactly what
/// was appended. The outcomes of the external write and sync calls — the
/// only operations that can fail here — are injected by the caller as
/// events, and every decision taken on them is verified.
pub struct MemPipeline {
    session: Session,
    file: MemFile,
}

impl MemPipeline {
    /// The coordination state shared by the three roles.
    pub closed spec fn state(self) -> Session {
        self.session
    }

    /// The bytes physically present in the store.
    pub closed spec fn bytes(self) -> Seq<u8> {
        self.file@
    }

    /// Bytes physically present, durability unknown.
    pub open spec fn written(self) -> usize {
        self.state().written()
    }

    /// Bytes guaranteed to survive a crash.
    pub open spec fn durable(self) -> usize {
        self.state().durable()
    }

    /// Whether a new append may start.
    pub open spec fn can_append(self) -> bool {
        self.state().can_append()
    }

    /// Whether the durabilizer has work: a buffered write-complete
    /// notification, or a failed flush awaiting retry.
    pub open spec fn flush_ready(self) -> bool {
        self.state().flush_ready()
    }

    /// Whether a flush-complete notification is buffered.
    pub open spec fn flush_pending(self) -> bool {
        self.state().flush_pending()
    }

    /// The offset the next successful sync will publish: the written offset
    /// captured when the flush begins, or the one already captured by a
    /// flush awaiting retry.
    pub open spec fn capture_target(self) -> usize {
        if self.state().write_pending() {
            self.state().written()
        } else {
            self.state().captured()
        }
    }

    /// What any observer sees: exactly the durable prefix of the store.
    pub open spec fn observed(self) -> Seq<u8> {
        self.bytes().take(self.durable() as int)
    }

    /// The pipeline invariant: the session is well-formed and the written
    /// offset equals the physical store length, so
    /// `durable <= written <= length` at every observation point.
    pub open spec fn wf(self) -> bool {
        &&& self.state().wf()
        &&& self.state().written() == self.bytes().len()
    }

    /// A fresh pipeline: empty store, both offsets zero, no round and no
    /// notification in flight.
    pub fn new() -> (p: MemPipeline)
        ensures
            p.wf(),
            p.bytes() == Seq::<u8>::empty(),
            p.written() == 0,
            p.durable() == 0,
            p.can_append(),
            !p.flush_ready(),
            !p.flush_pending(),
    {
        MemPipeline { session: Session::new(), file: MemFile::new() }
    }

    /// One appender step: issue the write, then record its outcome, given as
    /// `write_ok` since the store itself cannot fail. On success the payload
    /// lands at the end of the store, the written offset advances by its
    /// length, and write-complete is signaled. On failure the append never
    /// logically happened: nothing advances, nothing is signaled, and the
    /// round is abandoned with `IoError`.
    pub fn append(&mut self, payload: &[u8], write_ok: bool) -> (r: Result<usize, SessionError>)
        requires
            old(self).wf(),
            old(self).can_append(),
            old(self).written() + payload@.len() <= usize::MAX,
        ensures
            final(self).wf(),
            final(self).durable() == old(self).durable(),
            old(self).written() <= final(self).written(),
            final(self).flush_pending() == old(self).flush_pending(),
            write_ok ==> {
                &&& r == Ok::<usize, SessionError>(final(self).written())
                &&& final(self).bytes() == old(self).bytes() + payload@
                &&& final(self).written() == old(self).written() + payload@.len()
                &&& final(self).flush_ready()
                &&& final(self).capture_target() == final(self).written()
            },
            !write_ok ==> {
                &&& r == Err::<usize, SessionError>(SessionError::IoError)
                &&& final(self).bytes() == old(self).bytes()
                &&& final(self).written() == old(self).written()
                &&& !final(self).flush_ready()
                &&& final(self).can_append()
            },
    {
        self.session.begin_append();
        if write_ok {
            self.file.append(payload);
            self.session.record_write_success(payload.len());
            Ok(self.session.written_offset())
        } else {
            self.session.record_write_failure();
            Err(SessionError::IoError)
        }
    }

    /// One durabilizer step: consume the write-complete notification (or
    /// resume a flush whose barrier failed), issue the durability barrier,
    /// and record its outcome, given as `sync_ok`. On success the captured
    /// offset — never more than the barrier covered — is published as the
    /// durable offset and flush-complete is signaled. On failure nothing is
    /// published and nothing signaled, so waiters stall rather than trust
    /// durability that did not happen; the same captured offset awaits a
    /// retry.
    pub fn flush(&mut self, sync_ok: bool) -> (r: Result<usize, SessionError>)
        requires
            old(self).wf(),
            old(self).flush_ready(),
        ensures
            final(self).wf(),
            final(self).bytes() == old(self).bytes(),
            final(self).written() == old(self).written(),
            old(self).durable() <= final(self).durable(),
            sync_ok ==> {
                &&& r == Ok::<usize, SessionError>(final(self).durable())
                &&& final(self).durable() == old(self).capture_target()
                &&& final(self).flush_pending()
                &&& final(self).can_append()
            },
            !sync_ok ==> {
                &&& r == Err::<usize, SessionError>(SessionError::SyncError)
                &&& final(self).durable() == old(self).durable()
                &&& final(self).flush_pending() == old(self).flush_pending()
                &&& final(self).flush_ready()
                &&& final(self).capture_target() == old(self).capture_target()
            },
    {
        let _ = self.session.begin_flush();
        if sync_ok {
            let d = self.session.record_sync_success();
            Ok(d)
        } else {
            self.session.record_sync_failure();
            Err(SessionError::SyncError)
        }
    }

    /// An observer consumes the flush-complete notification and learns the
    /// durable offset; `None` means no flush has completed since the last
    /// wait and a real observer would suspend. Observers never move offsets.
    pub fn await_flush(&mut self) -> (r: Option<usize>)
        requires
            old(self).wf(),
        ensures
            final(self).wf(),
            final(self).bytes() == old(self).bytes(),
            final(self).written() == old(self).written(),
            final(self).durable() == old(self).durable(),
            final(self).can_append() == old(self).can_append(),
            final(self).flush_ready() == old(self).flush_ready(),
            final(self).capture_target() == old(self).capture_target(),
            !final(self).flush_pending(),
            old(self).flush_pending() ==> r == Some(old(self).durable()),
            !old(self).flush_pending() ==> r is None,
    {
        self.session.await_flush()
    }

    /// An observer's read, mapped-view strategy: a read-only view over
    /// exactly `[0, durable)`, established only after durability is
    /// confirmed. It never reaches past the durable bound and never mutates
    /// shared state; the result is a function of the durable offset and the
    /// store contents alone, so repeated observation returns identical
    /// bytes.
    pub fn observe(&self) -> (r: Vec<u8>)
        requires
            self.wf(),
        ensures
            r@ == self.observed(),
    {
        let d = self.session.durable_offset();
        self.file.read_prefix(d)
    }

    /// An observer's read, direct-read strategy: the store length must equal
    /// the durable offset at the moment of the read — a mismatch is a
    /// coordination bug reported loudly as `BoundsError`, never silently
    /// truncated. On success the whole store comes back, which is exactly
    /// the durable prefix.
    pub fn observe_direct(&self) -> (r: Result<Vec<u8>, SessionError>)
        requires
            self.wf(),
        ensures
            self.durable() == self.bytes().len() ==> {
                &&& r matches Ok(v)
                &&& v@ == self.observed()
                &&& v@ == self.bytes()
            },
            self.durable() != self.bytes().len() ==> r == Err::<Vec<u8>, SessionError>(
                (SessionError::BoundsError {
                    expected: self.durable(),
                    actual: self.bytes().len() as usize,
                }),
            ),
    {
        let d = self.session.durable_offset();
        let len = self.file.len();
        match check_direct_read(d, len) {
            Ok(()) => {
                let v = self.file.read_prefix(d);
                proof {
                    assert(self.bytes().take(self.durable() as int) =~= self.bytes());
                }
                Ok(v)
            },
            Err(e) => Err(e),
        }
    }

    /// One complete successful round: append `payload`, flush, observe.
    /// Afterwards the durable offset equals the written offset and the read
    /// returns everything previously in the store followed by exactly the
    /// new payload; from an empty store the round-trip returns the payload
    /// alone.
    pub fn run_round(&mut self, payload: &[u8]) -> (r: Vec<u8>)
        requires
            old(self).wf(),
            old(self).can_append(),
            old(self).written() + payload@.len() <= usize::MAX,
        ensures
            final(self).wf(),
            final(self).can_append(),
            final(self).bytes() == old(self).bytes() + payload@,
            final(self).written() == old(self).written() + payload@.len(),
            final(self).durable() == final(self).written(),
            r@ == old(self).bytes() + payload@,
            old(self).bytes().len() == 0 ==> r@ == payload@,
    {
        let _ = self.append(payload, true);
        let _ = self.flush(true);
        let _ = self.await_flush();
        let r = self.observe();
        proof {
            assert(self.bytes().take(self.durable() as int) =~= self.bytes());
            if old(self).bytes().len() == 0 {
                assert(old(self).bytes() + payload@ =~= payload@);
            }
        }
        r
    }

    /// Load the written offset.
    pub fn written_offset(&self) -> (r: usize)
        ensures
            r == self.written(),
    {
        self.session.written_offset()
    }

    /// Load the durable offset.
    pub fn durable_offset(&self) -> (r: usize)
        ensures
            r == self.durable(),
    {
        self.session.durable_offset()
    }

    /// The number of bytes physically present in the store.
    pub fn file_len(&self) -> (r: usize)
        ensures
            r == self.bytes().len(),
    {
        self.file.len()
    }

    /// Whether a new append may start now; mirrors `can_append`.
    pub fn ready_to_append(&self) -> (r: bool)
        ensures
            r == self.can_append(),
    {
        self.session.ready_to_append()
    }

    /// Whether the durabilizer has work now; mirrors `flush_ready`.
    pub fn ready_to_flush(&self) -> (r: bool)
        ensures
            r == self.flush_ready(),
    {
        self.session.ready_to_flush()
    }
}

/// The durable offset never exceeds the written offset, which never exceeds
/// the physical store length: no observer is ever directed past the bytes
/// that exist.
pub proof fn lemma_offsets_bounded(p: MemPipeline)
    requires
        p.wf(),
    ensures
        p.durable() <= p.written(),
        p.written() <= p.bytes().len(),
{
}

/// Repeated observation after the same flush-complete signal returns
/// identical bytes: what an observer sees is a function of the durable
/// offset and the store contents alone, and observation mutates neither.
pub proof fn lemma_observation_idempotent(p: MemPipeline, r1: Seq<u8>, r2: Seq<u8>)
    requires
        p.wf(),
        r1 == p.observed(),
        r2 == p.observed(),
    ensures
        r1 == r2,
{
}

/// Before any flush has completed the durable offset is zero, and an
/// observer that proceeds without waiting sees no bytes at all — never
/// partial or garbage bytes beyond the true durable prefix.
pub proof fn lemma_nothing_durable_nothing_observed(p: MemPipeline)
    requires
        p.wf(),
        p.durable() == 0,
    ensures
        p.observed() == Seq::<u8>::empty(),
{
    assert(p.observed() =~= Seq::<u8>::empty());
}

/// A direct read and a mapped view taken after the same flush agree: when
/// the store length equals the durable offset, the durable prefix is the
/// whole store, so both strategies report identical content.
pub proof fn lemma_observers_agree(p: MemPipeline)
    requires
        p.wf(),
        p.durable() == p.bytes().len(),
    ensures
        p.observed() == p.bytes(),
{
    assert(p.observed() =~= p.bytes());
}

} // verus!
