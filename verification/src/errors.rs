use vstd::prelude::*;

verus! {

/// Everything that can go wrong in a coordination round.
///
/// `IoError` and `SyncError` report a failed syscall at the append or
/// durability boundary; the round halts and no offset advances. `BoundsError`
/// reports a violated coordination invariant (the durable offset disagreeing
/// with the physical file length): a bug, never an external fault, carrying
/// the expected and actual byte counts for diagnosis.
#[derive(Clone, Copy, Debug, PartialEq, Eq, Structural)]
pub enum SessionError {
    IoError,
    SyncError,
    BoundsError { expected: usize, actual: usize },
}

} // verus!
