use vstd::prelude::*;
use crate::errors::SessionError;

verus! {

/// Observer-side bound check before a direct or mapped read of the durable
/// prefix: `[0, durable)` must lie within the physical file, else the
/// coordination invariant was violated. On success returns the byte count to
/// read; on violation, the offsets involved.
pub fn plan_read(durable: usize, file_len: usize) -> (r: Result<usize, SessionError>)
    ensures
        durable <= file_len ==> r == Ok::<usize, SessionError>(durable),
        durable > file_len ==> r == Err::<usize, SessionError>(
            (SessionError::BoundsError { expected: durable, actual: file_len }),
        ),
{
    if durable <= file_len {
        Ok(durable)
    } else {
        Err(SessionError::BoundsError { expected: durable, actual: file_len })
    }
}

/// The stricter check a direct reader makes: the file length reported by
/// metadata must equal the durable offset at the moment of the read. A
/// mismatch is a coordination bug and fails loudly rather than silently
/// truncating.
pub fn check_direct_read(durable: usize, file_len: usize) -> (r: Result<(), SessionError>)
    ensures
        durable == file_len ==> r == Ok::<(), SessionError>(()),
        durable != file_len ==> r == Err::<(), SessionError>(
            (SessionError::BoundsError { expected: durable, actual: file_len }),
        ),
{
    if durable == file_len {
        Ok(())
    } else {
        Err(SessionError::BoundsError { expected: durable, actual: file_len })
    }
}

/// Whether the bytes read back equal the bytes written.
pub fn verify_payload(expected: &[u8], actual: &[u8]) -> (r: bool)
    ensures
        r == (expected@ == actual@),
{
    if expected.len() != actual.len() {
        return false;
    }
    let mut i: usize = 0;
    while i < expected.len()
        invariant
            i <= expected@.len(),
            expected@.len() == actual@.len(),
            forall|j: int| 0 <= j < i ==> expected@[j] == actual@[j],
        decreases expected@.len() - i,
    {
        if expected[i] != actual[i] {
            return false;
        }
        i = i + 1;
    }
    proof {
        assert(expected@ =~= actual@);
    }
    true
}

} // verus!
