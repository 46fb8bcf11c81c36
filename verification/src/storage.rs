use vstd::prelude::*;

verus! {

/// An in-memory append-only byte store.
///
/// This is the model of the shared file that the coordination protocol is
/// proved against: bytes are only ever added at the end, never overwritten,
/// and any prefix can be read back. The real file on disk plays the same
/// role through its own handles; its syscalls are external collaborators.
pub struct MemFile {
    bytes: Vec<u8>,
}

impl View for MemFile {
    type V = Seq<u8>;

    closed spec fn view(&self) -> Seq<u8> {
        self.bytes@
    }
}

impl MemFile {
    /// A fresh, empty store.
    pub fn new() -> (f: MemFile)
        ensures
            f@ == Seq::<u8>::empty(),
    {
        let f = MemFile { bytes: Vec::new() };
        proof {
            assert(f@ =~= Seq::<u8>::empty());
        }
        f
    }

    /// The number of bytes physically present.
    pub fn len(&self) -> (r: usize)
        ensures
            r == self@.len(),
    {
        self.bytes.len()
    }

    /// Append `data` at the current end; existing bytes are untouched.
    pub fn append(&mut self, data: &[u8])
        requires
            old(self)@.len() + data@.len() <= usize::MAX,
        ensures
            final(self)@ == old(self)@ + data@,
    {
        let mut i: usize = 0;
        while i < data.len()
            invariant
                i <= data@.len(),
                self@ == old(self)@ + data@.take(i as int),
            decreases data@.len() - i,
        {
            let b = data[i];
            self.bytes.push(b);
            proof {
                assert(old(self)@ + data@.take(i + 1) =~= (old(self)@ + data@.take(
                    i as int,
                )).push(data@[i as int]));
            }
            i = i + 1;
        }
        proof {
            assert(data@.take(data@.len() as int) =~= data@);
        }
    }

    /// Read back exactly the first `n` bytes.
    pub fn read_prefix(&self, n: usize) -> (r: Vec<u8>)
        requires
            n <= self@.len(),
        ensures
            r@ == self@.take(n as int),
    {
        let mut r: Vec<u8> = Vec::new();
        let mut i: usize = 0;
        while i < n
            invariant
                i <= n <= self@.len(),
                r@ == self@.take(i as int),
            decreases n - i,
        {
            let b = self.bytes[i];
            r.push(b);
            proof {
                assert(self@.take(i + 1) =~= self@.take(i as int).push(self@[i as int]));
            }
            i = i + 1;
        }
        r
    }
}

} // verus!
