//! The pool of reusable read buffers. A fixed set of equally sized
//! buffers circulates between reader and workers; taking one moves it out
//! of the pool, so at any time a buffer is owned by exactly one party —
//! the pool, the reader, or a worker.

use vstd::prelude::*;

verus! {

/// A bounded pool of byte buffers, all of one configured size.
pub struct BufferPool {
    pub buffers: Vec<Vec<u8>>,
    pub buffer_size: usize,
}

impl BufferPool {
    /// Every pooled buffer has the configured size, which covers whole
    /// scoops only.
    pub open spec fn wf(&self) -> bool {
        &&& self.buffer_size > 0
        &&& self.buffer_size % 64 == 0
        &&& forall|i: int|
            0 <= i < self.buffers.len() ==> (#[trigger] self.buffers[i]).len() == self.buffer_size
    }

    /// Builds a pool of `count` zeroed buffers of `buffer_size` bytes.
    pub fn new(count: usize, buffer_size: usize) -> (r: BufferPool)
        requires
            buffer_size > 0,
            buffer_size % 64 == 0,
        ensures
            r.wf(),
            r.buffers.len() == count,
            r.buffer_size == buffer_size,
    {
        let mut buffers: Vec<Vec<u8>> = Vec::new();
        let mut i: usize = 0;
        while i < count
            invariant
                0 <= i <= count,
                buffers.len() == i,
                forall|k: int| 0 <= k < i ==> (#[trigger] buffers[k]).len() == buffer_size,
            decreases count - i,
        {
            let mut b: Vec<u8> = Vec::new();
            let mut j: usize = 0;
            while j < buffer_size
                invariant
                    0 <= j <= buffer_size,
                    b.len() == j,
                decreases buffer_size - j,
            {
                b.push(0u8);
                j = j + 1;
            }
            buffers.push(b);
            i = i + 1;
        }
        BufferPool { buffers, buffer_size }
    }

    /// Takes a buffer out of the pool, or reports the pool empty. The
    /// buffer leaves the pool: its ownership moves to the caller.
    pub fn take(&mut self) -> (r: Option<Vec<u8>>)
        requires
            old(self).wf(),
        ensures
            final(self).wf(),
            final(self).buffer_size == old(self).buffer_size,
            old(self).buffers.len() == 0 ==> r is None && final(self).buffers@ == old(
                self,
            ).buffers@,
            old(self).buffers.len() > 0 ==> match r {
                Some(b) => b.len() == old(self).buffer_size && final(self).buffers.len() == old(
                    self,
                ).buffers.len() - 1,
                None => false,
            },
    {
        self.buffers.pop()
    }

    /// Returns a buffer to the pool; only buffers of the pool's size come
    /// back.
    pub fn put(&mut self, buffer: Vec<u8>)
        requires
            old(self).wf(),
            buffer.len() == old(self).buffer_size,
        ensures
            final(self).wf(),
            final(self).buffer_size == old(self).buffer_size,
            final(self).buffers.len() == old(self).buffers.len() + 1,
    {
        self.buffers.push(buffer);
    }
}

} // verus!
