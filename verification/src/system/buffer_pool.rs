//! A pool of reusable byte buffers for archive work.

use vstd::prelude::*;

verus! {

/// A bounded pool of empty buffers.
pub struct BufferPool {
    buffers: Vec<Vec<u8>>,
    buffer_size: usize,
    max_buffers: usize,
}

impl BufferPool {
    /// The number of buffers waiting in the pool.
    pub closed spec fn pooled(&self) -> nat {
        self.buffers@.len()
    }

    /// The largest number of buffers the pool keeps.
    pub closed spec fn limit(&self) -> usize {
        self.max_buffers
    }

    /// The capacity asked for when a buffer is made.
    pub closed spec fn chunk(&self) -> usize {
        self.buffer_size
    }

    /// Every pooled buffer is empty.
    pub closed spec fn wf(&self) -> bool {
        forall|i: int| 0 <= i < self.buffers@.len() ==> (#[trigger] self.buffers@[i])@.len() == 0
    }

    /// A pool of at most 100 buffers of 64 KiB.
    pub fn new() -> (p: Self)
        ensures
            p.wf(),
            p.pooled() == 0,
            p.limit() == 100,
            p.chunk() == 65536,
    {
        BufferPool::with_config(65536, 100)
    }

    /// A pool of at most `max_buffers` buffers of `buffer_size` bytes.
    pub fn with_config(buffer_size: usize, max_buffers: usize) -> (p: Self)
        ensures
            p.wf(),
            p.pooled() == 0,
            p.limit() == max_buffers,
            p.chunk() == buffer_size,
    {
        BufferPool { buffers: Vec::new(), buffer_size, max_buffers }
    }

    /// Takes a buffer from the pool, or makes one when the pool is empty. The
    /// buffer is empty either way.
    pub fn get(&mut self) -> (b: Vec<u8>)
        requires
            old(self).wf(),
        ensures
            final(self).wf(),
            b@.len() == 0,
            final(self).pooled() == if old(self).pooled() > 0 {
                (old(self).pooled() - 1) as nat
            } else {
                0
            },
            final(self).limit() == old(self).limit(),
            final(self).chunk() == old(self).chunk(),
    {
        match self.buffers.pop() {
            Some(b) => b,
            None => Vec::with_capacity(self.buffer_size),
        }
    }

    /// Hands a buffer back. It is emptied and kept unless the pool is full.
    pub fn put(&mut self, buffer: Vec<u8>)
        requires
            old(self).wf(),
        ensures
            final(self).wf(),
            final(self).pooled() == if old(self).pooled() < old(self).limit() {
                old(self).pooled() + 1
            } else {
                old(self).pooled()
            },
            final(self).limit() == old(self).limit(),
            final(self).chunk() == old(self).chunk(),
    {
        let mut buffer = buffer;
        buffer.clear();
        if self.buffers.len() < self.max_buffers {
            self.buffers.push(buffer);
        }
    }

    /// The number of buffers waiting in the pool.
    pub fn size(&self) -> (n: usize)
        ensures
            n == self.pooled(),
    {
        self.buffers.len()
    }

    /// Drops every pooled buffer.
    pub fn clear(&mut self)
        ensures
            final(self).wf(),
            final(self).pooled() == 0,
            final(self).limit() == old(self).limit(),
            final(self).chunk() == old(self).chunk(),
    {
        self.buffers = Vec::new();
    }
}

impl Default for BufferPool {
    fn default() -> (p: Self)
        ensures
            p.wf(),
            p.pooled() == 0,
    {
        BufferPool::new()
    }
}

} // verus!
