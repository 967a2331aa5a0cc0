//! Shared ownership of one sample buffer.
//!
//! A capture thread and any number of analysis consumers each hold an
//! independent [`BufferHandle`] to the same underlying storage; the
//! storage is released when the last handle is dropped.  The lock guards
//! only the cursor update plus the raw frame copy, so a producer is
//! never blocked longer than one batch; a reader sees an arbitrarily
//! stale but internally consistent buffer state.

use std::sync::Arc;

use vstd::prelude::*;
use vstd::rwlock::{RwLock, RwLockPredicate};

use crate::buffer::SampleBuffer;
use crate::{Error, StereoSample};

verus! {

/// What every state of a shared buffer upholds: it is well formed and its
/// capacity and rate are the ones fixed at construction.
pub struct BufferInv {
    pub cap: int,
    pub rate: int,
}

impl RwLockPredicate<SampleBuffer> for BufferInv {
    open spec fn inv(self, b: SampleBuffer) -> bool {
        &&& b.wf()
        &&& b.cap() == self.cap
        &&& b.rate_spec() == self.rate
    }
}

/// A reference-counted handle to one shared sample buffer.
pub struct BufferHandle {
    inner: Arc<RwLock<SampleBuffer, BufferInv>>,
}

impl BufferHandle {
    /// Capacity of the shared buffer, fixed at construction.
    pub closed spec fn cap(self) -> int {
        (*self.inner).pred().cap
    }

    /// Sample rate of the shared buffer, fixed at construction.
    pub closed spec fn rate_spec(self) -> int {
        (*self.inner).pred().rate
    }

    /// A handle whose buffer states all satisfy the construction-time
    /// invariant.
    pub closed spec fn wf(self) -> bool {
        self.cap() >= 1
    }

    /// Allocate a shared buffer of `size` silent frames.  A zero
    /// capacity is a configuration error.
    pub fn new(size: usize, rate: usize) -> (r: Result<BufferHandle, Error>)
        ensures
            match r {
                Ok(h) => {
                    &&& size >= 1
                    &&& h.wf()
                    &&& h.cap() == size
                    &&& h.rate_spec() == rate
                },
                Err(e) => size == 0 && e == Error::ConfigurationError,
            },
    {
        match SampleBuffer::new(size, rate) {
            Ok(b) => {
                let lock = RwLock::new(
                    b,
                    Ghost(BufferInv { cap: size as int, rate: rate as int }),
                );
                Ok(BufferHandle { inner: Arc::new(lock) })
            },
            Err(e) => Err(e),
        }
    }

    /// A new handle sharing the same backing storage; not a copy of the
    /// data.
    pub fn clone_handle(&self) -> (h: BufferHandle)
        ensures
            h.cap() == self.cap(),
            h.rate_spec() == self.rate_spec(),
            h.wf() == self.wf(),
    {
        BufferHandle { inner: Arc::clone(&self.inner) }
    }

    /// Capacity of the shared buffer.
    pub fn capacity(&self) -> (c: usize)
        requires
            self.wf(),
        ensures
            c as int == self.cap(),
    {
        let handle = self.inner.acquire_read();
        let c = handle.borrow().capacity();
        handle.release_read();
        c
    }

    /// Sample rate of the shared buffer.
    pub fn sample_rate(&self) -> (r: usize)
        requires
            self.wf(),
        ensures
            r as int == self.rate_spec(),
    {
        let handle = self.inner.acquire_read();
        let r = handle.borrow().sample_rate();
        handle.release_read();
        r
    }

    /// Append frames through this handle, overwriting the oldest once
    /// the ring is full.  The lock is held only for the frame copy.
    pub fn push(&self, frames: &[StereoSample])
        requires
            self.wf(),
    {
        let (mut b, write_handle) = self.inner.acquire_write();
        b.push(frames);
        write_handle.release_write(b);
    }

    /// Read a decimated window through this handle: the result is the
    /// window of one internally consistent buffer state with this
    /// handle's capacity and rate — possibly stale, never torn.
    pub fn window(&self, window_length: usize, downsample: usize) -> (r: Vec<StereoSample>)
        requires
            self.wf(),
            downsample >= 1,
            window_length * downsample <= usize::MAX,
        ensures
            r@.len() == window_length,
            exists|b: SampleBuffer|
                {
                    &&& b.wf()
                    &&& b.cap() == self.cap()
                    &&& b.rate_spec() == self.rate_spec()
                    &&& r@ == b.window_view(window_length as int, downsample as int)
                },
    {
        let read_handle = self.inner.acquire_read();
        let b = read_handle.borrow();
        let r = b.iter(window_length, downsample);
        proof {
            let bw = *b;
            assert(bw.wf() && bw.cap() == self.cap() && bw.rate_spec() == self.rate_spec() && r@
                == bw.window_view(window_length as int, downsample as int));
        }
        read_handle.release_read();
        r
    }
}

} // verus!
