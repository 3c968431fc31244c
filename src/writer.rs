use crate::state::{wake_task, ChannelInv, ChannelState, PipeError, Progress, SharedState};
use std::task::Waker;
use vstd::prelude::*;
use vstd::rwlock::RwLock;

verus! {

/// The write half of the pipe.
///
/// Dropping a handle does not close the pipe: call `close` first, or the
/// reader keeps waiting for this end.
pub struct PipeWriter {
    pub(crate) state: SharedState,
}

impl PipeWriter {
    /// The lock that guards the shared state.
    pub closed spec fn channel(&self) -> RwLock<ChannelState, ChannelInv> {
        *self.state
    }

    /// A handle over the shared state `state`.
    pub(crate) fn from_shared(state: SharedState) -> (h: PipeWriter)
        ensures
            h.channel() == *state,
    {
        PipeWriter { state }
    }

    /// Closes the pipe: the reader sees end-of-stream once no chunk is
    /// pending, and any further write fails. A waiting reader is woken.
    pub fn close(&self) {
        let (mut s, handle) = self.state.acquire_write();
        let w = s.close_by_writer();
        handle.release_write(s);
        wake_task(w);
    }

    /// One poll of a write of `data`. The first poll posts the chunk; the
    /// poll after the reader has taken it reports how many bytes it took.
    pub fn poll_write(&self, waker: &Waker, data: &[u8]) -> (r: Progress<Result<usize, PipeError>>) {
        let waker = waker.clone();
        let (mut s, handle) = self.state.acquire_write();
        let (r, w) = s.poll_write(waker, data);
        handle.release_write(s);
        wake_task(w);
        r
    }

    /// One poll of a flush: ready once no handoff is in progress or the pipe
    /// is closed.
    pub fn poll_flush(&self, waker: &Waker) -> (r: Progress<()>) {
        let waker = waker.clone();
        let (mut s, handle) = self.state.acquire_write();
        let r = s.poll_flush(waker);
        handle.release_write(s);
        r
    }
}

} // verus!
