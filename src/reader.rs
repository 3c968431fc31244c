use crate::state::{wake_task, ChannelInv, ChannelState, Progress, SharedState};
use std::task::Waker;
use vstd::prelude::*;
use vstd::rwlock::RwLock;

verus! {

/// The read half of the pipe.
///
/// Dropping a handle does not close the pipe: call `close` first, or the
/// writer keeps waiting for this end.
pub struct PipeReader {
    pub(crate) state: SharedState,
}

impl PipeReader {
    /// The lock that guards the shared state.
    pub closed spec fn channel(&self) -> RwLock<ChannelState, ChannelInv> {
        *self.state
    }

    /// A handle over the shared state `state`.
    pub(crate) fn from_shared(state: SharedState) -> (h: PipeReader)
        ensures
            h.channel() == *state,
    {
        PipeReader { state }
    }

    /// Closes the pipe: any further read returns end-of-stream and any further
    /// write fails. A writer waiting for its chunk to be taken is woken.
    pub fn close(&self) {
        let (mut s, handle) = self.state.acquire_write();
        let w = s.close_by_reader();
        handle.release_write(s);
        wake_task(w);
    }

    /// Whether no handoff is in progress: the last chunk written has been
    /// taken by the reader and its writer has seen that.
    pub fn is_flushed(&self) -> bool {
        let handle = self.state.acquire_read();
        let r = handle.borrow().is_flushed();
        handle.release_read();
        r
    }

    /// One poll of a read into `buf`. `Ready(0)` is end-of-stream (or an
    /// empty chunk); `Pending` means `waker` is stored and will be woken.
    pub fn poll_read(&self, waker: &Waker, buf: &mut [u8]) -> (r: Progress<usize>)
        ensures
            final(buf)@.len() == old(buf)@.len(),
            match r {
                Progress::Ready(n) => n <= old(buf)@.len()
                    && final(buf)@.skip(n as int) == old(buf)@.skip(n as int),
                Progress::Pending => final(buf)@ == old(buf)@,
            },
    {
        let waker = waker.clone();
        let (mut s, handle) = self.state.acquire_write();
        let ghost before = s@;
        let cap = buf.len();
        let (r, w) = s.poll_read(waker, buf);
        proof {
            assert(cap == old(buf)@.len());
            if before.pending is Some {
                let n = before.copy_len(old(buf)@.len());
                assert(n <= old(buf)@.len());
                assert(buf@.skip(n as int) =~= old(buf)@.skip(n as int));
            } else {
                assert(buf@.skip(0) =~= old(buf)@.skip(0));
            }
        }
        handle.release_write(s);
        wake_task(w);
        r
    }
}

} // verus!
