use std::sync::Arc;
use std::task::Waker;
use vstd::prelude::*;
use vstd::rwlock::{RwLock, RwLockPredicate};

verus! {

#[verifier::external_type_specification]
#[verifier::external_body]
pub struct ExWaker(std::task::Waker);

/// Relies on `Waker::wake`: it schedules the task and returns.
pub assume_specification[ std::task::Waker::wake ](w: std::task::Waker);

/// Relies on `<Waker as Clone>::clone`: a handle to the same task.
pub assume_specification[ <std::task::Waker as Clone>::clone ](w: &std::task::Waker) -> std::task::Waker;

/// Result of one poll of a pipe operation.
#[derive(Debug, PartialEq, Eq)]
pub enum Progress<T> {
    Ready(T),
    Pending,
}

/// The error a write reports once the pipe is closed.
#[derive(Debug, Clone, Copy, PartialEq, Eq)]
pub enum PipeError {
    BrokenPipe,
}

/// Mathematical view of the shared channel state; wakers are seen only as
/// present or absent.
pub struct ChannelModel {
    pub pending: Option<Seq<u8>>,
    pub cycle_complete: bool,
    pub read_completed: bool,
    pub bytes_copied: nat,
    pub closed: bool,
    pub reader_waiting: bool,
    pub writer_waiting: bool,
}

impl ChannelModel {
    /// A fresh pipe: idle and open, nobody waiting.
    pub open spec fn initial() -> ChannelModel {
        ChannelModel {
            pending: None,
            cycle_complete: true,
            read_completed: false,
            bytes_copied: 0,
            closed: false,
            reader_waiting: false,
            writer_waiting: false,
        }
    }

    /// The handshake invariant.
    pub open spec fn wf(self) -> bool {
        &&& self.pending is Some ==> !self.cycle_complete && !self.read_completed
        &&& self.read_completed ==> !self.cycle_complete && self.pending is None
        &&& !self.read_completed ==> self.bytes_copied == 0
    }

    /// Number of bytes a read with room for `cap` bytes takes from the pending chunk.
    pub open spec fn copy_len(self, cap: nat) -> nat {
        let len = self.pending->0.len();
        if len <= cap { len } else { cap }
    }

    /// The bytes a read with room for `cap` bytes delivers.
    pub open spec fn delivered(self, cap: nat) -> Seq<u8> {
        self.pending->0.take(self.copy_len(cap) as int)
    }

    /// What one poll of a read with room for `cap` bytes reports.
    pub open spec fn read_result(self, cap: nat) -> Progress<usize> {
        if self.pending is Some {
            Progress::Ready(self.copy_len(cap) as usize)
        } else if self.closed {
            Progress::Ready(0)
        } else {
            Progress::Pending
        }
    }

    /// The state after one poll of a read with room for `cap` bytes.
    pub open spec fn after_read(self, cap: nat) -> ChannelModel {
        if self.pending is Some {
            ChannelModel {
                pending: None,
                read_completed: true,
                bytes_copied: self.copy_len(cap),
                reader_waiting: false,
                writer_waiting: false,
                ..self
            }
        } else if self.closed {
            self
        } else {
            ChannelModel { reader_waiting: true, ..self }
        }
    }

    /// What one poll of a write reports.
    pub open spec fn write_result(self) -> Progress<Result<usize, PipeError>> {
        if self.read_completed {
            Progress::Ready(Ok(self.bytes_copied as usize))
        } else if self.closed {
            Progress::Ready(Err(PipeError::BrokenPipe))
        } else {
            Progress::Pending
        }
    }

    /// The state after one poll of a write of `data`.
    pub open spec fn after_write(self, data: Seq<u8>) -> ChannelModel {
        if self.read_completed {
            ChannelModel {
                cycle_complete: true,
                read_completed: false,
                bytes_copied: 0,
                writer_waiting: false,
                ..self
            }
        } else if self.closed {
            self
        } else if self.cycle_complete {
            ChannelModel {
                pending: Some(data),
                cycle_complete: false,
                reader_waiting: false,
                writer_waiting: true,
                ..self
            }
        } else {
            ChannelModel { writer_waiting: true, ..self }
        }
    }

    /// Whether a write poll wakes the reader: it does when it posts a chunk.
    pub open spec fn write_wakes_reader(self) -> bool {
        &&& !self.read_completed
        &&& !self.closed
        &&& self.cycle_complete
        &&& self.reader_waiting
    }

    /// Whether a read poll wakes the writer: it does when it takes a chunk.
    pub open spec fn read_wakes_writer(self) -> bool {
        self.pending is Some && self.writer_waiting
    }

    /// Whether a flush poll is done.
    pub open spec fn flush_ready(self) -> bool {
        self.cycle_complete || self.closed
    }

    /// The state after one poll of a flush.
    pub open spec fn after_flush(self) -> ChannelModel {
        if self.flush_ready() {
            self
        } else {
            ChannelModel { writer_waiting: true, ..self }
        }
    }

    /// The state after the reader closes the pipe; the writer's waker is taken.
    pub open spec fn after_reader_close(self) -> ChannelModel {
        ChannelModel { closed: true, writer_waiting: false, ..self }
    }

    /// The state after the writer closes the pipe; the reader's waker is taken.
    pub open spec fn after_writer_close(self) -> ChannelModel {
        ChannelModel { closed: true, reader_waiting: false, ..self }
    }
}

/// The state that the reader and writer share.
pub struct ChannelState {
    reader_waker: Option<Waker>,
    writer_waker: Option<Waker>,
    pending: Option<Vec<u8>>,
    cycle_complete: bool,
    read_completed: bool,
    bytes_copied: usize,
    closed: bool,
}

impl View for ChannelState {
    type V = ChannelModel;

    closed spec fn view(&self) -> ChannelModel {
        ChannelModel {
            pending: match self.pending {
                Some(v) => Some(v@),
                None => None,
            },
            cycle_complete: self.cycle_complete,
            read_completed: self.read_completed,
            bytes_copied: self.bytes_copied as nat,
            closed: self.closed,
            reader_waiting: self.reader_waker is Some,
            writer_waiting: self.writer_waker is Some,
        }
    }
}

/// Copies the first `min(chunk.len(), buf.len())` bytes of `chunk` into `buf`.
fn copy_prefix(chunk: &Vec<u8>, buf: &mut [u8]) -> (n: usize)
    ensures
        n as nat == (if chunk@.len() <= old(buf)@.len() { chunk@.len() } else { old(buf)@.len() }),
        final(buf)@ == chunk@.take(n as int) + old(buf)@.skip(n as int),
{
    let n: usize = if chunk.len() <= buf.len() { chunk.len() } else { buf.len() };
    let mut i: usize = 0;
    while i < n
        invariant
            n <= chunk@.len(),
            n <= old(buf)@.len(),
            i <= n,
            buf@.len() == old(buf)@.len(),
            forall|j: int| 0 <= j < i ==> buf@[j] == chunk@[j],
            forall|j: int| i <= j < buf@.len() ==> buf@[j] == old(buf)@[j],
        decreases n - i,
    {
        buf[i] = chunk[i];
        i = i + 1;
    }
    assert(buf@ =~= chunk@.take(n as int) + old(buf)@.skip(n as int));
    n
}

impl ChannelState {
    /// The handshake invariant, over the view.
    pub open spec fn wf(&self) -> bool {
        self@.wf()
    }

    /// The waker the reader left when it last had to wait.
    pub closed spec fn reader_waker_of(&self) -> Option<Waker> {
        self.reader_waker
    }

    /// The waker the writer left when it last had to wait.
    pub closed spec fn writer_waker_of(&self) -> Option<Waker> {
        self.writer_waker
    }

    /// A fresh state: idle and open.
    pub fn new() -> (s: ChannelState)
        ensures
            s@ == ChannelModel::initial(),
            s.wf(),
    {
        ChannelState {
            reader_waker: None,
            writer_waker: None,
            pending: None,
            cycle_complete: true,
            read_completed: false,
            bytes_copied: 0,
            closed: false,
        }
    }

    /// Whether no handoff is in progress.
    pub fn is_flushed(&self) -> (r: bool)
        ensures
            r == self@.cycle_complete,
    {
        self.cycle_complete
    }

    /// Whether either end has closed the pipe.
    pub fn is_closed(&self) -> (r: bool)
        ensures
            r == self@.closed,
    {
        self.closed
    }

    /// One poll of a read into `buf`. Returns the outcome and the writer's
    /// waker when it is to be woken (outside the lock).
    pub fn poll_read(&mut self, waker: Waker, buf: &mut [u8]) -> (r: (Progress<usize>, Option<Waker>))
        requires
            old(self).wf(),
        ensures
            final(self).wf(),
            final(self)@ == old(self)@.after_read(old(buf)@.len()),
            r.0 == old(self)@.read_result(old(buf)@.len()),
            (r.1 is Some) == old(self)@.read_wakes_writer(),
            r.1 == (if old(self)@.pending is Some { old(self).writer_waker_of() } else { None }),
            final(self).reader_waker_of() == (if old(self)@.pending is Some {
                None
            } else if old(self)@.closed {
                old(self).reader_waker_of()
            } else {
                Some(waker)
            }),
            final(self).writer_waker_of() == (if old(self)@.pending is Some {
                None
            } else {
                old(self).writer_waker_of()
            }),
            old(self)@.pending is Some ==> final(buf)@ == old(self)@.delivered(old(buf)@.len())
                + old(buf)@.skip(old(self)@.copy_len(old(buf)@.len()) as int),
            old(self)@.pending is None ==> final(buf)@ == old(buf)@,
    {
        match self.pending.take() {
            Some(chunk) => {
                let n = copy_prefix(&chunk, buf);
                self.bytes_copied = n;
                self.read_completed = true;
                self.reader_waker = None;
                let w = self.writer_waker.take();
                (Progress::Ready(n), w)
            },
            None => {
                if self.closed {
                    (Progress::Ready(0), None)
                } else {
                    self.reader_waker = Some(waker);
                    (Progress::Pending, None)
                }
            },
        }
    }

    /// One poll of a write of `data`. Returns the outcome and the reader's
    /// waker when it is to be woken (outside the lock).
    pub fn poll_write(&mut self, waker: Waker, data: &[u8]) -> (r: (Progress<Result<usize, PipeError>>, Option<Waker>))
        requires
            old(self).wf(),
        ensures
            final(self).wf(),
            final(self)@ == old(self)@.after_write(data@),
            r.0 == old(self)@.write_result(),
            (r.1 is Some) == old(self)@.write_wakes_reader(),
            r.1 == (if !old(self)@.read_completed && !old(self)@.closed && old(self)@.cycle_complete {
                old(self).reader_waker_of()
            } else {
                None
            }),
            final(self).writer_waker_of() == (if old(self)@.read_completed {
                None
            } else if old(self)@.closed {
                old(self).writer_waker_of()
            } else {
                Some(waker)
            }),
            final(self).reader_waker_of() == (if !old(self)@.read_completed && !old(self)@.closed && old(self)@.cycle_complete {
                None
            } else {
                old(self).reader_waker_of()
            }),
    {
        if self.read_completed {
            let n = self.bytes_copied;
            self.read_completed = false;
            self.bytes_copied = 0;
            self.cycle_complete = true;
            self.writer_waker = None;
            (Progress::Ready(Ok(n)), None)
        } else if self.closed {
            (Progress::Ready(Err(PipeError::BrokenPipe)), None)
        } else if self.cycle_complete {
            self.pending = Some(vstd::slice::slice_to_vec(data));
            self.cycle_complete = false;
            self.writer_waker = Some(waker);
            let w = self.reader_waker.take();
            (Progress::Pending, w)
        } else {
            self.writer_waker = Some(waker);
            (Progress::Pending, None)
        }
    }

    /// One poll of a flush: done once no handoff is in progress or the pipe is closed.
    pub fn poll_flush(&mut self, waker: Waker) -> (r: Progress<()>)
        requires
            old(self).wf(),
        ensures
            final(self).wf(),
            final(self)@ == old(self)@.after_flush(),
            (r is Ready) == old(self)@.flush_ready(),
            final(self).writer_waker_of() == (if old(self)@.flush_ready() {
                old(self).writer_waker_of()
            } else {
                Some(waker)
            }),
            final(self).reader_waker_of() == old(self).reader_waker_of(),
    {
        if self.cycle_complete || self.closed {
            Progress::Ready(())
        } else {
            self.writer_waker = Some(waker);
            Progress::Pending
        }
    }

    /// Closes the pipe from the reader's end; returns the writer's waker to wake.
    pub fn close_by_reader(&mut self) -> (w: Option<Waker>)
        requires
            old(self).wf(),
        ensures
            final(self).wf(),
            final(self)@ == old(self)@.after_reader_close(),
            (w is Some) == old(self)@.writer_waiting,
            w == old(self).writer_waker_of(),
    {
        self.closed = true;
        self.writer_waker.take()
    }

    /// Closes the pipe from the writer's end; returns the reader's waker to wake.
    pub fn close_by_writer(&mut self) -> (w: Option<Waker>)
        requires
            old(self).wf(),
        ensures
            final(self).wf(),
            final(self)@ == old(self)@.after_writer_close(),
            (w is Some) == old(self)@.reader_waiting,
            w == old(self).reader_waker_of(),
    {
        self.closed = true;
        self.reader_waker.take()
    }
}

/// The lock invariant of the shared state: the handshake invariant.
pub struct ChannelInv {}

impl RwLockPredicate<ChannelState> for ChannelInv {
    open spec fn inv(self, v: ChannelState) -> bool {
        v.wf()
    }
}

/// The state as both handles hold it.
///
/// The lock is a spin lock that is never poisoned. The handles clone and
/// wake wakers only while they do not hold it, so no outside code runs
/// under the lock.
pub type SharedState = Arc<RwLock<ChannelState, ChannelInv>>;

/// A fresh, idle, open shared state.
pub fn new_shared() -> (s: SharedState)
    ensures
        s.pred() == (ChannelInv {}),
{
    Arc::new(RwLock::new(ChannelState::new(), Ghost(ChannelInv {})))
}

/// Relies on `Arc::clone`: a second pointer to the same allocation.
#[verifier::external_body]
pub(crate) fn share(s: &SharedState) -> (r: SharedState)
    ensures
        r == *s,
{
    Arc::clone(s)
}

/// Wakes the task behind `w`, if any.
pub fn wake_task(w: Option<Waker>) {
    match w {
        Some(w) => w.wake(),
        None => {},
    }
}

} // verus!
