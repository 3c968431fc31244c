use crate::state::{ChannelModel, PipeError, Progress};
use vstd::prelude::*;

verus! {

/// A chunk written in one call and read with room for all of it arrives
/// whole and in order; the writer is told that every byte was taken; the
/// cycle then ends with nothing left over for a later read. A read before
/// the chunk is posted waits rather than report end-of-stream, and once the
/// writer closes after the cycle, the next read reports end-of-stream.
pub proof fn lemma_chunk_round_trip(m: ChannelModel, data: Seq<u8>, cap: nat)
    requires
        m.wf(),
        m.cycle_complete,
        !m.closed,
        data.len() <= cap,
        cap <= usize::MAX,
    ensures
        ({
            let posted = m.after_write(data);
            let taken = posted.after_read(cap);
            let done = taken.after_write(data);
            &&& m.read_result(cap) == Progress::<usize>::Pending
            &&& m.write_result() == Progress::<Result<usize, PipeError>>::Pending
            &&& posted.read_result(cap) == Progress::Ready(data.len() as usize)
            &&& posted.delivered(cap) == data
            &&& taken.write_result() == Progress::Ready(Ok::<usize, PipeError>(data.len() as usize))
            &&& done.cycle_complete
            &&& done.pending is None
            &&& done.read_result(cap) == Progress::<usize>::Pending
            &&& done.after_writer_close().read_result(cap) == Progress::Ready(0usize)
        }),
{
    let posted = m.after_write(data);
    assert(posted.delivered(cap) =~= data);
}

/// Once closed, no write is accepted and no chunk is posted, unless the
/// reader had already taken the chunk of the write in progress.
pub proof fn lemma_closed_pipe_refuses_writes(m: ChannelModel, data: Seq<u8>)
    requires
        m.wf(),
        m.closed,
        !m.read_completed,
    ensures
        m.write_result() == Progress::Ready(Err::<usize, PipeError>(PipeError::BrokenPipe)),
        m.after_write(data) == m,
{
}

/// Closing the reader while a posted chunk waits makes that write fail with
/// a broken pipe, and the next write posts nothing.
pub proof fn lemma_reader_close_breaks_pending_write(m: ChannelModel, data: Seq<u8>, later: Seq<u8>)
    requires
        m.wf(),
        m.cycle_complete,
        !m.closed,
    ensures
        ({
            let closed = m.after_write(data).after_reader_close();
            let retried = closed.after_write(data);
            &&& closed.write_result() == Progress::Ready(Err::<usize, PipeError>(PipeError::BrokenPipe))
            &&& retried == closed
            &&& retried.write_result() == Progress::Ready(Err::<usize, PipeError>(PipeError::BrokenPipe))
            &&& retried.after_write(later).pending == Some(data)
        }),
{
}

/// Closing the writer when no chunk is pending makes the next read report
/// end-of-stream: zero bytes, no error.
pub proof fn lemma_writer_close_gives_end_of_stream(m: ChannelModel, cap: nat)
    requires
        m.wf(),
        m.pending is None,
    ensures
        m.after_writer_close().read_result(cap) == Progress::Ready(0usize),
        m.after_writer_close().after_read(cap).read_result(cap) == Progress::Ready(0usize),
{
}

/// A read with less room than the pending chunk takes exactly as many bytes
/// as it has room for, the writer is told that count, and the rest of the
/// chunk reaches no later read.
pub proof fn lemma_short_read_drops_excess(m: ChannelModel, cap: nat, next_cap: nat)
    requires
        m.wf(),
        m.pending is Some,
        cap < m.pending->0.len(),
        cap <= usize::MAX,
    ensures
        ({
            let taken = m.after_read(cap);
            &&& m.read_result(cap) == Progress::Ready(cap as usize)
            &&& m.delivered(cap) == m.pending->0.take(cap as int)
            &&& taken.pending is None
            &&& taken.write_result() == Progress::Ready(Ok::<usize, PipeError>(cap as usize))
            &&& taken.read_result(next_cap) == (if m.closed {
                Progress::Ready(0usize)
            } else {
                Progress::Pending
            })
        }),
{
}

/// A pipe is flushed when it is made; it is not from the moment a chunk is
/// posted until the writer has seen the reader take it; then it is again.
pub proof fn lemma_flushed_outside_handoffs(m: ChannelModel, data: Seq<u8>, cap: nat)
    requires
        m.wf(),
        m.cycle_complete,
        !m.closed,
    ensures
        ChannelModel::initial().cycle_complete,
        !m.after_write(data).cycle_complete,
        !m.after_write(data).after_read(cap).cycle_complete,
        m.after_write(data).after_read(cap).after_write(data).cycle_complete,
{
}

} // verus!
