//! An in-memory, single-writer/single-reader byte pipe for asynchronous code.
//!
//! The writer posts one chunk at a time; the reader copies it out and
//! acknowledges it, so at most one chunk is ever in flight.
pub mod laws;
mod reader;
mod state;
mod writer;

pub use self::reader::PipeReader;
pub use self::state::{ChannelInv, ChannelModel, ChannelState, PipeError, Progress};
pub use self::writer::PipeWriter;

use vstd::prelude::*;

verus! {

/// Creates a connected writer and reader over a fresh, idle, open channel.
pub fn pipe() -> (r: (PipeWriter, PipeReader))
    ensures
        r.0.channel() == r.1.channel(),
        r.0.channel().pred() == (ChannelInv {}),
{
    let shared = state::new_shared();
    let w = PipeWriter::from_shared(state::share(&shared));
    let r = PipeReader::from_shared(shared);
    (w, r)
}

} // verus!
