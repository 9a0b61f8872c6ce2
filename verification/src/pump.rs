//! The output streaming pump: one per session, started by the boundary
//! layer once it is ready to receive events. Each step drains one
//! bounded chunk from the session's reader and forwards it to a sink;
//! chunks are delivered in read order, and delivery only ever appends.
//! The driver repeats steps until one reports the end of the stream —
//! the stream ends only when the child exits, so no terminating loop
//! can stand here — then marks the session exited and notifies the
//! sink's consumer.

use vstd::prelude::*;

use crate::pty;

verus! {

/// The pump's fixed read-buffer length: every forwarded chunk is
/// between one byte and this many.
pub const CHUNK_SIZE: usize = 4096;

/// Where the pump forwards a session's output. The boundary layer
/// registers its event emitter as one of these; `BufferSink` is a
/// verified in-memory one.
pub trait OutputSink {
    /// Everything delivered to this sink so far, in delivery order.
    spec fn received(&self) -> Seq<u8>;

    /// Accepts the next output chunk of the given session; delivery
    /// appends the chunk to what was received, keeping order.
    fn on_chunk(&mut self, session_id: &str, chunk: &[u8])
        ensures
            final(self).received() == old(self).received() + chunk@,
    ;
}

/// A sink that concatenates every delivered chunk in memory.
pub struct BufferSink {
    /// The concatenation of all chunks delivered so far.
    pub data: Vec<u8>,
}

impl BufferSink {
    /// An empty sink.
    pub fn new() -> (r: BufferSink)
        ensures
            r.received() == Seq::<u8>::empty(),
    {
        BufferSink { data: Vec::new() }
    }
}

impl OutputSink for BufferSink {
    open spec fn received(&self) -> Seq<u8> {
        self.data@
    }

    fn on_chunk(&mut self, session_id: &str, chunk: &[u8]) {
        self.data.extend_from_slice(chunk);
    }
}

/// The pump's buffer: freshly zeroed, one bounded chunk long.
pub fn pump_buffer() -> (r: Vec<u8>)
    ensures
        r@.len() == CHUNK_SIZE,
{
    vec![0u8; CHUNK_SIZE]
}

/// The pump's decision on one read outcome: a count of zero is the end
/// of the stream — the step is over and nothing is forwarded; a
/// positive count forwards exactly the first `n` bytes of the buffer to
/// the sink, tagged with the session identifier.
pub fn handle_chunk<S: OutputSink>(
    session_id: &str,
    n: usize,
    buf: &Vec<u8>,
    sink: &mut S,
) -> (done: bool)
    requires
        n <= buf@.len(),
    ensures
        done == (n == 0),
        done ==> final(sink).received() == old(sink).received(),
        !done ==> final(sink).received() == old(sink).received() + buf@.subrange(0, n as int),
{
    if n == 0 {
        return true;
    }
    let chunk = vstd::slice::slice_subrange(buf.as_slice(), 0, n);
    sink.on_chunk(session_id, chunk);
    false
}

/// One pump step: reads one bounded chunk from the session's reader
/// into `buf` and hands the outcome to `handle_chunk`. A read error
/// forwards nothing and reports the stream over; otherwise the step
/// reports the stream over exactly on a zero-length read, and a
/// not-over step forwards exactly a non-empty prefix of the freshly
/// filled buffer — so across any run of steps the chunks arrive in read
/// order, each between one byte and the buffer's length, and nothing
/// delivered is lost.
pub fn pump_step<S: OutputSink>(
    reader: &mut pty::PtyReader,
    session_id: &str,
    buf: &mut Vec<u8>,
    sink: &mut S,
) -> (done: bool)
    requires
        old(buf)@.len() > 0,
    ensures
        final(buf)@.len() == old(buf)@.len(),
        old(sink).received().is_prefix_of(final(sink).received()),
        final(sink).received().len() <= old(sink).received().len() + final(buf)@.len(),
        done ==> final(sink).received() == old(sink).received(),
        !done ==> (exists|n: int|
            0 < n <= final(buf)@.len() && final(sink).received() == old(sink).received()
                + final(buf)@.subrange(0, n)),
{
    let n = match pty::reader_read(reader, buf) {
        Ok(n) => n,
        Err(_) => {
            return true;
        },
    };
    let done = handle_chunk(session_id, n, buf, sink);
    proof {
        if !done {
            assert(0 < n as int <= buf@.len());
            let p = old(sink).received();
            assert(p =~= sink.received().subrange(0, p.len() as int));
        }
    }
    done
}

} // verus!
