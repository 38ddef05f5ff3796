//! The idle cooperative loop's decision logic.
//!
//! All CPU time not claimed by interrupts drains the telemetry queue to the
//! log sink in bounded chunks and advances the protocol responder's pending
//! work one unit at a time. The loop body itself lives outside this crate —
//! it performs the serial write and the responder call — and asks this
//! module what one iteration does, given the queue and the responder's
//! report. An iteration that finds no work elects the low-power wait and
//! has no effect at all.

use vstd::prelude::*;

use crate::queue::{TelemetryQueue, WriteGrant};

verus! {

/// The log sink accepts at most this many bytes per call, so draining never
/// hogs the idle context.
pub const MAX_SINK_CHUNK_BYTES: usize = 255;

/// One non-blocking drain attempt: up to `max_len` bytes from the front of
/// the committed sequence, which are retired from the queue; `None` exactly
/// when nothing is committed, leaving the queue bit for bit as it was.
pub fn drain_chunk(q: &mut TelemetryQueue, max_len: usize) -> (chunk: Option<Vec<u8>>)
    requires
        old(q).wf(),
        !old(q).read_open(),
        max_len >= 1,
    ensures
        final(q).wf(),
        !final(q).read_open(),
        final(q).capacity() == old(q).capacity(),
        final(q).write_pos() == old(q).write_pos(),
        final(q).write_open() == old(q).write_open(),
        final(q).wgrant_wraps() == old(q).wgrant_wraps(),
        forall|g: WriteGrant| #[trigger] final(q).grant_matches(g) == old(q).grant_matches(g),
        chunk is Some <==> old(q).committed().len() > 0,
        chunk matches Some(c) ==> {
            &&& c@.len() == (if max_len as int <= old(q).next_chunk_len() {
                max_len as int
            } else {
                old(q).next_chunk_len()
            })
            &&& c@ == old(q).committed().take(c@.len() as int)
            &&& final(q).committed() == old(q).committed().skip(c@.len() as int)
        },
        chunk is None ==> *final(q) == *old(q),
{
    match q.acquire_read() {
        Ok(g) => {
            let glen = g.len();
            let n: usize = if max_len < glen {
                max_len
            } else {
                glen
            };
            let buf = g.buf();
            let mut c: Vec<u8> = Vec::new();
            let mut i: usize = 0;
            while i < n
                invariant
                    i <= n,
                    n <= buf@.len(),
                    buf@ == g.bytes(),
                    c@ == g.bytes().take(i as int),
                decreases n - i,
            {
                c.push(buf[i]);
                i += 1;
                proof {
                    assert(g.bytes().take(i as int) =~= g.bytes().take(i - 1).push(
                        g.bytes()[i - 1],
                    ));
                }
            }
            proof {
                assert(c@ == g.bytes().take(n as int));
                assert forall|k: int| 0 <= k < n implies c@[k] == old(q).committed()[k] by {
                    assert(c@[k] == g.bytes()[k]);
                    assert(g.bytes()[k] == old(q).committed().take(g.bytes().len() as int)[k]);
                }
                assert(c@ =~= old(q).committed().take(n as int));
            }
            q.release(g, n);
            Some(c)
        },
        Err(_) => None,
    }
}

/// What one iteration of the idle loop decided.
pub struct IdleOutcome {
    /// Telemetry bytes to hand to the log sink, when any were committed.
    pub chunk: Option<Vec<u8>>,
    /// Whether the protocol responder should process exactly one unit of
    /// pending work.
    pub process: bool,
    /// Whether the loop may enter the low-power wait: nothing to drain and
    /// no pending responder work.
    pub sleep: bool,
}

/// One iteration of the idle cooperative loop: at most one non-blocking
/// drain attempt and, when the responder reports pending work, exactly one
/// process-one-unit call. When the queue is empty and no work is pending,
/// the iteration elects to sleep and performs zero side effects: the queue
/// is left bit for bit as it was.
pub fn idle_step(q: &mut TelemetryQueue, responder_has_work: bool) -> (out: IdleOutcome)
    requires
        old(q).wf(),
        !old(q).read_open(),
    ensures
        final(q).wf(),
        !final(q).read_open(),
        final(q).capacity() == old(q).capacity(),
        final(q).write_pos() == old(q).write_pos(),
        final(q).write_open() == old(q).write_open(),
        final(q).wgrant_wraps() == old(q).wgrant_wraps(),
        forall|g: WriteGrant| #[trigger] final(q).grant_matches(g) == old(q).grant_matches(g),
        out.process == responder_has_work,
        out.chunk is Some <==> old(q).committed().len() > 0,
        out.chunk matches Some(c) ==> {
            &&& c@.len() == (if MAX_SINK_CHUNK_BYTES as int <= old(q).next_chunk_len() {
                MAX_SINK_CHUNK_BYTES as int
            } else {
                old(q).next_chunk_len()
            })
            &&& c@ == old(q).committed().take(c@.len() as int)
            &&& final(q).committed() == old(q).committed().skip(c@.len() as int)
        },
        out.chunk is None ==> *final(q) == *old(q),
        out.sleep <==> (old(q).committed().len() == 0 && !responder_has_work),
        out.sleep ==> *final(q) == *old(q),
{
    let chunk = drain_chunk(q, MAX_SINK_CHUNK_BYTES);
    let sleep = chunk.is_none() && !responder_has_work;
    IdleOutcome { chunk, process: responder_has_work, sleep }
}

} // verus!
