//! Lock-free telemetry queue.
//!
//! A fixed-capacity circular byte store with one producer side and one
//! consumer side. The producer reserves a contiguous region with
//! [`TelemetryQueue::acquire_write`] and makes it visible with
//! [`TelemetryQueue::commit`]; the consumer takes the next contiguous block
//! of committed bytes with [`TelemetryQueue::acquire_read`] and retires it
//! with [`TelemetryQueue::release`]. Each side only ever advances its own
//! cursor, so one write grant and one read grant may be outstanding at the
//! same time.
//!
//! The abstract state is the sequence of committed, not yet released bytes,
//! [`TelemetryQueue::committed`]. Committing appends to it; a read grant
//! exposes exactly a prefix of it (so uncommitted bytes are never visible to
//! the reader, and records are observed in commit order); releasing drops a
//! prefix.
//!
//! When the region at the end of the store is too small, a reservation can
//! wrap to the front of the store, provided the bytes before the consumer
//! cursor can hold it; the end of the valid data is then remembered in a
//! watermark. A reservation that fits in neither region fails immediately
//! with [`QueueError::QueueFull`] — the producer never blocks.

use vstd::prelude::*;

verus! {

/// Errors of the telemetry queue. Both are transient: the caller skips the
/// operation and retries later, or drops the record.
#[derive(Clone, Copy, Debug, PartialEq, Eq, Structural)]
pub enum QueueError {
    /// No contiguous region large enough for the requested reservation.
    QueueFull,
    /// No committed bytes to read.
    QueueEmpty,
}

/// A reserved, not yet committed contiguous region of the queue. Single-use:
/// it is consumed by [`TelemetryQueue::commit`].
pub struct WriteGrant {
    start: usize,
    len: usize,
    wraps: bool,
}

impl WriteGrant {
    /// The number of bytes reserved.
    pub closed spec fn spec_len(self) -> int {
        self.len as int
    }

    /// The number of bytes reserved.
    pub fn len(&self) -> (n: usize)
        ensures
            n == self.spec_len(),
    {
        self.len
    }
}

/// The next contiguous block of committed bytes, handed to the consumer.
/// Single-use: it is consumed by [`TelemetryQueue::release`].
pub struct ReadGrant {
    data: Vec<u8>,
}

impl ReadGrant {
    /// The committed bytes the grant exposes.
    pub closed spec fn bytes(self) -> Seq<u8> {
        self.data@
    }

    /// The committed bytes the grant exposes.
    pub fn buf(&self) -> (b: &Vec<u8>)
        ensures
            b@ == self.bytes(),
    {
        &self.data
    }

    /// The number of readable bytes.
    pub fn len(&self) -> (n: usize)
        ensures
            n == self.bytes().len(),
    {
        self.data.len()
    }
}

/// The single-producer/single-consumer byte queue.
pub struct TelemetryQueue {
    buf: Vec<u8>,
    read: usize,
    write: usize,
    watermark: usize,
    write_open: bool,
    wgrant_start: usize,
    wgrant_len: usize,
    wgrant_wraps: bool,
    read_open: bool,
    rgrant_len: usize,
}

impl TelemetryQueue {
    /// The fixed capacity of the byte store.
    pub closed spec fn capacity(self) -> int {
        self.buf.len() as int
    }

    /// The consumer cursor: position of the next unread committed byte.
    pub closed spec fn read_pos(self) -> int {
        self.read as int
    }

    /// The producer cursor: position right after the last committed byte.
    pub closed spec fn write_pos(self) -> int {
        self.write as int
    }

    /// End of valid data when the committed region wraps; equal to the
    /// capacity otherwise.
    pub closed spec fn watermark(self) -> int {
        self.watermark as int
    }

    /// Whether a write grant is outstanding.
    pub closed spec fn write_open(self) -> bool {
        self.write_open
    }

    /// Whether a read grant is outstanding.
    pub closed spec fn read_open(self) -> bool {
        self.read_open
    }

    /// The length of the outstanding read grant.
    pub closed spec fn rgrant_len(self) -> int {
        self.rgrant_len as int
    }

    /// Whether the committed region wraps around the end of the store.
    pub open spec fn wrapped(self) -> bool {
        self.write_pos() < self.read_pos()
    }

    /// Contiguous free bytes after the producer cursor.
    pub open spec fn end_space(self) -> int {
        if self.wrapped() {
            self.read_pos() - self.write_pos() - 1
        } else {
            self.capacity() - self.write_pos()
        }
    }

    /// Contiguous free bytes at the front of the store, usable by a wrapping
    /// reservation.
    pub open spec fn front_space(self) -> int {
        if !self.wrapped() && self.read_pos() > 0 {
            self.read_pos() - 1
        } else {
            0
        }
    }

    /// Whether a reservation of `sz` bytes can be granted: it fits either in
    /// the region after the producer cursor or, wrapping, at the front.
    pub open spec fn can_reserve(self, sz: int) -> bool {
        sz <= self.end_space() || sz <= self.front_space()
    }

    /// Length of the next contiguous block of committed bytes.
    pub open spec fn chunk_len(self) -> int {
        if self.wrapped() {
            self.watermark() - self.read_pos()
        } else {
            self.write_pos() - self.read_pos()
        }
    }

    /// Length of the contiguous block the next read grant will expose: the
    /// consumer steps over the wrap point first when it has drained the
    /// wrapped part.
    pub open spec fn next_chunk_len(self) -> int {
        if self.wrapped() && self.read_pos() == self.watermark() {
            self.write_pos()
        } else {
            self.chunk_len()
        }
    }

    /// The committed, not yet released bytes, in commit order.
    pub closed spec fn committed(self) -> Seq<u8> {
        if self.wrapped() {
            self.buf@.subrange(self.read_pos(), self.watermark()) + self.buf@.subrange(
                0,
                self.write_pos(),
            )
        } else {
            self.buf@.subrange(self.read_pos(), self.write_pos())
        }
    }

    /// Whether `g` is the write grant this queue has outstanding.
    pub closed spec fn grant_matches(self, g: WriteGrant) -> bool {
        &&& g.start == self.wgrant_start
        &&& g.len == self.wgrant_len
        &&& g.wraps == self.wgrant_wraps
    }

    /// Whether the outstanding write grant wraps to the front of the store.
    pub closed spec fn wgrant_wraps(self) -> bool {
        self.wgrant_wraps
    }

    spec fn wgrant_wf(self) -> bool {
        if self.wgrant_wraps {
            &&& !self.wrapped()
            &&& self.wgrant_start == 0
            &&& self.wgrant_len < self.read
        } else {
            &&& self.wgrant_start == self.write
            &&& if self.wrapped() {
                self.write + self.wgrant_len < self.read
            } else {
                self.write + self.wgrant_len <= self.buf.len()
            }
        }
    }

    /// Well-formedness: cursors within bounds, the watermark meaningful, and
    /// any outstanding grants consistent with the cursors.
    pub closed spec fn wf(self) -> bool {
        &&& 1 <= self.buf.len()
        &&& if self.wrapped() {
            self.read <= self.watermark <= self.buf.len()
        } else {
            self.write <= self.buf.len() && self.watermark == self.buf.len()
        }
        &&& (self.write_open ==> self.wgrant_wf())
        &&& (self.read_open ==> self.rgrant_len <= self.chunk_len())
    }

    /// The queue's memory is bounded: however fast the producer outruns the
    /// consumer, the committed bytes never exceed the fixed capacity —
    /// excess records are refused at reservation, never buffered.
    pub proof fn lemma_committed_bounded(self)
        requires
            self.wf(),
        ensures
            self.committed().len() <= self.capacity(),
    {
    }

    /// A queue over a zeroed store of `capacity` bytes, empty, with no
    /// grants outstanding.
    pub fn new(capacity: usize) -> (q: TelemetryQueue)
        requires
            capacity >= 1,
        ensures
            q.wf(),
            q.capacity() == capacity,
            q.committed() =~= Seq::<u8>::empty(),
            q.read_pos() == 0,
            q.write_pos() == 0,
            !q.write_open(),
            !q.read_open(),
    {
        TelemetryQueue {
            buf: vec![0u8; capacity],
            read: 0,
            write: 0,
            watermark: capacity,
            write_open: false,
            wgrant_start: 0,
            wgrant_len: 0,
            wgrant_wraps: false,
            read_open: false,
            rgrant_len: 0,
        }
    }

    /// Reserve a contiguous writable region of exactly `min_size` bytes.
    ///
    /// Succeeds if and only if the region after the producer cursor, or the
    /// front of the store, can hold `min_size` bytes; otherwise fails
    /// immediately with [`QueueError::QueueFull`] and leaves the queue
    /// untouched. The reservation itself publishes nothing: the committed
    /// bytes are unchanged until [`TelemetryQueue::commit`].
    pub fn acquire_write(&mut self, min_size: usize) -> (r: Result<WriteGrant, QueueError>)
        requires
            old(self).wf(),
            !old(self).write_open(),
        ensures
            final(self).wf(),
            final(self).capacity() == old(self).capacity(),
            final(self).committed() == old(self).committed(),
            final(self).read_pos() == old(self).read_pos(),
            final(self).write_pos() == old(self).write_pos(),
            final(self).watermark() == old(self).watermark(),
            final(self).read_open() == old(self).read_open(),
            final(self).rgrant_len() == old(self).rgrant_len(),
            r is Ok <==> old(self).can_reserve(min_size as int),
            r is Err ==> *final(self) == *old(self) && r == Err::<WriteGrant, QueueError>(
                QueueError::QueueFull,
            ),
            r matches Ok(g) ==> {
                &&& final(self).write_open()
                &&& final(self).grant_matches(g)
                &&& g.spec_len() == min_size
                &&& final(self).wgrant_wraps() == (min_size > old(self).end_space())
            },
    {
        let cap = self.buf.len();
        if self.write >= self.read {
            // committed region does not wrap
            if min_size <= cap - self.write {
                self.write_open = true;
                self.wgrant_start = self.write;
                self.wgrant_len = min_size;
                self.wgrant_wraps = false;
                Ok(WriteGrant { start: self.wgrant_start, len: min_size, wraps: false })
            } else if min_size < self.read {
                // wrap the reservation to the front of the store
                self.write_open = true;
                self.wgrant_start = 0;
                self.wgrant_len = min_size;
                self.wgrant_wraps = true;
                Ok(WriteGrant { start: 0, len: min_size, wraps: true })
            } else {
                Err(QueueError::QueueFull)
            }
        } else {
            // committed region wraps: only the gap between the cursors is free
            if min_size <= self.read - self.write - 1 {
                self.write_open = true;
                self.wgrant_start = self.write;
                self.wgrant_len = min_size;
                self.wgrant_wraps = false;
                Ok(WriteGrant { start: self.wgrant_start, len: min_size, wraps: false })
            } else {
                Err(QueueError::QueueFull)
            }
        }
    }

    /// Write `data` into the reserved region and commit it: the bytes become
    /// visible to the consumer, appended to the committed sequence. `data`
    /// may be shorter than the reservation (commit the amount actually
    /// produced); committing an empty `data` abandons the grant.
    pub fn commit(&mut self, g: WriteGrant, data: &Vec<u8>)
        requires
            old(self).wf(),
            old(self).write_open(),
            old(self).grant_matches(g),
            data.len() <= g.spec_len(),
        ensures
            final(self).wf(),
            !final(self).write_open(),
            final(self).capacity() == old(self).capacity(),
            final(self).committed() == old(self).committed() + data@,
            final(self).read_pos() == old(self).read_pos(),
            final(self).read_open() == old(self).read_open(),
            final(self).rgrant_len() == old(self).rgrant_len(),
            if old(self).wgrant_wraps() {
                &&& final(self).watermark() == old(self).write_pos()
                &&& final(self).write_pos() == data.len()
            } else {
                &&& final(self).watermark() == old(self).watermark()
                &&& final(self).write_pos() == old(self).write_pos() + data.len()
            },
    {
        let ghost pre = *self;
        let n = data.len();
        let mut i: usize = 0;
        while i < n
            invariant
                i <= n,
                n == data.len(),
                *self == (TelemetryQueue { buf: self.buf, ..pre }),
                self.buf.len() == pre.buf.len(),
                pre.wf(),
                pre.write_open,
                pre.grant_matches(g),
                n <= g.spec_len(),
                forall|j: int| 0 <= j < i ==> self.buf@[g.start + j] == data@[j],
                forall|j: int|
                    0 <= j < self.buf.len() && !(g.start <= j < g.start + i) ==> self.buf@[j]
                        == pre.buf@[j],
            decreases n - i,
        {
            self.buf[self.wgrant_start + i] = data[i];
            i += 1;
        }
        self.write_open = false;
        if self.wgrant_wraps {
            self.watermark = self.write;
            self.write = n;
        } else {
            self.write = self.write + n;
        }
        proof {
            assert(self.committed() =~= pre.committed() + data@);
        }
    }

    /// Take the next contiguous block of committed bytes.
    ///
    /// Succeeds if and only if committed bytes exist; otherwise fails
    /// immediately with [`QueueError::QueueEmpty`]. The grant exposes a
    /// prefix of the committed sequence — never a byte of an uncommitted
    /// reservation — and it exposes the whole contiguous block: every
    /// committed byte up to the wrap point (or up to the producer cursor).
    /// Nothing is retired until [`TelemetryQueue::release`].
    pub fn acquire_read(&mut self) -> (r: Result<ReadGrant, QueueError>)
        requires
            old(self).wf(),
            !old(self).read_open(),
        ensures
            final(self).wf(),
            final(self).capacity() == old(self).capacity(),
            final(self).committed() == old(self).committed(),
            final(self).write_pos() == old(self).write_pos(),
            final(self).write_open() == old(self).write_open(),
            final(self).wgrant_wraps() == old(self).wgrant_wraps(),
            forall|g: WriteGrant| #[trigger]
                final(self).grant_matches(g) == old(self).grant_matches(g),
            r is Ok <==> old(self).committed().len() > 0,
            r is Err ==> *final(self) == *old(self) && r == Err::<ReadGrant, QueueError>(
                QueueError::QueueEmpty,
            ),
            r is Ok ==> (if old(self).wrapped() && old(self).read_pos() == old(self).watermark() {
                final(self).read_pos() == 0 && final(self).watermark() == final(self).capacity()
            } else {
                final(self).read_pos() == old(self).read_pos() && final(self).watermark()
                    == old(self).watermark()
            }),
            r matches Ok(g) ==> {
                &&& final(self).read_open()
                &&& final(self).rgrant_len() == g.bytes().len()
                &&& g.bytes().len() == final(self).chunk_len()
                &&& g.bytes().len() == old(self).next_chunk_len()
                &&& g.bytes().len() <= old(self).committed().len()
                &&& g.bytes() == old(self).committed().take(g.bytes().len() as int)
            },
    {
        let ghost pre = *self;
        let empty = if self.write >= self.read {
            self.write == self.read
        } else {
            self.read == self.watermark && self.write == 0
        };
        if empty {
            return Err(QueueError::QueueEmpty);
        }
        if self.write < self.read && self.read == self.watermark {
            // the consumer has drained the wrapped part: step over the wrap
            self.read = 0;
            self.watermark = self.buf.len();
            proof {
                assert(self.committed() =~= pre.committed());
            }
        }
        let ghost mid = *self;
        let end: usize = if self.write >= self.read {
            self.write
        } else {
            self.watermark
        };
        let mut data: Vec<u8> = Vec::new();
        let mut i: usize = self.read;
        while i < end
            invariant
                mid.read <= i <= end,
                *self == mid,
                mid.wf(),
                end == if mid.wrapped() {
                    mid.watermark
                } else {
                    mid.write
                },
                data@ == self.buf@.subrange(mid.read_pos(), i as int),
            decreases end - i,
        {
            data.push(self.buf[i]);
            i += 1;
        }
        proof {
            assert(data@ =~= mid.committed().take(end - mid.read));
            assert(mid.committed() == pre.committed());
        }
        self.read_open = true;
        self.rgrant_len = data.len();
        Ok(ReadGrant { data })
    }

    /// Retire `consumed` bytes of the read grant: they are removed from the
    /// front of the committed sequence and their space becomes reusable by
    /// the producer. `consumed` may be less than the grant's length; the
    /// remainder stays committed and readable.
    pub fn release(&mut self, g: ReadGrant, consumed: usize)
        requires
            old(self).wf(),
            old(self).read_open(),
            g.bytes().len() == old(self).rgrant_len(),
            consumed <= g.bytes().len(),
        ensures
            final(self).wf(),
            !final(self).read_open(),
            final(self).capacity() == old(self).capacity(),
            final(self).committed() == old(self).committed().skip(consumed as int),
            final(self).write_pos() == old(self).write_pos(),
            final(self).write_open() == old(self).write_open(),
            final(self).wgrant_wraps() == old(self).wgrant_wraps(),
            forall|wg: WriteGrant| #[trigger]
                final(self).grant_matches(wg) == old(self).grant_matches(wg),
            final(self).read_pos() == old(self).read_pos() + consumed,
            final(self).watermark() == old(self).watermark(),
    {
        let ghost pre = *self;
        self.read = self.read + consumed;
        self.read_open = false;
        self.rgrant_len = 0;
        proof {
            assert(self.committed() =~= pre.committed().skip(consumed as int));
        }
    }
}

/// The committed sequence after a run of producer attempts starting from
/// `c0`: an accepted attempt appends its bytes whole, a refused one leaves
/// the sequence untouched. These are exactly the two steps the exec
/// operations ensure: [`TelemetryQueue::commit`] appends its data, and a
/// refused reservation (or a refused [`crate::record::push_record`]) leaves
/// the queue as it was.
pub open spec fn spec_stream_after(c0: Seq<u8>, attempts: Seq<(bool, Seq<u8>)>) -> Seq<u8>
    decreases attempts.len(),
{
    if attempts.len() == 0 {
        c0
    } else {
        let earlier = spec_stream_after(c0, attempts.drop_last());
        if attempts.last().0 {
            earlier + attempts.last().1
        } else {
            earlier
        }
    }
}

/// The accepted attempts' bytes, concatenated in attempt order.
pub open spec fn spec_kept_bytes(attempts: Seq<(bool, Seq<u8>)>) -> Seq<u8>
    decreases attempts.len(),
{
    if attempts.len() == 0 {
        Seq::<u8>::empty()
    } else {
        let earlier = spec_kept_bytes(attempts.drop_last());
        if attempts.last().0 {
            earlier + attempts.last().1
        } else {
            earlier
        }
    }
}

/// Concatenating the kept bytes distributes over splitting the attempts.
proof fn lemma_kept_bytes_split(a: Seq<(bool, Seq<u8>)>, b: Seq<(bool, Seq<u8>)>)
    ensures
        spec_kept_bytes(a + b) == spec_kept_bytes(a) + spec_kept_bytes(b),
    decreases b.len(),
{
    if b.len() == 0 {
        assert(a + b =~= a);
        assert(spec_kept_bytes(a) + spec_kept_bytes(b) =~= spec_kept_bytes(a));
    } else {
        assert((a + b).drop_last() =~= a + b.drop_last());
        lemma_kept_bytes_split(a, b.drop_last());
        assert((a + b).last() == b.last());
        if b.last().0 {
            assert(spec_kept_bytes(a) + (spec_kept_bytes(b.drop_last()) + b.last().1) =~= (
            spec_kept_bytes(a) + spec_kept_bytes(b.drop_last())) + b.last().1);
        }
    }
}

/// Ordering and bounded drop, over any number of producer attempts: the
/// committed sequence that results is the start state followed by exactly
/// the accepted writes, in attempt order. A refused write leaves no trace;
/// the consumer — which always reads prefixes — therefore observes the
/// kept writes exactly in the order they were committed.
pub proof fn lemma_stream_keeps_order(c0: Seq<u8>, attempts: Seq<(bool, Seq<u8>)>)
    ensures
        spec_stream_after(c0, attempts) == c0 + spec_kept_bytes(attempts),
    decreases attempts.len(),
{
    if attempts.len() == 0 {
        assert(c0 + spec_kept_bytes(attempts) =~= c0);
    } else {
        lemma_stream_keeps_order(c0, attempts.drop_last());
        if attempts.last().0 {
            assert((c0 + spec_kept_bytes(attempts.drop_last())) + attempts.last().1 =~= c0 + (
            spec_kept_bytes(attempts.drop_last()) + attempts.last().1));
        }
    }
}

/// Every kept write stands whole in the final stream, at the offset that
/// the writes kept before it occupy — however many writes were attempted
/// and however many were refused around it, none of the kept ones is
/// corrupted or moved out of attempt order.
pub proof fn lemma_kept_write_is_intact(c0: Seq<u8>, attempts: Seq<(bool, Seq<u8>)>, i: int)
    requires
        0 <= i < attempts.len(),
        attempts[i].0,
    ensures
        ({
            let stream = spec_stream_after(c0, attempts);
            let off = c0.len() as int + spec_kept_bytes(attempts.take(i)).len() as int;
            stream.subrange(off, off + attempts[i].1.len() as int) == attempts[i].1
        }),
{
    lemma_stream_keeps_order(c0, attempts);
    let pre = attempts.take(i);
    let mid = seq![attempts[i]];
    let post = attempts.skip(i + 1);
    assert(attempts =~= (pre + mid) + post);
    lemma_kept_bytes_split(pre + mid, post);
    lemma_kept_bytes_split(pre, mid);
    assert(mid.drop_last().len() == 0);
    assert(spec_kept_bytes(mid.drop_last()) =~= Seq::<u8>::empty());
    assert(mid.last() == attempts[i]);
    assert(spec_kept_bytes(mid) =~= Seq::<u8>::empty() + attempts[i].1);
    assert(spec_kept_bytes(mid) =~= attempts[i].1);
    let head = c0 + spec_kept_bytes(pre);
    assert(spec_stream_after(c0, attempts) =~= (head + attempts[i].1) + spec_kept_bytes(post));
    lemma_commit_order(head, attempts[i].1, spec_kept_bytes(post));
    assert(head.len() == c0.len() as int + spec_kept_bytes(attempts.take(i)).len() as int);
}

/// Ordering: two writes committed in turn stand in the committed sequence
/// whole, back to back, in commit order. Since every read grant exposes a
/// prefix of that sequence and every release retires a prefix, the consumer
/// observes the writes in exactly the order they were committed, however
/// the commits interleave with reads.
pub proof fn lemma_commit_order(c0: Seq<u8>, w1: Seq<u8>, w2: Seq<u8>)
    ensures
        (c0 + w1 + w2).subrange(c0.len() as int, c0.len() as int + w1.len() as int) == w1,
        (c0 + w1 + w2).subrange(
            c0.len() as int + w1.len() as int,
            (c0 + w1 + w2).len() as int,
        ) == w2,
{
    assert((c0 + w1 + w2).subrange(c0.len() as int, c0.len() as int + w1.len() as int) =~= w1);
    assert((c0 + w1 + w2).subrange(c0.len() as int + w1.len() as int, (c0 + w1 + w2).len() as int)
        =~= w2);
}

} // verus!
