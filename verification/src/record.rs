//! Telemetry records and their wire framing.
//!
//! A record is an already-serialized payload with an attached monotonic
//! timestamp. On the queue it travels as one contiguous frame: one length
//! byte, the four little-endian timestamp bytes, then the payload. A frame
//! is committed whole or not at all, so the consumer can always reconstruct
//! the records, in commit order, from the byte stream.

use vstd::prelude::*;

use crate::bytes::{lemma_le32_round_trip, read_u32_le, spec_le32, spec_u32_from_le, write_u32_le};
use crate::queue::TelemetryQueue;

verus! {

/// Bytes of framing overhead before the payload: the length byte and the
/// timestamp.
pub const FRAME_HEADER_BYTES: usize = 5;

/// The longest payload one frame can carry (its length must fit the length
/// byte).
pub const MAX_PAYLOAD_BYTES: usize = 255;

/// One diagnostic record: a monotonic timestamp and the serialized payload.
#[derive(Clone, Debug, PartialEq, Eq)]
pub struct TelemetryRecord {
    pub timestamp: u32,
    pub payload: Vec<u8>,
}

/// The framed bytes of one record.
pub open spec fn spec_frame(ts: u32, payload: Seq<u8>) -> Seq<u8>
    recommends
        payload.len() <= MAX_PAYLOAD_BYTES,
{
    seq![payload.len() as u8] + spec_le32(ts) + payload
}

/// Framing one record.
pub fn encode_frame(timestamp: u32, payload: &Vec<u8>) -> (b: Vec<u8>)
    requires
        payload.len() <= MAX_PAYLOAD_BYTES,
    ensures
        b@ == spec_frame(timestamp, payload@),
        b@.len() == FRAME_HEADER_BYTES + payload.len(),
{
    let mut b: Vec<u8> = Vec::new();
    b.push(payload.len() as u8);
    let mut tsb = write_u32_le(timestamp);
    b.append(&mut tsb);
    let mut i: usize = 0;
    while i < payload.len()
        invariant
            i <= payload.len(),
            payload.len() <= MAX_PAYLOAD_BYTES,
            b@ == seq![payload.len() as u8] + spec_le32(timestamp) + payload@.take(i as int),
        decreases payload.len() - i,
    {
        b.push(payload[i]);
        i += 1;
        proof {
            assert(payload@.take(i as int) =~= payload@.take(i - 1).push(payload@[i - 1]));
        }
    }
    proof {
        assert(payload@.take(payload.len() as int) =~= payload@);
    }
    b
}

/// Frame one record and commit it to the queue, never blocking: if no free
/// region can hold the frame, the record is dropped whole and the queue is
/// left exactly as it was. This is the producer the interrupt handlers use.
pub fn push_record(q: &mut TelemetryQueue, timestamp: u32, payload: &Vec<u8>) -> (accepted: bool)
    requires
        old(q).wf(),
        !old(q).write_open(),
        payload.len() <= MAX_PAYLOAD_BYTES,
    ensures
        final(q).wf(),
        !final(q).write_open(),
        final(q).capacity() == old(q).capacity(),
        final(q).read_open() == old(q).read_open(),
        final(q).rgrant_len() == old(q).rgrant_len(),
        final(q).read_pos() == old(q).read_pos(),
        accepted <==> old(q).can_reserve(FRAME_HEADER_BYTES + payload.len()),
        accepted ==> final(q).committed() == old(q).committed() + spec_frame(
            timestamp,
            payload@,
        ),
        !accepted ==> *final(q) == *old(q),
{
    let frame = encode_frame(timestamp, payload);
    match q.acquire_write(frame.len()) {
        Ok(g) => {
            q.commit(g, &frame);
            true
        },
        Err(_) => false,
    }
}

/// Parse one framed record starting at `off`: the record and the offset
/// just past its frame, or `None` when the bytes at `off` do not hold a
/// complete frame.
pub fn parse_frame(bytes: &Vec<u8>, off: usize) -> (r: Option<(TelemetryRecord, usize)>)
    ensures
        match r {
            Some((rec, next)) => {
                &&& rec.payload@.len() <= MAX_PAYLOAD_BYTES
                &&& next == off + FRAME_HEADER_BYTES + rec.payload@.len()
                &&& next <= bytes.len()
                &&& bytes@.subrange(off as int, next as int) == spec_frame(
                    rec.timestamp,
                    rec.payload@,
                )
            },
            None => off + FRAME_HEADER_BYTES > bytes.len() || off + FRAME_HEADER_BYTES + bytes@[off
                as int] > bytes.len(),
        },
{
    if bytes.len() < FRAME_HEADER_BYTES || off > bytes.len() - FRAME_HEADER_BYTES {
        return None;
    }
    let plen = bytes[off] as usize;
    if plen > bytes.len() - off - FRAME_HEADER_BYTES {
        return None;
    }
    let timestamp = read_u32_le(bytes, off + 1);
    let mut payload: Vec<u8> = Vec::new();
    let start = off + FRAME_HEADER_BYTES;
    let mut i: usize = 0;
    while i < plen
        invariant
            i <= plen,
            start == off + FRAME_HEADER_BYTES,
            start + plen <= bytes.len(),
            payload@ == bytes@.subrange(start as int, start + i),
        decreases plen - i,
    {
        payload.push(bytes[start + i]);
        i += 1;
        proof {
            assert(bytes@.subrange(start as int, start + i) =~= bytes@.subrange(
                start as int,
                start + i - 1,
            ).push(bytes@[start + i - 1]));
        }
    }
    let next = start + plen;
    proof {
        lemma_le32_round_trip(timestamp);
        let sub = bytes@.subrange(off as int, next as int);
        assert(bytes@.subrange(off + 1, off + 5) =~= sub.subrange(1, 5));
        assert(sub =~= spec_frame(timestamp, payload@)) by {
            crate::bytes::lemma_le32_of_from_le(bytes@.subrange(off + 1, off + 5));
            assert(spec_le32(timestamp) =~= bytes@.subrange(off + 1, off + 5));
        }
    }
    Some((TelemetryRecord { timestamp, payload }, next))
}

/// The mathematical content of one record.
pub open spec fn spec_model(rec: TelemetryRecord) -> (u32, Seq<u8>) {
    (rec.timestamp, rec.payload@)
}

/// The records at the front of a byte stream: each complete frame in turn,
/// stopping at the first position that holds no complete frame.
pub open spec fn spec_records(s: Seq<u8>) -> Seq<(u32, Seq<u8>)>
    decreases s.len(),
{
    if s.len() < 5 {
        seq![]
    } else if s.len() < 5 + s[0] {
        seq![]
    } else {
        seq![(spec_u32_from_le(s.subrange(1, 5)), s.subrange(5, 5 + s[0]))] + spec_records(
            s.skip(5 + s[0]),
        )
    }
}

/// A stream that begins with a frame begins with that frame's record.
proof fn lemma_records_step(s: Seq<u8>, ts: u32, p: Seq<u8>)
    requires
        p.len() <= MAX_PAYLOAD_BYTES,
        s.len() >= 5 + p.len(),
        s.subrange(0, 5 + p.len() as int) == spec_frame(ts, p),
    ensures
        spec_records(s) == seq![(ts, p)] + spec_records(s.skip(5 + p.len() as int)),
{
    let n = p.len() as int;
    let f = spec_frame(ts, p);
    assert(s[0] == f[0]);
    assert(s[0] == p.len() as u8);
    assert(s.subrange(1, 5) =~= f.subrange(1, 5));
    assert(f.subrange(1, 5) =~= spec_le32(ts));
    lemma_le32_round_trip(ts);
    assert(s.subrange(5, 5 + n) =~= f.subrange(5, 5 + n));
    assert(f.subrange(5, 5 + n) =~= p);
}

/// Reconstruct every complete record at the front of a byte stream: the
/// records in order, and the number of bytes they occupied. The bytes past
/// the reported offset hold no complete frame (a later chunk may complete
/// one).
pub fn parse_stream(bytes: &Vec<u8>) -> (r: (Vec<TelemetryRecord>, usize))
    ensures
        r.0@.map_values(|rec: TelemetryRecord| spec_model(rec)) == spec_records(bytes@),
        r.1 <= bytes.len(),
        spec_records(bytes@.skip(r.1 as int)) == Seq::<(u32, Seq<u8>)>::empty(),
{
    let mut out: Vec<TelemetryRecord> = Vec::new();
    let mut off: usize = 0;
    proof {
        assert(bytes@.skip(0) =~= bytes@);
        assert(out@.map_values(|rec: TelemetryRecord| spec_model(rec)) =~= Seq::<(
            u32,
            Seq<u8>,
        )>::empty());
        assert(Seq::<(u32, Seq<u8>)>::empty() + spec_records(bytes@) =~= spec_records(bytes@));
    }
    loop
        invariant_except_break
            off <= bytes.len(),
            out@.map_values(|rec: TelemetryRecord| spec_model(rec)) + spec_records(
                bytes@.skip(off as int),
            ) == spec_records(bytes@),
        ensures
            off <= bytes.len(),
            out@.map_values(|rec: TelemetryRecord| spec_model(rec)) == spec_records(bytes@),
            spec_records(bytes@.skip(off as int)) == Seq::<(u32, Seq<u8>)>::empty(),
        decreases bytes.len() - off,
    {
        match parse_frame(bytes, off) {
            Some((rec, next)) => {
                proof {
                    let s = bytes@.skip(off as int);
                    assert(s.subrange(0, 5 + rec.payload@.len() as int) =~= bytes@.subrange(
                        off as int,
                        next as int,
                    ));
                    lemma_records_step(s, rec.timestamp, rec.payload@);
                    assert(s.skip(5 + rec.payload@.len() as int) =~= bytes@.skip(next as int));
                    assert((out@.push(rec)).map_values(|r2: TelemetryRecord| spec_model(r2))
                        =~= out@.map_values(|r2: TelemetryRecord| spec_model(r2)).push(
                        spec_model(rec),
                    ));
                }
                out.push(rec);
                off = next;
            },
            None => {
                proof {
                    let s = bytes@.skip(off as int);
                    if off + 5 <= bytes.len() {
                        assert(s[0] == bytes@[off as int]);
                        assert(s.len() < 5 + s[0]);
                    }
                    assert(spec_records(s) == Seq::<(u32, Seq<u8>)>::empty());
                }
                break ;
            },
        }
    }
    (out, off)
}

/// Committed records are recovered exactly and in commit order: the framed
/// stream of two records parses back to those two records, whatever their
/// contents.
pub proof fn lemma_stream_recovers_records(ts1: u32, p1: Seq<u8>, ts2: u32, p2: Seq<u8>)
    requires
        p1.len() <= MAX_PAYLOAD_BYTES,
        p2.len() <= MAX_PAYLOAD_BYTES,
    ensures
        spec_records(spec_frame(ts1, p1) + spec_frame(ts2, p2)) == seq![(ts1, p1), (ts2, p2)],
{
    let s = spec_frame(ts1, p1) + spec_frame(ts2, p2);
    assert(s.subrange(0, 5 + p1.len() as int) =~= spec_frame(ts1, p1));
    lemma_records_step(s, ts1, p1);
    assert(s.skip(5 + p1.len() as int) =~= spec_frame(ts2, p2));
    let t = spec_frame(ts2, p2);
    assert(t.subrange(0, 5 + p2.len() as int) =~= t);
    lemma_records_step(t, ts2, p2);
    assert(t.skip(5 + p2.len() as int) =~= Seq::<u8>::empty());
    assert(spec_records(s) =~= seq![(ts1, p1), (ts2, p2)]);
}

/// Bounded drop: a full queue drops a record whole — [`push_record`] then
/// leaves the committed sequence untouched — so the records that were kept
/// stand in the stream contiguous, uncorrupted, and in their commit order,
/// as if only they had ever been committed.
pub proof fn lemma_kept_records_in_order(
    c0: Seq<u8>,
    f1: Seq<u8>,
    f2: Seq<u8>,
    c1: Seq<u8>,
    c2: Seq<u8>,
    c3: Seq<u8>,
)
    requires
        c1 == c0 + f1,  // the first record was kept
        c2 == c1,  // the next record was dropped: the stream is untouched
        c3 == c2 + f2,  // the last record was kept
    ensures
        c3 == c0 + f1 + f2,
        c3.subrange(c0.len() as int, c0.len() as int + f1.len() as int) == f1,
        c3.subrange(c0.len() as int + f1.len() as int, c3.len() as int) == f2,
{
    assert(c3 =~= c0 + f1 + f2);
    crate::queue::lemma_commit_order(c0, f1, f2);
}

/// A frame determines its record: two framings that agree on a common byte
/// stream carry the same timestamp, the same payload, and the same
/// remainder. Together with the queue's ordering guarantee, the consumer
/// therefore reconstructs exactly the records that were committed.
pub proof fn lemma_frame_unambiguous(
    ts1: u32,
    p1: Seq<u8>,
    ts2: u32,
    p2: Seq<u8>,
    rest1: Seq<u8>,
    rest2: Seq<u8>,
)
    requires
        p1.len() <= MAX_PAYLOAD_BYTES,
        p2.len() <= MAX_PAYLOAD_BYTES,
        spec_frame(ts1, p1) + rest1 == spec_frame(ts2, p2) + rest2,
    ensures
        ts1 == ts2,
        p1 == p2,
        rest1 == rest2,
{
    let s1 = spec_frame(ts1, p1) + rest1;
    let s2 = spec_frame(ts2, p2) + rest2;
    assert(s1[0] == p1.len() as u8);
    assert(s2[0] == p2.len() as u8);
    assert(p1.len() == p2.len());
    assert(spec_le32(ts1) =~= s1.subrange(1, 5));
    assert(spec_le32(ts2) =~= s2.subrange(1, 5));
    lemma_le32_round_trip(ts1);
    lemma_le32_round_trip(ts2);
    assert(p1 =~= s1.subrange(5, 5 + p1.len() as int));
    assert(p2 =~= s2.subrange(5, 5 + p2.len() as int));
    assert(rest1 =~= s1.subrange(5 + p1.len() as int, s1.len() as int));
    assert(rest2 =~= s2.subrange(5 + p2.len() as int, s2.len() as int));
}

} // verus!
