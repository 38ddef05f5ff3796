use linkcore::idle::drain_chunk;
use linkcore::queue::TelemetryQueue;
use linkcore::record::{encode_frame, parse_frame, parse_stream, push_record, TelemetryRecord};

#[test]
fn frame_layout_is_exact() {
    let b = encode_frame(0x01020304, &vec![10, 20, 30]);
    assert_eq!(b, vec![3, 0x04, 0x03, 0x02, 0x01, 10, 20, 30]);
}

#[test]
fn empty_payload_frames_to_header_alone() {
    let b = encode_frame(7, &Vec::new());
    assert_eq!(b, vec![0, 7, 0, 0, 0]);
}

#[test]
fn frame_round_trips() {
    let rec = TelemetryRecord { timestamp: 0xDEAD_BEEF, payload: vec![1, 2, 3, 4, 5] };
    let b = encode_frame(rec.timestamp, &rec.payload);
    match parse_frame(&b, 0) {
        Some((parsed, next)) => {
            assert_eq!(parsed, rec);
            assert_eq!(next, b.len());
        },
        None => panic!("a complete frame must parse"),
    }
}

#[test]
fn truncated_frame_does_not_parse() {
    let b = encode_frame(1, &vec![1, 2, 3]);
    assert!(parse_frame(&b[..7].to_vec(), 0).is_none());
    assert!(parse_frame(&b, b.len()).is_none());
    assert!(parse_frame(&Vec::new(), 0).is_none());
}

#[test]
fn records_recovered_in_commit_order() {
    // three records through the queue; the consumer reconstructs them
    let mut q = TelemetryQueue::new(64);
    let recs = vec![
        TelemetryRecord { timestamp: 100, payload: vec![1; 10] },
        TelemetryRecord { timestamp: 200, payload: vec![2; 10] },
        TelemetryRecord { timestamp: 300, payload: vec![3; 10] },
    ];
    for r in &recs {
        assert!(push_record(&mut q, r.timestamp, &r.payload));
    }
    let mut stream: Vec<u8> = Vec::new();
    while let Some(chunk) = drain_chunk(&mut q, 255) {
        stream.extend_from_slice(&chunk);
    }
    let mut out: Vec<TelemetryRecord> = Vec::new();
    let mut off = 0;
    while let Some((rec, next)) = parse_frame(&stream, off) {
        out.push(rec);
        off = next;
    }
    assert_eq!(off, stream.len());
    assert_eq!(out, recs);
}

#[test]
fn full_queue_drops_record_whole() {
    // a 5-byte payload frames to 10 bytes; a 16-byte queue keeps one record,
    // drops the next, and the kept one is intact
    let mut q = TelemetryQueue::new(16);
    assert!(push_record(&mut q, 1, &vec![0xAA; 5]));
    assert!(!push_record(&mut q, 2, &vec![0xBB; 5]));
    assert!(push_record(&mut q, 3, &Vec::new()));

    let mut stream: Vec<u8> = Vec::new();
    while let Some(chunk) = drain_chunk(&mut q, 255) {
        stream.extend_from_slice(&chunk);
    }
    let (out, consumed) = parse_stream(&stream);
    assert_eq!(consumed, stream.len());
    assert_eq!(
        out,
        vec![
            TelemetryRecord { timestamp: 1, payload: vec![0xAA; 5] },
            TelemetryRecord { timestamp: 3, payload: Vec::new() },
        ]
    );
}

#[test]
fn stream_reconstruction_stops_at_an_incomplete_frame() {
    let mut stream = encode_frame(5, &vec![1, 2]);
    let whole = stream.len();
    let tail = encode_frame(6, &vec![3, 4, 5]);
    stream.extend_from_slice(&tail[..6]);
    let (recs, consumed) = parse_stream(&stream);
    assert_eq!(consumed, whole);
    assert_eq!(recs, vec![TelemetryRecord { timestamp: 5, payload: vec![1, 2] }]);

    // the rest of the frame arrives: the record completes
    stream.extend_from_slice(&tail[6..]);
    let (recs, consumed) = parse_stream(&stream);
    assert_eq!(consumed, stream.len());
    assert_eq!(
        recs,
        vec![
            TelemetryRecord { timestamp: 5, payload: vec![1, 2] },
            TelemetryRecord { timestamp: 6, payload: vec![3, 4, 5] },
        ]
    );
}
