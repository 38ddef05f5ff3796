use linkcore::queue::{QueueError, ReadGrant, TelemetryQueue, WriteGrant};

fn grant(r: Result<WriteGrant, QueueError>) -> WriteGrant {
    match r {
        Ok(g) => g,
        Err(_) => panic!("expected a write grant"),
    }
}

fn read_grant(r: Result<ReadGrant, QueueError>) -> ReadGrant {
    match r {
        Ok(g) => g,
        Err(_) => panic!("expected a read grant"),
    }
}

fn commit_bytes(q: &mut TelemetryQueue, bytes: &[u8]) {
    let g = grant(q.acquire_write(bytes.len()));
    q.commit(g, &bytes.to_vec());
}

#[test]
fn three_records_in_order() {
    // capacity 64; three 10-byte records committed, read back in order
    let mut q = TelemetryQueue::new(64);
    let r1: Vec<u8> = (0..10).collect();
    let r2: Vec<u8> = (10..20).collect();
    let r3: Vec<u8> = (20..30).collect();
    commit_bytes(&mut q, &r1);
    commit_bytes(&mut q, &r2);
    commit_bytes(&mut q, &r3);

    let g = read_grant(q.acquire_read());
    let mut all = r1.clone();
    all.extend_from_slice(&r2);
    all.extend_from_slice(&r3);
    assert_eq!(g.buf(), &all);
    let n = g.len();
    q.release(g, n);
    assert!(matches!(q.acquire_read(), Err(QueueError::QueueEmpty)));
}

#[test]
fn wrapped_space_is_not_contiguous() {
    // 30 contiguous bytes at the end, 20 more at the front (50 free in all):
    // a 40-byte reservation must fail whole, not partially succeed
    let mut q = TelemetryQueue::new(64);
    let data: Vec<u8> = (0..34).collect();
    commit_bytes(&mut q, &data);
    let g = read_grant(q.acquire_read());
    q.release(g, 21);

    assert!(matches!(q.acquire_write(40), Err(QueueError::QueueFull)));
    // the end region still takes exactly what fits it
    let g = grant(q.acquire_write(30));
    q.commit(g, &vec![9u8; 30]);
}

#[test]
fn reservation_wraps_to_front() {
    let mut q = TelemetryQueue::new(16);
    commit_bytes(&mut q, &(0..10).collect::<Vec<u8>>());
    let g = read_grant(q.acquire_read());
    q.release(g, 10);

    // 6 bytes remain at the end, 9 usable at the front
    assert!(matches!(q.acquire_write(10), Err(QueueError::QueueFull)));
    let wrapped: Vec<u8> = (40..48).collect();
    commit_bytes(&mut q, &wrapped);
    let g = read_grant(q.acquire_read());
    assert_eq!(g.buf(), &wrapped);
    q.release(g, 8);
}

#[test]
fn read_sees_only_committed_bytes() {
    // an uncommitted reservation is invisible to the reader
    let mut q = TelemetryQueue::new(32);
    commit_bytes(&mut q, &[1, 2, 3]);
    let w = grant(q.acquire_write(5));
    let g = read_grant(q.acquire_read());
    assert_eq!(g.buf(), &vec![1u8, 2, 3]);
    q.release(g, 3);
    q.commit(w, &vec![7u8, 8]);
    let g = read_grant(q.acquire_read());
    assert_eq!(g.buf(), &vec![7u8, 8]);
    q.release(g, 2);
}

#[test]
fn commit_less_than_reserved() {
    let mut q = TelemetryQueue::new(16);
    let g = grant(q.acquire_write(10));
    q.commit(g, &vec![5u8, 6, 7]);
    let g = read_grant(q.acquire_read());
    assert_eq!(g.buf(), &vec![5u8, 6, 7]);
    q.release(g, 3);
}

#[test]
fn empty_commit_abandons_grant() {
    let mut q = TelemetryQueue::new(16);
    let g = grant(q.acquire_write(10));
    q.commit(g, &Vec::new());
    assert!(matches!(q.acquire_read(), Err(QueueError::QueueEmpty)));
}

#[test]
fn partial_release_keeps_remainder() {
    let mut q = TelemetryQueue::new(16);
    commit_bytes(&mut q, &[1, 2, 3, 4, 5]);
    let g = read_grant(q.acquire_read());
    q.release(g, 2);
    let g = read_grant(q.acquire_read());
    assert_eq!(g.buf(), &vec![3u8, 4, 5]);
    q.release(g, 3);
}

#[test]
fn empty_queue_reports_empty() {
    let mut q = TelemetryQueue::new(4);
    assert!(matches!(q.acquire_read(), Err(QueueError::QueueEmpty)));
}

#[test]
fn full_queue_reports_full_not_partial() {
    let mut q = TelemetryQueue::new(8);
    commit_bytes(&mut q, &[1, 2, 3, 4, 5, 6]);
    assert!(matches!(q.acquire_write(4), Err(QueueError::QueueFull)));
    // the committed bytes survive the failed reservation untouched
    let g = read_grant(q.acquire_read());
    assert_eq!(g.buf(), &vec![1u8, 2, 3, 4, 5, 6]);
    q.release(g, 6);
}

#[test]
fn sustained_traffic_round_trips() {
    // push many small writes through a small queue, reading between writes:
    // every byte comes out exactly once, in order
    let mut q = TelemetryQueue::new(16);
    let mut produced: Vec<u8> = Vec::new();
    let mut consumed: Vec<u8> = Vec::new();
    let mut next: u8 = 0;
    for _ in 0..50 {
        if let Ok(g) = q.acquire_write(5) {
            let data: Vec<u8> = (0..5).map(|k| next.wrapping_add(k)).collect();
            next = next.wrapping_add(5);
            produced.extend_from_slice(&data);
            q.commit(g, &data);
        }
        if let Ok(g) = q.acquire_read() {
            consumed.extend_from_slice(g.buf());
            let n = g.len();
            q.release(g, n);
        }
    }
    while let Ok(g) = q.acquire_read() {
        consumed.extend_from_slice(g.buf());
        let n = g.len();
        q.release(g, n);
    }
    assert_eq!(consumed, produced);
}
