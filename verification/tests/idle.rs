use linkcore::idle::{drain_chunk, idle_step};
use linkcore::queue::TelemetryQueue;
use linkcore::record::push_record;

fn fill(q: &mut TelemetryQueue, bytes: &[u8]) {
    let g = q.acquire_write(bytes.len()).ok().unwrap_or_else(|| panic!("reservation failed"));
    q.commit(g, &bytes.to_vec());
}

#[test]
fn idle_with_no_work_sleeps_and_touches_nothing() {
    let mut q = TelemetryQueue::new(32);
    let out = idle_step(&mut q, false);
    assert!(out.sleep);
    assert!(!out.process);
    assert_eq!(out.chunk, None);
    // still empty, still usable
    assert!(drain_chunk(&mut q, 255).is_none());
}

#[test]
fn responder_work_prevents_sleep() {
    let mut q = TelemetryQueue::new(32);
    let out = idle_step(&mut q, true);
    assert!(!out.sleep);
    assert!(out.process);
    assert_eq!(out.chunk, None);
}

#[test]
fn queued_bytes_prevent_sleep() {
    let mut q = TelemetryQueue::new(32);
    fill(&mut q, &[1, 2, 3]);
    let out = idle_step(&mut q, false);
    assert!(!out.sleep);
    assert_eq!(out.chunk, Some(vec![1, 2, 3]));
    let out = idle_step(&mut q, false);
    assert!(out.sleep);
}

#[test]
fn drain_is_bounded_per_iteration() {
    let mut q = TelemetryQueue::new(400);
    let data: Vec<u8> = (0..300u16).map(|i| (i % 251) as u8).collect();
    fill(&mut q, &data);

    let out = idle_step(&mut q, false);
    let first = out.chunk.expect("bytes were committed");
    assert_eq!(first.len(), 255);
    assert_eq!(&first[..], &data[..255]);

    let out = idle_step(&mut q, false);
    let second = out.chunk.expect("a remainder was committed");
    assert_eq!(second.len(), 45);
    assert_eq!(&second[..], &data[255..]);

    assert!(idle_step(&mut q, false).sleep);
}

#[test]
fn drain_chunk_respects_the_limit() {
    let mut q = TelemetryQueue::new(16);
    fill(&mut q, &[1, 2, 3, 4, 5]);
    assert_eq!(drain_chunk(&mut q, 2), Some(vec![1, 2]));
    assert_eq!(drain_chunk(&mut q, 2), Some(vec![3, 4]));
    assert_eq!(drain_chunk(&mut q, 2), Some(vec![5]));
    assert_eq!(drain_chunk(&mut q, 2), None);
}

#[test]
fn idle_drains_what_interrupts_logged() {
    let mut q = TelemetryQueue::new(64);
    assert!(push_record(&mut q, 42, &vec![9, 9]));
    let out = idle_step(&mut q, false);
    let chunk = out.chunk.expect("the record was committed");
    assert_eq!(chunk, vec![2, 42, 0, 0, 0, 9, 9]);
}
