use ghost_os_toolkit::history::HistoryBuffer;

#[test]
fn empty_buffer_has_no_latest() {
    let buf: HistoryBuffer<u64> = HistoryBuffer::new(4);
    assert_eq!(buf.len(), 0);
    assert!(buf.latest().is_none());
    assert_eq!(buf.capacity(), 4);
}

#[test]
fn push_within_capacity_keeps_everything() {
    let mut buf: HistoryBuffer<u64> = HistoryBuffer::new(4);
    buf.push(10);
    buf.push(20);
    buf.push(30);
    assert_eq!(buf.snapshot(), vec![10, 20, 30]);
    assert_eq!(*buf.latest().unwrap(), 30);
}

#[test]
fn overflow_evicts_oldest_first() {
    // capacity N = 3, M = 7 > N inserts: exactly the 3 most recent remain,
    // oldest first.
    let mut buf: HistoryBuffer<u64> = HistoryBuffer::new(3);
    for v in 1..=7u64 {
        buf.push(v);
    }
    assert_eq!(buf.len(), 3);
    assert_eq!(buf.snapshot(), vec![5, 6, 7]);
}

#[test]
fn round_trip_matches_manual_sliding_window() {
    // N + 3 distinct ordered inserts into a buffer of capacity N read back
    // as exactly what a manual sliding window over the same input keeps.
    let n: usize = 4;
    let inputs: Vec<u64> = (100..100 + (n as u64) + 3).collect();
    let mut buf: HistoryBuffer<u64> = HistoryBuffer::new(n);
    for v in &inputs {
        buf.push(*v);
    }
    let mut window: Vec<u64> = Vec::new();
    for v in &inputs {
        window.push(*v);
        if window.len() > n {
            window.remove(0);
        }
    }
    assert_eq!(buf.snapshot(), window);
    assert_eq!(window, inputs[3..].to_vec());
}

#[test]
fn zero_capacity_buffer_stays_empty() {
    let mut buf: HistoryBuffer<u64> = HistoryBuffer::new(0);
    buf.push(1);
    buf.push(2);
    assert_eq!(buf.len(), 0);
    assert!(buf.latest().is_none());
    assert_eq!(buf.snapshot(), Vec::<u64>::new());
}

#[test]
fn get_reads_in_insertion_order() {
    let mut buf: HistoryBuffer<u64> = HistoryBuffer::new(2);
    buf.push(5);
    buf.push(6);
    buf.push(7);
    assert_eq!(*buf.get(0), 6);
    assert_eq!(*buf.get(1), 7);
}
