use rget::progress::ProgressState;
use rget::transfer::{chunk_size_for, drain, Drainer, MemSource};

fn pattern_bytes(n: usize) -> Vec<u8> {
    let mut v = Vec::with_capacity(n);
    let mut i: usize = 0;
    while i < n {
        v.push((i % 251) as u8);
        i += 1;
    }
    v
}

#[test]
fn chunk_size_splits_known_length_into_ninety_nine() {
    assert_eq!(chunk_size_for(Some(9900)), 100);
    assert_eq!(chunk_size_for(Some(300)), 3);
}

#[test]
fn chunk_size_defaults_when_length_unknown() {
    assert_eq!(chunk_size_for(None), 1024);
}

#[test]
fn chunk_size_guards_zero_and_tiny_lengths() {
    assert_eq!(chunk_size_for(Some(0)), 1024);
    assert_eq!(chunk_size_for(Some(50)), 1024);
    assert_eq!(chunk_size_for(Some(98)), 1024);
    assert_eq!(chunk_size_for(Some(99)), 1);
}

#[test]
fn drain_known_length_accumulates_every_byte_in_ceil_reads() {
    let data = pattern_bytes(300);
    let mut source = MemSource::new(data.clone());
    let mut d = Drainer::new(Some(300), true);
    let updates = drain(&mut d, &mut source);
    // chunk = 300 / 99 = 3; ceil(300 / 3) = 100 data-carrying reads
    assert_eq!(updates, 100);
    assert_eq!(d.buf, data);
    assert!(d.done);
    assert_eq!(d.progress.transferred, 300);
    assert!(d.progress.finished);
}

#[test]
fn drain_known_length_with_remainder_takes_one_extra_read() {
    let data = pattern_bytes(1000);
    let mut source = MemSource::new(data.clone());
    let mut d = Drainer::new(Some(1000), true);
    let updates = drain(&mut d, &mut source);
    // chunk = 1000 / 99 = 10; ceil(1000 / 10) = 100
    assert_eq!(updates, 100);
    assert_eq!(d.buf, data);
}

#[test]
fn drain_unknown_length_uses_default_chunk_and_terminates() {
    let data = pattern_bytes(2500);
    let mut source = MemSource::new(data.clone());
    let mut d = Drainer::new(None, true);
    assert_eq!(d.chunk, 1024);
    let updates = drain(&mut d, &mut source);
    // ceil(2500 / 1024) = 3
    assert_eq!(updates, 3);
    assert_eq!(d.buf, data);
    assert!(d.done);
}

#[test]
fn drain_zero_length_terminates_at_once_with_nothing() {
    let mut source = MemSource::new(Vec::new());
    let mut d = Drainer::new(Some(0), true);
    assert_eq!(d.chunk, 1024);
    let updates = drain(&mut d, &mut source);
    assert_eq!(updates, 0);
    assert!(d.buf.is_empty());
    assert!(d.done);
}

#[test]
fn feed_appends_data_and_empty_read_finishes() {
    let mut d = Drainer::new(None, false);
    d.feed(vec![1, 2, 3]);
    assert!(!d.done);
    assert_eq!(d.progress.transferred, 3);
    d.feed(vec![4, 5]);
    assert_eq!(d.buf, vec![1, 2, 3, 4, 5]);
    d.feed(Vec::new());
    assert!(d.done);
    assert!(d.progress.finished);
    assert_eq!(d.buf, vec![1, 2, 3, 4, 5]);
}

#[test]
fn mem_source_reads_in_order_and_signals_exhaustion() {
    let mut source = MemSource::new(vec![10, 20, 30, 40, 50]);
    let first = source.read(2);
    assert_eq!(first, vec![10, 20]);
    let second = source.read(4);
    assert_eq!(second, vec![30, 40, 50]);
    let third = source.read(4);
    assert!(third.is_empty());
}

#[test]
fn progress_counts_and_finishes() {
    let mut p = ProgressState::new(Some(10), false);
    assert_eq!(p.transferred, 0);
    p.advance(4);
    p.advance(6);
    assert_eq!(p.transferred, 10);
    assert!(!p.finished);
    p.finish();
    assert!(p.finished);
    assert_eq!(p.transferred, 10);
}

#[test]
fn progress_quiet_mode_still_counts() {
    let mut p = ProgressState::new(None, true);
    p.advance(7);
    assert!(p.quiet);
    assert_eq!(p.transferred, 7);
}
