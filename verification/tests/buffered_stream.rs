use base::buf::constant::{DEFAULT_BUFFER_MAX_SIZE, DEFAULT_BUFFER_MIN_SIZE};
use base::buf::{BufferedStream, BufferedStreamBase, BufferedStreamReader, BufferedStreamWriter};

fn readable(s: &BufferedStream) -> Vec<u8> {
    let mut out = vec![0u8; s.len()];
    let n = s.len();
    assert_eq!(s.peek(&mut out, n), Some(n));
    out
}

#[test]
fn new_stream_has_default_sizes() {
    let s = BufferedStream::new();
    assert_eq!(s.capacity(), DEFAULT_BUFFER_MIN_SIZE);
    assert_eq!(s.max_size(), DEFAULT_BUFFER_MAX_SIZE);
    assert_eq!(s.head(), 0);
    assert_eq!(s.tail(), 0);
    assert_eq!(s.len(), 0);
    assert!(s.is_empty());
    assert!(!s.is_full());
    assert_eq!(s.limit(), DEFAULT_BUFFER_MAX_SIZE);
    assert_eq!(s.vacant_len(), DEFAULT_BUFFER_MIN_SIZE);
}

#[test]
fn with_capacity_sets_capacity() {
    let s = BufferedStream::with_capacity(16);
    assert_eq!(s.capacity(), 16);
    assert_eq!(s.max_size(), DEFAULT_BUFFER_MAX_SIZE);
    assert!(s.is_empty());
}

#[test]
fn write_then_read_returns_written_bytes() {
    let mut s = BufferedStream::new();
    assert_eq!(s.write(&[1, 2, 3, 4, 5]), Some(5));
    assert_eq!(s.len(), 5);
    assert_eq!(s.tail(), 5);
    assert_eq!(s.vacant_len(), DEFAULT_BUFFER_MIN_SIZE - 5);
    let mut out = [0u8; 5];
    assert_eq!(s.read(&mut out, 5), Some(5));
    assert_eq!(out, [1, 2, 3, 4, 5]);
    assert!(s.is_empty());
    assert_eq!(s.head(), 5);
}

#[test]
fn reads_come_out_in_write_order() {
    let mut s = BufferedStream::with_capacity(32);
    assert_eq!(s.write(&[1, 2, 3]), Some(3));
    assert_eq!(s.write(&[4, 5]), Some(2));
    let mut first = [0u8; 2];
    assert_eq!(s.read(&mut first, 2), Some(2));
    assert_eq!(first, [1, 2]);
    assert_eq!(s.len(), 3);
    let mut rest = [0u8; 3];
    assert_eq!(s.read(&mut rest, 3), Some(3));
    assert_eq!(rest, [3, 4, 5]);
}

#[test]
fn read_fills_only_the_front_of_the_buffer() {
    let mut s = BufferedStream::new();
    s.write(&[7, 8]);
    let mut out = [9u8; 4];
    assert_eq!(s.read(&mut out, 2), Some(2));
    assert_eq!(out, [7, 8, 9, 9]);
}

#[test]
fn peek_leaves_bytes_readable() {
    let mut s = BufferedStream::new();
    s.write(&[10, 20, 30]);
    let mut out = [0u8; 2];
    assert_eq!(s.peek(&mut out, 2), Some(2));
    assert_eq!(out, [10, 20]);
    assert_eq!(s.len(), 3);
    assert_eq!(s.head(), 0);
    assert_eq!(readable(&s), vec![10, 20, 30]);
}

#[test]
fn peek_refuses_more_than_is_readable() {
    let mut s = BufferedStream::new();
    s.write(&[1, 2]);
    let mut out = [5u8; 4];
    assert_eq!(s.peek(&mut out, 3), None);
    assert_eq!(out, [5, 5, 5, 5]);
    assert_eq!(s.read(&mut out, 3), None);
    assert_eq!(s.len(), 2);
}

#[test]
fn peek_refuses_a_short_buffer() {
    let mut s = BufferedStream::new();
    s.write(&[1, 2, 3, 4]);
    let mut out = [0u8; 2];
    assert_eq!(s.peek(&mut out, 3), None);
    assert_eq!(out, [0, 0]);
    assert_eq!(s.read(&mut out, 3), None);
    assert_eq!(s.len(), 4);
}

#[test]
fn read_of_nothing_succeeds() {
    let mut s = BufferedStream::new();
    let mut out = [0u8; 0];
    assert_eq!(s.read(&mut out, 0), Some(0));
}

#[test]
fn empty_write_succeeds() {
    let mut s = BufferedStream::new();
    assert_eq!(s.write(&[]), Some(0));
    assert!(s.is_empty());
}

#[test]
fn write_moves_bytes_to_the_front_when_the_tail_is_at_the_end() {
    let mut s = BufferedStream::with_capacity(8);
    assert_eq!(s.write(&[1, 2, 3, 4, 5, 6]), Some(6));
    let mut out = [0u8; 4];
    assert_eq!(s.read(&mut out, 4), Some(4));
    assert_eq!(s.write(&[7, 8, 9, 10]), Some(4));
    assert_eq!(s.capacity(), 8);
    assert_eq!(s.head(), 0);
    assert_eq!(s.tail(), 6);
    assert_eq!(readable(&s), vec![5, 6, 7, 8, 9, 10]);
}

#[test]
fn write_grows_by_doubling() {
    let mut s = BufferedStream::with_capacity(4);
    assert_eq!(s.write(&[1, 2, 3]), Some(3));
    assert_eq!(s.write(&[4, 5, 6]), Some(3));
    assert_eq!(s.capacity(), 8);
    assert_eq!(s.head(), 0);
    assert_eq!(s.tail(), 6);
    assert_eq!(readable(&s), vec![1, 2, 3, 4, 5, 6]);
}

#[test]
fn write_grows_several_doublings_at_once() {
    let mut s = BufferedStream::with_capacity(4);
    assert_eq!(s.write(&[1; 20]), Some(20));
    assert_eq!(s.capacity(), 32);
    assert_eq!(readable(&s), vec![1u8; 20]);
}

#[test]
fn growth_stops_at_the_size_limit() {
    let mut s = BufferedStream::new();
    s.set_max_size(1500);
    assert_eq!(s.write(&[3u8; 1000]), Some(1000));
    assert_eq!(s.write(&[4u8; 400]), Some(400));
    assert_eq!(s.capacity(), 1500);
    assert_eq!(s.len(), 1400);
    let bytes = readable(&s);
    assert_eq!(&bytes[..1000], &[3u8; 1000][..]);
    assert_eq!(&bytes[1000..], &[4u8; 400][..]);
}

#[test]
fn write_past_the_size_limit_is_refused() {
    let mut s = BufferedStream::new();
    s.set_max_size(1024);
    assert_eq!(s.write(&[1u8; 1000]), Some(1000));
    assert_eq!(s.write(&[2u8; 100]), None);
    assert_eq!(s.len(), 1000);
    assert_eq!(s.capacity(), 1024);
    assert_eq!(s.tail(), 1000);
}

#[test]
fn stream_at_its_limit_is_full() {
    let mut s = BufferedStream::new();
    s.set_max_size(1024);
    assert_eq!(s.write(&[1u8; 1024]), Some(1024));
    assert!(s.is_full());
    assert_eq!(s.limit(), 0);
    assert_eq!(s.vacant_len(), 0);
}

#[test]
fn set_max_size_never_goes_below_the_floor() {
    let mut s = BufferedStream::new();
    s.set_max_size(10);
    assert_eq!(s.max_size(), DEFAULT_BUFFER_MIN_SIZE);
    s.set_max_size(5000);
    assert_eq!(s.max_size(), 5000);
    s.set_max_size(DEFAULT_BUFFER_MIN_SIZE);
    assert_eq!(s.max_size(), DEFAULT_BUFFER_MIN_SIZE);
}

#[test]
fn reserve_extends_the_storage_and_keeps_the_bytes() {
    let mut s = BufferedStream::with_capacity(16);
    s.write(&[1, 2, 3]);
    s.reserve(16);
    assert_eq!(s.capacity(), 32);
    assert_eq!(s.head(), 0);
    assert_eq!(s.tail(), 3);
    assert_eq!(readable(&s), vec![1, 2, 3]);
}

#[test]
fn reserve_past_the_size_limit_does_nothing() {
    let mut s = BufferedStream::new();
    s.set_max_size(1024);
    s.reserve(1);
    assert_eq!(s.capacity(), 1024);
}

#[test]
fn slices_expose_the_storage() {
    let mut s = BufferedStream::with_capacity(8);
    {
        let part = s.as_slice_mut(0, 3).unwrap();
        part.copy_from_slice(&[5, 6, 7]);
    }
    assert!(s.as_slice(0, 3).is_none());
    s.set_len(3);
    assert_eq!(s.len(), 3);
    assert_eq!(s.as_slice(0, 3).unwrap(), &[5, 6, 7]);
    assert_eq!(s.as_slice(1, 2).unwrap(), &[6, 7]);
    s.remove_front(2);
    assert_eq!(s.len(), 1);
    assert!(s.as_slice(1, 2).is_none());
    assert_eq!(s.as_slice(2, 1).unwrap(), &[7]);
}

#[test]
fn slices_outside_their_range_are_refused() {
    let mut s = BufferedStream::with_capacity(8);
    s.write(&[1, 2, 3]);
    assert!(s.as_slice(2, 2).is_none());
    assert!(s.as_slice_mut(6, 3).is_none());
    assert_eq!(s.as_slice_mut(5, 3).map(|p| p.len()), Some(3));
}

#[test]
fn read_after_compaction_and_growth_keeps_order() {
    let mut s = BufferedStream::with_capacity(4);
    s.write(&[1, 2, 3, 4]);
    let mut out = [0u8; 3];
    s.read(&mut out, 3);
    assert_eq!(out, [1, 2, 3]);
    s.write(&[5, 6]);
    assert_eq!(s.capacity(), 4);
    s.write(&[7, 8, 9]);
    assert_eq!(s.capacity(), 8);
    assert_eq!(readable(&s), vec![4, 5, 6, 7, 8, 9]);
}

#[test]
fn bytes_placed_behind_the_tail_and_published_are_appended() {
    let mut s = BufferedStream::with_capacity(8);
    s.write(&[1, 2]);
    let tail = s.tail();
    s.as_slice_mut(tail, 2).unwrap().copy_from_slice(&[3, 4]);
    assert_eq!(s.len(), 2);
    s.set_len(tail + 2);
    assert_eq!(readable(&s), vec![1, 2, 3, 4]);
}

#[test]
fn bytes_shown_by_as_slice_are_consumed_by_remove_front() {
    let mut s = BufferedStream::with_capacity(8);
    s.write(&[9, 8, 7, 6]);
    let head = s.head();
    assert_eq!(s.as_slice(head, 3).unwrap(), &[9, 8, 7]);
    s.remove_front(head + 3);
    assert_eq!(readable(&s), vec![6]);
}

#[test]
fn storage_within_the_limit_stays_within_it() {
    let mut s = BufferedStream::with_capacity(4);
    s.set_max_size(1024);
    for round in 0..50u8 {
        let chunk = [round; 40];
        if s.write(&chunk).is_some() {
            assert!(s.capacity() <= s.max_size());
        }
        let mut out = [0u8; 30];
        s.read(&mut out, 30);
        assert!(s.head() <= s.tail() && s.tail() <= s.capacity() && s.capacity() <= s.max_size());
    }
    s.reserve(2000);
    assert!(s.capacity() <= s.max_size());
}

#[test]
fn memory_stream_stays_usable_after_clear() {
    let mut m = base::buf::MemoryStream::new();
    m.clear();
    m.write(7u32);
    m.clear();
}
