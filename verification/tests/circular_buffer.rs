//! Tests for the circular moving-average window.

use isopod::ring_buffer::CircularBuffer;

#[test]
fn test_circular_buffer() {
    let mut buf: CircularBuffer<i64> = CircularBuffer::new(5);

    buf.push(1);
    buf.push(2);
    buf.push(3);
    buf.push(4);

    // Check that all the getters return None when the buffer is not full
    assert_eq!(buf.buffer(), None);
    assert_eq!(buf.head(), None);
    assert_eq!(buf.tail(), None);
    assert_eq!(buf.mean(), None);

    buf.push(5);

    // Check the getters work now
    assert_eq!(buf.buffer(), Some(&vec![1, 2, 3, 4, 5]));
    assert_eq!(buf.head(), Some(5));
    assert_eq!(buf.tail(), Some(1));
    assert_eq!(buf.mean(), Some(3));

    // Check that the buffer is actually circular
    buf.push(6);
    buf.push(7);
    buf.push(8);
    assert_eq!(buf.buffer(), Some(&vec![6, 7, 8, 4, 5]));
    assert_eq!(buf.head(), Some(8));
    assert_eq!(buf.tail(), Some(4));
    assert_eq!(buf.mean(), Some(6));
}

#[test]
fn constant_fill_mean_head_tail() {
    // A full window of one value averages to that value, and both ends
    // hold it.
    let mut buf: CircularBuffer<i64> = CircularBuffer::new(7);
    for _ in 0..7 {
        buf.push(42);
    }
    assert_eq!(buf.mean(), Some(42));
    assert_eq!(buf.head(), Some(42));
    assert_eq!(buf.tail(), Some(42));

    // Still true after the window has wrapped.
    for _ in 0..20 {
        buf.push(-9);
    }
    assert_eq!(buf.mean(), Some(-9));
    assert_eq!(buf.head(), Some(-9));
    assert_eq!(buf.tail(), Some(-9));
}

#[test]
fn clear_empties_the_window() {
    let mut buf: CircularBuffer<i64> = CircularBuffer::new(3);
    buf.push(1);
    buf.push(2);
    buf.push(3);
    assert!(buf.is_full());
    assert_eq!(buf.len(), 3);
    buf.clear();
    assert!(!buf.is_full());
    assert_eq!(buf.len(), 0);
    assert_eq!(buf.mean(), None);
    buf.push(5);
    buf.push(5);
    buf.push(5);
    assert_eq!(buf.mean(), Some(5));
}

#[test]
fn capacity_one_window() {
    let mut buf: CircularBuffer<i64> = CircularBuffer::new(1);
    assert_eq!(buf.mean(), None);
    buf.push(17);
    assert_eq!(buf.mean(), Some(17));
    assert_eq!(buf.head(), Some(17));
    assert_eq!(buf.tail(), Some(17));
    buf.push(-4);
    assert_eq!(buf.mean(), Some(-4));
}

#[test]
fn truncating_mean_of_mixed_values() {
    // 1 + 2 + 2 = 5; 5 / 3 truncates to 1.
    let mut buf: CircularBuffer<i64> = CircularBuffer::new(3);
    buf.push(1);
    buf.push(2);
    buf.push(2);
    assert_eq!(buf.mean(), Some(1));
}
