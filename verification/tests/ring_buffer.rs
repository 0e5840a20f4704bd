use synesthesia::ring_buffer::RingBuffer;

#[test]
fn test_ring_buffer_push_pop() {
    let mut ring: RingBuffer<i32> = RingBuffer::new(4);

    assert!(ring.is_empty());
    assert!(!ring.is_full());

    ring.push(1);
    ring.push(2);
    ring.push(3);

    assert_eq!(ring.len(), 3);
    assert_eq!(ring.pop(), Some(1));
    assert_eq!(ring.pop(), Some(2));
    assert_eq!(ring.pop(), Some(3));
    assert_eq!(ring.pop(), None);
}

#[test]
fn test_ring_buffer_overflow() {
    let mut ring: RingBuffer<i32> = RingBuffer::new(3);

    ring.push(1);
    ring.push(2);
    ring.push(3);
    assert!(ring.is_full());

    let evicted = ring.push(4);
    assert_eq!(evicted, Some(1));
    assert!(ring.is_full());

    assert_eq!(ring.to_vec(), vec![2, 3, 4]);
}

#[test]
fn test_ring_buffer_wrap() {
    let mut ring: RingBuffer<i32> = RingBuffer::new(4);

    ring.push(1);
    ring.push(2);
    ring.pop();
    ring.pop();

    ring.push(3);
    ring.push(4);

    assert_eq!(ring.to_vec(), vec![3, 4]);
}

#[test]
fn ring_buffer_keeps_most_recent_after_many_pushes() {
    let mut ring: RingBuffer<u32> = RingBuffer::new(3);
    for i in 0..10u32 {
        ring.push(i);
    }
    assert_eq!(ring.len(), 3);
    assert_eq!(ring.capacity(), 3);
    assert_eq!(ring.to_vec(), vec![7, 8, 9]);
}

#[test]
fn ring_buffer_push_when_not_full_evicts_nothing() {
    let mut ring: RingBuffer<u32> = RingBuffer::new(2);
    assert_eq!(ring.push(5), None);
    assert_eq!(ring.push(6), None);
    assert_eq!(ring.push(7), Some(5));
}

#[test]
fn ring_buffer_clear_empties() {
    let mut ring: RingBuffer<u32> = RingBuffer::new(3);
    ring.push(1);
    ring.push(2);
    ring.clear();
    assert!(ring.is_empty());
    assert_eq!(ring.len(), 0);
    assert_eq!(ring.to_vec(), Vec::<u32>::new());
    assert_eq!(ring.pop(), None);
}

#[test]
fn ring_buffer_full_then_pop_is_not_full() {
    let mut ring: RingBuffer<u32> = RingBuffer::new(2);
    ring.push(1);
    ring.push(2);
    assert!(ring.is_full());
    assert_eq!(ring.pop(), Some(1));
    assert!(!ring.is_full());
    assert_eq!(ring.len(), 1);
}

#[test]
fn capacity_is_kept_over_any_calls() {
    let mut ring: RingBuffer<i32> = RingBuffer::new(3);
    for i in 0..10 {
        ring.push(i);
        if i % 3 == 0 {
            ring.pop();
        }
        if i == 6 {
            ring.clear();
        }
        let _ = ring.to_vec();
        assert_eq!(ring.capacity(), 3);
        assert!(ring.len() <= 3);
    }
    assert_eq!(ring.to_vec(), vec![8, 9]);
}
