use spinring::spsc::BufferError;
use spinring::spsc::RingBuffer;

#[test]
fn test_spsc_basic() {
    let mut buffer = RingBuffer::new(4).unwrap();

    assert!(buffer.empty());

    // push
    assert!(buffer.push(1).is_ok());
    assert!(buffer.push(2).is_ok());
    assert!(buffer.push(3).is_ok());

    // cap
    assert!(buffer.push(4).is_err());

    // pop
    assert_eq!(buffer.pop(), Ok(1));

    // len
    assert_eq!(buffer.len(), 2);

    assert_eq!(buffer.pop(), Ok(2));
    assert_eq!(buffer.pop(), Ok(3));
    assert!(buffer.pop().is_err());
}

#[test]
fn test_capacity_validation() {
    assert_eq!(
        RingBuffer::<i32>::new(0).err(),
        Some(BufferError::InvalidCapacity)
    );
    assert_eq!(
        RingBuffer::<i32>::new(1).err(),
        Some(BufferError::InvalidCapacity)
    );
    assert_eq!(
        RingBuffer::<i32>::new(3).err(),
        Some(BufferError::InvalidCapacity)
    );
    assert_eq!(
        RingBuffer::<i32>::new(6).err(),
        Some(BufferError::InvalidCapacity)
    );
    assert!(RingBuffer::<i32>::new(2).is_ok());
    assert!(RingBuffer::<i32>::new(4).is_ok());
    assert!(RingBuffer::<i32>::new(1024).is_ok());
}

#[test]
fn test_full_empty_boundary() {
    let mut buffer = RingBuffer::new(4).unwrap();
    assert_eq!(buffer.push(10), Ok(()));
    assert_eq!(buffer.push(11), Ok(()));
    assert_eq!(buffer.push(12), Ok(()));
    assert!(buffer.full());
    assert_eq!(buffer.push(13), Err(BufferError::Full));
    assert_eq!(buffer.pop(), Ok(10));
    assert_eq!(buffer.pop(), Ok(11));
    assert_eq!(buffer.pop(), Ok(12));
    assert!(buffer.empty());
    assert_eq!(buffer.pop(), Err(BufferError::Empty));

    let mut tiny = RingBuffer::new(2).unwrap();
    assert_eq!(tiny.push(1), Ok(()));
    assert_eq!(tiny.push(2), Err(BufferError::Full));
    assert_eq!(tiny.pop(), Ok(1));
    assert_eq!(tiny.pop(), Err(BufferError::Empty));
}

#[test]
fn test_wraparound_order() {
    let mut buffer = RingBuffer::new(4).unwrap();
    // Drive the cursors around the physical array several times and check that
    // delivery stays first-in-first-out throughout.
    let mut expected = 0;
    for batch in 0..5 {
        assert_eq!(buffer.push(3 * batch), Ok(()));
        assert_eq!(buffer.push(3 * batch + 1), Ok(()));
        assert_eq!(buffer.push(3 * batch + 2), Ok(()));
        for _ in 0..3 {
            assert_eq!(buffer.pop(), Ok(expected));
            expected += 1;
        }
    }
    assert!(buffer.empty());
}

#[test]
fn test_throughput_sum() {
    // One producer role pushing 0..8 (retrying when full) and one consumer role
    // popping and summing until all 8 arrive: nothing duplicated, nothing lost.
    let mut buffer = RingBuffer::new(4).unwrap();
    let mut next = 0;
    let mut sum = 0;
    let mut count = 0;
    while count < 8 {
        if next < 8 && buffer.push(next).is_ok() {
            next += 1;
        }
        if let Ok(value) = buffer.pop() {
            sum += value;
            count += 1;
        }
    }
    assert_eq!(sum, 28);
    assert_eq!(count, 8);
    assert!(buffer.empty());
}

#[test]
fn test_len_observer() {
    let mut buffer = RingBuffer::new(8).unwrap();
    assert_eq!(buffer.len(), 0);
    for i in 0..7 {
        assert_eq!(buffer.push(i), Ok(()));
        assert_eq!(buffer.len(), (i + 1) as usize);
    }
    assert!(buffer.full());
    for i in 0..7 {
        assert_eq!(buffer.pop(), Ok(i));
        assert_eq!(buffer.len(), (6 - i) as usize);
    }
}
