use rqc::arbitrary::Unstructured;
use rqc::cyclic_buffer::{BufferInitError, BufferOpError, ByteBuffer};

#[test]
fn byte_buffer_fill_buffer() {
    let x = vec![1, 2, 3, 4];
    let mut rb = ByteBuffer::from_bytes(x).unwrap();
    let mut z = vec![0; 10];
    rb.fill_buffer(&mut z).unwrap();
    assert_eq!(z, vec![1, 2, 3, 4, 1, 2, 3, 4, 1, 2]);
    rb.fill_buffer(&mut z).unwrap();
    assert_eq!(z, vec![3, 4, 1, 2, 3, 4, 1, 2, 3, 4]);
}

#[test]
fn byte_buffer_fill_buffer_shrink() {
    let x = vec![1, 2, 3, 4];
    let mut rb = ByteBuffer::from_bytes(x).unwrap();
    let mut z = vec![0; 10];
    assert_eq!(2, rb.shrink_from(0));
    rb.fill_buffer(&mut z).unwrap();
    assert_eq!(z, vec![1, 2, 1, 2, 1, 2, 1, 2, 1, 2]);
    assert_eq!(1, rb.shrink_from(0));
    rb.fill_buffer(&mut z).unwrap();
    assert_eq!(z, vec![1, 1, 1, 1, 1, 1, 1, 1, 1, 1]);
}

#[test]
fn byte_buffer_fill_buffer_shift() {
    let x = vec![1, 2, 3, 4];
    let mut rb = ByteBuffer::from_bytes(x).unwrap();
    let mut z = vec![0; 10];
    rb.shift_right(1).unwrap();
    rb.fill_buffer(&mut z).unwrap();
    assert_eq!(z, vec![2, 3, 4, 1, 2, 3, 4, 1, 2, 3]);
    rb.shift_right(1).unwrap();
    rb.fill_buffer(&mut z).unwrap();
    assert_eq!(z, vec![3, 4, 1, 2, 3, 4, 1, 2, 3, 4]);
}

#[test]
fn byte_buffer_container_size() {
    let x = vec![1, 2, 3, 4, 5];
    let mut rb = ByteBuffer::from_bytes(x).unwrap().container_size_limit(11);
    assert_eq!(rb.container_size().unwrap(), 9);
    assert_eq!(rb.container_size().unwrap(), 1);
    assert_eq!(rb.container_size().unwrap(), 2);
    assert_eq!(rb.container_size().unwrap(), 6);
    assert_eq!(rb.container_size().unwrap(), 1);
}

#[test]
fn byte_buffer_byte_buffer_fill_buffer() {
    let x = vec![1, 2, 3, 4];
    let mut rb = ByteBuffer::from_bytes(x).unwrap();
    let mut z = vec![0; 10];
    rb.fill_buffer(&mut z).unwrap();
    assert_eq!(z, vec![1, 2, 3, 4, 1, 2, 3, 4, 1, 2]);
    rb.fill_buffer(&mut z).unwrap();
    assert_eq!(z, vec![3, 4, 1, 2, 3, 4, 1, 2, 3, 4]);
}

#[test]
fn byte_buffer_byte_buffer_fill_buffer_shrink() {
    let x = vec![1, 2, 3, 4];
    let mut rb = ByteBuffer::from_bytes(x).unwrap();
    let mut z = vec![0; 10];
    assert_eq!(2, rb.shrink_from(0));
    rb.fill_buffer(&mut z).unwrap();
    assert_eq!(z, vec![1, 2, 1, 2, 1, 2, 1, 2, 1, 2]);
    assert_eq!(1, rb.shrink_from(0));
    rb.fill_buffer(&mut z).unwrap();
    assert_eq!(z, vec![1, 1, 1, 1, 1, 1, 1, 1, 1, 1]);
}

#[test]
fn byte_buffer_byte_buffer_fill_buffer_shift() {
    let x = vec![1, 2, 3, 4];
    let mut rb = ByteBuffer::from_bytes(x).unwrap();
    let mut z = vec![0; 10];
    rb.shift_right(1).unwrap();
    rb.fill_buffer(&mut z).unwrap();
    assert_eq!(z, vec![2, 3, 4, 1, 2, 3, 4, 1, 2, 3]);
    rb.shift_right(1).unwrap();
    rb.fill_buffer(&mut z).unwrap();
    assert_eq!(z, vec![3, 4, 1, 2, 3, 4, 1, 2, 3, 4]);
}

#[test]
fn byte_buffer_byte_buffer_container_size() {
    let x = vec![1, 2, 3, 4, 5];
    let mut rb = ByteBuffer::from_bytes(x).unwrap().container_size_limit(11);
    assert_eq!(rb.container_size().unwrap(), 9);
    assert_eq!(rb.container_size().unwrap(), 1);
    assert_eq!(rb.container_size().unwrap(), 2);
    assert_eq!(rb.container_size().unwrap(), 6);
    assert_eq!(rb.container_size().unwrap(), 1);
}

#[test]
fn byte_buffer_init_errors() {
    assert!(matches!(
        ByteBuffer::from_bytes(vec![]),
        Err(BufferInitError::EmptyInput)
    ));
    assert!(matches!(
        ByteBuffer::from_bytes(vec![7]),
        Err(BufferInitError::BufferTooSmall)
    ));
    assert!(matches!(
        ByteBuffer::from_bytes(vec![7, 8]),
        Err(BufferInitError::BufferTooSmall)
    ));
    assert!(ByteBuffer::from_bytes(vec![7, 8, 9]).is_ok());
    assert!(matches!(ByteBuffer::new(0, 1), Err(BufferInitError::EmptyInput)));
    assert!(matches!(ByteBuffer::new(2, 1), Err(BufferInitError::BufferTooSmall)));
    assert!(ByteBuffer::new(3, 1).is_ok());
}

#[test]
fn byte_buffer_shift_wraps_around() {
    // On a pool of length 4 the shifts taken with the offset at 1, 2 and 3
    // succeed; the one taken at offset 3 lands the stream on the last start,
    // and the next shift reports exhaustion.
    let mut rb = ByteBuffer::from_bytes(vec![1, 2, 3, 4]).unwrap();
    rb.shift_right(1).unwrap();
    rb.shift_right(1).unwrap();
    rb.shift_right(1).unwrap();
    assert_eq!(rb.shift_right(1), Err(BufferOpError::ShiftWrapAround));
}

#[test]
fn byte_buffer_new_draws_capacity_bytes() {
    // A seeded pool serves reads of any length without failing.
    let mut rb = ByteBuffer::new(8, 42).unwrap();
    let mut z = vec![0; 20];
    rb.fill_buffer(&mut z).unwrap();
    assert_eq!(z.len(), 20);
    // The same seed redraws the same bytes.
    let mut rb2 = ByteBuffer::new(8, 42).unwrap();
    let mut z2 = vec![0; 20];
    rb2.fill_buffer(&mut z2).unwrap();
    assert_eq!(z, z2);
}

#[test]
fn byte_buffer_soft_reset_halves_window() {
    let mut rb = ByteBuffer::from_bytes(vec![1, 2, 3, 4]).unwrap();
    let mut z = vec![0; 4];
    rb.fill_buffer(&mut z).unwrap();
    assert_eq!(rb.offset(), 0);
    rb.shift_right(1).unwrap();
    rb.soft_reset();
    // The window is now [1, 2] and the cursor stands at the shift offset.
    assert_eq!(rb.offset(), 1);
    let mut z2 = vec![0; 6];
    rb.fill_buffer(&mut z2).unwrap();
    assert_eq!(z2, vec![2, 1, 2, 1, 2, 1]);
}

#[test]
fn byte_buffer_hard_reset_redraws() {
    let mut rb = ByteBuffer::from_bytes(vec![1, 2, 3, 4]).unwrap();
    rb.hard_reset();
    let mut z = vec![0; 2];
    rb.fill_buffer(&mut z).unwrap();
    // The window shrank to half the buffer; the bytes themselves now come
    // from the generator, so only the shape is predictable.
    assert_eq!(z.len(), 2);
    assert_eq!(rb.offset(), 0);
}
