use chardev::buffer::{SharedBuffer, CAPACITY};

#[test]
fn new_buffer_is_zero_filled() {
    let buf = SharedBuffer::new();
    let all = buf.read(0, CAPACITY);
    assert_eq!(all.len(), CAPACITY);
    assert!(all.iter().all(|&b| b == 0u8));
}

#[test]
fn round_trip_at_offset_zero() {
    let mut buf = SharedBuffer::new();
    let data: Vec<u8> = (0..=255u8).cycle().take(1000).collect();
    let written = buf.write(&data, 0);
    assert_eq!(written, 1000);
    let back = buf.read(0, data.len());
    assert_eq!(back, data);
}

#[test]
fn round_trip_ignores_write_offset() {
    let mut buf = SharedBuffer::new();
    let data = vec![7u8, 8, 9, 10];
    let written = buf.write(&data, 999);
    assert_eq!(written, 4);
    assert_eq!(buf.read(0, 4), data);
}

#[test]
fn oversized_write_truncates_to_capacity() {
    let mut buf = SharedBuffer::new();
    let data: Vec<u8> = (0..CAPACITY + 904).map(|i| (i % 251) as u8).collect();
    let written = buf.write(&data, 0);
    assert_eq!(written, CAPACITY);
    let back = buf.read(0, CAPACITY);
    assert_eq!(back[..], data[..CAPACITY]);
}

#[test]
fn offset_read_returns_bounded_slice() {
    let mut buf = SharedBuffer::new();
    let data: Vec<u8> = (0..CAPACITY).map(|i| (i % 256) as u8).collect();
    buf.write(&data, 0);

    let mid = buf.read(100, 50);
    assert_eq!(mid[..], data[100..150]);

    let near_end = buf.read((CAPACITY - 10) as u64, 50);
    assert_eq!(near_end.len(), 10);
    assert_eq!(near_end[..], data[CAPACITY - 10..]);
}

#[test]
fn zero_length_read_returns_nothing() {
    let mut buf = SharedBuffer::new();
    buf.write(&[1u8, 2, 3], 0);
    let out = buf.read(0, 0);
    assert_eq!(out.len(), 0);
    let out = buf.read(2, 0);
    assert_eq!(out.len(), 0);
}

#[test]
fn read_at_capacity_returns_zero_bytes() {
    let buf = SharedBuffer::new();
    let out = buf.read(CAPACITY as u64, 16);
    assert_eq!(out.len(), 0);
}

#[test]
fn read_past_capacity_is_safe() {
    let buf = SharedBuffer::new();
    assert_eq!(buf.read(CAPACITY as u64 + 1, 16).len(), 0);
    assert_eq!(buf.read(u64::MAX, 16).len(), 0);
}

#[test]
fn full_writes_never_leave_a_mixed_buffer() {
    let mut buf = SharedBuffer::new();
    for fill in [0xAAu8, 0x55u8, 0x0Fu8] {
        let data = vec![fill; CAPACITY];
        let written = buf.write(&data, 0);
        assert_eq!(written, CAPACITY);
        let back = buf.read(0, CAPACITY);
        assert!(back.iter().all(|&b| b == fill));
    }
}
