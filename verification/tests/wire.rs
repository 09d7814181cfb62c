use black_jack::wire::{push_le, read_le};

#[test]
fn push_le_writes_the_low_bytes_first() {
    let mut out = vec![9];
    push_le(&mut out, 0x0102_0304_0506_0708, 8);
    assert_eq!(out, vec![9, 8, 7, 6, 5, 4, 3, 2, 1]);
    let mut out = Vec::new();
    push_le(&mut out, 52, 4);
    assert_eq!(out, vec![52, 0, 0, 0]);
    let mut out = Vec::new();
    push_le(&mut out, 0x0102_0304_0506_0708, 2);
    assert_eq!(out, vec![8, 7]);
    let mut out = vec![1];
    push_le(&mut out, 77, 0);
    assert_eq!(out, vec![1]);
    let mut out = Vec::new();
    push_le(&mut out, u64::MAX, 8);
    assert_eq!(out, vec![255; 8]);
}

#[test]
fn read_le_reads_what_push_le_wrote() {
    let data = [9u8, 8, 7, 6, 5, 4, 3, 2, 1];
    assert_eq!(read_le(&data, 1, 8), 0x0102_0304_0506_0708);
    assert_eq!(read_le(&data, 0, 1), 9);
    assert_eq!(read_le(&data, 7, 2), 0x0102);
    assert_eq!(read_le(&data, 9, 0), 0);
    assert_eq!(read_le(&[255u8; 8], 0, 8), u64::MAX);
    assert_eq!(read_le(&[52u8, 0, 0, 0], 0, 4), 52);
}
