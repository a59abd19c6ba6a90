use ble_hci::reader::{ReadError, Reader};
use ble_hci::writer::{WriteError, Writer};

#[test]
fn test_read_scalars_little_endian() {
    let buf: &[u8] = &[
        0x01, // u8
        0x02, 0x01, // u16
        0x04, 0x03, 0x02, 0x01, // u32
        0x08, 0x07, 0x06, 0x05, 0x04, 0x03, 0x02, 0x01, // u64
        0x10, 0x0F, 0x0E, 0x0D, 0x0C, 0x0B, 0x0A, 0x09, 0x08, 0x07, 0x06, 0x05, 0x04, 0x03,
        0x02, 0x01, // u128
    ];
    let mut r = Reader::new(buf);
    assert_eq!(r.read_u8(), Some(0x01));
    assert_eq!(r.read_u16(), Some(0x0102));
    assert_eq!(r.read_u32(), Some(0x01020304));
    assert_eq!(r.read_u64(), Some(0x0102030405060708));
    assert_eq!(r.read_u128(), Some(0x0102030405060708_090A0B0C0D0E0F10));
    assert_eq!(r.remaining(), 0);
    assert_eq!(r.read_u8(), None);
}

#[test]
fn test_failed_read_leaves_position_unchanged() {
    let buf: &[u8] = &[0xAA, 0xBB, 0xCC];
    let mut r = Reader::new(buf);
    assert_eq!(r.read_u16(), Some(0xBBAA));
    assert_eq!(r.pos(), 2);

    // one byte left: wider reads fail and do not move the cursor
    assert_eq!(r.read_u16(), None);
    assert_eq!(r.read_u32(), None);
    assert_eq!(r.read_u8_slice(2), None);
    assert_eq!(r.pos(), 2);
    assert_eq!(r.remaining(), 1);

    assert_eq!(r.read_u8(), Some(0xCC));
    assert_eq!(r.pos(), 3);
}

#[test]
fn test_read_u8_slice_borrows_exact_bytes() {
    let buf: &[u8] = &[1, 2, 3, 4, 5];
    let mut r = Reader::new(buf);
    assert_eq!(r.read_u8_slice(2), Some(&buf[0..2]));
    assert_eq!(r.read_u8_slice(0), Some(&buf[2..2]));
    assert_eq!(r.read_u8_slice(3), Some(&buf[2..5]));
    assert_eq!(r.read_u8_slice(1), None);
}

#[test]
fn test_reinterpret_requires_multiple_of_width() {
    // three bytes cannot be read as 16-bit values
    let buf: &[u8] = &[0x01, 0x02, 0x03];
    let mut r = Reader::new(buf);
    assert!(r.read_u16_slice(3).is_none());
    assert_eq!(r.pos(), 0);

    // six bytes cannot be read as 32-bit values
    let buf6: &[u8] = &[0x01, 0x02, 0x03, 0x04, 0x05, 0x06];
    let mut r6 = Reader::new(buf6);
    assert!(r6.read_u32_slice(6).is_none());
    assert!(r6.read_u64_slice(6).is_none());
    assert!(r6.read_u128_slice(6).is_none());
    assert_eq!(r6.pos(), 0);

    // and a length beyond the buffer fails even when it is a multiple
    assert!(r6.read_u16_slice(8).is_none());
}

#[test]
fn test_reinterpret_u16_slice_values() {
    let buf: &[u8] = &[0x0F, 0x18, 0x0A, 0x18, 0xFF];
    let mut r = Reader::new(buf);
    let v = r.read_u16_slice(4).expect("four bytes as two values");
    assert_eq!(v.len(), 2);
    assert_eq!(v.get(0), 0x180F);
    assert_eq!(v.get(1), 0x180A);
    assert_eq!(r.pos(), 4);
    assert_eq!(r.read_u8(), Some(0xFF));
}

#[test]
fn test_reinterpret_u32_and_u64_slice_values() {
    let buf: &[u8] = &[0x04, 0x03, 0x02, 0x01, 0x08, 0x07, 0x06, 0x05];
    let mut r = Reader::new(buf);
    let v = r.read_u32_slice(8).expect("eight bytes as two values");
    assert_eq!(v.len(), 2);
    assert_eq!(v.get(0), 0x01020304);
    assert_eq!(v.get(1), 0x05060708);

    let mut r2 = Reader::new(buf);
    let w = r2.read_u64_slice(8).expect("eight bytes as one value");
    assert_eq!(w.len(), 1);
    assert_eq!(w.get(0), 0x0506070801020304);
}

#[test]
fn test_seek_and_remaining() {
    let buf: &[u8] = &[1, 2, 3, 4];
    let mut r = Reader::new(buf);
    assert_eq!(r.remaining(), 4);
    assert!(r.seek(3).is_ok());
    assert_eq!(r.remaining(), 1);
    assert_eq!(r.read_u8(), Some(4));
    assert!(r.seek(4).is_ok());
    assert_eq!(r.remaining(), 0);
    assert!(matches!(r.seek(5), Err(ReadError::BufferOverflow)));
    assert_eq!(r.pos(), 4);
    assert!(r.seek(0).is_ok());
    assert_eq!(r.read_u8(), Some(1));
}

#[test]
fn test_writer_scalars_little_endian() {
    let mut w = Writer::new(vec![0u8; 16]);
    w.write_u8(0xAB).unwrap();
    w.write_u16(0x0102).unwrap();
    w.write_u32(0x03040506).unwrap();
    w.write_u64(0x0708090A0B0C0D0E).unwrap();
    assert_eq!(w.pos(), 15);
    let buf = w.into_buf();
    assert_eq!(
        &buf[..15],
        &[
            0xAB, 0x02, 0x01, 0x06, 0x05, 0x04, 0x03, 0x0E, 0x0D, 0x0C, 0x0B, 0x0A, 0x09, 0x08,
            0x07
        ]
    );
}

#[test]
fn test_writer_u128() {
    let mut w = Writer::new(vec![0u8; 17]);
    w.write_u128(0x0102030405060708_090A0B0C0D0E0F10).unwrap();
    let buf = w.into_buf();
    assert_eq!(
        &buf[..16],
        &[
            0x10, 0x0F, 0x0E, 0x0D, 0x0C, 0x0B, 0x0A, 0x09, 0x08, 0x07, 0x06, 0x05, 0x04, 0x03,
            0x02, 0x01
        ]
    );
}

#[test]
fn test_writer_fills_the_buffer_exactly() {
    // a write succeeds whenever its bytes fit, the last byte included
    let mut w = Writer::new(vec![0u8; 4]);
    assert!(w.write_u32(0xDEADBEEF).is_ok());
    assert_eq!(w.pos(), 4);
    assert!(matches!(w.write_u8(0x78), Err(WriteError::BufferOverflow)));
    let buf = w.into_buf();
    assert_eq!(buf, vec![0xEF, 0xBE, 0xAD, 0xDE]);

    let mut w1 = Writer::new(vec![0u8; 1]);
    assert!(w1.write_u8(0x56).is_ok());
    assert_eq!(w1.into_buf(), vec![0x56]);

    let mut w2 = Writer::new(vec![0u8; 2]);
    assert!(w2.write_u16(0x1234).is_ok());
    assert_eq!(w2.into_buf(), vec![0x34, 0x12]);
}

#[test]
fn test_writer_rejects_a_write_past_the_end() {
    let mut w = Writer::new(vec![0u8; 3]);
    assert!(matches!(
        w.write_u32(0xDEADBEEF),
        Err(WriteError::BufferOverflow)
    ));
    assert_eq!(w.pos(), 0);
    assert!(w.write_u16(0x1234).is_ok());
    assert!(matches!(
        w.write_u16(0x5678),
        Err(WriteError::BufferOverflow)
    ));
    assert!(w.write_u8(0x56).is_ok());
    assert!(matches!(w.write_u8(0x78), Err(WriteError::BufferOverflow)));
    let buf = w.into_buf();
    assert_eq!(buf, vec![0x34, 0x12, 0x56]);
}

#[test]
fn test_writer_u16_slice() {
    let mut w = Writer::new(vec![0u8; 4]);
    w.write_u16_slice(&[0x180F, 0x180A]).unwrap();
    assert_eq!(w.pos(), 4);
    let buf = w.into_buf();
    assert_eq!(buf, vec![0x0F, 0x18, 0x0A, 0x18]);
}

#[test]
fn test_writer_u32_slice_must_fit_in_bytes() {
    // two elements encode to eight bytes, more than the six available
    let mut w = Writer::new(vec![0u8; 6]);
    assert!(matches!(
        w.write_u32_slice(&[1, 2]),
        Err(WriteError::BufferOverflow)
    ));
    assert_eq!(w.pos(), 0);

    let mut w2 = Writer::new(vec![0u8; 6]);
    w2.write_u32_slice(&[0x01020304]).unwrap();
    let buf = w2.into_buf();
    assert_eq!(buf, vec![0x04, 0x03, 0x02, 0x01, 0x00, 0x00]);
}

#[test]
fn test_writer_u64_and_u128_slices() {
    let mut w = Writer::new(vec![0u8; 8]);
    w.write_u64_slice(&[0x0102030405060708]).unwrap();
    let buf = w.into_buf();
    assert_eq!(buf, vec![0x08, 0x07, 0x06, 0x05, 0x04, 0x03, 0x02, 0x01]);

    let mut w2 = Writer::new(vec![0u8; 16]);
    w2.write_u128_slice(&[0x10]).unwrap();
    let buf2 = w2.into_buf();
    assert_eq!(buf2[0], 0x10);
    assert_eq!(&buf2[1..], &[0u8; 15]);
}

#[test]
fn test_writer_empty_slice_always_fits() {
    // an empty write consumes no room, so it succeeds even with none left
    let mut w = Writer::new(vec![]);
    assert!(w.write_u8_slice(&[]).is_ok());
    assert_eq!(w.pos(), 0);
}
