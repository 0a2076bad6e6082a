use opentype_rs::codec::{be_u16, be_u24, be_u32, be_u8, i16_at, i64_at, take, u32_at};
use opentype_rs::error::Error;

#[test]
fn primitives_read_big_endian() {
    let bytes: &[u8] = &[0x12, 0x34, 0x56, 0x78, 0x9A];
    assert_eq!(be_u8(bytes), Ok((&bytes[1..], 0x12)));
    assert_eq!(be_u16(bytes), Ok((&bytes[2..], 0x1234)));
    assert_eq!(be_u24(bytes), Ok((&bytes[3..], 0x123456)));
    assert_eq!(be_u32(bytes), Ok((&bytes[4..], 0x12345678)));
    assert_eq!(u32_at(bytes, 1), 0x3456789A);
    assert_eq!(i16_at(&[0xFF, 0xFE], 0), -2);
    assert_eq!(i64_at(&[0xFF; 8], 0), -1);
}

#[test]
fn primitives_refuse_short_input() {
    let empty: &[u8] = &[];
    assert_eq!(be_u8(empty), Err(Error::Truncated));
    assert_eq!(be_u16(&[1]), Err(Error::Truncated));
    assert_eq!(be_u24(&[1, 2]), Err(Error::Truncated));
    assert_eq!(be_u32(&[1, 2, 3]), Err(Error::Truncated));
    assert_eq!(take(&[1, 2, 3], 4), Err(Error::Truncated));
}

#[test]
fn take_splits_without_copying() {
    let bytes: &[u8] = &[1, 2, 3, 4];
    let (rest, taken) = take(bytes, 3).unwrap();
    assert_eq!(taken, &[1, 2, 3]);
    assert_eq!(rest, &[4]);
    assert_eq!(take(bytes, 0), Ok((bytes, &bytes[..0])));
    assert!(std::ptr::eq(taken.as_ptr(), bytes.as_ptr()));
}
