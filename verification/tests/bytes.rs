use linkcore::bytes::{read_u32_le, write_u16_be, write_u16_le, write_u32_be, write_u32_le};

#[test]
fn sixteen_bit_encodings() {
    assert_eq!(write_u16_le(0x1234), vec![0x34, 0x12]);
    assert_eq!(write_u16_be(0x1234), vec![0x12, 0x34]);
    assert_eq!(write_u16_le(0), vec![0, 0]);
    assert_eq!(write_u16_be(0xFFFF), vec![0xFF, 0xFF]);
}

#[test]
fn thirty_two_bit_encodings() {
    assert_eq!(write_u32_le(0x01020304), vec![0x04, 0x03, 0x02, 0x01]);
    assert_eq!(write_u32_be(0x01020304), vec![0x01, 0x02, 0x03, 0x04]);
    assert_eq!(write_u32_be(60_000), vec![0x00, 0x00, 0xEA, 0x60]);
}

#[test]
fn little_endian_read_round_trips() {
    let b = write_u32_le(0xCAFEBABE);
    assert_eq!(read_u32_le(&b, 0), 0xCAFEBABE);
}

#[test]
fn read_honours_the_offset() {
    let mut b = vec![0xEE, 0xEE];
    b.extend_from_slice(&write_u32_le(777_777));
    assert_eq!(read_u32_le(&b, 2), 777_777);
}
