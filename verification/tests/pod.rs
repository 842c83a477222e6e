use wio::pod::Pod;

#[test]
fn sizes_are_the_byte_widths() {
    assert_eq!(<u8 as Pod>::size(), 1);
    assert_eq!(<u16 as Pod>::size(), 2);
    assert_eq!(<u32 as Pod>::size(), 4);
    assert_eq!(<u64 as Pod>::size(), 8);
}

#[test]
fn u8_encodes_as_itself() {
    assert_eq!(0xABu8.encode(), vec![0xAB]);
    assert_eq!(<u8 as Pod>::decode(&[0x5C]), 0x5C);
}

#[test]
fn u16_encodes_little_endian() {
    assert_eq!(0x1234u16.encode(), vec![0x34, 0x12]);
    assert_eq!(<u16 as Pod>::decode(&[0x34, 0x12]), 0x1234);
    assert_eq!(<u16 as Pod>::decode(&0xFFFFu16.encode()), 0xFFFF);
}

#[test]
fn u32_encodes_little_endian() {
    assert_eq!(0x12345678u32.encode(), vec![0x78, 0x56, 0x34, 0x12]);
    assert_eq!(<u32 as Pod>::decode(&[0x78, 0x56, 0x34, 0x12]), 0x12345678);
    assert_eq!(<u32 as Pod>::decode(&0u32.encode()), 0);
}

#[test]
fn u64_encodes_little_endian() {
    let v = 0x0102030405060708u64;
    assert_eq!(v.encode(), vec![8, 7, 6, 5, 4, 3, 2, 1]);
    assert_eq!(<u64 as Pod>::decode(&v.encode()), v);
    assert_eq!(<u64 as Pod>::decode(&u64::MAX.encode()), u64::MAX);
}
