use panthor::dump::bytes::{copy_into, put_u16, put_u32, ByteOrder};
use panthor::dump::format::{
    padding, Header, HeaderType, Record, RegisterDump, HEADER_PADDING_OFFSET, HEADER_SIZE, MAGIC,
    MAJOR, MINOR, REGISTER_DUMP_SIZE,
};

#[test]
fn format_constants() {
    assert_eq!(MAJOR, 1);
    assert_eq!(MINOR, 0);
    assert_eq!(MAGIC, 0x544e4150);
    assert_eq!(&MAGIC.to_le_bytes(), b"PANT");
    assert_eq!(HEADER_SIZE, 16);
    assert_eq!(REGISTER_DUMP_SIZE, 8);
    assert_eq!(HEADER_PADDING_OFFSET, 12);
    assert_eq!(<Header as Record>::size(), 16);
    assert_eq!(<RegisterDump as Record>::size(), 8);
}

#[test]
fn header_type_ordinals() {
    assert_eq!(HeaderType::Registers.to_u32(), 0);
    assert_eq!(HeaderType::Vm.to_u32(), 1);
    assert_eq!(HeaderType::FirmwareInterface.to_u32(), 2);
}

#[test]
fn native_byte_order_is_that_of_the_machine() {
    let little = u32::from_ne_bytes([1, 0, 0, 0]) == 1;
    let expected = if little { ByteOrder::LittleEndian } else { ByteOrder::BigEndian };
    assert_eq!(ByteOrder::native(), expected);
}

#[test]
fn byte_order_from_probe() {
    assert_eq!(ByteOrder::from_probe([1, 0]), ByteOrder::LittleEndian);
    assert_eq!(ByteOrder::from_probe([0, 1]), ByteOrder::BigEndian);
}

#[test]
fn put_u16_in_both_orders() {
    let mut buf = [0xffu8; 6];
    put_u16(&mut buf, 2, ByteOrder::LittleEndian, 0x1234);
    assert_eq!(buf, [0xff, 0xff, 0x34, 0x12, 0xff, 0xff]);
    put_u16(&mut buf, 4, ByteOrder::BigEndian, 0x1234);
    assert_eq!(buf, [0xff, 0xff, 0x34, 0x12, 0x12, 0x34]);
    put_u16(&mut buf, 0, ByteOrder::BigEndian, u16::MAX);
    assert_eq!(buf, [0xff, 0xff, 0x34, 0x12, 0x12, 0x34]);
    put_u16(&mut buf, 0, ByteOrder::LittleEndian, 0);
    assert_eq!(buf, [0, 0, 0x34, 0x12, 0x12, 0x34]);
}

#[test]
fn put_u32_in_both_orders() {
    let mut buf = [0u8; 10];
    put_u32(&mut buf, 1, ByteOrder::LittleEndian, 0xdead_beef);
    assert_eq!(buf, [0, 0xef, 0xbe, 0xad, 0xde, 0, 0, 0, 0, 0]);
    put_u32(&mut buf, 6, ByteOrder::BigEndian, 0xdead_beef);
    assert_eq!(buf, [0, 0xef, 0xbe, 0xad, 0xde, 0, 0xde, 0xad, 0xbe, 0xef]);
}

#[test]
fn put_u32_agrees_with_the_standard_library() {
    for x in [0u32, 1, 0xff, 0x100, 0xffff, 0x1_0000, 0x00ff_ffff, 0x0100_0000, u32::MAX] {
        let mut le = [0u8; 4];
        put_u32(&mut le, 0, ByteOrder::LittleEndian, x);
        assert_eq!(le, x.to_le_bytes());
        let mut be = [0u8; 4];
        put_u32(&mut be, 0, ByteOrder::BigEndian, x);
        assert_eq!(be, x.to_be_bytes());
        let mut ne = [0u8; 4];
        put_u32(&mut ne, 0, ByteOrder::native(), x);
        assert_eq!(ne, x.to_ne_bytes());
    }
}

#[test]
fn copy_into_keeps_the_tail() {
    let mut dst = [9u8; 6];
    copy_into(&mut dst, &[1, 2, 3, 4]);
    assert_eq!(dst, [1, 2, 3, 4, 9, 9]);
    copy_into(&mut dst, &[]);
    assert_eq!(dst, [1, 2, 3, 4, 9, 9]);
    copy_into(&mut dst, &[6, 5, 4, 3, 2, 1]);
    assert_eq!(dst, [6, 5, 4, 3, 2, 1]);
}

#[test]
fn header_new_has_magic_and_no_padding() {
    let h = Header::new(HeaderType::Registers, 144);
    assert_eq!(h, Header { magic: MAGIC, ty: HeaderType::Registers, size: 144, padding: 0 });
}

#[test]
fn header_encodes_to_its_fixed_layout() {
    let h = Header { magic: MAGIC, ty: HeaderType::Vm, size: 5, padding: 3 };
    let mut out = [0xeeu8; 16];
    h.encode(ByteOrder::LittleEndian, &mut out);
    assert_eq!(out, [0x50, 0x41, 0x4e, 0x54, 1, 0, 0, 0, 5, 0, 0, 0, 3, 0, 0, 0]);
    let mut out = [0xeeu8; 16];
    h.encode(ByteOrder::BigEndian, &mut out);
    assert_eq!(out, [0x54, 0x4e, 0x41, 0x50, 0, 0, 0, 1, 0, 0, 0, 5, 0, 3, 0, 0]);
}

#[test]
fn header_round_trips_through_its_bytes() {
    let h = Header { magic: MAGIC, ty: HeaderType::FirmwareInterface, size: 0xa1b2_c3d4, padding: 7 };
    let mut out = [0u8; 16];
    h.encode(ByteOrder::native(), &mut out);
    assert_eq!(u32::from_ne_bytes([out[0], out[1], out[2], out[3]]), h.magic);
    assert_eq!(u32::from_ne_bytes([out[4], out[5], out[6], out[7]]), 2);
    assert_eq!(u32::from_ne_bytes([out[8], out[9], out[10], out[11]]), h.size);
    assert_eq!(u16::from_ne_bytes([out[12], out[13]]), h.padding);
    assert_eq!([out[14], out[15]], [0, 0]);
}

#[test]
fn set_padding_touches_the_padding_field_only() {
    let mut out = [0u8; 16];
    Header::new(HeaderType::Vm, 0x1122_3344).encode(ByteOrder::LittleEndian, &mut out);
    let before = out;
    Header::set_padding(&mut out, ByteOrder::LittleEndian, 0x0607);
    assert_eq!(&out[..12], &before[..12]);
    assert_eq!(&out[12..14], &[0x07, 0x06]);
    assert_eq!(&out[14..], &before[14..]);
    let mut same = [0u8; 16];
    Header { magic: MAGIC, ty: HeaderType::Vm, size: 0x1122_3344, padding: 0x0607 }
        .encode(ByteOrder::LittleEndian, &mut same);
    assert_eq!(out, same);
}

#[test]
fn register_dump_encodes_identifier_then_value() {
    let entry = RegisterDump { register: 0x2428, value: 0x8000_0001 };
    let mut out = [0u8; 8];
    entry.encode(ByteOrder::LittleEndian, &mut out);
    assert_eq!(out, [0x28, 0x24, 0, 0, 1, 0, 0, 0x80]);
    entry.encode(ByteOrder::BigEndian, &mut out);
    assert_eq!(out, [0, 0, 0x24, 0x28, 0x80, 0, 0, 1]);
}

#[test]
fn padding_brings_sizes_up_to_a_multiple_of_eight() {
    assert_eq!(padding(0), 0);
    assert_eq!(padding(1), 7);
    assert_eq!(padding(5), 3);
    assert_eq!(padding(7), 1);
    assert_eq!(padding(8), 0);
    assert_eq!(padding(9), 7);
    assert_eq!(padding(16), 0);
    assert_eq!(padding(usize::MAX), 1);
    for size in 0usize..200 {
        let p = padding(size);
        assert!(p < 8);
        assert_eq!((size + p) % 8, 0);
        assert_eq!(p, (8 - size % 8) % 8);
    }
}
