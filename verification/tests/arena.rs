use panthor::dump::arena::DumpAllocator;
use panthor::dump::bytes::ByteOrder;
use panthor::dump::format::{Header, HeaderType, RegisterDump, MAGIC};
use panthor::error::Error;

#[test]
fn new_arena_is_zeroed_and_empty() {
    let alloc = DumpAllocator::new(64).unwrap();
    assert_eq!(alloc.capacity(), 64);
    assert_eq!(alloc.position(), 0);
    assert!(!alloc.is_end());
    let (mem, size) = alloc.dump();
    assert_eq!(size, 64);
    assert_eq!(mem, vec![0u8; 64]);
}

#[test]
fn arena_of_no_bytes_is_at_its_end() {
    let mut alloc = DumpAllocator::new(0).unwrap();
    assert!(alloc.is_end());
    assert_eq!(alloc.alloc_mem(0), Some(0));
    assert_eq!(alloc.alloc_mem(8), None);
    let (mem, size) = alloc.dump();
    assert!(mem.is_empty());
    assert_eq!(size, 0);
}

#[test]
fn new_refuses_a_size_beyond_the_signed_range() {
    assert!(matches!(DumpAllocator::new(isize::MAX as usize), Err(Error::InvalidArgument)));
    assert!(matches!(DumpAllocator::new(usize::MAX), Err(Error::InvalidArgument)));
    assert!(matches!(
        DumpAllocator::with_byte_order(isize::MAX as usize, ByteOrder::BigEndian),
        Err(Error::InvalidArgument)
    ));
}

#[test]
fn new_reports_out_of_memory() {
    assert!(matches!(DumpAllocator::new(isize::MAX as usize - 1), Err(Error::OutOfMemory)));
}

#[test]
fn from_reserved_follows_the_outcome_of_the_reservation() {
    let failed = DumpAllocator::from_reserved(Vec::new(), false, 16, ByteOrder::LittleEndian);
    assert!(matches!(failed, Err(Error::OutOfMemory)));
    let alloc =
        DumpAllocator::from_reserved(Vec::new(), true, 16, ByteOrder::BigEndian).unwrap();
    assert_eq!(alloc.capacity(), 16);
    assert_eq!(alloc.position(), 0);
    assert_eq!(alloc.byte_order(), ByteOrder::BigEndian);
    assert_eq!(alloc.dump().0, vec![0u8; 16]);
}

#[test]
fn new_uses_the_byte_order_of_the_machine() {
    let alloc = DumpAllocator::new(8).unwrap();
    assert_eq!(alloc.byte_order(), ByteOrder::native());
}

#[test]
fn alloc_mem_hands_out_consecutive_aligned_offsets() {
    let mut alloc = DumpAllocator::new(64).unwrap();
    assert_eq!(alloc.alloc_mem(8), Some(0));
    assert_eq!(alloc.alloc_mem(16), Some(8));
    assert_eq!(alloc.alloc_mem(0), Some(24));
    assert_eq!(alloc.alloc_mem(24), Some(24));
    assert_eq!(alloc.position(), 48);
    assert_eq!(alloc.alloc_mem(16), Some(48));
    assert_eq!(alloc.position(), 64);
    assert!(alloc.is_end());
}

#[test]
fn allocations_are_aligned_and_never_overlap() {
    let sizes: [usize; 7] = [8, 24, 0, 16, 40, 8, 32];
    let mut alloc = DumpAllocator::new(96).unwrap();
    let mut end_of_last: usize = 0;
    let mut granted: usize = 0;
    for size in sizes {
        let before = alloc.position();
        match alloc.alloc_mem(size) {
            Some(offset) => {
                assert_eq!(offset % 8, 0);
                assert!(offset >= end_of_last);
                assert_eq!(offset, before);
                assert_eq!(alloc.position(), offset + size);
                end_of_last = offset + size;
                granted += 1;
            }
            None => {
                assert!(before + size > alloc.capacity());
                assert_eq!(alloc.position(), before);
            }
        }
    }
    // 8 + 24 + 0 + 16 + 40 + 8 = 96: the last request finds no room.
    assert_eq!(granted, 6);
    assert!(alloc.is_end());
}

#[test]
fn exhausted_arena_returns_none_and_keeps_its_cursor() {
    let mut alloc = DumpAllocator::new(24).unwrap();
    assert_eq!(alloc.alloc_mem(16), Some(0));
    assert_eq!(alloc.alloc_mem(16), None);
    assert_eq!(alloc.position(), 16);
    assert!(alloc.alloc_bytes(16).is_none());
    assert_eq!(alloc.position(), 16);
    assert!(alloc.alloc_header(HeaderType::Vm, 0).is_none());
    assert_eq!(alloc.position(), 16);
    // What still fits is still handed out.
    assert_eq!(alloc.alloc_mem(8), Some(16));
    assert!(alloc.is_end());
    assert_eq!(alloc.alloc_mem(8), None);
    assert!(alloc.alloc_typed::<RegisterDump>().is_none());
    assert_eq!(alloc.position(), 24);
}

#[test]
fn request_larger_than_any_region_is_refused() {
    let mut alloc = DumpAllocator::new(16).unwrap();
    assert_eq!(alloc.alloc_mem(8), Some(0));
    assert_eq!(alloc.alloc_mem(usize::MAX - 7), None);
    assert_eq!(alloc.alloc_mem((isize::MAX as usize) + 1), None);
    assert_eq!(alloc.position(), 8);
}

#[test]
fn alloc_bytes_gives_zeroed_views_that_land_in_the_region() {
    let mut alloc = DumpAllocator::new(32).unwrap();
    {
        let first = alloc.alloc_bytes(8).unwrap();
        assert_eq!(first.len(), 8);
        assert!(first.iter().all(|b| *b == 0));
        first.copy_from_slice(&[1, 2, 3, 4, 5, 6, 7, 8]);
    }
    {
        let second = alloc.alloc_bytes(16).unwrap();
        assert_eq!(second.len(), 16);
        assert!(second.iter().all(|b| *b == 0));
        second[0] = 0xaa;
        second[15] = 0xbb;
    }
    assert_eq!(alloc.position(), 24);
    let (mem, size) = alloc.dump();
    assert_eq!(size, 32);
    let mut expected = vec![0u8; 32];
    expected[..8].copy_from_slice(&[1, 2, 3, 4, 5, 6, 7, 8]);
    expected[8] = 0xaa;
    expected[23] = 0xbb;
    assert_eq!(mem, expected);
}

#[test]
fn alloc_typed_is_sized_by_the_record() {
    let mut alloc = DumpAllocator::new(64).unwrap();
    assert_eq!(alloc.alloc_typed::<Header>().unwrap().len(), 16);
    assert_eq!(alloc.position(), 16);
    assert_eq!(alloc.alloc_typed::<RegisterDump>().unwrap().len(), 8);
    assert_eq!(alloc.position(), 24);
}

#[test]
fn alloc_header_stamps_magic_type_and_size() {
    let mut alloc = DumpAllocator::with_byte_order(32, ByteOrder::LittleEndian).unwrap();
    {
        let header = alloc.alloc_header(HeaderType::Vm, 0x0102_0304).unwrap();
        assert_eq!(
            header.to_vec(),
            vec![0x50, 0x41, 0x4e, 0x54, 1, 0, 0, 0, 4, 3, 2, 1, 0, 0, 0, 0]
        );
        Header::set_padding(header, ByteOrder::LittleEndian, 5);
    }
    assert_eq!(alloc.position(), 16);
    let (mem, _) = alloc.dump();
    assert_eq!(&mem[..4], &MAGIC.to_le_bytes());
    assert_eq!(&mem[12..14], &[5, 0]);
    assert_eq!(&mem[14..], &[0u8; 18]);
}

#[test]
fn alloc_header_in_big_endian() {
    let mut alloc = DumpAllocator::with_byte_order(16, ByteOrder::BigEndian).unwrap();
    {
        let header = alloc.alloc_header(HeaderType::FirmwareInterface, 0x0102_0304).unwrap();
        Header::set_padding(header, ByteOrder::BigEndian, 7);
    }
    assert!(alloc.is_end());
    let (mem, _) = alloc.dump();
    assert_eq!(mem, vec![0x54, 0x4e, 0x41, 0x50, 0, 0, 0, 2, 1, 2, 3, 4, 0, 7, 0, 0]);
}
