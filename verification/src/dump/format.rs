//! The container format of the dump: a sequence of sections, each made of
//! a fixed header, a payload and up to seven bytes of zero padding.
//!
//! The header takes 16 bytes. Its integer fields are written in the byte
//! order that the dump was opened with:
//!
//! | offset | width | field                                   |
//! |--------|-------|-----------------------------------------|
//! | 0      | 4     | magic, always [`MAGIC`]                 |
//! | 4      | 4     | section type, see [`HeaderType`]        |
//! | 8      | 4     | payload size in bytes, without padding  |
//! | 12     | 2     | number of padding bytes after the payload |
//! | 14     | 2     | zero                                    |
//!
//! An entry of the register section takes 8 bytes: the identifier of the
//! register, then the value read from it, 4 bytes each.

use crate::dump::bytes::{
    lemma_u16_round_trip, lemma_u32_round_trip, overwrite, put_u16, put_u32, u16_bytes,
    u16_value, u32_bytes, u32_value, zeros, ByteOrder,
};
use vstd::prelude::*;

verus! {

/// Major version of the format.
pub const MAJOR: u32 = 1;

/// Minor version of the format.
pub const MINOR: u32 = 0;

/// The magic number that starts every section header: "PANT".
pub const MAGIC: u32 = 0x544e4150;

/// The number of bytes that a section header takes.
pub const HEADER_SIZE: usize = 16;

/// The number of bytes that one entry of the register section takes.
pub const REGISTER_DUMP_SIZE: usize = 8;

/// The offset of the padding field in a section header.
pub const HEADER_PADDING_OFFSET: usize = 12;

/// A record of the format: a value that is written into the dump as a fixed
/// number of bytes.
pub trait Record {
    /// The number of bytes that a record of this type takes.
    spec fn spec_size() -> nat;

    /// The bytes that encode the record.
    spec fn bytes(&self, order: ByteOrder) -> Seq<u8>;

    /// Returns the number of bytes that a record of this type takes.
    fn size() -> (r: usize)
        ensures
            r == Self::spec_size(),
    ;

    /// Writes the record over `out`.
    fn encode(&self, order: ByteOrder, out: &mut [u8])
        requires
            old(out)@.len() == Self::spec_size(),
        ensures
            final(out)@ == self.bytes(order),
    ;
}

/// What a section holds.
#[derive(Clone, Copy, Debug, PartialEq, Eq, Structural)]
pub enum HeaderType {
    /// A register dump.
    Registers,
    /// The contents of one buffer object.
    Vm,
    /// A dump of the firmware interface. Reserved: no section of this type
    /// is written.
    FirmwareInterface,
}

impl HeaderType {
    /// The number that stands for the type in a header.
    pub open spec fn ordinal(self) -> u32 {
        match self {
            HeaderType::Registers => 0,
            HeaderType::Vm => 1,
            HeaderType::FirmwareInterface => 2,
        }
    }

    /// Returns the number that stands for the type in a header.
    pub fn to_u32(self) -> (r: u32)
        ensures
            r == self.ordinal(),
    {
        match self {
            HeaderType::Registers => 0,
            HeaderType::Vm => 1,
            HeaderType::FirmwareInterface => 2,
        }
    }
}

/// The header that precedes each section.
#[derive(Clone, Copy, Debug, PartialEq, Eq, Structural)]
pub struct Header {
    /// Identifies the format.
    pub magic: u32,
    /// What the section holds.
    pub ty: HeaderType,
    /// The size of the payload in bytes, the padding not counted.
    pub size: u32,
    /// The number of zero bytes between the payload and the next section.
    pub padding: u16,
}

impl Record for Header {
    open spec fn spec_size() -> nat {
        HEADER_SIZE as nat
    }

    /// The 16 bytes that encode the header.
    open spec fn bytes(&self, order: ByteOrder) -> Seq<u8> {
        u32_bytes(order, self.magic) + u32_bytes(order, self.ty.ordinal()) + u32_bytes(
            order,
            self.size,
        ) + u16_bytes(order, self.padding) + zeros(2)
    }

    fn size() -> usize {
        HEADER_SIZE
    }

    fn encode(&self, order: ByteOrder, out: &mut [u8]) {
        put_u32(out, 0, order, self.magic);
        put_u32(out, 4, order, self.ty.to_u32());
        put_u32(out, 8, order, self.size);
        put_u16(out, HEADER_PADDING_OFFSET, order, self.padding);
        out[14] = 0;
        out[15] = 0;
    }
}

impl Header {
    /// The header of a section of the given type and payload size, with
    /// the magic number in place and no padding yet.
    pub open spec fn spec_new(ty: HeaderType, size: u32) -> Header {
        Header { magic: MAGIC, ty, size, padding: 0 }
    }

    /// Returns the header of a section of the given type and payload size,
    /// with the magic number in place and no padding yet.
    pub fn new(ty: HeaderType, size: u32) -> (r: Header)
        ensures
            r == Header::spec_new(ty, size),
    {
        Header { magic: MAGIC, ty, size, padding: 0 }
    }

    /// Sets the padding field of the header that `out` holds and leaves
    /// its other fields as they are.
    pub fn set_padding(out: &mut [u8], order: ByteOrder, padding: u16)
        requires
            old(out)@.len() == HEADER_SIZE,
        ensures
            final(out)@ == overwrite(
                old(out)@,
                HEADER_PADDING_OFFSET as int,
                u16_bytes(order, padding),
            ),
    {
        put_u16(out, HEADER_PADDING_OFFSET, order, padding);
    }

    /// Setting the padding field in the bytes of a header gives the bytes
    /// of the header with that padding.
    pub proof fn lemma_set_padding(self, order: ByteOrder, padding: u16)
        ensures
            overwrite(self.bytes(order), HEADER_PADDING_OFFSET as int, u16_bytes(order, padding))
                == (Header { padding, ..self }).bytes(order),
            self.bytes(order).len() == HEADER_SIZE,
    {
    }
}

/// The header that the 16 bytes encode in the given order: `None` where the
/// bytes name no section type.
pub open spec fn header_of(order: ByteOrder, s: Seq<u8>) -> Option<Header>
    recommends
        s.len() == HEADER_SIZE,
{
    let magic = u32_value(order, s.subrange(0, 4)) as u32;
    let ty = u32_value(order, s.subrange(4, 8));
    let size = u32_value(order, s.subrange(8, 12)) as u32;
    let padding = u16_value(order, s.subrange(12, 14)) as u16;
    if ty == 0 {
        Some(Header { magic, ty: HeaderType::Registers, size, padding })
    } else if ty == 1 {
        Some(Header { magic, ty: HeaderType::Vm, size, padding })
    } else if ty == 2 {
        Some(Header { magic, ty: HeaderType::FirmwareInterface, size, padding })
    } else {
        None
    }
}

/// A header is read back from its bytes as it was written: the bytes of a
/// section header say everything about the section.
pub proof fn lemma_header_round_trip(order: ByteOrder, h: Header)
    ensures
        h.bytes(order).len() == HEADER_SIZE,
        header_of(order, h.bytes(order)) == Some(h),
{
    let s = h.bytes(order);
    lemma_u32_round_trip(order, h.magic);
    lemma_u32_round_trip(order, h.ty.ordinal());
    lemma_u32_round_trip(order, h.size);
    lemma_u16_round_trip(order, h.padding);
    assert(s.subrange(0, 4) == u32_bytes(order, h.magic));
    assert(s.subrange(4, 8) == u32_bytes(order, h.ty.ordinal()));
    assert(s.subrange(8, 12) == u32_bytes(order, h.size));
    assert(s.subrange(12, 14) == u16_bytes(order, h.padding));
}

/// One entry of the register section: a register and the value that was
/// read from it.
#[derive(Clone, Copy, Debug, PartialEq, Eq, Structural)]
pub struct RegisterDump {
    /// The identifier of the register: its offset in the register window.
    pub register: u32,
    /// The value read from it.
    pub value: u32,
}

impl Record for RegisterDump {
    open spec fn spec_size() -> nat {
        REGISTER_DUMP_SIZE as nat
    }

    /// The 8 bytes that encode the entry.
    open spec fn bytes(&self, order: ByteOrder) -> Seq<u8> {
        u32_bytes(order, self.register) + u32_bytes(order, self.value)
    }

    fn size() -> usize {
        REGISTER_DUMP_SIZE
    }

    fn encode(&self, order: ByteOrder, out: &mut [u8]) {
        put_u32(out, 0, order, self.register);
        put_u32(out, 4, order, self.value);
    }
}

/// The entry that the 8 bytes encode in the given order.
pub open spec fn register_dump_of(order: ByteOrder, s: Seq<u8>) -> RegisterDump
    recommends
        s.len() == REGISTER_DUMP_SIZE,
{
    RegisterDump {
        register: u32_value(order, s.subrange(0, 4)) as u32,
        value: u32_value(order, s.subrange(4, 8)) as u32,
    }
}

/// An entry of the register section is read back from its bytes as it was
/// written.
pub proof fn lemma_register_dump_round_trip(order: ByteOrder, entry: RegisterDump)
    ensures
        entry.bytes(order).len() == REGISTER_DUMP_SIZE,
        register_dump_of(order, entry.bytes(order)) == entry,
{
    let s = entry.bytes(order);
    lemma_u32_round_trip(order, entry.register);
    lemma_u32_round_trip(order, entry.value);
    assert(s.subrange(0, 4) == u32_bytes(order, entry.register));
    assert(s.subrange(4, 8) == u32_bytes(order, entry.value));
}

/// The number of zero bytes that follow a payload of `size` bytes, so that
/// the next section starts at a multiple of 8.
pub open spec fn padding_for(size: nat) -> nat {
    ((8 - size % 8) % 8) as nat
}

/// Returns the number of zero bytes that follow a payload of `size` bytes.
pub fn padding(size: usize) -> (r: usize)
    ensures
        r == padding_for(size as nat),
        r < 8,
        (size + r) % 8 == 0,
{
    (8 - size % 8) % 8
}

} // verus!
