//! Dump the GPU state into one blob, so that what went wrong can be worked
//! out after a crash.
//!
//! The dump is made of the following sections:
//!
//! - the registers,
//! - the contents of each buffer object that could be mapped.
//!
//! Each section is preceded by a header that describes it. Most importantly,
//! each header starts with a magic number, which a decoder can look for.

pub mod arena;
pub mod bytes;
pub mod format;
pub mod image;

pub use crate::dump::arena::DumpAllocator;
pub use crate::dump::bytes::ByteOrder;
pub use crate::dump::format::{Header, HeaderType, Record, RegisterDump};
pub use crate::dump::image::BufferObject;

use crate::dump::arena::{lemma_append_append, Arena};
use crate::dump::bytes::{copy_into, zeros};
use crate::dump::format::{padding, padding_for, HEADER_SIZE, REGISTER_DUMP_SIZE};
use crate::dump::image::{
    all_mapped, bo_header, bo_section, dump_image, lemma_populate_exact,
    lemma_put_registers_fits, lemma_registers_payload_len, lemma_reserved_for_prefix, populated,
    put_bo, put_bos, put_registers, registers_header, registers_payload, registers_section,
    reserved_for, total_size,
};
use crate::error::Error;
use crate::regs::{self, GpuRegister};
use vstd::prelude::*;

verus! {

/// The registers to dump, in the order in which the register section lists
/// them: the core readiness registers, the job and MMU interrupt registers,
/// and the registers of address space 0.
pub const REGISTERS: [GpuRegister; 18] = [
    regs::SHADER_READY_LO,
    regs::SHADER_READY_HI,
    regs::TILER_READY_LO,
    regs::TILER_READY_HI,
    regs::L2_READY_LO,
    regs::L2_READY_HI,
    regs::JOB_INT_MASK,
    regs::JOB_INT_STAT,
    regs::MMU_INT_MASK,
    regs::MMU_INT_STAT,
    0x2400,
    0x2404,
    0x2408,
    0x240c,
    0x241c,
    0x2420,
    0x2424,
    0x2428,
];

/// The last eight entries of [`REGISTERS`] are the translation table,
/// memory attribute, fault and status registers of address space 0.
pub proof fn lemma_registers_of_address_space_0()
    ensures
        REGISTERS@.len() == 18,
        REGISTERS@[10] == regs::spec_mmu_as(0) + 0x0,
        REGISTERS@[11] == regs::spec_mmu_as(0) + 0x4,
        REGISTERS@[12] == regs::spec_mmu_as(0) + 0x8,
        REGISTERS@[13] == regs::spec_mmu_as(0) + 0xc,
        REGISTERS@[14] == regs::spec_mmu_as(0) + 0x1c,
        REGISTERS@[15] == regs::spec_mmu_as(0) + 0x20,
        REGISTERS@[16] == regs::spec_mmu_as(0) + 0x24,
        REGISTERS@[17] == regs::spec_mmu_as(0) + 0x28,
{
}

/// Every register of [`REGISTERS`] lies in the first 16 KiB of the register
/// window, at a multiple of 4, so its offset fits the 32 bits that an
/// entry of the register section has for it.
pub proof fn lemma_registers_fit()
    ensures
        forall|i: int| 0 <= i < 18 ==> #[trigger] REGISTERS@[i] < 0x4000 && REGISTERS@[i] % 4 == 0,
{
}

/// Pairs each register of [`REGISTERS`] with the value read from it, in
/// the order of the table.
pub fn register_dumps(values: &[u32; 18]) -> (r: Vec<RegisterDump>)
    ensures
        r@.len() == 18,
        forall|i: int|
            0 <= i < 18 ==> #[trigger] r@[i].register == REGISTERS@[i] && r@[i].value == values@[i],
{
    let mut entries: Vec<RegisterDump> = Vec::new();
    let mut i: usize = 0;
    proof {
        lemma_registers_fit();
    }
    while i < 18
        invariant
            i <= 18,
            entries@.len() == i,
            forall|k: int| 0 <= k < 18 ==> #[trigger] REGISTERS@[k] < 0x4000,
            forall|k: int|
                0 <= k < i ==> #[trigger] entries@[k].register == REGISTERS@[k] && entries@[k].value
                    == values@[k],
        decreases 18 - i,
    {
        entries.push(RegisterDump { register: REGISTERS[i] as u32, value: values[i] });
        i += 1;
    }
    entries
}

/// What a dump is taken of.
pub struct DumpArgs<'a> {
    /// The slot of the job that was running.
    pub slot: i32,
    /// The registers to dump, each with the value read from it.
    pub regs: Vec<RegisterDump>,
    /// The active buffer objects.
    pub bos: Vec<BufferObject<'a>>,
}

/// Writes the register section: a header, then one entry for each register
/// in the order given.
///
/// Each of them is written into an allocation of its own; one for which the
/// arena has no room left is passed over.
pub fn dump_registers(alloc: &mut DumpAllocator, args: &DumpArgs)
    requires
        old(alloc).wf(),
        args.regs@.len() * REGISTER_DUMP_SIZE <= u32::MAX,
    ensures
        final(alloc).wf(),
        final(alloc).spec_capacity() == old(alloc).spec_capacity(),
        final(alloc).spec_byte_order() == old(alloc).spec_byte_order(),
        final(alloc)@ == put_registers(
            old(alloc)@.append(registers_header(old(alloc).spec_byte_order(), args.regs@.len())),
            old(alloc).spec_byte_order(),
            args.regs@,
        ),
        old(alloc)@.fits(HEADER_SIZE as nat + args.regs@.len() * REGISTER_DUMP_SIZE as nat)
            ==> final(alloc)@ == old(alloc)@.append(
            registers_section(old(alloc).spec_byte_order(), args.regs@),
        ),
{
    let order = alloc.byte_order();
    let ghost before = alloc@;
    let n: usize = args.regs.len();
    let sz: u32 = (n * REGISTER_DUMP_SIZE) as u32;
    alloc.alloc_header(HeaderType::Registers, sz);
    let ghost start = alloc@;
    let mut i: usize = 0;
    while i < n
        invariant
            n == args.regs@.len(),
            i <= n,
            alloc.wf(),
            alloc.spec_capacity() == old(alloc).spec_capacity(),
            alloc.spec_byte_order() == order,
            alloc@ == put_registers(start, order, args.regs@.take(i as int)),
        decreases n - i,
    {
        if let Some(entry) = alloc.alloc_typed::<RegisterDump>() {
            args.regs[i].encode(order, entry);
        }
        proof {
            assert(args.regs@.take(i + 1).drop_last() == args.regs@.take(i as int));
        }
        i += 1;
    }
    proof {
        assert(args.regs@.take(n as int) == args.regs@);
        if before.fits(HEADER_SIZE as nat + n as nat * REGISTER_DUMP_SIZE as nat) {
            let head = registers_header(order, n as nat);
            lemma_registers_payload_len(order, args.regs@);
            lemma_put_registers_fits(before.append(head), order, args.regs@);
            lemma_append_append(before, head, registers_payload(order, args.regs@));
        }
    }
}

/// Writes the header of the section of a buffer object with the given
/// contents, where the arena has room for it.
fn put_bo_header(alloc: &mut DumpAllocator, data: &[u8])
    requires
        old(alloc).wf(),
    ensures
        final(alloc).wf(),
        final(alloc).spec_capacity() == old(alloc).spec_capacity(),
        final(alloc).spec_byte_order() == old(alloc).spec_byte_order(),
        final(alloc)@ == old(alloc)@.append(bo_header(data@).bytes(old(alloc).spec_byte_order())),
{
    let order = alloc.byte_order();
    let sz: usize = data.len();
    let pad: usize = padding(sz);
    let size: u32 = (sz as u64 % 0x1_0000_0000) as u32;
    proof {
        Header::spec_new(HeaderType::Vm, size).lemma_set_padding(order, pad as u16);
        bo_header(data@).lemma_set_padding(order, pad as u16);
    }
    if let Some(header) = alloc.alloc_header(HeaderType::Vm, size) {
        Header::set_padding(header, order, pad as u16);
    }
}

/// Writes the contents of a buffer object and the padding that follows
/// them, where the arena has room for both.
fn put_bo_payload(alloc: &mut DumpAllocator, data: &[u8])
    requires
        old(alloc).wf(),
        data@.len() + padding_for(data@.len()) <= usize::MAX,
    ensures
        final(alloc).wf(),
        final(alloc).spec_capacity() == old(alloc).spec_capacity(),
        final(alloc).spec_byte_order() == old(alloc).spec_byte_order(),
        final(alloc)@ == old(alloc)@.append(data@ + zeros(padding_for(data@.len()))),
{
    let sz: usize = data.len();
    let pad: usize = padding(sz);
    if let Some(payload) = alloc.alloc_bytes(sz + pad) {
        copy_into(payload, data);
    }
}

/// Writes the section of one buffer object: a header with the size of the
/// object and the number of padding bytes, the contents of the object as
/// they are, and the padding.
///
/// An object that could not be mapped leaves a hole: nothing is written for
/// it. Nothing is written either where the arena has no room for the whole
/// section.
pub fn dump_bo(alloc: &mut DumpAllocator, bo: &BufferObject)
    requires
        old(alloc).wf(),
    ensures
        final(alloc).wf(),
        final(alloc).spec_capacity() == old(alloc).spec_capacity(),
        final(alloc).spec_byte_order() == old(alloc).spec_byte_order(),
        final(alloc)@ == put_bo(old(alloc)@, old(alloc).spec_byte_order(), *bo),
{
    let data: &[u8] = match bo {
        BufferObject::Mapped(data) => data,
        BufferObject::Unmapped(_) => {
            return ;
        },
    };
    let sz: usize = data.len();
    let pad: usize = padding(sz);
    let left: usize = alloc.capacity() - alloc.position();
    let ghost order = alloc.spec_byte_order();
    let ghost before = alloc@;
    let ghost head = bo_header(data@).bytes(order);
    let ghost body = data@ + zeros(pad as nat);
    proof {
        bo_header(data@).lemma_set_padding(order, pad as u16);
        assert(head.len() == HEADER_SIZE);
        assert(body.len() == sz + pad);
        assert(bo_section(order, data@) == head + body);
    }
    if left < HEADER_SIZE || left - HEADER_SIZE < sz || left - HEADER_SIZE - sz < pad {
        return ;
    }
    put_bo_header(alloc, data);
    put_bo_payload(alloc, data);
    proof {
        lemma_append_append(before, head, body);
    }
}

/// A finished dump.
pub struct CoreDump {
    /// The blob: as many bytes as were set aside for the dump.
    pub data: Vec<u8>,
    /// The byte order of the integer fields in the blob.
    pub byte_order: ByteOrder,
    /// Whether the sections fill the blob to its last byte. They do not
    /// where a buffer object could not be mapped.
    pub complete: bool,
}

/// Whether a dump of `n_regs` registers and the given buffer objects can
/// be laid out: the size of the register section fits the size field of
/// its header, and the size of the whole dump fits the signed size type of
/// the platform, with room to spare.
pub open spec fn can_lay_out(n_regs: nat, bos: Seq<BufferObject>) -> bool {
    &&& n_regs * REGISTER_DUMP_SIZE <= u32::MAX
    &&& total_size(n_regs, bos) < isize::MAX
}

/// Computes the size of a dump of `n_regs` registers and the given buffer
/// objects before any byte of it is written: one header and the register
/// entries, and for every buffer object, mapped or not, one header, its
/// size and its padding. Returns `None` where the sum does not fit the size
/// type of the platform.
pub fn layout_size(n_regs: usize, bos: &[BufferObject]) -> (r: Option<usize>)
    ensures
        match r {
            Some(total) => total == total_size(n_regs as nat, bos@),
            None => total_size(n_regs as nat, bos@) > usize::MAX,
        },
{
    let count: usize = bos.len();
    let entries: usize = match n_regs.checked_mul(REGISTER_DUMP_SIZE) {
        Some(v) => v,
        None => {
            return None;
        },
    };
    let mut total: usize = match entries.checked_add(HEADER_SIZE) {
        Some(v) => v,
        None => {
            return None;
        },
    };
    let mut i: usize = 0;
    while i < count
        invariant
            count == bos@.len(),
            i <= count,
            total == HEADER_SIZE + n_regs * REGISTER_DUMP_SIZE + reserved_for(bos@.take(i as int)),
        decreases count - i,
    {
        let size: usize = bos[i].len();
        let pad: usize = padding(size);
        proof {
            assert(bos@.take(i + 1).drop_last() == bos@.take(i as int));
            lemma_reserved_for_prefix(bos@, i + 1);
        }
        let section: usize = match size.checked_add(HEADER_SIZE + pad) {
            Some(v) => v,
            None => {
                return None;
            },
        };
        total = match total.checked_add(section) {
            Some(v) => v,
            None => {
                return None;
            },
        };
        i += 1;
    }
    proof {
        assert(bos@.take(count as int) == bos@);
    }
    Some(total)
}

/// Computes the size of the dump of `args`: see [`layout_size`].
pub fn dump_size(args: &DumpArgs) -> (r: Option<usize>)
    ensures
        match r {
            Some(total) => total == total_size(args.regs@.len(), args.bos@),
            None => total_size(args.regs@.len(), args.bos@) > usize::MAX,
        },
{
    layout_size(args.regs.len(), args.bos.as_slice())
}

/// Computes the size of a dump of `n_regs` registers and the given buffer
/// objects, and obtains a zeroed region of exactly that size.
///
/// Only the sizes of the buffer objects count: none of them needs to be
/// mapped yet. A dump that cannot be laid out is refused as an invalid
/// argument. Any other gives the arena, or the out-of-memory error where
/// the platform does not provide the region.
pub fn allocate_arena(n_regs: usize, bos: &[BufferObject], order: ByteOrder) -> (r: Result<
    DumpAllocator,
    Error,
>)
    ensures
        match r {
            Ok(alloc) => {
                &&& can_lay_out(n_regs as nat, bos@)
                &&& alloc.wf()
                &&& alloc@ == Arena::fresh(total_size(n_regs as nat, bos@))
                &&& alloc.spec_capacity() == total_size(n_regs as nat, bos@)
                &&& alloc.spec_byte_order() == order
            },
            Err(e) => e == if can_lay_out(n_regs as nat, bos@) {
                Error::OutOfMemory
            } else {
                Error::InvalidArgument
            },
        },
{
    if n_regs > 0x1fff_ffff {
        return Err(Error::InvalidArgument);
    }
    let size: usize = match layout_size(n_regs, bos) {
        Some(size) => size,
        None => {
            return Err(Error::InvalidArgument);
        },
    };
    // Everything must fit within this allocation, otherwise it was miscomputed.
    DumpAllocator::with_byte_order(size, order)
}

/// Ends a dump: gives up the arena and returns its region as the blob, as
/// it is. The dump is complete where every byte of the region was handed
/// out.
pub fn finalize(alloc: DumpAllocator) -> (r: CoreDump)
    ensures
        r.data@ == alloc@.region,
        r.byte_order == alloc.spec_byte_order(),
        r.complete == (alloc@.pos == alloc.spec_capacity()),
{
    let complete: bool = alloc.is_end();
    let byte_order = alloc.byte_order();
    let (data, _) = alloc.dump();
    CoreDump { data, byte_order, complete }
}

/// Writes a whole dump into the arena and ends it: the register section
/// first, then the section of each buffer object in the order given.
///
/// This cannot fail. A buffer object that could not be mapped leaves a
/// hole, and what does not fit the arena is passed over. Into a new arena
/// of the size computed for the dump everything fits: the blob is the
/// register section, the sections of the buffer objects that were
/// mapped, and as many zero bytes as were set aside for the others.
pub fn populate(alloc: DumpAllocator, args: &DumpArgs) -> (r: CoreDump)
    requires
        alloc.wf(),
        args.regs@.len() * REGISTER_DUMP_SIZE <= u32::MAX,
    ensures
        r.byte_order == alloc.spec_byte_order(),
        r.data@ == populated(alloc@, alloc.spec_byte_order(), args.regs@, args.bos@).region,
        r.complete == (populated(alloc@, alloc.spec_byte_order(), args.regs@, args.bos@).pos
            == alloc.spec_capacity()),
        alloc@ == Arena::fresh(total_size(args.regs@.len(), args.bos@)) ==> {
            &&& r.data@ == dump_image(alloc.spec_byte_order(), args.regs@, args.bos@)
            &&& r.data@.len() == total_size(args.regs@.len(), args.bos@)
            &&& r.complete == all_mapped(args.bos@)
        },
{
    let ghost order = alloc.spec_byte_order();
    let ghost capacity = alloc.spec_capacity();
    let ghost bos = args.bos@;
    let mut alloc = alloc;
    dump_registers(&mut alloc, args);
    let ghost with_regs = alloc@;

    let count: usize = args.bos.len();
    let mut i: usize = 0;
    while i < count
        invariant
            count == bos.len(),
            bos == args.bos@,
            i <= count,
            alloc.wf(),
            alloc.spec_capacity() == capacity,
            alloc.spec_byte_order() == order,
            alloc@ == put_bos(with_regs, order, bos.take(i as int)),
        decreases count - i,
    {
        dump_bo(&mut alloc, &args.bos[i]);
        proof {
            assert(bos.take(i + 1).drop_last() == bos.take(i as int));
        }
        i += 1;
    }
    proof {
        assert(bos.take(count as int) == bos);
        lemma_populate_exact(order, args.regs@, bos);
    }
    finalize(alloc)
}

/// Takes a dump in the given byte order.
///
/// The size of the dump is computed first, then a region of exactly that
/// size is obtained, then the register section and the sections of the
/// buffer objects are written in the order given: see [`allocate_arena`]
/// and [`populate`]. Once the region is there the dump succeeds, also
/// where a buffer object could not be mapped.
///
/// A dump that cannot be laid out is refused as an invalid argument. Any
/// other gives the blob, or the out-of-memory error where the platform
/// does not provide the region.
pub fn core_dump(args: &DumpArgs, order: ByteOrder) -> (r: Result<CoreDump, Error>)
    ensures
        match r {
            Ok(dump) => {
                &&& can_lay_out(args.regs@.len(), args.bos@)
                &&& dump.data@ == dump_image(order, args.regs@, args.bos@)
                &&& dump.data@.len() == total_size(args.regs@.len(), args.bos@)
                &&& dump.byte_order == order
                &&& dump.complete == all_mapped(args.bos@)
            },
            Err(e) => e == if can_lay_out(args.regs@.len(), args.bos@) {
                Error::OutOfMemory
            } else {
                Error::InvalidArgument
            },
        },
{
    match allocate_arena(args.regs.len(), args.bos.as_slice(), order) {
        Ok(alloc) => Ok(populate(alloc, args)),
        Err(e) => Err(e),
    }
}

/// Takes a dump in the byte order of the machine: see [`core_dump`].
pub fn panthor_core_dump(args: &DumpArgs) -> (r: Result<CoreDump, Error>)
    ensures
        match r {
            Ok(dump) => {
                &&& can_lay_out(args.regs@.len(), args.bos@)
                &&& dump.data@ == dump_image(dump.byte_order, args.regs@, args.bos@)
                &&& dump.data@.len() == total_size(args.regs@.len(), args.bos@)
                &&& dump.complete == all_mapped(args.bos@)
            },
            Err(e) => e == if can_lay_out(args.regs@.len(), args.bos@) {
                Error::OutOfMemory
            } else {
                Error::InvalidArgument
            },
        },
{
    core_dump(args, ByteOrder::native())
}

} // verus!
