//! What a dump holds, stated over plain sequences of bytes: the sections
//! that the producers write, the size that is set aside for them, and the
//! finished blob.

use crate::dump::arena::{lemma_append_append, Arena};
use crate::dump::bytes::{zeros, ByteOrder};
use crate::dump::format::{
    padding_for, Header, HeaderType, Record, RegisterDump, HEADER_SIZE, MAGIC, REGISTER_DUMP_SIZE,
};
use vstd::prelude::*;

verus! {

/// One buffer object at the time of the dump.
#[derive(Clone, Copy, Debug)]
pub enum BufferObject<'a> {
    /// The object was mapped: a view of its whole contents.
    Mapped(&'a [u8]),
    /// The object could not be mapped: only its size in bytes is known.
    Unmapped(usize),
}

impl<'a> BufferObject<'a> {
    /// The size of the object in bytes.
    pub open spec fn size(self) -> nat {
        match self {
            BufferObject::Mapped(data) => data@.len(),
            BufferObject::Unmapped(size) => size as nat,
        }
    }

    /// Returns the size of the object in bytes.
    pub fn len(&self) -> (r: usize)
        ensures
            r == self.size(),
    {
        match self {
            BufferObject::Mapped(data) => data.len(),
            BufferObject::Unmapped(size) => *size,
        }
    }

    /// Returns whether the object was mapped.
    pub fn is_mapped(&self) -> (r: bool)
        ensures
            r == (*self is Mapped),
    {
        match self {
            BufferObject::Mapped(_) => true,
            BufferObject::Unmapped(_) => false,
        }
    }

    /// The number of bytes set aside for the object in a dump: a header,
    /// the contents and their padding.
    pub open spec fn reserved_len(self) -> nat {
        HEADER_SIZE as nat + self.size() + padding_for(self.size())
    }

    /// The section that the object leaves in a dump: none where it could
    /// not be mapped.
    pub open spec fn section(self, order: ByteOrder) -> Seq<u8> {
        match self {
            BufferObject::Mapped(data) => bo_section(order, data@),
            BufferObject::Unmapped(_) => Seq::empty(),
        }
    }
}

/// The payload of the register section: the entries one after the other.
pub open spec fn registers_payload(order: ByteOrder, regs: Seq<RegisterDump>) -> Seq<u8>
    decreases regs.len(),
{
    if regs.len() == 0 {
        Seq::empty()
    } else {
        registers_payload(order, regs.drop_last()) + regs.last().bytes(order)
    }
}

/// The header of a register section of `n` entries.
pub open spec fn registers_header(order: ByteOrder, n: nat) -> Seq<u8>
    recommends
        n * REGISTER_DUMP_SIZE <= u32::MAX,
{
    Header::spec_new(HeaderType::Registers, (n * REGISTER_DUMP_SIZE) as u32).bytes(order)
}

/// The register section: its header, then one entry for each register in
/// the order given. It has no padding.
pub open spec fn registers_section(order: ByteOrder, regs: Seq<RegisterDump>) -> Seq<u8>
    recommends
        regs.len() * REGISTER_DUMP_SIZE <= u32::MAX,
{
    registers_header(order, regs.len()) + registers_payload(order, regs)
}

/// The header of the section of a buffer object with the given contents:
/// the size field holds the length of the contents, cut to 32 bits.
pub open spec fn bo_header(data: Seq<u8>) -> Header {
    Header {
        magic: MAGIC,
        ty: HeaderType::Vm,
        size: (data.len() % 0x1_0000_0000) as u32,
        padding: padding_for(data.len()) as u16,
    }
}

/// The section of a buffer object with the given contents: its header, the
/// contents as they are, and zero bytes up to the next multiple of 8.
pub open spec fn bo_section(order: ByteOrder, data: Seq<u8>) -> Seq<u8> {
    bo_header(data).bytes(order) + data + zeros(padding_for(data.len()))
}

/// The sections of the buffer objects that were mapped, one after the
/// other in the order given.
pub open spec fn bo_sections(order: ByteOrder, bos: Seq<BufferObject>) -> Seq<u8>
    decreases bos.len(),
{
    if bos.len() == 0 {
        Seq::empty()
    } else {
        bo_sections(order, bos.drop_last()) + bos.last().section(order)
    }
}

/// The number of bytes set aside for the given buffer objects, mapped or
/// not.
pub open spec fn reserved_for(bos: Seq<BufferObject>) -> nat
    decreases bos.len(),
{
    if bos.len() == 0 {
        0
    } else {
        reserved_for(bos.drop_last()) + bos.last().reserved_len()
    }
}

/// The size of a dump of `n_regs` registers and the given buffer objects:
/// one header and the register entries, and for every buffer object one
/// header, its size and its padding.
pub open spec fn total_size(n_regs: nat, bos: Seq<BufferObject>) -> nat {
    HEADER_SIZE as nat + n_regs * REGISTER_DUMP_SIZE as nat + reserved_for(bos)
}

/// Whether every one of the buffer objects was mapped.
pub open spec fn all_mapped(bos: Seq<BufferObject>) -> bool {
    forall|i: int| 0 <= i < bos.len() ==> bos[i] is Mapped
}

/// The finished blob: the register section, the sections of the buffer
/// objects that were mapped, and zero bytes in place of those that were
/// not.
pub open spec fn dump_image(order: ByteOrder, regs: Seq<RegisterDump>, bos: Seq<BufferObject>) -> Seq<
    u8,
>
    recommends
        regs.len() * REGISTER_DUMP_SIZE <= u32::MAX,
{
    let written = registers_section(order, regs) + bo_sections(order, bos);
    written + zeros((total_size(regs.len(), bos) - written.len()) as nat)
}

/// The arena after the entries were written, each into an allocation of
/// its own: an entry for which no room is left is passed over.
pub open spec fn put_registers(a: Arena, order: ByteOrder, regs: Seq<RegisterDump>) -> Arena
    decreases regs.len(),
{
    if regs.len() == 0 {
        a
    } else {
        put_registers(a, order, regs.drop_last()).append(regs.last().bytes(order))
    }
}

/// The arena after the section of the buffer object was written: nothing
/// changes where the object was not mapped or its section does not fit.
pub open spec fn put_bo(a: Arena, order: ByteOrder, bo: BufferObject) -> Arena {
    match bo {
        BufferObject::Mapped(data) => a.append(bo_section(order, data@)),
        BufferObject::Unmapped(_) => a,
    }
}

/// The arena after the sections of the buffer objects were written in the
/// order given.
pub open spec fn put_bos(a: Arena, order: ByteOrder, bos: Seq<BufferObject>) -> Arena
    decreases bos.len(),
{
    if bos.len() == 0 {
        a
    } else {
        put_bo(put_bos(a, order, bos.drop_last()), order, bos.last())
    }
}

/// The arena after a whole dump was written into it: the header of the
/// register section, the entries, and the sections of the buffer objects,
/// each where it fits.
pub open spec fn populated(
    a: Arena,
    order: ByteOrder,
    regs: Seq<RegisterDump>,
    bos: Seq<BufferObject>,
) -> Arena {
    put_bos(put_registers(a.append(registers_header(order, regs.len())), order, regs), order, bos)
}

/// The payload of the register section takes 8 bytes for each entry.
pub proof fn lemma_registers_payload_len(order: ByteOrder, regs: Seq<RegisterDump>)
    ensures
        registers_payload(order, regs).len() == regs.len() * REGISTER_DUMP_SIZE,
    decreases regs.len(),
{
    if regs.len() > 0 {
        lemma_registers_payload_len(order, regs.drop_last());
    }
}

/// The entries stand in the payload in the order given, 8 bytes apart: a
/// register is found by its position.
pub proof fn lemma_registers_payload_entry(order: ByteOrder, regs: Seq<RegisterDump>, k: int)
    requires
        0 <= k < regs.len(),
    ensures
        (k + 1) * REGISTER_DUMP_SIZE <= registers_payload(order, regs).len(),
        registers_payload(order, regs).subrange(
            k * REGISTER_DUMP_SIZE,
            (k + 1) * REGISTER_DUMP_SIZE,
        ) == regs[k].bytes(order),
    decreases regs.len(),
{
    let front = regs.drop_last();
    lemma_registers_payload_len(order, regs);
    lemma_registers_payload_len(order, front);
    if k < regs.len() - 1 {
        lemma_registers_payload_entry(order, front, k);
    }
}

/// Where the arena has room for all the entries, writing them one by one
/// leaves it as writing the whole payload at once does.
pub proof fn lemma_put_registers_fits(a: Arena, order: ByteOrder, regs: Seq<RegisterDump>)
    requires
        a.fits(regs.len() * REGISTER_DUMP_SIZE as nat),
    ensures
        put_registers(a, order, regs) == a.append(registers_payload(order, regs)),
    decreases regs.len(),
{
    if regs.len() == 0 {
    } else {
        let front = regs.drop_last();
        lemma_registers_payload_len(order, front);
        lemma_put_registers_fits(a, order, front);
        lemma_append_append(a, registers_payload(order, front), regs.last().bytes(order));
    }
}

/// The section of a buffer object takes a header, the contents and the
/// padding, and ends at a multiple of 8.
pub proof fn lemma_bo_section_len(order: ByteOrder, data: Seq<u8>)
    ensures
        bo_section(order, data).len() == HEADER_SIZE + data.len() + padding_for(data.len()),
        bo_section(order, data).len() % 8 == 0,
{
    lemma_padding(data.len());
}

/// The padding of a payload is less than 8 and brings its size up to a
/// multiple of 8.
pub proof fn lemma_padding(size: nat)
    ensures
        padding_for(size) < 8,
        (size + padding_for(size)) % 8 == 0,
{
}

/// A buffer object that was mapped leaves a section of exactly the length
/// set aside for it, and one that was not leaves nothing. What is set
/// aside is a multiple of 8 and never nothing.
pub proof fn lemma_section_len(order: ByteOrder, bo: BufferObject)
    ensures
        bo.section(order).len() == if bo is Mapped {
            bo.reserved_len()
        } else {
            0
        },
        bo.reserved_len() % 8 == 0,
        bo.reserved_len() >= HEADER_SIZE,
{
    lemma_padding(bo.size());
    match bo {
        BufferObject::Mapped(data) => {
            lemma_bo_section_len(order, data@);
        },
        BufferObject::Unmapped(_) => {},
    }
}

/// The sum of two multiples of 8 is a multiple of 8.
proof fn lemma_sum_of_multiples(x: int, y: int)
    requires
        x % 8 == 0,
        y % 8 == 0,
    ensures
        (x + y) % 8 == 0,
{
}

/// The sections that were written take no more than what was set aside for
/// the buffer objects, and both lengths are multiples of 8.
pub proof fn lemma_bo_sections_len(order: ByteOrder, bos: Seq<BufferObject>)
    ensures
        bo_sections(order, bos).len() <= reserved_for(bos),
        bo_sections(order, bos).len() % 8 == 0,
        reserved_for(bos) % 8 == 0,
    decreases bos.len(),
{
    if bos.len() > 0 {
        let front = bos.drop_last();
        let last = bos.last();
        lemma_bo_sections_len(order, front);
        lemma_section_len(order, last);
        let written: int = bo_sections(order, front).len() as int;
        let more: int = last.section(order).len() as int;
        let aside: int = reserved_for(front) as int;
        let room: int = last.reserved_len() as int;
        assert(bo_sections(order, bos) == bo_sections(order, front) + last.section(order));
        assert(bo_sections(order, bos).len() == written + more);
        assert(reserved_for(bos) == aside + room);
        assert(more == 0 || more == room);
        lemma_sum_of_multiples(written, more);
        lemma_sum_of_multiples(aside, room);
    }
}

/// The sections that were written take all of what was set aside for the
/// buffer objects exactly when every one of the objects was mapped.
pub proof fn lemma_bo_sections_complete(order: ByteOrder, bos: Seq<BufferObject>)
    ensures
        bo_sections(order, bos).len() == reserved_for(bos) <==> all_mapped(bos),
    decreases bos.len(),
{
    if bos.len() > 0 {
        let front = bos.drop_last();
        let last = bos.last();
        lemma_bo_sections_complete(order, front);
        lemma_bo_sections_len(order, front);
        lemma_section_len(order, last);
        if all_mapped(front) && last is Mapped {
            assert forall|i: int| 0 <= i < bos.len() implies bos[i] is Mapped by {
                if i < front.len() {
                    assert(front[i] == bos[i]);
                }
            }
        }
    }
}

/// What is set aside for the first `k` buffer objects is no more than what
/// is set aside for all of them.
pub proof fn lemma_reserved_for_prefix(bos: Seq<BufferObject>, k: int)
    requires
        0 <= k <= bos.len(),
    ensures
        reserved_for(bos.take(k)) <= reserved_for(bos),
    decreases bos.len(),
{
    if k == bos.len() {
        assert(bos.take(k) == bos);
    } else {
        let front = bos.drop_last();
        lemma_reserved_for_prefix(front, k);
        assert(front.take(k) == bos.take(k));
    }
}

/// Where the arena has room for the sections of all the buffer objects
/// that were mapped, writing them one by one leaves it as writing all of
/// them at once does.
pub proof fn lemma_put_bos_fits(a: Arena, order: ByteOrder, bos: Seq<BufferObject>)
    requires
        a.fits(bo_sections(order, bos).len()),
    ensures
        put_bos(a, order, bos) == a.append(bo_sections(order, bos)),
    decreases bos.len(),
{
    if bos.len() > 0 {
        let front = bos.drop_last();
        lemma_put_bos_fits(a, order, front);
        if let BufferObject::Mapped(data) = bos.last() {
            lemma_append_append(a, bo_sections(order, front), bo_section(order, data@));
        }
    }
}

/// The size and padding fields of the header of a buffer object add up to
/// a multiple of 8, and the padding is less than 8.
pub proof fn lemma_bo_header_fields(data: Seq<u8>)
    ensures
        bo_header(data).size == data.len() % 0x1_0000_0000,
        bo_header(data).padding == padding_for(data.len()),
        bo_header(data).padding < 8,
        (bo_header(data).size + bo_header(data).padding) % 8 == 0,
{
    let size: int = data.len() as int;
    let low: int = size % 0x1_0000_0000;
    let pad: int = padding_for(data.len()) as int;
    lemma_padding(data.len());
    assert(low % 8 == size % 8) by {
        vstd::arithmetic::div_mod::lemma_mod_mod(size, 8, 0x2000_0000);
    }
    assert((low + pad) % 8 == 0) by {
        assert((size + pad) % 8 == 0);
        assert(low % 8 == size % 8);
    }
}

/// The bytes between the contents of a buffer object and the end of its
/// section are zero.
pub proof fn lemma_bo_section_padding(order: ByteOrder, data: Seq<u8>, k: int)
    requires
        data.len() <= k < data.len() + padding_for(data.len()),
    ensures
        bo_section(order, data)[HEADER_SIZE + k] == 0,
{
    let head = bo_header(data).bytes(order);
    let tail = zeros(padding_for(data.len()));
    assert(head.len() == HEADER_SIZE);
    assert(bo_section(order, data) == (head + data) + tail);
    assert(((head + data) + tail)[HEADER_SIZE + k] == tail[k - data.len()]);
}

/// The contents of a buffer object stand in its section as they are, right
/// after the header.
pub proof fn lemma_bo_section_contents(order: ByteOrder, data: Seq<u8>)
    ensures
        bo_section(order, data).subrange(0, HEADER_SIZE as int) == bo_header(data).bytes(order),
        bo_section(order, data).subrange(HEADER_SIZE as int, HEADER_SIZE + data.len()) == data,
{
}

/// Writing a dump into a new arena of exactly the size computed for it
/// never asks for more than the arena holds: every section finds room, the
/// region ends up as the finished blob, and the cursor reaches the end
/// exactly when every buffer object was mapped.
pub proof fn lemma_populate_exact(order: ByteOrder, regs: Seq<RegisterDump>, bos: Seq<BufferObject>)
    ensures
        ({
            let fresh = Arena::fresh(total_size(regs.len(), bos));
            let done = populated(fresh, order, regs, bos);
            &&& done == fresh.append(registers_section(order, regs) + bo_sections(order, bos))
            &&& done.region == dump_image(order, regs, bos)
            &&& done.pos == registers_section(order, regs).len() + bo_sections(order, bos).len()
            &&& done.pos <= total_size(regs.len(), bos)
            &&& done.pos == total_size(regs.len(), bos) <==> all_mapped(bos)
        }),
{
    let fresh = Arena::fresh(total_size(regs.len(), bos));
    let head = registers_header(order, regs.len());
    let payload = registers_payload(order, regs);
    let sections = bo_sections(order, bos);
    lemma_registers_payload_len(order, regs);
    lemma_bo_sections_len(order, bos);
    lemma_bo_sections_complete(order, bos);
    lemma_put_registers_fits(fresh.append(head), order, regs);
    lemma_append_append(fresh, head, payload);
    lemma_put_bos_fits(fresh.append(head + payload), order, bos);
    lemma_append_append(fresh, head + payload, sections);
}

/// The register section of a dump depends on the registers and their
/// values alone: two dumps of the same registers with the same values start
/// with the same bytes, whatever buffer objects follow.
pub proof fn lemma_registers_section_deterministic(
    order: ByteOrder,
    regs: Seq<RegisterDump>,
    bos1: Seq<BufferObject>,
    bos2: Seq<BufferObject>,
)
    ensures
        registers_section(order, regs).len() == HEADER_SIZE + regs.len() * REGISTER_DUMP_SIZE,
        dump_image(order, regs, bos1).subrange(0, registers_section(order, regs).len() as int)
            == registers_section(order, regs),
        dump_image(order, regs, bos2).subrange(0, registers_section(order, regs).len() as int)
            == registers_section(order, regs),
{
    lemma_registers_payload_len(order, regs);
    lemma_bo_sections_len(order, bos1);
    lemma_bo_sections_len(order, bos2);
}

} // verus!
