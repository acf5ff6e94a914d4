//! The arena that a dump is written into: a bump allocator over one region
//! of fixed size, which is zeroed when it is obtained and never grows.

use crate::dump::bytes::{overwrite, zeros, ByteOrder};
use crate::dump::format::{Header, HeaderType, Record, HEADER_SIZE};
use crate::error::Error;
use vstd::prelude::*;

verus! {

/// An arena as the contracts see it: the bytes of its region and the
/// number of them that have been handed out.
#[verifier::ext_equal]
pub struct Arena {
    /// The whole region, handed out or not.
    pub region: Seq<u8>,
    /// The cursor: the offset at which the next allocation starts.
    pub pos: nat,
}

impl Arena {
    /// The cursor lies in the region at a multiple of 8, and everything
    /// from the cursor on is still zero.
    pub open spec fn wf(self) -> bool {
        &&& self.pos <= self.region.len()
        &&& self.pos % 8 == 0
        &&& forall|i: int| self.pos <= i < self.region.len() ==> self.region[i] == 0
    }

    /// A new arena of the given capacity: all zero, nothing handed out.
    pub open spec fn fresh(capacity: nat) -> Arena {
        Arena { region: zeros(capacity), pos: 0 }
    }

    /// Whether `n` more bytes can be handed out.
    pub open spec fn fits(self, n: nat) -> bool {
        self.pos + n <= self.region.len()
    }

    /// The arena after `n` more bytes were asked for: the cursor moves on
    /// by `n` where they fit, and stays where they do not.
    pub open spec fn advance(self, n: nat) -> Arena {
        if self.fits(n) {
            Arena { pos: self.pos + n, ..self }
        } else {
            self
        }
    }

    /// The arena after allocations of the given sizes were asked for, one
    /// after the other.
    pub open spec fn after_requests(self, sizes: Seq<nat>) -> Arena
        decreases sizes.len(),
    {
        if sizes.len() == 0 {
            self
        } else {
            self.after_requests(sizes.drop_last()).advance(sizes.last())
        }
    }

    /// The range of offsets that request `k` of `sizes` was given, as its
    /// start and its end: `None` where the arena had no room for it.
    pub open spec fn granted(self, sizes: Seq<nat>, k: int) -> Option<(nat, nat)>
        recommends
            0 <= k < sizes.len(),
    {
        let before = self.after_requests(sizes.take(k));
        if before.fits(sizes[k]) {
            Some((before.pos, before.pos + sizes[k]))
        } else {
            None
        }
    }

    /// The arena after `bytes` were written into a new allocation of their
    /// length: where they do not fit, nothing changes.
    pub open spec fn append(self, bytes: Seq<u8>) -> Arena {
        if self.fits(bytes.len()) {
            Arena {
                region: overwrite(self.region, self.pos as int, bytes),
                pos: self.pos + bytes.len(),
            }
        } else {
            self
        }
    }
}

/// The cursor never moves back and never leaves the region: after the
/// first `k` of a series of requests it is no further than after all of
/// them. The region keeps its size.
pub proof fn lemma_cursor_monotonic(a: Arena, sizes: Seq<nat>, k: int)
    requires
        a.pos <= a.region.len(),
        0 <= k <= sizes.len(),
    ensures
        a.pos <= a.after_requests(sizes.take(k)).pos,
        a.after_requests(sizes.take(k)).pos <= a.after_requests(sizes).pos,
        a.after_requests(sizes).pos <= a.region.len(),
        a.after_requests(sizes).region == a.region,
    decreases sizes.len(),
{
    if k == sizes.len() {
        assert(sizes.take(k) == sizes);
        if sizes.len() > 0 {
            lemma_cursor_monotonic(a, sizes.drop_last(), k - 1);
        }
    } else {
        let front = sizes.drop_last();
        lemma_cursor_monotonic(a, front, k);
        assert(front.take(k) == sizes.take(k));
    }
}

/// No two allocations of one arena overlap: of two requests that were both
/// given a range, the later one starts where the earlier one ends, or
/// after it.
pub proof fn lemma_allocations_disjoint(a: Arena, sizes: Seq<nat>, i: int, j: int)
    requires
        a.pos <= a.region.len(),
        0 <= i < j < sizes.len(),
        a.granted(sizes, i) is Some,
        a.granted(sizes, j) is Some,
    ensures
        a.granted(sizes, i).unwrap().1 <= a.granted(sizes, j).unwrap().0,
{
    let upto = sizes.take(j);
    lemma_cursor_monotonic(a, upto, i + 1);
    assert(upto.take(i + 1) == sizes.take(i + 1));
    assert(sizes.take(i + 1).drop_last() == sizes.take(i));
}

/// Every allocation starts at a multiple of 8 from the start of the
/// region, as long as the arena starts out at one and every request is for
/// a multiple of 8 bytes.
pub proof fn lemma_allocations_aligned(a: Arena, sizes: Seq<nat>, k: int)
    requires
        a.pos % 8 == 0,
        forall|i: int| 0 <= i < sizes.len() ==> #[trigger] sizes[i] % 8 == 0,
        0 <= k <= sizes.len(),
    ensures
        a.after_requests(sizes.take(k)).pos % 8 == 0,
        k < sizes.len() && a.granted(sizes, k) is Some ==> a.granted(sizes, k).unwrap().0 % 8 == 0,
    decreases k,
{
    if k > 0 {
        lemma_allocations_aligned(a, sizes, k - 1);
        assert(sizes.take(k).drop_last() == sizes.take(k - 1));
    }
}

/// A request for more than is left changes nothing, whatever was asked for
/// before it: the cursor stays where it was.
pub proof fn lemma_exhausted_request(a: Arena, n: nat)
    requires
        !a.fits(n),
    ensures
        a.advance(n) == a,
        a.append(zeros(n)) == a,
{
}

/// Two writes that both fit leave the arena as one write of both does.
pub proof fn lemma_append_append(a: Arena, first: Seq<u8>, second: Seq<u8>)
    requires
        a.fits(first.len() + second.len()),
    ensures
        a.append(first).append(second) == a.append(first + second),
{
}

/// A bump allocator over one region of memory.
///
/// All allocations are multiples of 8 bytes, so every one of them starts at
/// a multiple of 8 from the start of the region. Memory is handed out once
/// and never taken back.
pub struct DumpAllocator {
    mem: Vec<u8>,
    pos: usize,
    capacity: usize,
    order: ByteOrder,
}

impl View for DumpAllocator {
    type V = Arena;

    closed spec fn view(&self) -> Arena {
        Arena { region: self.mem@, pos: self.pos as nat }
    }
}

impl DumpAllocator {
    /// The capacity that the arena was created with.
    pub closed spec fn spec_capacity(&self) -> usize {
        self.capacity
    }

    /// The byte order in which headers are written into the arena.
    pub closed spec fn spec_byte_order(&self) -> ByteOrder {
        self.order
    }

    /// The region is as large as the arena was created, and the arena is
    /// well formed.
    pub open spec fn wf(&self) -> bool {
        &&& self@.wf()
        &&& self@.region.len() == self.spec_capacity()
    }

    /// What holds once the next `n` bytes of the arena `before` were handed
    /// out as a view, which the caller leaves holding `written`: the cursor
    /// has moved on by `n`, and the region holds `written` in the place of
    /// the view and is unchanged around it.
    ///
    /// A view cannot change its length. Where that is known of `written`,
    /// the arena is well formed again, and it is the arena `before` with
    /// `written` appended.
    pub open spec fn holds_view(&self, before: &DumpAllocator, n: nat, written: Seq<u8>) -> bool {
        &&& before@.fits(n)
        &&& self@.pos == before@.pos + n
        &&& self@.region =~= before@.region.subrange(0, before@.pos as int) + written
            + before@.region.subrange((before@.pos + n) as int, before@.region.len() as int)
        &&& written.len() == n ==> self.wf() && self@ =~= before@.append(written)
    }

    /// The arena made from storage for which the outcome of the
    /// reservation of `size` bytes is known: a zeroed arena of that
    /// capacity where the storage was reserved, and an error where it was
    /// not.
    pub fn from_reserved(mem: Vec<u8>, reserved: bool, size: usize, order: ByteOrder) -> (r: Result<
        DumpAllocator,
        Error,
    >)
        requires
            mem@.len() == 0,
        ensures
            match r {
                Ok(a) => reserved && a.wf() && a@ == Arena::fresh(size as nat)
                    && a.spec_capacity() == size && a.spec_byte_order() == order,
                Err(e) => !reserved && e == Error::OutOfMemory,
            },
    {
        if !reserved {
            return Err(Error::OutOfMemory);
        }
        let mut mem = mem;
        mem.resize(size, 0u8);
        Ok(DumpAllocator { mem, pos: 0, capacity: size, order })
    }

    /// Obtains a zeroed region of `size` bytes, in which headers will be
    /// written in the given byte order.
    ///
    /// A size that the signed size type of the platform cannot hold is
    /// refused as an invalid argument. Any other size gives an arena, or
    /// the out-of-memory error where the platform does not provide the
    /// region.
    pub fn with_byte_order(size: usize, order: ByteOrder) -> (r: Result<DumpAllocator, Error>)
        ensures
            match r {
                Ok(a) => size < isize::MAX && a.wf() && a@ == Arena::fresh(size as nat)
                    && a.spec_capacity() == size && a.spec_byte_order() == order,
                Err(e) => e == if size >= isize::MAX {
                    Error::InvalidArgument
                } else {
                    Error::OutOfMemory
                },
            },
    {
        if size >= isize::MAX as usize {
            return Err(Error::InvalidArgument);
        }
        let mut mem: Vec<u8> = Vec::new();
        let reserved: bool = match mem.try_reserve(size) {
            Ok(_) => true,
            Err(_) => false,
        };
        DumpAllocator::from_reserved(mem, reserved, size, order)
    }

    /// Obtains a zeroed region of `size` bytes, in which headers will be
    /// written in the byte order of the machine.
    pub fn new(size: usize) -> (r: Result<DumpAllocator, Error>)
        ensures
            match r {
                Ok(a) => size < isize::MAX && a.wf() && a@ == Arena::fresh(size as nat)
                    && a.spec_capacity() == size,
                Err(e) => e == if size >= isize::MAX {
                    Error::InvalidArgument
                } else {
                    Error::OutOfMemory
                },
            },
    {
        DumpAllocator::with_byte_order(size, ByteOrder::native())
    }

    /// Returns the capacity that the arena was created with.
    pub fn capacity(&self) -> (r: usize)
        ensures
            r == self.spec_capacity(),
    {
        self.capacity
    }

    /// Returns the cursor: the number of bytes handed out so far.
    pub fn position(&self) -> (r: usize)
        ensures
            r == self@.pos,
    {
        self.pos
    }

    /// Returns the byte order in which headers are written.
    pub fn byte_order(&self) -> (r: ByteOrder)
        ensures
            r == self.spec_byte_order(),
    {
        self.order
    }

    /// Moves the cursor on by `size` bytes and returns the offset at which
    /// they start, or returns `None` and changes nothing where fewer than
    /// `size` bytes are left.
    pub fn alloc_mem(&mut self, size: usize) -> (r: Option<usize>)
        requires
            old(self).wf(),
            size % 8 == 0,
        ensures
            final(self).wf(),
            final(self).spec_capacity() == old(self).spec_capacity(),
            final(self).spec_byte_order() == old(self).spec_byte_order(),
            final(self)@ == old(self)@.advance(size as nat),
            match r {
                Some(offset) => {
                    &&& old(self)@.fits(size as nat)
                    &&& offset == old(self)@.pos
                    &&& offset % 8 == 0
                    &&& offset + size <= old(self).spec_capacity()
                },
                None => !old(self)@.fits(size as nat) && *final(self) == *old(self),
            },
    {
        if size > self.capacity - self.pos {
            None
        } else {
            let offset: usize = self.pos;
            self.pos += size;
            Some(offset)
        }
    }

    /// Hands out the next `num_bytes` bytes of the region, all of them
    /// zero, or returns `None` and changes nothing where fewer are left.
    ///
    /// The region afterwards holds whatever the caller leaves in the view:
    /// see [`DumpAllocator::holds_view`].
    pub fn alloc_bytes(&mut self, num_bytes: usize) -> (r: Option<&mut [u8]>)
        requires
            old(self).wf(),
            num_bytes % 8 == 0,
        ensures
            final(self).spec_capacity() == old(self).spec_capacity(),
            final(self).spec_byte_order() == old(self).spec_byte_order(),
            match r {
                Some(view) => {
                    &&& view@ == zeros(num_bytes as nat)
                    &&& final(self).holds_view(old(self), num_bytes as nat, final(view)@)
                },
                None => !old(self)@.fits(num_bytes as nat) && *final(self) == *old(self),
            },
    {
        match self.alloc_mem(num_bytes) {
            None => None,
            Some(offset) => {
                let whole = self.mem.as_mut_slice();
                let (_, rest) = whole.split_at_mut(offset);
                let (view, _) = rest.split_at_mut(num_bytes);
                Some(view)
            },
        }
    }

    /// Hands out the next bytes of the region for one record of type `T`,
    /// all of them zero, or returns `None` and changes nothing where fewer
    /// are left. The size of the record has to be a multiple of 8.
    pub fn alloc_typed<T: Record>(&mut self) -> (r: Option<&mut [u8]>)
        requires
            old(self).wf(),
            T::spec_size() % 8 == 0,
        ensures
            final(self).spec_capacity() == old(self).spec_capacity(),
            final(self).spec_byte_order() == old(self).spec_byte_order(),
            match r {
                Some(view) => {
                    &&& view@ == zeros(T::spec_size())
                    &&& final(self).holds_view(old(self), T::spec_size(), final(view)@)
                },
                None => !old(self)@.fits(T::spec_size()) && *final(self) == *old(self),
            },
    {
        self.alloc_bytes(T::size())
    }

    /// Hands out the next 16 bytes of the region with the header of a
    /// section of the given type and payload size written into them, or
    /// returns `None` and changes nothing where fewer are left.
    ///
    /// The header has the magic number in place and a padding of zero:
    /// the caller sets the padding through the view, once it is known.
    pub fn alloc_header(&mut self, ty: HeaderType, size: u32) -> (r: Option<&mut [u8]>)
        requires
            old(self).wf(),
        ensures
            final(self).spec_capacity() == old(self).spec_capacity(),
            final(self).spec_byte_order() == old(self).spec_byte_order(),
            match r {
                Some(view) => {
                    &&& view@ == Header::spec_new(ty, size).bytes(old(self).spec_byte_order())
                    &&& final(self).holds_view(old(self), HEADER_SIZE as nat, final(view)@)
                },
                None => !old(self)@.fits(HEADER_SIZE as nat) && *final(self) == *old(self),
            },
    {
        let order = self.order;
        match self.alloc_typed::<Header>() {
            None => None,
            Some(view) => {
                Header::new(ty, size).encode(order, view);
                Some(view)
            },
        }
    }

    /// Whether every byte of the region has been handed out.
    pub fn is_end(&self) -> (r: bool)
        ensures
            r == (self@.pos == self.spec_capacity()),
    {
        self.pos == self.capacity
    }

    /// Gives up the arena and returns its region together with its
    /// capacity.
    pub fn dump(self) -> (r: (Vec<u8>, usize))
        ensures
            r.0@ == self@.region,
            r.1 == self.spec_capacity(),
    {
        (self.mem, self.capacity)
    }
}

} // verus!
