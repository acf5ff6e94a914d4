//! Byte-level building blocks of the dump format: the byte order of its
//! integer fields, and bounds-checked writes into a byte view.

use vstd::prelude::*;

verus! {

/// The order in which the bytes of an integer field are laid down.
#[derive(Clone, Copy, Debug, PartialEq, Eq, Structural)]
pub enum ByteOrder {
    /// Least significant byte first.
    LittleEndian,
    /// Most significant byte first.
    BigEndian,
}

/// `n` zero bytes.
pub open spec fn zeros(n: nat) -> Seq<u8> {
    Seq::new(n, |i: int| 0u8)
}

/// `s` with the bytes from `at` on replaced by `bytes`.
pub open spec fn overwrite(s: Seq<u8>, at: int, bytes: Seq<u8>) -> Seq<u8>
    recommends
        0 <= at,
        at + bytes.len() <= s.len(),
{
    s.subrange(0, at) + bytes + s.subrange(at + bytes.len(), s.len() as int)
}

/// The two bytes that encode `x` in the given order.
pub open spec fn u16_bytes(order: ByteOrder, x: u16) -> Seq<u8> {
    match order {
        ByteOrder::LittleEndian => seq![(x % 256) as u8, (x / 256) as u8],
        ByteOrder::BigEndian => seq![(x / 256) as u8, (x % 256) as u8],
    }
}

/// The four bytes that encode `x` in the given order.
pub open spec fn u32_bytes(order: ByteOrder, x: u32) -> Seq<u8> {
    match order {
        ByteOrder::LittleEndian => seq![
            (x % 256) as u8,
            (x / 0x100 % 256) as u8,
            (x / 0x1_0000 % 256) as u8,
            (x / 0x100_0000) as u8,
        ],
        ByteOrder::BigEndian => seq![
            (x / 0x100_0000) as u8,
            (x / 0x1_0000 % 256) as u8,
            (x / 0x100 % 256) as u8,
            (x % 256) as u8,
        ],
    }
}

/// The number that two bytes encode in the given order.
pub open spec fn u16_value(order: ByteOrder, s: Seq<u8>) -> int
    recommends
        s.len() == 2,
{
    match order {
        ByteOrder::LittleEndian => s[0] + 256 * s[1],
        ByteOrder::BigEndian => s[1] + 256 * s[0],
    }
}

/// The number that four bytes encode in the given order.
pub open spec fn u32_value(order: ByteOrder, s: Seq<u8>) -> int
    recommends
        s.len() == 4,
{
    match order {
        ByteOrder::LittleEndian => s[0] + 0x100 * s[1] + 0x1_0000 * s[2] + 0x100_0000 * s[3],
        ByteOrder::BigEndian => s[3] + 0x100 * s[2] + 0x1_0000 * s[1] + 0x100_0000 * s[0],
    }
}

/// A 16-bit integer is read back from its bytes as it was written.
pub proof fn lemma_u16_round_trip(order: ByteOrder, x: u16)
    ensures
        u16_bytes(order, x).len() == 2,
        u16_value(order, u16_bytes(order, x)) == x,
{
}

/// A 32-bit integer is read back from its bytes as it was written.
pub proof fn lemma_u32_round_trip(order: ByteOrder, x: u32)
    ensures
        u32_bytes(order, x).len() == 4,
        u32_value(order, u32_bytes(order, x)) == x,
{
}

/// Calls `u16::to_ne_bytes` of the standard library, which returns the
/// memory representation of `x` on the machine that runs it. The contract
/// claims only what holds on every machine: the result is `x` in one of
/// the two byte orders.
#[verifier::external_body]
fn u16_to_ne_bytes(x: u16) -> (r: [u8; 2])
    ensures
        r@ == u16_bytes(ByteOrder::LittleEndian, x) || r@ == u16_bytes(ByteOrder::BigEndian, x),
{
    x.to_ne_bytes()
}

impl ByteOrder {
    /// The byte order under which the integer 1 is laid down as `probe`:
    /// little-endian exactly when its first byte holds the 1.
    pub fn from_probe(probe: [u8; 2]) -> (r: ByteOrder)
        ensures
            r == if probe@[0] == 1 {
                ByteOrder::LittleEndian
            } else {
                ByteOrder::BigEndian
            },
    {
        if probe[0] == 1 {
            ByteOrder::LittleEndian
        } else {
            ByteOrder::BigEndian
        }
    }

    /// The byte order of the machine that runs the code. Which one that is
    /// cannot be known before the code runs, so nothing is promised of the
    /// result; everything that encodes takes the order as a value.
    pub fn native() -> ByteOrder {
        ByteOrder::from_probe(u16_to_ne_bytes(1))
    }
}

/// Writes `x` into the two bytes of `out` that start at `at`.
pub fn put_u16(out: &mut [u8], at: usize, order: ByteOrder, x: u16)
    requires
        at + 2 <= old(out)@.len(),
    ensures
        final(out)@ == overwrite(old(out)@, at as int, u16_bytes(order, x)),
{
    let lo: u8 = (x % 256) as u8;
    let hi: u8 = (x / 256) as u8;
    match order {
        ByteOrder::LittleEndian => {
            out[at] = lo;
            out[at + 1] = hi;
        },
        ByteOrder::BigEndian => {
            out[at] = hi;
            out[at + 1] = lo;
        },
    }
}

/// Writes `x` into the four bytes of `out` that start at `at`.
pub fn put_u32(out: &mut [u8], at: usize, order: ByteOrder, x: u32)
    requires
        at + 4 <= old(out)@.len(),
    ensures
        final(out)@ == overwrite(old(out)@, at as int, u32_bytes(order, x)),
{
    let b0: u8 = (x % 256) as u8;
    let b1: u8 = (x / 0x100 % 256) as u8;
    let b2: u8 = (x / 0x1_0000 % 256) as u8;
    let b3: u8 = (x / 0x100_0000) as u8;
    match order {
        ByteOrder::LittleEndian => {
            out[at] = b0;
            out[at + 1] = b1;
            out[at + 2] = b2;
            out[at + 3] = b3;
        },
        ByteOrder::BigEndian => {
            out[at] = b3;
            out[at + 1] = b2;
            out[at + 2] = b1;
            out[at + 3] = b0;
        },
    }
}

/// Copies `src` over the first bytes of `dst` and leaves the rest of `dst`
/// as it is.
pub fn copy_into(dst: &mut [u8], src: &[u8])
    requires
        src@.len() <= old(dst)@.len(),
    ensures
        final(dst)@ == overwrite(old(dst)@, 0, src@),
{
    let n: usize = src.len();
    let mut i: usize = 0;
    while i < n
        invariant
            n == src@.len(),
            i <= n,
            dst@.len() == old(dst)@.len(),
            n <= dst@.len(),
            forall|k: int| 0 <= k < i ==> dst@[k] == src@[k],
            forall|k: int| i <= k < dst@.len() ==> dst@[k] == old(dst)@[k],
        decreases n - i,
    {
        dst[i] = src[i];
        i += 1;
    }
}

} // verus!
