//! Reading fixed-width unsigned integers in a byte order learned mid-stream.

use vstd::prelude::*;

use crate::byte_source::ByteSource;
use crate::elfparser::{ElfEndianness, ElfError};

verus! {

/// Value of two bytes with the first one least significant.
pub open spec fn le_u16(b: Seq<u8>) -> int {
    b[0] + 256 * b[1]
}

/// Value of two bytes with the first one most significant.
pub open spec fn be_u16(b: Seq<u8>) -> int {
    256 * b[0] + b[1]
}

/// Value of four bytes with the first one least significant.
pub open spec fn le_u32(b: Seq<u8>) -> int {
    b[0] + 256 * b[1] + 65536 * b[2] + 16777216 * b[3]
}

/// Value of four bytes with the first one most significant.
pub open spec fn be_u32(b: Seq<u8>) -> int {
    16777216 * b[0] + 65536 * b[1] + 256 * b[2] + b[3]
}

/// The 16-bit value that `b` (two bytes) encodes in the given byte order.
pub open spec fn u16_in(order: ElfEndianness, b: Seq<u8>) -> u16 {
    (if order is Big { be_u16(b) } else { le_u16(b) }) as u16
}

/// The 32-bit value that `b` (four bytes) encodes in the given byte order.
pub open spec fn u32_in(order: ElfEndianness, b: Seq<u8>) -> u32 {
    (if order is Big { be_u32(b) } else { le_u32(b) }) as u32
}

/// Big-endian decoding of two bytes equals little-endian decoding of the same
/// bytes reversed, and the two orders give the same value exactly when the
/// bytes read the same forwards and backwards.
pub proof fn lemma_u16_byte_orders(b: Seq<u8>)
    requires
        b.len() == 2,
    ensures
        u16_in(ElfEndianness::Big, b) == u16_in(ElfEndianness::Little, b.reverse()),
        u16_in(ElfEndianness::Big, b) == u16_in(ElfEndianness::Little, b) <==> b == b.reverse(),
{
    if b[0] == b[1] {
        assert(b =~= b.reverse());
    }
    if b == b.reverse() {
        assert(b.reverse()[0] == b[1]);
    }
}

/// Big-endian decoding of four bytes equals little-endian decoding of the same
/// bytes reversed, and the two orders give the same value exactly when the
/// bytes read the same forwards and backwards.
pub proof fn lemma_u32_byte_orders(b: Seq<u8>)
    requires
        b.len() == 4,
    ensures
        u32_in(ElfEndianness::Big, b) == u32_in(ElfEndianness::Little, b.reverse()),
        u32_in(ElfEndianness::Big, b) == u32_in(ElfEndianness::Little, b) <==> b == b.reverse(),
{
    let (b0, b1, b2, b3) = (b[0], b[1], b[2], b[3]);
    assert(16777216 * b0 + 65536 * b1 + 256 * b2 + b3 == b0 + 256 * b1 + 65536 * b2 + 16777216
        * b3 <==> b0 == b3 && b1 == b2) by (bit_vector);
    if b0 == b3 && b1 == b2 {
        assert(b =~= b.reverse());
    }
    if b == b.reverse() {
        assert(b.reverse()[0] == b[3]);
        assert(b.reverse()[1] == b[2]);
    }
}

/// The two bytes that hold `v` in the given byte order.
pub open spec fn u16_bytes(order: ElfEndianness, v: u16) -> Seq<u8> {
    let lo = v as u8;
    let hi = (v >> 8u16) as u8;
    if order is Big { seq![hi, lo] } else { seq![lo, hi] }
}

/// The four bytes that hold `v` in the given byte order.
pub open spec fn u32_bytes(order: ElfEndianness, v: u32) -> Seq<u8> {
    let b0 = v as u8;
    let b1 = (v >> 8u32) as u8;
    let b2 = (v >> 16u32) as u8;
    let b3 = (v >> 24u32) as u8;
    if order is Big { seq![b3, b2, b1, b0] } else { seq![b0, b1, b2, b3] }
}

/// Decoding the bytes that encode a 16-bit value gives the value back.
pub proof fn lemma_u16_bytes_decode(order: ElfEndianness, v: u16)
    ensures
        u16_bytes(order, v).len() == 2,
        u16_in(order, u16_bytes(order, v)) == v,
{
    let lo = v as u8;
    let hi = (v >> 8u16) as u8;
    assert(256 * hi + lo == v) by (bit_vector)
        requires
            lo == v as u8,
            hi == (v >> 8u16) as u8,
    ;
}

/// Decoding the bytes that encode a 32-bit value gives the value back.
pub proof fn lemma_u32_bytes_decode(order: ElfEndianness, v: u32)
    ensures
        u32_bytes(order, v).len() == 4,
        u32_in(order, u32_bytes(order, v)) == v,
{
    let b0 = v as u8;
    let b1 = (v >> 8u32) as u8;
    let b2 = (v >> 16u32) as u8;
    let b3 = (v >> 24u32) as u8;
    assert(16777216 * b3 + 65536 * b2 + 256 * b1 + b0 == v) by (bit_vector)
        requires
            b0 == v as u8,
            b1 == (v >> 8u32) as u8,
            b2 == (v >> 16u32) as u8,
            b3 == (v >> 24u32) as u8,
    ;
}

/// Appends `v` to `out` as two bytes in the given byte order.
pub fn push_u16(out: &mut Vec<u8>, order: ElfEndianness, v: u16)
    ensures
        final(out)@ == old(out)@ + u16_bytes(order, v),
{
    let lo = v as u8;
    let hi = (v >> 8u16) as u8;
    match order {
        ElfEndianness::Big => {
            out.push(hi);
            out.push(lo);
        },
        _ => {
            out.push(lo);
            out.push(hi);
        },
    }
    assert(out@ =~= old(out)@ + u16_bytes(order, v));
}

/// Appends `v` to `out` as four bytes in the given byte order.
pub fn push_u32(out: &mut Vec<u8>, order: ElfEndianness, v: u32)
    ensures
        final(out)@ == old(out)@ + u32_bytes(order, v),
{
    let b0 = v as u8;
    let b1 = (v >> 8u32) as u8;
    let b2 = (v >> 16u32) as u8;
    let b3 = (v >> 24u32) as u8;
    match order {
        ElfEndianness::Big => {
            out.push(b3);
            out.push(b2);
            out.push(b1);
            out.push(b0);
        },
        _ => {
            out.push(b0);
            out.push(b1);
            out.push(b2);
            out.push(b3);
        },
    }
    assert(out@ =~= old(out)@ + u32_bytes(order, v));
}

/// Reads scalars from a byte source in one fixed byte order.
pub struct ElfReader {
    endianness: ElfEndianness,
}

impl ElfReader {
    pub closed spec fn order(&self) -> ElfEndianness {
        self.endianness
    }

    pub fn new(endianness: ElfEndianness) -> (r: ElfReader)
        ensures
            r.order() == endianness,
    {
        ElfReader { endianness }
    }

    /// Reads one byte; the byte order plays no part.
    pub fn read_u8(&self, src: &mut ByteSource) -> (r: Result<u8, ElfError>)
        requires
            old(src).wf(),
        ensures
            final(src).wf(),
            final(src).data() == old(src).data(),
            1 <= old(src).remaining().len() ==> {
                &&& r == Ok::<u8, ElfError>(old(src).remaining()[0])
                &&& final(src).position() == old(src).position() + 1
            },
            old(src).remaining().len() < 1 ==> {
                &&& r == Err::<u8, ElfError>(ElfError::Truncated)
                &&& final(src).position() == old(src).position()
            },
    {
        let buf = src.read_exact(1)?;
        Ok(buf[0])
    }

    /// Reads a 16-bit value. Fails with `Truncated` when fewer than two bytes
    /// remain, and otherwise with `UnresolvedByteOrder` while the byte order is
    /// unknown; a failure consumes nothing.
    pub fn read_u16(&self, src: &mut ByteSource) -> (r: Result<u16, ElfError>)
        requires
            old(src).wf(),
        ensures
            final(src).wf(),
            final(src).data() == old(src).data(),
            old(src).remaining().len() < 2 ==> {
                &&& r == Err::<u16, ElfError>(ElfError::Truncated)
                &&& final(src).position() == old(src).position()
            },
            self.order() is Unknown && 2 <= old(src).remaining().len() ==> {
                &&& r == Err::<u16, ElfError>(ElfError::UnresolvedByteOrder)
                &&& final(src).position() == old(src).position()
            },
            self.order() !is Unknown && 2 <= old(src).remaining().len() ==> {
                &&& r == Ok::<u16, ElfError>(u16_in(self.order(), old(src).remaining().take(2)))
                &&& final(src).position() == old(src).position() + 2
            },
    {
        if src.remaining_len() < 2 {
            return Err(ElfError::Truncated);
        }
        if let ElfEndianness::Unknown = self.endianness {
            return Err(ElfError::UnresolvedByteOrder);
        }
        let buf = src.read_exact(2)?;
        let b0 = buf[0] as u16;
        let b1 = buf[1] as u16;
        match self.endianness {
            ElfEndianness::Big => Ok(b0 * 256 + b1),
            _ => Ok(b1 * 256 + b0),
        }
    }

    /// Reads a 32-bit value. Fails with `Truncated` when fewer than four bytes
    /// remain, and otherwise with `UnresolvedByteOrder` while the byte order is
    /// unknown; a failure consumes nothing.
    pub fn read_u32(&self, src: &mut ByteSource) -> (r: Result<u32, ElfError>)
        requires
            old(src).wf(),
        ensures
            final(src).wf(),
            final(src).data() == old(src).data(),
            old(src).remaining().len() < 4 ==> {
                &&& r == Err::<u32, ElfError>(ElfError::Truncated)
                &&& final(src).position() == old(src).position()
            },
            self.order() is Unknown && 4 <= old(src).remaining().len() ==> {
                &&& r == Err::<u32, ElfError>(ElfError::UnresolvedByteOrder)
                &&& final(src).position() == old(src).position()
            },
            self.order() !is Unknown && 4 <= old(src).remaining().len() ==> {
                &&& r == Ok::<u32, ElfError>(u32_in(self.order(), old(src).remaining().take(4)))
                &&& final(src).position() == old(src).position() + 4
            },
    {
        if src.remaining_len() < 4 {
            return Err(ElfError::Truncated);
        }
        if let ElfEndianness::Unknown = self.endianness {
            return Err(ElfError::UnresolvedByteOrder);
        }
        let buf = src.read_exact(4)?;
        let b0 = buf[0] as u32;
        let b1 = buf[1] as u32;
        let b2 = buf[2] as u32;
        let b3 = buf[3] as u32;
        match self.endianness {
            ElfEndianness::Big => Ok(b0 * 16777216 + b1 * 65536 + b2 * 256 + b3),
            _ => Ok(b3 * 16777216 + b2 * 65536 + b1 * 256 + b0),
        }
    }
}

} // verus!
