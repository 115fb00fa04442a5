//! Writing a header back to the bytes it is decoded from.

use vstd::prelude::*;

use crate::elfparser::{
    ElfClass, ElfEndianness, ElfFileType, ElfHeader, ElfMachine, ElfVersion, header_result,
};
use crate::endian::{
    lemma_u16_bytes_decode, lemma_u32_bytes_decode, push_u16, push_u32, u16_bytes, u32_bytes,
};

verus! {

pub open spec fn class_code(c: ElfClass) -> u8 {
    match c {
        ElfClass::NoClass => 0,
        ElfClass::Bit32 => 1,
        ElfClass::Bit64 => 2,
    }
}

pub open spec fn endianness_code(e: ElfEndianness) -> u8 {
    match e {
        ElfEndianness::Unknown => 0,
        ElfEndianness::Little => 1,
        ElfEndianness::Big => 2,
    }
}

pub open spec fn version_code(v: ElfVersion) -> u8 {
    match v {
        ElfVersion::Invalid => 0,
        ElfVersion::Current => 1,
    }
}

pub open spec fn filetype_code(t: ElfFileType) -> u16 {
    match t {
        ElfFileType::Unknown => 0,
        ElfFileType::Relocatable => 1,
        ElfFileType::Executable => 2,
        ElfFileType::SharedObject => 3,
        ElfFileType::Core => 4,
        ElfFileType::ProcessorSpecific(x) => x,
    }
}

pub open spec fn machine_code(m: ElfMachine) -> u16 {
    match m {
        ElfMachine::NoMachine => 0,
        ElfMachine::M32 => 1,
        ElfMachine::SPARC => 2,
        ElfMachine::I386 => 3,
        ElfMachine::M68K => 4,
        ElfMachine::M88K => 5,
        ElfMachine::I860 => 6,
        ElfMachine::MIPS => 7,
        ElfMachine::Processor(x) => x,
    }
}

/// A header that decoding can produce: its byte order is resolved, raw tags
/// lie outside the named codes, and the fields that are not read stay zero.
pub open spec fn is_decodable(h: ElfHeader) -> bool {
    &&& h.endianness !is Unknown
    &&& (h.filetype matches ElfFileType::ProcessorSpecific(x) ==> 0xff00 <= x)
    &&& (h.machine matches ElfMachine::Processor(x) ==> 7 < x)
    &&& h.e_shoff == 0
    &&& h.e_flags == 0
    &&& h.e_ehsize == 0
    &&& h.e_phentsize == 0
    &&& h.e_phnum == 0
    &&& h.e_shentsize == 0
    &&& h.e_shnum == 0
    &&& h.e_shstrndx == 0
}

/// The identification block of `h`: magic, class, byte order, identification
/// version, and nine zero padding bytes.
pub open spec fn ident_bytes(h: ElfHeader) -> Seq<u8> {
    seq![
        0x7fu8, 0x45u8, 0x4cu8, 0x46u8,
        class_code(h.class), endianness_code(h.endianness), version_code(h.ident_version),
        0u8, 0u8, 0u8, 0u8, 0u8, 0u8, 0u8, 0u8, 0u8,
    ]
}

/// The bytes that encode `h`, in the layout that decoding reads.
pub open spec fn header_bytes(h: ElfHeader) -> Seq<u8> {
    let order = h.endianness;
    ident_bytes(h) + u16_bytes(order, filetype_code(h.filetype)) + u16_bytes(
        order,
        machine_code(h.machine),
    ) + u32_bytes(order, version_code(h.version) as u32) + u32_bytes(order, h.entry) + u32_bytes(
        order,
        h.phoff,
    )
}

fn class_byte(c: ElfClass) -> (r: u8)
    ensures
        r == class_code(c),
{
    match c {
        ElfClass::NoClass => 0,
        ElfClass::Bit32 => 1,
        ElfClass::Bit64 => 2,
    }
}

fn endianness_byte(e: ElfEndianness) -> (r: u8)
    ensures
        r == endianness_code(e),
{
    match e {
        ElfEndianness::Unknown => 0,
        ElfEndianness::Little => 1,
        ElfEndianness::Big => 2,
    }
}

fn version_byte(v: ElfVersion) -> (r: u8)
    ensures
        r == version_code(v),
{
    match v {
        ElfVersion::Invalid => 0,
        ElfVersion::Current => 1,
    }
}

fn filetype_value(t: ElfFileType) -> (r: u16)
    ensures
        r == filetype_code(t),
{
    match t {
        ElfFileType::Unknown => 0,
        ElfFileType::Relocatable => 1,
        ElfFileType::Executable => 2,
        ElfFileType::SharedObject => 3,
        ElfFileType::Core => 4,
        ElfFileType::ProcessorSpecific(x) => x,
    }
}

fn machine_value(m: ElfMachine) -> (r: u16)
    ensures
        r == machine_code(m),
{
    match m {
        ElfMachine::NoMachine => 0,
        ElfMachine::M32 => 1,
        ElfMachine::SPARC => 2,
        ElfMachine::I386 => 3,
        ElfMachine::M68K => 4,
        ElfMachine::M88K => 5,
        ElfMachine::I860 => 6,
        ElfMachine::MIPS => 7,
        ElfMachine::Processor(x) => x,
    }
}

/// Writes the leading header of `h`: the identification block, then object
/// type, machine, version, entry address and program-header offset in the
/// byte order `h` names (little-endian when it names none).
pub fn encode_header(h: &ElfHeader) -> (r: Vec<u8>)
    ensures
        r@ == header_bytes(*h),
{
    let mut out: Vec<u8> = vec![0x7fu8, 0x45u8, 0x4cu8, 0x46u8];
    out.push(class_byte(h.class));
    out.push(endianness_byte(h.endianness));
    out.push(version_byte(h.ident_version));
    let mut i: usize = 0;
    while i < 9
        invariant
            i <= 9,
            out@.len() == 7 + i,
            forall|j: int| 0 <= j < 7 ==> out@[j] == #[trigger] ident_bytes(*h)[j],
            forall|j: int| 7 <= j < 7 + i ==> out@[j] == 0u8,
        decreases 9 - i,
    {
        out.push(0u8);
        i = i + 1;
    }
    assert(out@ =~= ident_bytes(*h));
    let order = h.endianness;
    push_u16(&mut out, order, filetype_value(h.filetype));
    push_u16(&mut out, order, machine_value(h.machine));
    push_u32(&mut out, order, version_byte(h.version) as u32);
    push_u32(&mut out, order, h.entry);
    push_u32(&mut out, order, h.phoff);
    out
}

/// Encoding a header that decoding can produce and decoding the bytes again
/// gives back an equal header.
pub proof fn lemma_encode_round_trip(h: ElfHeader)
    requires
        is_decodable(h),
    ensures
        header_bytes(h).len() == 32,
        header_result(header_bytes(h)) == Ok::<ElfHeader, crate::elfparser::ElfError>(h),
{
    let s = header_bytes(h);
    let order = h.endianness;
    lemma_u16_bytes_decode(order, filetype_code(h.filetype));
    lemma_u16_bytes_decode(order, machine_code(h.machine));
    lemma_u32_bytes_decode(order, version_code(h.version) as u32);
    lemma_u32_bytes_decode(order, h.entry);
    lemma_u32_bytes_decode(order, h.phoff);
    assert(s.subrange(16, 18) =~= u16_bytes(order, filetype_code(h.filetype)));
    assert(s.subrange(18, 20) =~= u16_bytes(order, machine_code(h.machine)));
    assert(s.subrange(20, 24) =~= u32_bytes(order, version_code(h.version) as u32));
    assert(s.subrange(24, 28) =~= u32_bytes(order, h.entry));
    assert(s.subrange(28, 32) =~= u32_bytes(order, h.phoff));
    assert(s[0] == 0x7f && s[1] == 0x45 && s[2] == 0x4c && s[3] == 0x46);
    assert(s[4] == class_code(h.class));
    assert(s[5] == endianness_code(h.endianness));
    assert(s[6] == version_code(h.ident_version));
}

} // verus!
