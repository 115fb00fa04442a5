//! The header's enumerated fields, their decoders, and the header assembler.

use vstd::prelude::*;

use crate::byte_source::ByteSource;
use crate::endian::{u16_in, u32_in, ElfReader};

verus! {

/// Word width of the object file (identification byte 4).
#[derive(Debug, Clone, Copy, PartialEq, Eq, Structural)]
pub enum ElfClass {
    NoClass,
    Bit32,
    Bit64,
}

/// Byte order of every multi-byte field after the identification block
/// (identification byte 5).
#[derive(Debug, Clone, Copy, PartialEq, Eq, Structural)]
pub enum ElfEndianness {
    Unknown,
    Little,
    Big,
}

/// Format version; used both for the identification version and the full version.
#[derive(Debug, Clone, Copy, PartialEq, Eq, Structural)]
pub enum ElfVersion {
    Invalid,
    Current,
}

/// Object file type. Values in the reserved processor range keep their raw tag.
#[derive(Debug, Clone, Copy, PartialEq, Eq, Structural)]
pub enum ElfFileType {
    Unknown,
    Relocatable,
    Executable,
    SharedObject,
    Core,
    ProcessorSpecific(u16),
}

/// Target architecture. Codes without a name of their own are kept as `Processor`.
#[derive(Debug, Clone, Copy, PartialEq, Eq, Structural)]
pub enum ElfMachine {
    NoMachine,
    M32,
    SPARC,
    I386,
    M68K,
    M88K,
    I860,
    MIPS,
    Processor(u16),
}

/// The header field that an `InvalidField` error is about.
#[derive(Debug, Clone, Copy, PartialEq, Eq, Structural)]
pub enum ElfField {
    Class,
    Endianness,
    IdentVersion,
    FileType,
    Version,
}

/// Why a header could not be decoded.
#[derive(Debug, Clone, Copy, PartialEq, Eq, Structural)]
pub enum ElfError {
    /// The underlying transport failed (only produced by callers that do I/O).
    IoFailure,
    /// Fewer bytes were available than the current field needs.
    Truncated,
    /// The first four bytes are not `7F 'E' 'L' 'F'`.
    BadMagic,
    /// A closed-enumeration field held a value outside its accepted set.
    InvalidField(ElfField, u32),
    /// A multi-byte read was attempted before the byte order was known.
    UnresolvedByteOrder,
}

pub open spec fn decode_class(b: u8) -> Result<ElfClass, ElfError> {
    if b == 0 {
        Ok(ElfClass::NoClass)
    } else if b == 1 {
        Ok(ElfClass::Bit32)
    } else if b == 2 {
        Ok(ElfClass::Bit64)
    } else {
        Err(ElfError::InvalidField(ElfField::Class, b as u32))
    }
}

pub open spec fn decode_endianness(b: u8) -> Result<ElfEndianness, ElfError> {
    if b == 0 {
        Ok(ElfEndianness::Unknown)
    } else if b == 1 {
        Ok(ElfEndianness::Little)
    } else if b == 2 {
        Ok(ElfEndianness::Big)
    } else {
        Err(ElfError::InvalidField(ElfField::Endianness, b as u32))
    }
}

/// The version domain shared by the identification version and the full version.
pub open spec fn version_of(v: u32) -> Option<ElfVersion> {
    if v == 0 {
        Some(ElfVersion::Invalid)
    } else if v == 1 {
        Some(ElfVersion::Current)
    } else {
        None
    }
}

pub open spec fn decode_ident_version(b: u8) -> Result<ElfVersion, ElfError> {
    match version_of(b as u32) {
        Some(v) => Ok(v),
        None => Err(ElfError::InvalidField(ElfField::IdentVersion, b as u32)),
    }
}

pub open spec fn decode_version(v: u32) -> Result<ElfVersion, ElfError> {
    match version_of(v) {
        Some(ver) => Ok(ver),
        None => Err(ElfError::InvalidField(ElfField::Version, v)),
    }
}

pub open spec fn decode_filetype(v: u16) -> Result<ElfFileType, ElfError> {
    if v == 0 {
        Ok(ElfFileType::Unknown)
    } else if v == 1 {
        Ok(ElfFileType::Relocatable)
    } else if v == 2 {
        Ok(ElfFileType::Executable)
    } else if v == 3 {
        Ok(ElfFileType::SharedObject)
    } else if v == 4 {
        Ok(ElfFileType::Core)
    } else if 0xff00 <= v {
        Ok(ElfFileType::ProcessorSpecific(v))
    } else {
        Err(ElfError::InvalidField(ElfField::FileType, v as u32))
    }
}

pub open spec fn machine_of(v: u16) -> ElfMachine {
    if v == 0 {
        ElfMachine::NoMachine
    } else if v == 1 {
        ElfMachine::M32
    } else if v == 2 {
        ElfMachine::SPARC
    } else if v == 3 {
        ElfMachine::I386
    } else if v == 4 {
        ElfMachine::M68K
    } else if v == 5 {
        ElfMachine::M88K
    } else if v == 6 {
        ElfMachine::I860
    } else if v == 7 {
        ElfMachine::MIPS
    } else {
        ElfMachine::Processor(v)
    }
}

/// Decodes the class byte: 0, 1, 2 are accepted, anything else is rejected.
pub fn get_elf_class(byte: u8) -> (r: Result<ElfClass, ElfError>)
    ensures
        r == decode_class(byte),
{
    match byte {
        0u8 => Ok(ElfClass::NoClass),
        1u8 => Ok(ElfClass::Bit32),
        2u8 => Ok(ElfClass::Bit64),
        _ => Err(ElfError::InvalidField(ElfField::Class, byte as u32)),
    }
}

/// Decodes the byte-order byte: 0, 1, 2 are accepted, anything else is rejected.
pub fn get_elf_endianness(byte: u8) -> (r: Result<ElfEndianness, ElfError>)
    ensures
        r == decode_endianness(byte),
{
    match byte {
        0u8 => Ok(ElfEndianness::Unknown),
        1u8 => Ok(ElfEndianness::Little),
        2u8 => Ok(ElfEndianness::Big),
        _ => Err(ElfError::InvalidField(ElfField::Endianness, byte as u32)),
    }
}

/// Decodes the identification version byte: 0 and 1 are accepted.
pub fn get_elf_ident_version(byte: u8) -> (r: Result<ElfVersion, ElfError>)
    ensures
        r == decode_ident_version(byte),
{
    match byte {
        0u8 => Ok(ElfVersion::Invalid),
        1u8 => Ok(ElfVersion::Current),
        _ => Err(ElfError::InvalidField(ElfField::IdentVersion, byte as u32)),
    }
}

/// Decodes the object file type. Accepted exactly on 0..=4 and 0xff00..=0xffff.
pub fn get_elf_filetype(data: u16) -> (r: Result<ElfFileType, ElfError>)
    ensures
        r == decode_filetype(data),
        r is Ok <==> (data <= 4 || 0xff00 <= data),
{
    match data {
        0 => Ok(ElfFileType::Unknown),
        1 => Ok(ElfFileType::Relocatable),
        2 => Ok(ElfFileType::Executable),
        3 => Ok(ElfFileType::SharedObject),
        4 => Ok(ElfFileType::Core),
        0xff00..=0xffff => Ok(ElfFileType::ProcessorSpecific(data)),
        _ => Err(ElfError::InvalidField(ElfField::FileType, data as u32)),
    }
}

/// Decodes the machine type. Never fails: unnamed codes are kept as `Processor`.
pub fn get_elf_machine(data: u16) -> (r: Result<ElfMachine, ElfError>)
    ensures
        r == Ok::<ElfMachine, ElfError>(machine_of(data)),
        7 < data ==> r == Ok::<ElfMachine, ElfError>(ElfMachine::Processor(data)),
{
    match data {
        0 => Ok(ElfMachine::NoMachine),
        1 => Ok(ElfMachine::M32),
        2 => Ok(ElfMachine::SPARC),
        3 => Ok(ElfMachine::I386),
        4 => Ok(ElfMachine::M68K),
        5 => Ok(ElfMachine::M88K),
        6 => Ok(ElfMachine::I860),
        7 => Ok(ElfMachine::MIPS),
        _ => Ok(ElfMachine::Processor(data)),
    }
}

/// Decodes the full (32-bit) version field: 0 and 1 are accepted.
pub fn get_elf_version(data: u32) -> (r: Result<ElfVersion, ElfError>)
    ensures
        r == decode_version(data),
{
    match data {
        0 => Ok(ElfVersion::Invalid),
        1 => Ok(ElfVersion::Current),
        _ => Err(ElfError::InvalidField(ElfField::Version, data)),
    }
}

/// Length of the identification block at the start of the file.
pub const IDENT_LEN: usize = 16;

/// Number of bytes that decoding a header consumes: the identification block,
/// object type, machine, version, entry address and program-header offset.
pub const HEADER_PREFIX_LEN: usize = 32;

/// The decoded leading header. Fields past the program-header offset are not
/// read from the stream and stay zero.
#[derive(Debug, Clone, Copy, PartialEq, Eq, Structural)]
pub struct ElfHeader {
    pub class: ElfClass,
    pub endianness: ElfEndianness,
    pub ident_version: ElfVersion,
    pub filetype: ElfFileType,
    pub machine: ElfMachine,
    pub version: ElfVersion,
    pub entry: u32,
    pub phoff: u32,
    pub e_shoff: u32,
    pub e_flags: u32,
    pub e_ehsize: u16,
    pub e_phentsize: u16,
    pub e_phnum: u16,
    pub e_shentsize: u16,
    pub e_shnum: u16,
    pub e_shstrndx: u16,
}

/// Program headers; none are decoded yet.
pub struct ProgramHeader {}

/// A decoded file: its header and its program headers.
pub struct ElfFile {
    pub header: ElfHeader,
    pub program_header: ProgramHeader,
}

/// The four magic bytes `7F 'E' 'L' 'F'` open `s`.
pub open spec fn has_elf_magic(s: Seq<u8>) -> bool {
    &&& s[0] == 0x7f
    &&& s[1] == 0x45
    &&& s[2] == 0x4c
    &&& s[3] == 0x46
}

/// What decoding a header from the stream `s` yields: the first failure met
/// while reading the fields in order, or the assembled header.
pub open spec fn header_result(s: Seq<u8>) -> Result<ElfHeader, ElfError> {
    if s.len() < IDENT_LEN {
        Err(ElfError::Truncated)
    } else if !has_elf_magic(s) {
        Err(ElfError::BadMagic)
    } else {
        match decode_class(s[4]) {
            Err(e) => Err(e),
            Ok(class) => match decode_endianness(s[5]) {
                Err(e) => Err(e),
                Ok(order) => if order is Unknown {
                    Err(ElfError::InvalidField(ElfField::Endianness, 0))
                } else {
                    match decode_ident_version(s[6]) {
                        Err(e) => Err(e),
                        Ok(ident_version) => fields_result(s, class, order, ident_version),
                    }
                },
            },
        }
    }
}

/// What decoding the fields after the identification block of `s` yields,
/// given what that block held.
pub open spec fn fields_result(
    s: Seq<u8>,
    class: ElfClass,
    order: ElfEndianness,
    ident_version: ElfVersion,
) -> Result<ElfHeader, ElfError> {
    if s.len() < 18 {
        Err(ElfError::Truncated)
    } else {
        match decode_filetype(u16_in(order, s.subrange(16, 18))) {
            Err(e) => Err(e),
            Ok(filetype) => if s.len() < 24 {
                Err(ElfError::Truncated)
            } else {
                match decode_version(u32_in(order, s.subrange(20, 24))) {
                    Err(e) => Err(e),
                    Ok(version) => if s.len() < HEADER_PREFIX_LEN {
                        Err(ElfError::Truncated)
                    } else {
                        Ok(
                            ElfHeader {
                                class,
                                endianness: order,
                                ident_version,
                                filetype,
                                machine: machine_of(u16_in(order, s.subrange(18, 20))),
                                version,
                                entry: u32_in(order, s.subrange(24, 28)),
                                phoff: u32_in(order, s.subrange(28, 32)),
                                e_shoff: 0,
                                e_flags: 0,
                                e_ehsize: 0,
                                e_phentsize: 0,
                                e_phnum: 0,
                                e_shentsize: 0,
                                e_shnum: 0,
                                e_shstrndx: 0,
                            },
                        )
                    },
                }
            },
        }
    }
}

/// Decodes the leading header from `src`: identification block first, then
/// the object type, machine, version, entry address and program-header offset
/// in the byte order the block names. The first failure ends the parse.
pub fn parse_header(src: &mut ByteSource) -> (r: Result<ElfHeader, ElfError>)
    requires
        old(src).wf(),
    ensures
        final(src).wf(),
        final(src).data() == old(src).data(),
        r == header_result(old(src).remaining()),
        final(src).position() <= old(src).position() + HEADER_PREFIX_LEN,
        r is Ok ==> final(src).position() == old(src).position() + HEADER_PREFIX_LEN,
        r == Err::<ElfHeader, ElfError>(ElfError::BadMagic) ==> final(src).position()
            == old(src).position() + IDENT_LEN,
{
    let ghost s = old(src).remaining();
    let id = src.read_exact(IDENT_LEN)?;
    assert(src.remaining() =~= s.subrange(16, s.len() as int));
    if !(id[0] == 0x7f && id[1] == 0x45 && id[2] == 0x4c && id[3] == 0x46) {
        return Err(ElfError::BadMagic);
    }
    let class = get_elf_class(id[4])?;
    let endianness = get_elf_endianness(id[5])?;
    if let ElfEndianness::Unknown = endianness {
        return Err(ElfError::InvalidField(ElfField::Endianness, 0));
    }
    let ident_version = get_elf_ident_version(id[6])?;

    let reader = ElfReader::new(endianness);
    let raw_type = reader.read_u16(src)?;
    let filetype = get_elf_filetype(raw_type)?;
    let raw_machine = reader.read_u16(src)?;
    let machine = get_elf_machine(raw_machine)?;
    let raw_version = reader.read_u32(src)?;
    let version = get_elf_version(raw_version)?;
    let entry = reader.read_u32(src)?;
    let phoff = reader.read_u32(src)?;
    Ok(
        ElfHeader {
            class,
            endianness,
            ident_version,
            filetype,
            machine,
            version,
            entry,
            phoff,
            e_shoff: 0,
            e_flags: 0,
            e_ehsize: 0,
            e_phentsize: 0,
            e_phnum: 0,
            e_shentsize: 0,
            e_shnum: 0,
            e_shstrndx: 0,
        },
    )
}

/// A stream that opens with the magic bytes, a known class, a resolved byte
/// order, a known identification version, an accepted object type and version,
/// and that is long enough, decodes to the header whose fields are the decoded
/// values of those bytes (the machine type never fails).
pub proof fn lemma_valid_stream_decodes(s: Seq<u8>)
    requires
        HEADER_PREFIX_LEN <= s.len(),
        has_elf_magic(s),
        s[4] <= 2,
        s[5] == 1 || s[5] == 2,
        s[6] <= 1,
        decode_filetype(u16_in(decode_endianness(s[5])->Ok_0, s.subrange(16, 18))) is Ok,
        decode_version(u32_in(decode_endianness(s[5])->Ok_0, s.subrange(20, 24))) is Ok,
    ensures
        header_result(s) is Ok,
        ({
            let h = header_result(s)->Ok_0;
            let order = decode_endianness(s[5])->Ok_0;
            &&& Ok::<ElfClass, ElfError>(h.class) == decode_class(s[4])
            &&& Ok::<ElfEndianness, ElfError>(h.endianness) == decode_endianness(s[5])
            &&& Ok::<ElfVersion, ElfError>(h.ident_version) == decode_ident_version(s[6])
            &&& Ok::<ElfFileType, ElfError>(h.filetype) == decode_filetype(
                u16_in(order, s.subrange(16, 18)),
            )
            &&& h.machine == machine_of(u16_in(order, s.subrange(18, 20)))
            &&& Ok::<ElfVersion, ElfError>(h.version) == decode_version(
                u32_in(order, s.subrange(20, 24)),
            )
            &&& h.entry == u32_in(order, s.subrange(24, 28))
            &&& h.phoff == u32_in(order, s.subrange(28, 32))
        }),
{
}

/// A stream shorter than the identification block always fails with
/// `Truncated`, never with `BadMagic` or `InvalidField`.
pub proof fn lemma_short_stream_truncated(s: Seq<u8>)
    requires
        s.len() < IDENT_LEN,
    ensures
        header_result(s) == Err::<ElfHeader, ElfError>(ElfError::Truncated),
{
}

/// A stream holding a full identification block whose first four bytes are
/// not the magic fails with `BadMagic`, whatever the rest holds: any other
/// such stream with the same first four bytes fails the same way.
pub proof fn lemma_bad_magic_ignores_rest(s: Seq<u8>, t: Seq<u8>)
    requires
        IDENT_LEN <= s.len(),
        IDENT_LEN <= t.len(),
        !has_elf_magic(s),
        t.take(4) == s.take(4),
    ensures
        header_result(s) == Err::<ElfHeader, ElfError>(ElfError::BadMagic),
        header_result(t) == Err::<ElfHeader, ElfError>(ElfError::BadMagic),
{
    assert(t[0] == t.take(4)[0] && s[0] == s.take(4)[0]);
    assert(t[1] == t.take(4)[1] && s[1] == s.take(4)[1]);
    assert(t[2] == t.take(4)[2] && s[2] == s.take(4)[2]);
    assert(t[3] == t.take(4)[3] && s[3] == s.take(4)[3]);
}

} // verus!
