use avrvm::byte_source::ByteSource;
use avrvm::elfparser::{
    get_elf_class, get_elf_endianness, get_elf_filetype, get_elf_ident_version, get_elf_machine,
    get_elf_version, parse_header, ElfClass, ElfEndianness, ElfError, ElfField, ElfFileType,
    ElfHeader, ElfMachine, ElfVersion, HEADER_PREFIX_LEN, IDENT_LEN,
};
use avrvm::encode::encode_header;
use avrvm::endian::{push_u16, push_u32, ElfReader};

fn little_endian_executable() -> Vec<u8> {
    vec![
        0x7f, 0x45, 0x4c, 0x46, 1, 1, 1, 0, 0, 0, 0, 0, 0, 0, 0, 0, // identification
        2, 0, // object type
        83, 0, // machine
        1, 0, 0, 0, // version
        0, 0, 0, 0, // entry
        0x34, 0, 0, 0, // program-header offset
        0xaa, 0xbb, // not part of the decoded prefix
    ]
}

fn parse(bytes: Vec<u8>) -> (Result<ElfHeader, ElfError>, usize) {
    let mut src = ByteSource::new(bytes);
    let r = parse_header(&mut src);
    (r, src.consumed())
}

#[test]
fn little_endian_executable_header() {
    let (r, consumed) = parse(little_endian_executable());
    let header = r.unwrap();
    assert_eq!(header.class, ElfClass::Bit32);
    assert_eq!(header.endianness, ElfEndianness::Little);
    assert_eq!(header.ident_version, ElfVersion::Current);
    assert_eq!(header.filetype, ElfFileType::Executable);
    assert_eq!(header.machine, ElfMachine::Processor(83));
    assert_eq!(header.version, ElfVersion::Current);
    assert_eq!(header.entry, 0x0);
    assert_eq!(header.phoff, 0x34);
    assert_eq!(header.e_shoff, 0);
    assert_eq!(consumed, HEADER_PREFIX_LEN);
    assert_eq!(consumed, 32);
}

#[test]
fn big_endian_header() {
    let bytes = vec![
        0x7f, 0x45, 0x4c, 0x46, 2, 2, 1, 0, 0, 0, 0, 0, 0, 0, 0, 0, //
        0, 3, //
        0, 8, //
        0, 0, 0, 1, //
        0x12, 0x34, 0x56, 0x78, //
        0, 0, 0, 0x40,
    ];
    let header = parse(bytes).0.unwrap();
    assert_eq!(header.class, ElfClass::Bit64);
    assert_eq!(header.endianness, ElfEndianness::Big);
    assert_eq!(header.filetype, ElfFileType::SharedObject);
    assert_eq!(header.machine, ElfMachine::Processor(8));
    assert_eq!(header.version, ElfVersion::Current);
    assert_eq!(header.entry, 0x1234_5678);
    assert_eq!(header.phoff, 0x40);
}

#[test]
fn short_streams_are_truncated() {
    for n in 0..IDENT_LEN {
        let mut bytes = little_endian_executable();
        bytes.truncate(n);
        assert_eq!(parse(bytes).0, Err(ElfError::Truncated));
    }
    // shorter than 16 bytes, with a wrong magic and a bad class: still truncated
    assert_eq!(parse(vec![0, 0, 0, 0, 9]).0, Err(ElfError::Truncated));
}

#[test]
fn truncated_after_identification() {
    for n in IDENT_LEN..HEADER_PREFIX_LEN {
        let mut bytes = little_endian_executable();
        bytes.truncate(n);
        assert_eq!(parse(bytes).0, Err(ElfError::Truncated));
    }
}

#[test]
fn bad_magic_ignores_rest() {
    let mut bytes = little_endian_executable();
    bytes[1] = b'X';
    let (r, consumed) = parse(bytes);
    assert_eq!(r, Err(ElfError::BadMagic));
    assert_eq!(consumed, IDENT_LEN);
    let mut junk = vec![0x7e, 0x45, 0x4c, 0x46];
    junk.extend(vec![0xff; 12]);
    assert_eq!(parse(junk).0, Err(ElfError::BadMagic));
}

#[test]
fn invalid_identification_fields() {
    let mut bytes = little_endian_executable();
    bytes[4] = 3;
    assert_eq!(parse(bytes).0, Err(ElfError::InvalidField(ElfField::Class, 3)));
    let mut bytes = little_endian_executable();
    bytes[5] = 7;
    assert_eq!(parse(bytes).0, Err(ElfError::InvalidField(ElfField::Endianness, 7)));
    let mut bytes = little_endian_executable();
    bytes[5] = 0;
    assert_eq!(parse(bytes).0, Err(ElfError::InvalidField(ElfField::Endianness, 0)));
    let mut bytes = little_endian_executable();
    bytes[6] = 2;
    assert_eq!(parse(bytes).0, Err(ElfError::InvalidField(ElfField::IdentVersion, 2)));
}

#[test]
fn invalid_later_fields() {
    let mut bytes = little_endian_executable();
    bytes[16] = 5;
    assert_eq!(parse(bytes).0, Err(ElfError::InvalidField(ElfField::FileType, 5)));
    let mut bytes = little_endian_executable();
    bytes[20] = 2;
    assert_eq!(parse(bytes).0, Err(ElfError::InvalidField(ElfField::Version, 2)));
}

#[test]
fn class_decoding() {
    assert_eq!(get_elf_class(0), Ok(ElfClass::NoClass));
    assert_eq!(get_elf_class(1), Ok(ElfClass::Bit32));
    assert_eq!(get_elf_class(2), Ok(ElfClass::Bit64));
    assert_eq!(get_elf_class(3), Err(ElfError::InvalidField(ElfField::Class, 3)));
}

#[test]
fn endianness_decoding() {
    assert_eq!(get_elf_endianness(0), Ok(ElfEndianness::Unknown));
    assert_eq!(get_elf_endianness(1), Ok(ElfEndianness::Little));
    assert_eq!(get_elf_endianness(2), Ok(ElfEndianness::Big));
    assert_eq!(get_elf_endianness(255), Err(ElfError::InvalidField(ElfField::Endianness, 255)));
}

#[test]
fn version_decoding() {
    assert_eq!(get_elf_ident_version(0), Ok(ElfVersion::Invalid));
    assert_eq!(get_elf_ident_version(1), Ok(ElfVersion::Current));
    assert_eq!(get_elf_ident_version(2), Err(ElfError::InvalidField(ElfField::IdentVersion, 2)));
    assert_eq!(get_elf_version(0), Ok(ElfVersion::Invalid));
    assert_eq!(get_elf_version(1), Ok(ElfVersion::Current));
    assert_eq!(get_elf_version(0x100), Err(ElfError::InvalidField(ElfField::Version, 0x100)));
}

#[test]
fn filetype_decoding_is_partial() {
    assert_eq!(get_elf_filetype(0), Ok(ElfFileType::Unknown));
    assert_eq!(get_elf_filetype(1), Ok(ElfFileType::Relocatable));
    assert_eq!(get_elf_filetype(2), Ok(ElfFileType::Executable));
    assert_eq!(get_elf_filetype(3), Ok(ElfFileType::SharedObject));
    assert_eq!(get_elf_filetype(4), Ok(ElfFileType::Core));
    assert_eq!(get_elf_filetype(0xff00), Ok(ElfFileType::ProcessorSpecific(0xff00)));
    assert_eq!(get_elf_filetype(0xffff), Ok(ElfFileType::ProcessorSpecific(0xffff)));
    assert_eq!(get_elf_filetype(5), Err(ElfError::InvalidField(ElfField::FileType, 5)));
    assert_eq!(get_elf_filetype(0xfeff), Err(ElfError::InvalidField(ElfField::FileType, 0xfeff)));
}

#[test]
fn machine_decoding_is_total() {
    let named = [
        ElfMachine::NoMachine,
        ElfMachine::M32,
        ElfMachine::SPARC,
        ElfMachine::I386,
        ElfMachine::M68K,
        ElfMachine::M88K,
        ElfMachine::I860,
        ElfMachine::MIPS,
    ];
    for (code, m) in named.iter().enumerate() {
        assert_eq!(get_elf_machine(code as u16), Ok(*m));
    }
    assert_eq!(get_elf_machine(8), Ok(ElfMachine::Processor(8)));
    assert_eq!(get_elf_machine(83), Ok(ElfMachine::Processor(83)));
    assert_eq!(get_elf_machine(0xffff), Ok(ElfMachine::Processor(0xffff)));
}

#[test]
fn reader_byte_orders() {
    let little = ElfReader::new(ElfEndianness::Little);
    let big = ElfReader::new(ElfEndianness::Big);
    let mut src = ByteSource::new(vec![0x12, 0x34]);
    assert_eq!(little.read_u16(&mut src), Ok(0x3412));
    let mut src = ByteSource::new(vec![0x12, 0x34]);
    assert_eq!(big.read_u16(&mut src), Ok(0x1234));
    let mut src = ByteSource::new(vec![0x01, 0x02, 0x03, 0x04]);
    assert_eq!(little.read_u32(&mut src), Ok(0x0403_0201));
    let mut src = ByteSource::new(vec![0x01, 0x02, 0x03, 0x04]);
    assert_eq!(big.read_u32(&mut src), Ok(0x0102_0304));
    // palindromic bytes read the same in both orders
    let mut src = ByteSource::new(vec![0x5a, 0x00, 0x00, 0x5a, 0x77, 0x77]);
    assert_eq!(little.read_u32(&mut src), Ok(0x5a00_005a));
    assert_eq!(big.read_u16(&mut src), Ok(0x7777));
    assert_eq!(src.remaining_len(), 0);
}

#[test]
fn reader_reads_single_bytes() {
    let reader = ElfReader::new(ElfEndianness::Unknown);
    let mut src = ByteSource::new(vec![9]);
    assert_eq!(reader.read_u8(&mut src), Ok(9));
    assert_eq!(reader.read_u8(&mut src), Err(ElfError::Truncated));
}

#[test]
fn reader_refuses_unknown_byte_order() {
    let reader = ElfReader::new(ElfEndianness::Unknown);
    let mut src = ByteSource::new(vec![1, 2, 3, 4]);
    assert_eq!(reader.read_u16(&mut src), Err(ElfError::UnresolvedByteOrder));
    assert_eq!(reader.read_u32(&mut src), Err(ElfError::UnresolvedByteOrder));
    assert_eq!(src.consumed(), 0);
}

#[test]
fn reader_short_stream_with_unknown_byte_order_is_truncated() {
    let reader = ElfReader::new(ElfEndianness::Unknown);
    let mut src = ByteSource::new(vec![1]);
    assert_eq!(reader.read_u16(&mut src), Err(ElfError::Truncated));
    let mut src = ByteSource::new(vec![1, 2, 3]);
    assert_eq!(reader.read_u32(&mut src), Err(ElfError::Truncated));
    assert_eq!(reader.read_u16(&mut src), Err(ElfError::UnresolvedByteOrder));
    assert_eq!(src.consumed(), 0);
}

#[test]
fn reader_truncated() {
    let reader = ElfReader::new(ElfEndianness::Big);
    let mut src = ByteSource::new(vec![1, 2, 3]);
    assert_eq!(reader.read_u32(&mut src), Err(ElfError::Truncated));
    assert_eq!(src.consumed(), 0);
    assert_eq!(reader.read_u16(&mut src), Ok(0x0102));
    assert_eq!(reader.read_u16(&mut src), Err(ElfError::Truncated));
}

#[test]
fn byte_source_reads_exact() {
    let mut src = ByteSource::new(vec![1, 2, 3]);
    assert_eq!(src.read_exact(2), Ok(vec![1, 2]));
    assert_eq!(src.read_exact(2), Err(ElfError::Truncated));
    assert_eq!(src.read_exact(1), Ok(vec![3]));
    assert_eq!(src.read_exact(0), Ok(vec![]));
    assert_eq!(src.consumed(), 3);
}

#[test]
fn scalar_writers() {
    let mut out = Vec::new();
    push_u16(&mut out, ElfEndianness::Little, 0x1234);
    push_u16(&mut out, ElfEndianness::Big, 0x1234);
    push_u32(&mut out, ElfEndianness::Little, 0x0102_0304);
    push_u32(&mut out, ElfEndianness::Big, 0x0102_0304);
    assert_eq!(out, vec![0x34, 0x12, 0x12, 0x34, 4, 3, 2, 1, 1, 2, 3, 4]);
}

#[test]
fn encode_matches_known_bytes() {
    let header = parse(little_endian_executable()).0.unwrap();
    let mut expected = little_endian_executable();
    expected.truncate(HEADER_PREFIX_LEN);
    assert_eq!(encode_header(&header), expected);
}

#[test]
fn encode_then_parse_round_trips() {
    let header = ElfHeader {
        class: ElfClass::Bit32,
        endianness: ElfEndianness::Big,
        ident_version: ElfVersion::Current,
        filetype: ElfFileType::ProcessorSpecific(0xff42),
        machine: ElfMachine::Processor(0x1234),
        version: ElfVersion::Invalid,
        entry: 0xdead_beef,
        phoff: 0x0000_0100,
        e_shoff: 0,
        e_flags: 0,
        e_ehsize: 0,
        e_phentsize: 0,
        e_phnum: 0,
        e_shentsize: 0,
        e_shnum: 0,
        e_shstrndx: 0,
    };
    let bytes = encode_header(&header);
    assert_eq!(bytes.len(), HEADER_PREFIX_LEN);
    assert_eq!(&bytes[24..28], &[0xde, 0xad, 0xbe, 0xef]);
    assert_eq!(parse(bytes).0, Ok(header));
}
