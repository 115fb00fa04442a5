//! Decoding of the fixed leading header of an ELF object file.

pub mod byte_source;
pub mod elfparser;
pub mod encode;
pub mod endian;
