//! Classification of the hardening mitigations of an ELF binary.

pub mod checksec;
pub mod elf;
pub mod labels;
pub mod object;
