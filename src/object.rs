//! Reading a file's bytes with goblin into the metadata that the
//! classification reads.

use goblin::Object;
use vstd::prelude::*;

use crate::checksec::CheckSecResults;
use crate::elf::{names_of, Dyn, Dynamic, ElfMetadata, Header, ProgramHeader};

verus! {

/// The object formats other than ELF, which get no analysis.
#[derive(Clone, Copy, Debug, PartialEq, Eq, Structural)]
pub enum ObjectKind {
    PE,
    TE,
    COFF,
    Mach,
    Archive,
    /// Not a known format; the magic number read from the start of the file.
    Unknown(u64),
    /// A format that goblin added after this crate was written.
    Other,
}

/// What was found in one file.
#[derive(Clone, Debug)]
pub enum Inspection {
    Elf(CheckSecResults),
    Unsupported(ObjectKind),
}

/// The bytes could not be read as any object format; goblin's message.
#[derive(Clone, Debug)]
pub enum CheckSecError {
    Malformed(String),
}

/// The format that goblin recognised in a file.
#[derive(Clone, Copy, Debug, PartialEq, Eq, Structural)]
pub enum Format {
    Elf,
    Other(ObjectKind),
}

/// Whether Object::parse reads `b` as an object.
pub uninterp spec fn object_parses(b: Seq<u8>) -> bool;

/// The format that Object::parse recognises in `b`.
pub uninterp spec fn format_of(b: Seq<u8>) -> Format;

/// Whether goblin::elf::Elf::parse reads `b` as an ELF file.
pub uninterp spec fn elf_parses(b: Seq<u8>) -> bool;

/// The ELF header fields and byte order that goblin::elf::Elf::parse reads from `b`.
pub uninterp spec fn elf_header_of(b: Seq<u8>) -> (Header, bool);

/// The program headers that goblin::elf::Elf::parse reads from `b`, in file order.
pub uninterp spec fn elf_program_headers_of(b: Seq<u8>) -> Seq<ProgramHeader>;

/// The dynamic section that goblin::elf::Elf::parse reads from `b`: its
/// entries and its second flags word.
pub uninterp spec fn elf_dynamic_of(b: Seq<u8>) -> Option<(Seq<Dyn>, u64)>;

/// The names of the dynamic string table that goblin lists for `b`.
pub uninterp spec fn elf_dynamic_names_of(b: Seq<u8>) -> Option<Seq<Seq<char>>>;

/// The dynamic section as its entries and second flags word.
pub open spec fn dynamic_view(d: Option<Dynamic>) -> Option<(Seq<Dyn>, u64)> {
    match d {
        Some(d) => Some((d.dyns@, d.flags_1)),
        None => None,
    }
}

/// The names of a string table, where there is one.
pub open spec fn names_view(t: Option<Vec<String>>) -> Option<Seq<Seq<char>>> {
    match t {
        Some(v) => Some(names_of(v)),
        None => None,
    }
}

/// Whether `e` is the metadata that goblin reads from the ELF file `b`.
pub open spec fn is_metadata_of(e: ElfMetadata, b: Seq<u8>) -> bool {
    &&& (e.header, e.little_endian) == elf_header_of(b)
    &&& e.program_headers@ == elf_program_headers_of(b)
    &&& dynamic_view(e.dynamic) == elf_dynamic_of(b)
    &&& names_view(e.dynstrtab) == elf_dynamic_names_of(b)
}

/// Relies on Object::parse: whether `bytes` are an object and of which
/// format, or goblin's message. Where they are ELF, goblin::elf::Elf::parse
/// read them.
#[verifier::external_body]
fn parse_object(bytes: &[u8]) -> (r: Result<Format, String>)
    ensures
        r is Ok == object_parses(bytes@),
        r matches Ok(f) ==> f == format_of(bytes@),
        r matches Ok(Format::Elf) ==> elf_parses(bytes@),
{
    match Object::parse(bytes) {
        Ok(Object::Elf(_)) => Ok(Format::Elf),
        Ok(Object::PE(_)) => Ok(Format::Other(ObjectKind::PE)),
        Ok(Object::TE(_)) => Ok(Format::Other(ObjectKind::TE)),
        Ok(Object::COFF(_)) => Ok(Format::Other(ObjectKind::COFF)),
        Ok(Object::Mach(_)) => Ok(Format::Other(ObjectKind::Mach)),
        Ok(Object::Archive(_)) => Ok(Format::Other(ObjectKind::Archive)),
        Ok(Object::Unknown(m)) => Ok(Format::Other(ObjectKind::Unknown(m))),
        Ok(_) => Ok(Format::Other(ObjectKind::Other)),
        Err(e) => Err(e.to_string()),
    }
}

/// Relies on goblin::elf::Elf::parse: the header fields, byte order and
/// program headers that it reads from `bytes`.
#[verifier::external_body]
fn elf_layout(bytes: &[u8]) -> (r: Option<(Header, bool, Vec<ProgramHeader>)>)
    ensures
        r is Some == elf_parses(bytes@),
        r matches Some(t) ==> (t.0, t.1) == elf_header_of(bytes@) && t.2@
            == elf_program_headers_of(bytes@),
{
    goblin::elf::Elf::parse(bytes).ok().map(|e| {
        let h = &e.header;
        let class = h.e_ident[goblin::elf::header::EI_CLASS];
        let header = Header { e_type: h.e_type, e_machine: h.e_machine, ei_class: class };
        let phs = e.program_headers.iter().map(
            |p| ProgramHeader { p_type: p.p_type, p_flags: p.p_flags, p_vaddr: p.p_vaddr },
        ).collect();
        (header, e.little_endian, phs)
    })
}

/// Relies on goblin::elf::Elf::parse and goblin::strtab::Strtab::to_vec: the
/// dynamic section that goblin reads from `bytes`, and the names of the
/// dynamic string table, or none where goblin cannot list them.
#[verifier::external_body]
fn elf_linking(bytes: &[u8]) -> (r: Option<(Option<Dynamic>, Option<Vec<String>>)>)
    ensures
        r is Some == elf_parses(bytes@),
        r matches Some(t) ==> dynamic_view(t.0) == elf_dynamic_of(bytes@) && names_view(t.1)
            == elf_dynamic_names_of(bytes@),
{
    goblin::elf::Elf::parse(bytes).ok().map(|e| {
        let d = e.dynamic.as_ref().map(|d| Dynamic {
            dyns: d.dyns.iter().map(|x| Dyn { d_tag: x.d_tag, d_val: x.d_val }).collect(),
            flags_1: d.info.flags_1,
        });
        (d, e.dynstrtab.to_vec().ok().map(|v| v.into_iter().map(String::from).collect()))
    })
}

/// The metadata that goblin reads from the ELF file `bytes`.
fn metadata(bytes: &[u8]) -> (r: Option<ElfMetadata>)
    ensures
        r is Some == elf_parses(bytes@),
        r matches Some(e) ==> is_metadata_of(e, bytes@),
{
    match (elf_layout(bytes), elf_linking(bytes)) {
        (Some((header, little_endian, program_headers)), Some((dynamic, dynstrtab))) => Some(
            ElfMetadata { header, little_endian, program_headers, dynamic, dynstrtab },
        ),
        _ => None,
    }
}

/// Classifies what was read of a file: an ELF file gets its full profile,
/// any other format is only named.
pub fn inspect(object: &Result<ElfMetadata, ObjectKind>) -> (r: Inspection)
    ensures
        match (object, r) {
            (Ok(e), Inspection::Elf(p)) => p.is_profile_of(e),
            (Err(k), Inspection::Unsupported(k2)) => k2 == *k,
            _ => false,
        },
{
    match object {
        Ok(e) => Inspection::Elf(CheckSecResults::parse(e)),
        Err(k) => Inspection::Unsupported(*k),
    }
}

/// Reads `bytes` as an object file and classifies it: the error where goblin
/// cannot read them, the profile of the metadata that goblin reads from an ELF
/// file, and the format of any other object.
pub fn checksec(bytes: &[u8]) -> (r: Result<Inspection, CheckSecError>)
    ensures
        r is Ok == object_parses(bytes@),
        r matches Ok(Inspection::Elf(_)) <==> object_parses(bytes@) && format_of(bytes@)
            == Format::Elf,
        r matches Ok(Inspection::Elf(p)) ==> exists|e: ElfMetadata|
            is_metadata_of(e, bytes@) && #[trigger] p.is_profile_of(&e),
        r matches Ok(Inspection::Unsupported(k)) ==> format_of(bytes@) == Format::Other(k),
{
    match parse_object(bytes) {
        Ok(Format::Elf) => match metadata(bytes) {
            Some(e) => {
                let r = inspect(&Ok(e));
                proof {
                    assert(r matches Inspection::Elf(p) && p.is_profile_of(&e));
                }
                Ok(r)
            },
            None => Err(CheckSecError::Malformed(String::new())),
        },
        Ok(Format::Other(k)) => Ok(Inspection::Unsupported(k)),
        Err(m) => Err(CheckSecError::Malformed(m)),
    }
}

} // verus!
