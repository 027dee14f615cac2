//! The metadata of an ELF file that the classification reads, and the
//! rules that derive each mitigation from it.

use vstd::prelude::*;

use crate::labels::{class_label, class_name, ends_with, machine_label, machine_name, remove_all, without_pattern};

verus! {

/// Program header type of a loadable segment.
pub const PT_LOAD: u32 = 1;

/// Program header type that states the permissions of the stack.
pub const PT_GNU_STACK: u32 = 0x6474_e551;

/// Program header type of the segment made read-only after relocation.
pub const PT_GNU_RELRO: u32 = 0x6474_e552;

/// Segment permission: execute.
pub const PF_X: u32 = 1;

/// Segment permission: write.
pub const PF_W: u32 = 2;

/// Segment permission: read.
pub const PF_R: u32 = 4;

/// Dynamic tag asking the loader to bind every symbol at load time.
pub const DT_BIND_NOW: u64 = 24;

/// Dynamic tag of the flags word.
pub const DT_FLAGS: u64 = 30;

/// Dynamic tag of the second flags word.
pub const DT_FLAGS_1: u64 = 0x6fff_fffb;

/// Bit of the flags word: bind every symbol at load time.
pub const DF_BIND_NOW: u64 = 0x8;

/// Bit of the second flags word: bind every symbol at load time.
pub const DF_1_NOW: u64 = 0x1;

/// Bit of the second flags word: the object is a position-independent executable.
pub const DF_1_PIE: u64 = 0x0800_0000;

/// File type of a relocatable object.
pub const ET_REL: u16 = 1;

/// File type of an executable.
pub const ET_EXEC: u16 = 2;

/// File type of a shared object.
pub const ET_DYN: u16 = 3;

/// How strongly relocations are made read-only.
#[derive(Clone, Copy, Debug, PartialEq, Eq, Structural)]
pub enum Relro {
    NoRelro,
    Partial,
    Full,
}

/// Position independence.
#[derive(Clone, Copy, Debug, PartialEq, Eq, Structural)]
pub enum PIE {
    NoPie,
    PIE,
    DSO,
    REL,
}

/// The fields of the ELF file header that the classification reads.
#[derive(Clone, Copy, Debug, PartialEq, Eq, Structural)]
pub struct Header {
    pub e_type: u16,
    pub e_machine: u16,
    /// The class byte of the identification (32 or 64 bit).
    pub ei_class: u8,
}

/// One program header entry.
#[derive(Clone, Copy, Debug, PartialEq, Eq, Structural)]
pub struct ProgramHeader {
    pub p_type: u32,
    pub p_flags: u32,
    pub p_vaddr: u64,
}

/// One entry of the dynamic section.
#[derive(Clone, Copy, Debug, PartialEq, Eq, Structural)]
pub struct Dyn {
    pub d_tag: u64,
    pub d_val: u64,
}

/// The dynamic section: its entries in file order, and the value of the
/// second flags word that the loader derives from them.
#[derive(Clone, Debug)]
pub struct Dynamic {
    pub dyns: Vec<Dyn>,
    pub flags_1: u64,
}

/// What the classification reads of one ELF file.
#[derive(Clone, Debug)]
pub struct ElfMetadata {
    pub header: Header,
    pub little_endian: bool,
    pub program_headers: Vec<ProgramHeader>,
    /// Absent for a statically linked file.
    pub dynamic: Option<Dynamic>,
    /// The names of the dynamic string table; absent where it could not be read.
    pub dynstrtab: Option<Vec<String>>,
}

// ---------------------------------------------------------------------------
// The rules, as spec functions.

pub open spec fn has_flag(flags: u32, bit: u32) -> bool {
    flags & bit != 0
}

pub open spec fn has_segment(phs: Seq<ProgramHeader>, t: u32) -> bool {
    exists|i: int| 0 <= i < phs.len() && #[trigger] phs[i].p_type == t
}

/// An entry that asks for every symbol to be bound at load time.
pub open spec fn is_bind_now(d: Dyn) -> bool {
    d.d_tag == DT_BIND_NOW
        || (d.d_tag == DT_FLAGS && d.d_val & DF_BIND_NOW != 0)
        || (d.d_tag == DT_FLAGS_1 && d.d_val & DF_1_NOW != 0)
}

pub open spec fn binds_now(dynamic: Option<Dynamic>) -> bool {
    match dynamic {
        Some(d) => exists|k: int| 0 <= k < d.dyns@.len() && is_bind_now(#[trigger] d.dyns@[k]),
        None => false,
    }
}

pub open spec fn relro_of(phs: Seq<ProgramHeader>, dynamic: Option<Dynamic>) -> Relro {
    if !has_segment(phs, PT_GNU_RELRO) {
        Relro::NoRelro
    } else if binds_now(dynamic) {
        Relro::Full
    } else {
        Relro::Partial
    }
}

/// `i` is the first stack header.
pub open spec fn is_first_stack(phs: Seq<ProgramHeader>, i: int) -> bool {
    &&& 0 <= i < phs.len()
    &&& phs[i].p_type == PT_GNU_STACK
    &&& forall|j: int| 0 <= j < i ==> #[trigger] phs[j].p_type != PT_GNU_STACK
}

/// The stack is non-executable: the first stack header exists and does not
/// grant exactly read, write and execute.
pub open spec fn nx_of(phs: Seq<ProgramHeader>) -> bool {
    exists|i: int| #[trigger] is_first_stack(phs, i) && phs[i].p_flags != PF_R + PF_W + PF_X
}

/// A segment that is writable and executable, given whether the stack is
/// non-executable.
pub open spec fn is_rwx(p: ProgramHeader, nx: bool) -> bool {
    has_flag(p.p_flags, PF_W) && ((has_flag(p.p_flags, PF_R) && has_flag(p.p_flags, PF_X)) || !nx)
}

pub open spec fn rwx_of(phs: Seq<ProgramHeader>) -> bool {
    exists|i: int| 0 <= i < phs.len() && #[trigger] is_rwx(phs[i], nx_of(phs))
}

pub open spec fn pie_of(e_type: u16, dynamic: Option<Dynamic>) -> PIE {
    if e_type == ET_EXEC {
        PIE::NoPie
    } else if e_type == ET_REL {
        PIE::REL
    } else if e_type == ET_DYN {
        match dynamic {
            Some(d) if d.flags_1 & DF_1_PIE == DF_1_PIE => PIE::PIE,
            _ => PIE::DSO,
        }
    } else {
        PIE::NoPie
    }
}

/// A loadable segment with a non-zero address.
pub open spec fn is_placed_load(p: ProgramHeader) -> bool {
    p.p_type == PT_LOAD && p.p_vaddr != 0
}

/// The lowest non-zero address of a loadable segment, 0 where there is none.
pub open spec fn lowest_load(phs: Seq<ProgramHeader>) -> u64
    decreases phs.len(),
{
    if phs.len() == 0 {
        0
    } else {
        let rest = lowest_load(phs.drop_last());
        let p = phs.last();
        if is_placed_load(p) && (rest == 0 || p.p_vaddr < rest) {
            p.p_vaddr
        } else {
            rest
        }
    }
}

pub open spec fn address_of(e_type: u16, phs: Seq<ProgramHeader>) -> u64 {
    if e_type == ET_DYN {
        0
    } else {
        lowest_load(phs)
    }
}

pub open spec fn is_canary_symbol(s: Seq<char>) -> bool {
    s == "__stack_chk_fail"@ || s == "__intel_security_cookie"@
}

pub open spec fn is_fortified_symbol(s: Seq<char>) -> bool {
    s.len() >= 4 && s.subrange(s.len() - 4, s.len() as int) == "_chk"@
}

pub open spec fn names_have_canary(names: Seq<Seq<char>>) -> bool {
    exists|i: int| 0 <= i < names.len() && #[trigger] is_canary_symbol(names[i])
}

pub open spec fn names_have_fortify(names: Seq<Seq<char>>) -> bool {
    exists|i: int| 0 <= i < names.len() && #[trigger] is_fortified_symbol(names[i])
}

/// The names of a string table, as character sequences.
pub open spec fn names_of(v: Vec<String>) -> Seq<Seq<char>> {
    v@.map_values(|s: String| s@)
}

pub open spec fn canary_of(table: Option<Vec<String>>) -> bool {
    match table {
        Some(v) => names_have_canary(names_of(v)),
        None => false,
    }
}

pub open spec fn fortify_of(table: Option<Vec<String>>) -> bool {
    match table {
        Some(v) => names_have_fortify(names_of(v)),
        None => false,
    }
}


/// The architecture label: machine, bit width and byte order joined by "-".
pub open spec fn arch_of(h: Header, little_endian: bool) -> Seq<char> {
    machine_name(h.e_machine) + "-"@ + without_pattern(class_name(h.ei_class), "ELF"@) + "-"@ + (if little_endian {
        "little"@
    } else {
        "big"@
    })
}

// ---------------------------------------------------------------------------
// The rules, as code.

/// The hardening properties of a binary.
pub trait Properties {
    spec fn arch_spec(&self) -> Seq<char>;

    spec fn address_spec(&self) -> u64;

    spec fn relro_spec(&self) -> Relro;

    spec fn canary_spec(&self) -> bool;

    spec fn nx_spec(&self) -> bool;

    spec fn pie_spec(&self) -> PIE;

    spec fn fortify_spec(&self) -> bool;

    spec fn rwx_spec(&self) -> bool;

    /// Machine, bit width and byte order, for display.
    fn arch(&self) -> (r: String)
        ensures
            r@ == self.arch_spec(),
    ;

    /// The fixed load address of a binary that is not a shared object.
    fn address(&self) -> (r: u64)
        ensures
            r == self.address_spec(),
    ;

    fn has_relro(&self) -> (r: Relro)
        ensures
            r == self.relro_spec(),
    ;

    fn has_canary(&self) -> (r: bool)
        ensures
            r == self.canary_spec(),
    ;

    fn has_nx(&self) -> (r: bool)
        ensures
            r == self.nx_spec(),
    ;

    fn has_pie(&self) -> (r: PIE)
        ensures
            r == self.pie_spec(),
    ;

    fn has_fortify(&self) -> (r: bool)
        ensures
            r == self.fortify_spec(),
    ;

    fn has_rwx_segments(&self) -> (r: bool)
        ensures
            r == self.rwx_spec(),
    ;
}

/// Whether some program header has type `t`.
pub fn find_segment(phs: &Vec<ProgramHeader>, t: u32) -> (r: bool)
    ensures
        r == has_segment(phs@, t),
{
    let mut i: usize = 0;
    while i < phs.len()
        invariant
            i <= phs@.len(),
            forall|j: int| 0 <= j < i ==> #[trigger] phs@[j].p_type != t,
        decreases phs@.len() - i,
    {
        if phs[i].p_type == t {
            return true;
        }
        i = i + 1;
    }
    false
}

/// Whether some entry among `dyns` asks for every symbol to be bound at load
/// time.
pub fn find_bind_now(dyns: &Vec<Dyn>) -> (r: bool)
    ensures
        r == (exists|k: int| 0 <= k < dyns@.len() && is_bind_now(#[trigger] dyns@[k])),
{
    let mut k: usize = 0;
    while k < dyns.len()
        invariant
            k <= dyns@.len(),
            forall|l: int| 0 <= l < k ==> !is_bind_now(#[trigger] dyns@[l]),
        decreases dyns@.len() - k,
    {
        let e = dyns[k];
        let now = if e.d_tag == DT_BIND_NOW {
            true
        } else if e.d_tag == DT_FLAGS {
            e.d_val & DF_BIND_NOW != 0
        } else if e.d_tag == DT_FLAGS_1 {
            e.d_val & DF_1_NOW != 0
        } else {
            false
        };
        if now {
            assert(is_bind_now(dyns@[k as int]));
            return true;
        }
        k = k + 1;
    }
    false
}

/// Whether a recognised stack-protector symbol is among `names`.
pub fn find_canary(names: &Vec<String>) -> (r: bool)
    ensures
        r == names_have_canary(names_of(*names)),
{
    let fail = String::from_str("__stack_chk_fail");
    let cookie = String::from_str("__intel_security_cookie");
    let mut i: usize = 0;
    while i < names.len()
        invariant
            i <= names@.len(),
            fail@ == "__stack_chk_fail"@,
            cookie@ == "__intel_security_cookie"@,
            forall|j: int| 0 <= j < i ==> !is_canary_symbol(#[trigger] names_of(*names)[j]),
        decreases names@.len() - i,
    {
        if names[i] == fail || names[i] == cookie {
            assert(is_canary_symbol(names_of(*names)[i as int]));
            return true;
        }
        i = i + 1;
    }
    false
}

/// Whether some name among `names` ends with "_chk".
pub fn find_fortify(names: &Vec<String>) -> (r: bool)
    ensures
        r == names_have_fortify(names_of(*names)),
{
    let mut i: usize = 0;
    while i < names.len()
        invariant
            i <= names@.len(),
            forall|j: int| 0 <= j < i ==> !is_fortified_symbol(#[trigger] names_of(*names)[j]),
        decreases names@.len() - i,
    {
        if ends_with(names[i].as_str(), "_chk") {
            proof {
                reveal_strlit("_chk");
            }
            assert(is_fortified_symbol(names_of(*names)[i as int]));
            return true;
        }
        proof {
            reveal_strlit("_chk");
        }
        i = i + 1;
    }
    false
}

/// The stack rule: the first stack header decides; without one the stack
/// is taken to be executable.
pub fn find_nx(phs: &Vec<ProgramHeader>) -> (r: bool)
    ensures
        r == nx_of(phs@),
{
    let mut i: usize = 0;
    while i < phs.len()
        invariant
            i <= phs@.len(),
            forall|j: int| 0 <= j < i ==> #[trigger] phs@[j].p_type != PT_GNU_STACK,
        decreases phs@.len() - i,
    {
        if phs[i].p_type == PT_GNU_STACK {
            assert(is_first_stack(phs@, i as int));
            proof {
                assert forall|m: int| #[trigger] is_first_stack(phs@, m) implies m == i by {
                    if m < i {
                    } else if m > i {
                        assert(phs@[i as int].p_type == PT_GNU_STACK);
                    }
                }
            }
            return phs[i].p_flags != PF_R + PF_W + PF_X;
        }
        i = i + 1;
    }
    false
}

/// Whether some segment is writable and executable, given the stack rule's
/// result `nx`.
pub fn find_rwx(phs: &Vec<ProgramHeader>, nx: bool) -> (r: bool)
    ensures
        r == (exists|i: int| 0 <= i < phs@.len() && #[trigger] is_rwx(phs@[i], nx)),
{
    let mut i: usize = 0;
    while i < phs.len()
        invariant
            i <= phs@.len(),
            forall|j: int| 0 <= j < i ==> !#[trigger] is_rwx(phs@[j], nx),
        decreases phs@.len() - i,
    {
        let f = phs[i].p_flags;
        if f & PF_W != 0 && (f & PF_R != 0 && f & PF_X != 0 || !nx) {
            assert(is_rwx(phs@[i as int], nx));
            return true;
        }
        i = i + 1;
    }
    false
}

/// The lowest non-zero address of a loadable segment, 0 where there is none.
pub fn find_lowest_load(phs: &Vec<ProgramHeader>) -> (r: u64)
    ensures
        r == lowest_load(phs@),
{
    let mut addr: u64 = 0;
    let mut i: usize = 0;
    while i < phs.len()
        invariant
            i <= phs@.len(),
            addr == lowest_load(phs@.subrange(0, i as int)),
        decreases phs@.len() - i,
    {
        let p = phs[i];
        assert(phs@.subrange(0, i + 1).drop_last() =~= phs@.subrange(0, i as int));
        if p.p_type == PT_LOAD && p.p_vaddr != 0 && (addr == 0 || p.p_vaddr < addr) {
            addr = p.p_vaddr;
        }
        i = i + 1;
    }
    assert(phs@.subrange(0, i as int) =~= phs@);
    addr
}

impl Properties for ElfMetadata {
    open spec fn arch_spec(&self) -> Seq<char> {
        arch_of(self.header, self.little_endian)
    }

    open spec fn address_spec(&self) -> u64 {
        address_of(self.header.e_type, self.program_headers@)
    }

    open spec fn relro_spec(&self) -> Relro {
        relro_of(self.program_headers@, self.dynamic)
    }

    open spec fn canary_spec(&self) -> bool {
        canary_of(self.dynstrtab)
    }

    open spec fn nx_spec(&self) -> bool {
        nx_of(self.program_headers@)
    }

    open spec fn pie_spec(&self) -> PIE {
        pie_of(self.header.e_type, self.dynamic)
    }

    open spec fn fortify_spec(&self) -> bool {
        fortify_of(self.dynstrtab)
    }

    open spec fn rwx_spec(&self) -> bool {
        rwx_of(self.program_headers@)
    }

    fn arch(&self) -> (r: String) {
        let machine = machine_label(self.header.e_machine);
        proof {
            reveal_strlit("ELF");
        }
        let class = remove_all(class_label(self.header.ei_class), "ELF");
        let endian = if self.little_endian {
            "little"
        } else {
            "big"
        };
        let mut r = String::from_str(machine);
        r.append("-");
        r.append(class.as_str());
        r.append("-");
        r.append(endian);
        r
    }

    fn address(&self) -> (r: u64) {
        if self.header.e_type == ET_DYN {
            0
        } else {
            find_lowest_load(&self.program_headers)
        }
    }

    fn has_relro(&self) -> (r: Relro) {
        if !find_segment(&self.program_headers, PT_GNU_RELRO) {
            return Relro::NoRelro;
        }
        let bind_now = match &self.dynamic {
            Some(d) => find_bind_now(&d.dyns),
            None => false,
        };
        if bind_now {
            Relro::Full
        } else {
            Relro::Partial
        }
    }

    fn has_canary(&self) -> (r: bool) {
        match &self.dynstrtab {
            Some(names) => find_canary(names),
            None => false,
        }
    }

    fn has_nx(&self) -> (r: bool) {
        find_nx(&self.program_headers)
    }

    fn has_pie(&self) -> (r: PIE) {
        match self.header.e_type {
            ET_EXEC => PIE::NoPie,
            ET_REL => PIE::REL,
            ET_DYN => {
                if let Some(d) = &self.dynamic {
                    if d.flags_1 & DF_1_PIE == DF_1_PIE {
                        return PIE::PIE;
                    }
                }
                PIE::DSO
            },
            _ => PIE::NoPie,
        }
    }

    fn has_fortify(&self) -> (r: bool) {
        match &self.dynstrtab {
            Some(names) => find_fortify(names),
            None => false,
        }
    }

    fn has_rwx_segments(&self) -> (r: bool) {
        let nx = self.has_nx();
        find_rwx(&self.program_headers, nx)
    }
}

} // verus!
