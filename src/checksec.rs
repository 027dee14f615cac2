//! The security profile of one binary, and the laws that hold of it.

use vstd::prelude::*;

use crate::elf::{
    binds_now, has_flag, has_segment, is_canary_symbol, is_first_stack, is_fortified_symbol,
    is_placed_load, is_rwx, lowest_load, names_have_canary, names_have_fortify, nx_of,
    ElfMetadata, ProgramHeader, Properties, Relro, DF_1_PIE, ET_DYN, ET_EXEC, ET_REL, PF_R, PF_W,
    PF_X, PIE, PT_GNU_RELRO, PT_GNU_STACK,
};

verus! {

/// The mitigations found in one binary. Built once by `parse`, never changed.
#[derive(Clone, Debug)]
pub struct CheckSecResults {
    pub arch: String,
    pub relro: Relro,
    pub canary: bool,
    pub nx: bool,
    pub pie: PIE,
    pub fortify: bool,
    /// The fixed load address; meaningful only where `pie` is `NoPie`.
    pub address: u64,
    pub rwx_segments: bool,
}

impl CheckSecResults {
    /// Whether `self` is the profile of `elf`.
    pub open spec fn is_profile_of(&self, elf: &ElfMetadata) -> bool {
        &&& self.arch@ == elf.arch_spec()
        &&& self.relro == elf.relro_spec()
        &&& self.canary == elf.canary_spec()
        &&& self.nx == elf.nx_spec()
        &&& self.pie == elf.pie_spec()
        &&& self.fortify == elf.fortify_spec()
        &&& self.address == elf.address_spec()
        &&& self.rwx_segments == elf.rwx_spec()
    }

    /// Derives every property of `elf`.
    pub fn parse(elf: &ElfMetadata) -> (r: Self)
        ensures
            r.is_profile_of(elf),
    {
        CheckSecResults {
            arch: elf.arch(),
            relro: elf.has_relro(),
            canary: elf.has_canary(),
            nx: elf.has_nx(),
            pie: elf.has_pie(),
            fortify: elf.has_fortify(),
            address: elf.address(),
            rwx_segments: elf.has_rwx_segments(),
        }
    }
}


/// Without a stack header the stack is taken to be executable: NX is off.
pub proof fn lemma_no_stack_header_no_nx(elf: &ElfMetadata)
    requires
        !has_segment(elf.program_headers@, PT_GNU_STACK),
    ensures
        !elf.nx_spec(),
{
    let phs = elf.program_headers@;
    assert forall|i: int| !#[trigger] is_first_stack(phs, i) by {
        if 0 <= i < phs.len() && phs[i].p_type == PT_GNU_STACK {
            assert(has_segment(phs, PT_GNU_STACK));
        }
    }
}

/// Where the stack header grants exactly read, write and execute, NX is off;
/// with any other permissions on it, NX is on.
pub proof fn lemma_stack_flags_decide_nx(elf: &ElfMetadata, i: int)
    requires
        is_first_stack(elf.program_headers@, i),
    ensures
        elf.nx_spec() == (elf.program_headers@[i].p_flags != PF_R + PF_W + PF_X),
{
    let phs = elf.program_headers@;
    assert forall|m: int| #[trigger] is_first_stack(phs, m) implies m == i by {
        if m < i {
            assert(phs[m].p_type == PT_GNU_STACK);
        } else if m > i {
            assert(phs[i].p_type == PT_GNU_STACK);
        }
    }
}

/// RELRO: a RELRO segment with a bind-now entry is full; a RELRO segment
/// without one, or without a dynamic section, is partial; no RELRO segment
/// means none, whatever the dynamic flags say.
pub proof fn lemma_relro_classes(elf: &ElfMetadata)
    ensures
        has_segment(elf.program_headers@, PT_GNU_RELRO) && binds_now(elf.dynamic)
            ==> elf.relro_spec() == Relro::Full,
        has_segment(elf.program_headers@, PT_GNU_RELRO) && !binds_now(elf.dynamic)
            ==> elf.relro_spec() == Relro::Partial,
        has_segment(elf.program_headers@, PT_GNU_RELRO) && elf.dynamic is None
            ==> elf.relro_spec() == Relro::Partial,
        !has_segment(elf.program_headers@, PT_GNU_RELRO) ==> elf.relro_spec() == Relro::NoRelro,
        elf.relro_spec() == Relro::Full ==> has_segment(elf.program_headers@, PT_GNU_RELRO)
            && binds_now(elf.dynamic),
{
}

/// PIE: an executable is never PIE; a shared object is a PIE exactly when its
/// second flags word carries the PIE bit, an ordinary shared object otherwise;
/// a relocatable object is classed as relocatable.
pub proof fn lemma_pie_classes(elf: &ElfMetadata)
    ensures
        elf.header.e_type == ET_EXEC ==> elf.pie_spec() == PIE::NoPie,
        elf.header.e_type == ET_REL ==> elf.pie_spec() == PIE::REL,
        elf.header.e_type == ET_DYN ==> (elf.pie_spec() == PIE::PIE <==> (elf.dynamic matches Some(
            d,
        ) && d.flags_1 & DF_1_PIE == DF_1_PIE)),
        elf.header.e_type == ET_DYN ==> (elf.pie_spec() == PIE::PIE || elf.pie_spec() == PIE::DSO),
{
}

/// RWX: a segment that is readable, writable and executable always counts; a
/// writable segment that is not executable counts exactly when NX is off.
pub proof fn lemma_rwx_classes(elf: &ElfMetadata, i: int)
    requires
        0 <= i < elf.program_headers@.len(),
    ensures
        ({
            let p = elf.program_headers@[i];
            has_flag(p.p_flags, PF_W) && has_flag(p.p_flags, PF_R) && has_flag(p.p_flags, PF_X)
                ==> elf.rwx_spec()
        }),
        ({
            let p = elf.program_headers@[i];
            has_flag(p.p_flags, PF_W) && !has_flag(p.p_flags, PF_X)
                ==> (is_rwx(p, elf.nx_spec()) <==> !elf.nx_spec())
        }),
        has_flag(elf.program_headers@[i].p_flags, PF_W) && !elf.nx_spec() ==> elf.rwx_spec(),
        elf.nx_spec() && (forall|j: int|
            0 <= j < elf.program_headers@.len() ==> !has_flag(
                #[trigger] elf.program_headers@[j].p_flags,
                PF_X,
            )) ==> !elf.rwx_spec(),
{
    let phs = elf.program_headers@;
    if has_flag(phs[i].p_flags, PF_W) && ((has_flag(phs[i].p_flags, PF_R) && has_flag(
        phs[i].p_flags,
        PF_X,
    )) || !nx_of(phs)) {
        assert(is_rwx(phs[i], nx_of(phs)));
    }
    if nx_of(phs) && (forall|j: int| 0 <= j < phs.len() ==> !has_flag(#[trigger] phs[j].p_flags, PF_X)) {
        assert forall|j: int| 0 <= j < phs.len() implies !#[trigger] is_rwx(phs[j], nx_of(phs)) by {
            assert(!has_flag(phs[j].p_flags, PF_X));
        }
    }
}

/// Symbol detection only grows with the symbol set: names added to a set in
/// which a canary or fortified symbol was found leave it found.
pub proof fn lemma_symbols_monotonic(names: Seq<Seq<char>>, more: Seq<Seq<char>>)
    ensures
        names_have_canary(names) ==> names_have_canary(names + more),
        names_have_fortify(names) ==> names_have_fortify(names + more),
{
    if names_have_canary(names) {
        let i = choose|i: int| 0 <= i < names.len() && #[trigger] is_canary_symbol(names[i]);
        assert((names + more)[i] == names[i]);
    }
    if names_have_fortify(names) {
        let i = choose|i: int| 0 <= i < names.len() && #[trigger] is_fortified_symbol(names[i]);
        assert((names + more)[i] == names[i]);
    }
}

/// Adding a recognised canary symbol to a set without one makes the canary
/// found, and adding it a second time changes nothing.
pub proof fn lemma_canary_symbol_added(names: Seq<Seq<char>>, s: Seq<char>)
    requires
        is_canary_symbol(s),
    ensures
        !names_have_canary(names) ==> names_have_canary(names.push(s)),
        names_have_canary(names.push(s)),
        names_have_canary(names.push(s).push(s)) == names_have_canary(names.push(s)),
{
    assert(names.push(s)[names.len() as int] == s);
    assert(names.push(s).push(s)[names.len() as int] == s);
}

/// A statically linked executable with no dynamic section, no string table,
/// no stack header and no RELRO segment has no RELRO, no canary, no NX, no
/// PIE and no FORTIFY, and has an RWX segment exactly when some segment is
/// writable, since NX is off.
pub proof fn lemma_static_executable(elf: &ElfMetadata)
    requires
        elf.header.e_type == ET_EXEC,
        elf.dynamic is None,
        elf.dynstrtab is None,
        !has_segment(elf.program_headers@, PT_GNU_STACK),
        !has_segment(elf.program_headers@, PT_GNU_RELRO),
    ensures
        elf.relro_spec() == Relro::NoRelro,
        !elf.canary_spec(),
        !elf.nx_spec(),
        elf.pie_spec() == PIE::NoPie,
        !elf.fortify_spec(),
        elf.rwx_spec() == (exists|i: int|
            0 <= i < elf.program_headers@.len() && has_flag(
                #[trigger] elf.program_headers@[i].p_flags,
                PF_W,
            )),
{
    lemma_no_stack_header_no_nx(elf);
    let phs = elf.program_headers@;
    if elf.rwx_spec() {
        let i = choose|i: int| 0 <= i < phs.len() && #[trigger] is_rwx(phs[i], nx_of(phs));
        assert(has_flag(phs[i].p_flags, PF_W));
    }
    if exists|i: int| 0 <= i < phs.len() && has_flag(#[trigger] phs[i].p_flags, PF_W) {
        let i = choose|i: int| 0 <= i < phs.len() && has_flag(#[trigger] phs[i].p_flags, PF_W);
        assert(is_rwx(phs[i], nx_of(phs)));
    }
}

/// A shared object has base address 0, whatever its segments.
pub proof fn lemma_shared_object_address(elf: &ElfMetadata)
    requires
        elf.header.e_type == ET_DYN,
    ensures
        elf.address_spec() == 0,
{
}

/// The lowest address of a loadable segment: it is 0 where no loadable
/// segment has a non-zero address, and otherwise the address of such a
/// segment and at most that of every other.
pub proof fn lemma_lowest_load(phs: Seq<ProgramHeader>)
    ensures
        (forall|i: int| 0 <= i < phs.len() ==> !#[trigger] is_placed_load(phs[i]))
            ==> lowest_load(phs) == 0,
        (exists|i: int| 0 <= i < phs.len() && #[trigger] is_placed_load(phs[i])) ==> {
            &&& exists|i: int|
                0 <= i < phs.len() && #[trigger] is_placed_load(phs[i]) && phs[i].p_vaddr
                    == lowest_load(phs)
            &&& forall|i: int|
                0 <= i < phs.len() && #[trigger] is_placed_load(phs[i]) ==> lowest_load(phs)
                    <= phs[i].p_vaddr
        },
    decreases phs.len(),
{
    if phs.len() > 0 {
        let rest = phs.drop_last();
        lemma_lowest_load(rest);
        assert forall|i: int| 0 <= i < rest.len() implies #[trigger] rest[i] == phs[i] by {}
        let n = phs.len() - 1;
        if exists|i: int| 0 <= i < phs.len() && #[trigger] is_placed_load(phs[i]) {
            let i = choose|i: int| 0 <= i < phs.len() && #[trigger] is_placed_load(phs[i]);
            if i < n {
                assert(is_placed_load(rest[i]));
            }
        }
        if exists|i: int| 0 <= i < rest.len() && #[trigger] is_placed_load(rest[i]) {
            let w = choose|i: int|
                0 <= i < rest.len() && #[trigger] is_placed_load(rest[i]) && rest[i].p_vaddr
                    == lowest_load(rest);
            assert(rest[w] == phs[w]);
            assert(lowest_load(rest) != 0);
            if lowest_load(phs) == lowest_load(rest) {
                assert(is_placed_load(phs[w]) && phs[w].p_vaddr == lowest_load(phs));
            } else {
                assert(is_placed_load(phs[n]) && phs[n].p_vaddr == lowest_load(phs));
            }
        } else if is_placed_load(phs[n]) {
            assert(phs[n].p_vaddr == lowest_load(phs));
        }
        if forall|i: int| 0 <= i < phs.len() ==> !#[trigger] is_placed_load(phs[i]) {
            assert forall|i: int| 0 <= i < rest.len() implies !#[trigger] is_placed_load(rest[i]) by {
                assert(rest[i] == phs[i]);
            }
        }
        assert forall|i: int| 0 <= i < phs.len() && #[trigger] is_placed_load(phs[i]) implies (
        lowest_load(phs) <= phs[i].p_vaddr) by {
            if i < n {
                assert(rest[i] == phs[i]);
                assert(is_placed_load(rest[i]));
            }
        }
    }
}

} // verus!
