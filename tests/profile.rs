use checksec::checksec::CheckSecResults;
use checksec::elf::{
    Dyn, Dynamic, ElfMetadata, Header, ProgramHeader, Properties, Relro, DF_1_NOW, DF_1_PIE,
    DF_BIND_NOW, DT_BIND_NOW, DT_FLAGS, DT_FLAGS_1, ET_DYN, ET_EXEC, ET_REL, PF_R, PF_W, PF_X,
    PIE, PT_GNU_RELRO, PT_GNU_STACK, PT_LOAD,
};
use checksec::object::{checksec, inspect, CheckSecError, Inspection, ObjectKind};
use goblin::elf::{dynamic, header, program_header};

fn ph(p_type: u32, p_flags: u32, p_vaddr: u64) -> ProgramHeader {
    ProgramHeader { p_type, p_flags, p_vaddr }
}

fn meta(e_type: u16, phs: Vec<ProgramHeader>) -> ElfMetadata {
    ElfMetadata {
        header: Header { e_type, e_machine: 62, ei_class: 2 },
        little_endian: true,
        program_headers: phs,
        dynamic: None,
        dynstrtab: None,
    }
}

fn names(list: &[&str]) -> Option<Vec<String>> {
    Some(list.iter().map(|s| s.to_string()).collect())
}

#[test]
fn constants_agree_with_goblin() {
    assert_eq!(PT_LOAD, program_header::PT_LOAD);
    assert_eq!(PT_GNU_STACK, program_header::PT_GNU_STACK);
    assert_eq!(PT_GNU_RELRO, program_header::PT_GNU_RELRO);
    assert_eq!(PF_R, program_header::PF_R);
    assert_eq!(PF_W, program_header::PF_W);
    assert_eq!(PF_X, program_header::PF_X);
    assert_eq!(DT_BIND_NOW, dynamic::DT_BIND_NOW);
    assert_eq!(DT_FLAGS, dynamic::DT_FLAGS);
    assert_eq!(DT_FLAGS_1, dynamic::DT_FLAGS_1);
    assert_eq!(DF_BIND_NOW, dynamic::DF_BIND_NOW);
    assert_eq!(DF_1_NOW, dynamic::DF_1_NOW);
    assert_eq!(DF_1_PIE, dynamic::DF_1_PIE);
    assert_eq!(ET_REL, header::ET_REL);
    assert_eq!(ET_EXEC, header::ET_EXEC);
    assert_eq!(ET_DYN, header::ET_DYN);
}

#[test]
fn nx_off_without_stack_header() {
    let e = meta(ET_EXEC, vec![ph(PT_LOAD, PF_R | PF_X, 0x400000)]);
    assert!(!e.has_nx());
}

#[test]
fn nx_decided_by_stack_flags() {
    let rwx = meta(ET_EXEC, vec![ph(PT_GNU_STACK, PF_R | PF_W | PF_X, 0)]);
    assert!(!rwx.has_nx());
    let rw = meta(ET_EXEC, vec![ph(PT_GNU_STACK, PF_R | PF_W, 0)]);
    assert!(rw.has_nx());
    let wx = meta(ET_EXEC, vec![ph(PT_GNU_STACK, PF_W | PF_X, 0)]);
    assert!(wx.has_nx());
    // the first stack header decides
    let two = meta(
        ET_EXEC,
        vec![ph(PT_GNU_STACK, PF_R | PF_W, 0), ph(PT_GNU_STACK, PF_R | PF_W | PF_X, 0)],
    );
    assert!(two.has_nx());
}

#[test]
fn relro_classes() {
    let mut e = meta(ET_DYN, vec![ph(PT_GNU_RELRO, PF_R, 0)]);
    assert_eq!(e.has_relro(), Relro::Partial);
    e.dynamic = Some(Dynamic { dyns: vec![Dyn { d_tag: 1, d_val: 5 }], flags_1: 0 });
    assert_eq!(e.has_relro(), Relro::Partial);
    e.dynamic = Some(Dynamic { dyns: vec![Dyn { d_tag: DT_BIND_NOW, d_val: 0 }], flags_1: 0 });
    assert_eq!(e.has_relro(), Relro::Full);
    e.dynamic = Some(Dynamic { dyns: vec![Dyn { d_tag: DT_FLAGS, d_val: DF_BIND_NOW }], flags_1: 0 });
    assert_eq!(e.has_relro(), Relro::Full);
    e.dynamic = Some(Dynamic { dyns: vec![Dyn { d_tag: DT_FLAGS, d_val: DF_1_NOW }], flags_1: 0 });
    assert_eq!(e.has_relro(), Relro::Partial);
    e.dynamic = Some(Dynamic {
        dyns: vec![Dyn { d_tag: DT_FLAGS_1, d_val: DF_1_NOW }],
        flags_1: DF_1_NOW,
    });
    assert_eq!(e.has_relro(), Relro::Full);
    let mut none = meta(ET_DYN, vec![ph(PT_LOAD, PF_R, 0)]);
    none.dynamic = Some(Dynamic { dyns: vec![Dyn { d_tag: DT_BIND_NOW, d_val: 0 }], flags_1: 0 });
    assert_eq!(none.has_relro(), Relro::NoRelro);
}

#[test]
fn pie_classes() {
    assert_eq!(meta(ET_EXEC, vec![]).has_pie(), PIE::NoPie);
    assert_eq!(meta(ET_REL, vec![]).has_pie(), PIE::REL);
    assert_eq!(meta(4, vec![]).has_pie(), PIE::NoPie);
    let mut so = meta(ET_DYN, vec![]);
    assert_eq!(so.has_pie(), PIE::DSO);
    so.dynamic = Some(Dynamic { dyns: vec![], flags_1: DF_1_NOW });
    assert_eq!(so.has_pie(), PIE::DSO);
    so.dynamic = Some(Dynamic { dyns: vec![], flags_1: DF_1_PIE | DF_1_NOW });
    assert_eq!(so.has_pie(), PIE::PIE);
}

#[test]
fn rwx_classes() {
    let full = meta(ET_EXEC, vec![ph(PT_GNU_STACK, PF_R | PF_W, 0), ph(PT_LOAD, PF_R | PF_W | PF_X, 0)]);
    assert!(full.has_rwx_segments());
    let w_nx = meta(ET_EXEC, vec![ph(PT_GNU_STACK, PF_R | PF_W, 0), ph(PT_LOAD, PF_W, 0)]);
    assert!(!w_nx.has_rwx_segments());
    let w_no_nx = meta(ET_EXEC, vec![ph(PT_LOAD, PF_W, 0)]);
    assert!(w_no_nx.has_rwx_segments());
    let ro = meta(ET_EXEC, vec![ph(PT_LOAD, PF_R | PF_X, 0)]);
    assert!(!ro.has_rwx_segments());
}

#[test]
fn canary_symbol_added() {
    let mut e = meta(ET_DYN, vec![]);
    assert!(!e.has_canary());
    e.dynstrtab = names(&["printf", "puts"]);
    assert!(!e.has_canary());
    e.dynstrtab = names(&["printf", "puts", "__stack_chk_fail"]);
    assert!(e.has_canary());
    e.dynstrtab = names(&["printf", "puts", "__stack_chk_fail", "__stack_chk_fail"]);
    assert!(e.has_canary());
    e.dynstrtab = names(&["__intel_security_cookie"]);
    assert!(e.has_canary());
    e.dynstrtab = names(&["__stack_chk_fail_local"]);
    assert!(!e.has_canary());
}

#[test]
fn fortify_suffix() {
    let mut e = meta(ET_DYN, vec![]);
    assert!(!e.has_fortify());
    e.dynstrtab = names(&["printf", "chk", "_ch"]);
    assert!(!e.has_fortify());
    e.dynstrtab = names(&["printf", "__memcpy_chk"]);
    assert!(e.has_fortify());
    e.dynstrtab = names(&["_chk"]);
    assert!(e.has_fortify());
}

#[test]
fn arch_label() {
    let e = meta(ET_EXEC, vec![]);
    assert_eq!(e.arch(), "X86_64-64-little");
    let mut b = meta(ET_EXEC, vec![]);
    b.header.e_machine = 8;
    b.header.ei_class = 1;
    b.little_endian = false;
    assert_eq!(b.arch(), "MIPS-32-big");
    b.header.ei_class = 0;
    assert_eq!(b.arch(), "MIPS-NONE-big");
}

#[test]
fn base_address() {
    let e = meta(ET_EXEC, vec![ph(PT_LOAD, PF_R | PF_X, 0x400000), ph(PT_LOAD, PF_R | PF_W, 0x401000)]);
    assert_eq!(e.address(), 0x400000);
    let rev = meta(ET_EXEC, vec![ph(PT_LOAD, PF_R, 0x401000), ph(PT_LOAD, PF_R, 0x400000)]);
    assert_eq!(rev.address(), 0x400000);
    let so = meta(ET_DYN, vec![ph(PT_LOAD, PF_R | PF_X, 0x400000), ph(PT_LOAD, PF_R | PF_W, 0x401000)]);
    assert_eq!(so.address(), 0);
    assert_eq!(meta(ET_EXEC, vec![ph(PT_GNU_STACK, PF_R, 0x1000)]).address(), 0);
    let zero = meta(ET_EXEC, vec![ph(PT_LOAD, PF_R, 0), ph(PT_LOAD, PF_R, 0x500000), ph(PT_LOAD, PF_R, 0)]);
    assert_eq!(zero.address(), 0x500000);
}

#[test]
fn static_executable_profile() {
    let e = meta(ET_EXEC, vec![ph(PT_LOAD, PF_R | PF_X, 0x400000), ph(PT_LOAD, PF_R | PF_W, 0x600000)]);
    let r = CheckSecResults::parse(&e);
    assert_eq!(r.relro, Relro::NoRelro);
    assert!(!r.canary);
    assert!(!r.nx);
    assert_eq!(r.pie, PIE::NoPie);
    assert!(!r.fortify);
    assert!(r.rwx_segments);
    assert_eq!(r.address, 0x400000);
    let ro = meta(ET_EXEC, vec![ph(PT_LOAD, PF_R | PF_X, 0x400000)]);
    assert!(!CheckSecResults::parse(&ro).rwx_segments);
}

#[test]
fn pie_shared_object_profile() {
    let mut e = meta(
        ET_DYN,
        vec![
            ph(PT_LOAD, PF_R | PF_X, 0),
            ph(PT_LOAD, PF_R | PF_W, 0x3000),
            ph(PT_GNU_RELRO, PF_R, 0x3000),
            ph(PT_GNU_STACK, PF_R | PF_W, 0),
        ],
    );
    e.dynamic = Some(Dynamic {
        dyns: vec![Dyn { d_tag: DT_FLAGS, d_val: DF_BIND_NOW }, Dyn { d_tag: DT_FLAGS_1, d_val: DF_1_PIE }],
        flags_1: DF_1_PIE,
    });
    e.dynstrtab = names(&["libc.so.6", "__stack_chk_fail", "__printf_chk", "main"]);
    let r = CheckSecResults::parse(&e);
    assert_eq!(r.relro, Relro::Full);
    assert!(r.canary);
    assert!(r.nx);
    assert_eq!(r.pie, PIE::PIE);
    assert!(r.fortify);
    assert!(!r.rwx_segments);
    assert_eq!(r.address, 0);
    assert_eq!(r.arch, "X86_64-64-little");
}

#[test]
fn inspect_other_format() {
    match inspect(&Err(ObjectKind::Unknown(7))) {
        Inspection::Unsupported(k) => assert_eq!(k, ObjectKind::Unknown(7)),
        _ => panic!("expected an unsupported format"),
    }
    match inspect(&Ok(meta(ET_REL, vec![]))) {
        Inspection::Elf(r) => assert_eq!(r.pie, PIE::REL),
        _ => panic!("expected a profile"),
    }
}

#[test]
fn too_short_is_malformed() {
    match checksec(&[0x7f, b'E', b'L', b'F']) {
        Err(CheckSecError::Malformed(m)) => assert!(!m.is_empty()),
        _ => panic!("expected a malformed input"),
    }
}

#[test]
fn unknown_magic_is_unsupported() {
    let bytes = [0xabu8; 32];
    assert!(matches!(checksec(&bytes), Ok(Inspection::Unsupported(_))));
}

fn minimal_elf() -> Vec<u8> {
    let mut b = vec![0u8; 64 + 2 * 56];
    b[0..4].copy_from_slice(&[0x7f, b'E', b'L', b'F']);
    b[4] = 2; // 64-bit
    b[5] = 1; // little endian
    b[6] = 1; // version
    b[16..18].copy_from_slice(&ET_EXEC.to_le_bytes());
    b[18..20].copy_from_slice(&62u16.to_le_bytes());
    b[20..24].copy_from_slice(&1u32.to_le_bytes());
    b[24..32].copy_from_slice(&0x401000u64.to_le_bytes());
    b[32..40].copy_from_slice(&64u64.to_le_bytes()); // program headers
    b[52..54].copy_from_slice(&64u16.to_le_bytes());
    b[54..56].copy_from_slice(&56u16.to_le_bytes());
    b[56..58].copy_from_slice(&2u16.to_le_bytes());
    b[58..60].copy_from_slice(&64u16.to_le_bytes());
    let load = |b: &mut Vec<u8>, at: usize, p_type: u32, flags: u32, vaddr: u64| {
        b[at..at + 4].copy_from_slice(&p_type.to_le_bytes());
        b[at + 4..at + 8].copy_from_slice(&flags.to_le_bytes());
        b[at + 16..at + 24].copy_from_slice(&vaddr.to_le_bytes());
        b[at + 24..at + 32].copy_from_slice(&vaddr.to_le_bytes());
        b[at + 48..at + 56].copy_from_slice(&0x1000u64.to_le_bytes());
    };
    load(&mut b, 64, PT_LOAD, PF_R | PF_X, 0x400000);
    load(&mut b, 120, PT_GNU_STACK, PF_R | PF_W, 0);
    b
}

#[test]
fn minimal_elf_is_read() {
    match checksec(&minimal_elf()) {
        Ok(Inspection::Elf(r)) => {
            assert_eq!(r.arch, "X86_64-64-little");
            assert_eq!(r.address, 0x400000);
            assert!(r.nx);
            assert_eq!(r.pie, PIE::NoPie);
            assert_eq!(r.relro, Relro::NoRelro);
            assert!(!r.canary);
            assert!(!r.fortify);
            assert!(!r.rwx_segments);
        }
        other => panic!("expected a profile, got {:?}", other),
    }
}
