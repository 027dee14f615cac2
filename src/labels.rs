//! Names and text operations that come from outside this crate.

use vstd::prelude::*;

verus! {

/// The name that goblin gives to an ELF machine number.
pub uninterp spec fn machine_name(m: u16) -> Seq<char>;

/// `s` with every occurrence of `p` removed, matched from the left without
/// overlap.
pub open spec fn without_pattern(s: Seq<char>, p: Seq<char>) -> Seq<char>
    decreases s.len(),
{
    if p.len() == 0 || s.len() < p.len() {
        s
    } else if s.subrange(0, p.len() as int) == p {
        without_pattern(s.subrange(p.len() as int, s.len() as int), p)
    } else {
        seq![s[0]] + without_pattern(s.subrange(1, s.len() as int), p)
    }
}

/// The name that goblin gives to an ELF class byte.
pub open spec fn class_name(c: u8) -> Seq<char> {
    if c == 0 {
        "NONE"@
    } else if c == 1 {
        "ELF32"@
    } else if c == 2 {
        "ELF64"@
    } else {
        "UNKNOWN_CLASS"@
    }
}

/// The bit width that the architecture label shows: the class name without
/// its "ELF" prefix.
pub proof fn lemma_bit_width_labels()
    ensures
        without_pattern(class_name(1), "ELF"@) == "32"@,
        without_pattern(class_name(2), "ELF"@) == "64"@,
{
    reveal_strlit("ELF32");
    reveal_strlit("ELF64");
    reveal_strlit("ELF");
    reveal_strlit("32");
    reveal_strlit("64");
    let s32 = "ELF32"@;
    let s64 = "ELF64"@;
    assert(s32.subrange(0, 3) =~= "ELF"@);
    assert(s64.subrange(0, 3) =~= "ELF"@);
    assert(s32.subrange(3, 5) =~= "32"@);
    assert(s64.subrange(3, 5) =~= "64"@);
    assert(without_pattern("32"@, "ELF"@) == "32"@);
    assert(without_pattern("64"@, "ELF"@) == "64"@);
}

/// Relies on goblin::elf::header::machine_to_str: the name of a machine number,
/// which depends on the number alone.
#[verifier::external_body]
pub(crate) fn machine_label(m: u16) -> (r: &'static str)
    ensures
        r@ == machine_name(m),
{
    goblin::elf::header::machine_to_str(m)
}

/// Relies on goblin::elf::header::class_to_str: "NONE", "ELF32", "ELF64" for
/// the classes 0, 1, 2, and "UNKNOWN_CLASS" otherwise.
#[verifier::external_body]
pub(crate) fn class_label(c: u8) -> (r: &'static str)
    ensures
        r@ == class_name(c),
{
    goblin::elf::header::class_to_str(c)
}

/// Relies on str::replace with an empty replacement: `s` with every
/// occurrence of `pat` removed.
#[verifier::external_body]
pub(crate) fn remove_all(s: &str, pat: &str) -> (r: String)
    requires
        pat@.len() > 0,
    ensures
        r@ == without_pattern(s@, pat@),
{
    s.replace(pat, "")
}

/// Relies on str::ends_with: whether `suffix` is a suffix of `s`.
#[verifier::external_body]
pub(crate) fn ends_with(s: &str, suffix: &str) -> (r: bool)
    ensures
        r == (suffix@.len() <= s@.len() && s@.subrange(s@.len() - suffix@.len(), s@.len() as int)
            == suffix@),
{
    s.ends_with(suffix)
}

} // verus!
