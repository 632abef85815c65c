//! What an exception syndrome says, bit by bit.
use crate::foreign::aarch64::{class_of, kind_of, lower_el_record};
use vstd::prelude::*;

verus! {

/// The class of a syndrome is its bits 26 to 31.
pub proof fn class_is_bits_26_to_31(esr: u64)
    ensures
        class_of(esr) == (esr >> 26) & 0x3f,
        0 <= class_of(esr) < 64,
{
    assert((esr >> 26) & 0x3f == (esr / 0x400_0000) % 64) by (bit_vector);
}

/// Two syndromes that agree in bits 26 to 31 have one class and one kind,
/// whatever their other bits are.
pub proof fn kind_depends_on_class_bits_alone(a: u64, b: u64)
    requires
        a & 0xfc00_0000 == b & 0xfc00_0000,
    ensures
        class_of(a) == class_of(b),
        kind_of(a) == kind_of(b),
{
    assert((a / 0x400_0000) % 64 == (b / 0x400_0000) % 64) by (bit_vector)
        requires
            a & 0xfc00_0000 == b & 0xfc00_0000,
    ;
}

/// Each kind with the classes it stands for: one is a supervisor call, two a
/// data abort, three an instruction abort, four an illegal instruction, five a
/// breakpoint, and every other class is the all-ones kind. Nothing below or
/// above the class bits plays a part.
pub proof fn kinds_are_told_by_class(esr: u64, class: u64)
    requires
        class == (esr >> 26) & 0x3f,
    ensures
        kind_of(esr) == 1 <==> class == 0x15,
        kind_of(esr) == 2 <==> class == 0x24 || class == 0x25,
        kind_of(esr) == 3 <==> class == 0x20 || class == 0x21,
        kind_of(esr) == 4 <==> class == 0,
        kind_of(esr) == 5 <==> class == 0x30 || class == 0x31 || class == 0x3c,
        kind_of(esr) == 0xffff_ffff <==> !(class == 0 || class == 0x15 || class == 0x20 || class
            == 0x21 || class == 0x24 || class == 0x25 || class == 0x30 || class == 0x31 || class
            == 0x3c),
        kind_of(esr) != 0,
{
    class_is_bits_26_to_31(esr);
}

/// A record keeps the syndrome and the return address that were reported, and
/// names the kind of that syndrome.
pub proof fn record_keeps_syndrome_and_pc(esr: u64, far: u64, pc: u64)
    ensures
        lower_el_record(esr, far, pc).esr == esr,
        lower_el_record(esr, far, pc).pc == pc,
        lower_el_record(esr, far, pc).kind == kind_of(esr),
{
}

/// The fault address survives exactly for an instruction or data abort whose
/// bit 10 is clear. Such a record has both flags set and the address as it was
/// reported; every other record has the lower-level flag alone and address
/// zero.
pub proof fn record_keeps_far_of_aborts(esr: u64, far: u64, pc: u64, class: u64)
    requires
        class == (esr >> 26) & 0x3f,
    ensures
        (class == 0x20 || class == 0x21 || class == 0x24 || class == 0x25) && esr & 0x400 == 0
            ==> lower_el_record(esr, far, pc).far == far && lower_el_record(esr, far, pc).flags
            == 3,
        !((class == 0x20 || class == 0x21 || class == 0x24 || class == 0x25) && esr & 0x400 == 0)
            ==> lower_el_record(esr, far, pc).far == 0 && lower_el_record(esr, far, pc).flags == 2,
{
    kinds_are_told_by_class(esr, class);
    assert((esr & 0x400 == 0) == ((esr / 0x400) % 2 == 0)) by (bit_vector);
}

/// Syndromes that agree in the class bits and in bit 10 are recorded alike:
/// fault status and the rest of the syndrome change nothing but the copy of
/// the syndrome itself.
pub proof fn record_depends_on_class_and_far_bit(a: u64, b: u64, far: u64, pc: u64)
    requires
        a & 0xfc00_0400 == b & 0xfc00_0400,
    ensures
        lower_el_record(a, far, pc).kind == lower_el_record(b, far, pc).kind,
        lower_el_record(a, far, pc).flags == lower_el_record(b, far, pc).flags,
        lower_el_record(a, far, pc).far == lower_el_record(b, far, pc).far,
        lower_el_record(a, far, pc).pc == lower_el_record(b, far, pc).pc,
{
    assert(a & 0xfc00_0000 == b & 0xfc00_0000 && (a / 0x400) % 2 == (b / 0x400) % 2)
        by (bit_vector)
        requires
            a & 0xfc00_0400 == b & 0xfc00_0400,
    ;
    kind_depends_on_class_bits_alone(a, b);
}

} // verus!
