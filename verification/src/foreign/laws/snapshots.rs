//! Which register states are snapshots, and what each refusal means.
use crate::foreign::aarch64::{
    Aarch64ExceptionState, Aarch64StateV1, Aarch64Vector, ValidationError,
};
use crate::foreign::laws::exceptions::{kinds_are_told_by_class, record_keeps_far_of_aborts};
use vstd::prelude::*;

verus! {

/// The header rules, in the order in which they are asked: magic, version,
/// architecture, size, flags. Each refusal comes exactly where its field is
/// wrong and those before it are right.
pub proof fn header_refusals(state: Aarch64StateV1)
    ensures
        state.snapshot_verdict() == Err::<(), _>(ValidationError::BadMagic)
            <==> state.header.magic != 0x4f4c_4f4c,
        state.snapshot_verdict() == Err::<(), _>(ValidationError::UnsupportedVersion)
            <==> state.header.magic == 0x4f4c_4f4c && state.header.version != 1,
        state.snapshot_verdict() == Err::<(), _>(ValidationError::WrongArchitecture)
            <==> state.header.magic == 0x4f4c_4f4c && state.header.version == 1
            && state.header.architecture != 1,
        state.snapshot_verdict() == Err::<(), _>(ValidationError::WrongSize)
            <==> state.header.magic == 0x4f4c_4f4c && state.header.version == 1
            && state.header.architecture == 1 && state.header.size != 896,
        state.snapshot_verdict() == Err::<(), _>(ValidationError::UnknownStateFlags)
            <==> state.header.magic == 0x4f4c_4f4c && state.header.version == 1
            && state.header.architecture == 1 && state.header.size == 896 && state.header.flags
            > 1,
{
}

/// Behind a good header, a tail word that is not zero is refused, whichever of
/// the five it is.
pub proof fn tail_refusals(state: Aarch64StateV1)
    requires
        state.header.magic == 0x4f4c_4f4c,
        state.header.version == 1,
        state.header.architecture == 1,
        state.header.size == 896,
        state.header.flags <= 1,
    ensures
        state.snapshot_verdict() == Err::<(), _>(ValidationError::NonzeroReserved)
            <==> state.reserved[0] != 0 || state.reserved[1] != 0 || state.reserved[2] != 0
            || state.reserved[3] != 0 || state.reserved[4] != 0,
{
}

/// Without the exception flag, a state is a snapshot exactly when every
/// exception field is zero.
pub proof fn plain_snapshots(state: Aarch64StateV1)
    requires
        state.header.magic == 0x4f4c_4f4c,
        state.header.version == 1,
        state.header.architecture == 1,
        state.header.size == 896,
        state.header.flags == 0,
        state.reserved[0] == 0 && state.reserved[1] == 0 && state.reserved[2] == 0
            && state.reserved[3] == 0 && state.reserved[4] == 0,
    ensures
        state.snapshot_verdict() == Ok::<(), ValidationError>(()) <==> state.exception.kind == 0
            && state.exception.flags == 0 && state.exception.esr == 0 && state.exception.far == 0
            && state.exception.pc == 0,
        state.snapshot_verdict() is Err ==> state.snapshot_verdict() == Err::<(), _>(
            ValidationError::InvalidExceptionRecord,
        ),
{
}

/// With the exception flag, a state is a snapshot exactly when the exception
/// fields describe one exception from a lower level: the kind is that of the
/// class bits, and the fault address is there and announced for an abort whose
/// bit 10 is clear, or neither there nor announced for all else. The return
/// address is free.
pub proof fn exception_snapshots(state: Aarch64StateV1, class: u64, far_is_valid: bool)
    requires
        state.header.magic == 0x4f4c_4f4c,
        state.header.version == 1,
        state.header.architecture == 1,
        state.header.size == 896,
        state.header.flags == 1,
        state.reserved[0] == 0 && state.reserved[1] == 0 && state.reserved[2] == 0
            && state.reserved[3] == 0 && state.reserved[4] == 0,
        class == (state.exception.esr >> 26) & 0x3f,
        far_is_valid == ((class == 0x20 || class == 0x21 || class == 0x24 || class == 0x25)
            && state.exception.esr & 0x400 == 0),
    ensures
        state.snapshot_verdict() == Ok::<(), ValidationError>(()) <==> {
            &&& state.exception.kind == (if class == 0x15 {
                1
            } else if class == 0x24 || class == 0x25 {
                2
            } else if class == 0x20 || class == 0x21 {
                3
            } else if class == 0 {
                4
            } else if class == 0x30 || class == 0x31 || class == 0x3c {
                5
            } else {
                0xffff_ffffu32
            })
            &&& far_is_valid ==> state.exception.flags == 3
            &&& !far_is_valid ==> state.exception.flags == 2 && state.exception.far == 0
        },
        state.snapshot_verdict() == Err::<(), _>(ValidationError::UnknownExceptionFlags)
            <==> state.exception.kind != 0 && state.exception.flags > 3,
        state.snapshot_verdict() is Err ==> state.snapshot_verdict() == Err::<(), _>(
            ValidationError::UnknownExceptionFlags,
        ) || state.snapshot_verdict() == Err::<(), _>(ValidationError::InvalidExceptionRecord),
{
    let e = state.exception;
    kinds_are_told_by_class(e.esr, class);
    record_keeps_far_of_aborts(e.esr, e.far, e.pc, class);
}

/// Registers are never inspected: states that share header, exception fields
/// and tail get one verdict.
pub proof fn registers_do_not_matter(a: Aarch64StateV1, b: Aarch64StateV1)
    requires
        a.header == b.header,
        a.exception == b.exception,
        a.reserved == b.reserved,
    ensures
        a.snapshot_verdict() == b.snapshot_verdict(),
{
}

/// The cleared state, field by field.
pub proof fn cleared_state_fields(state: Aarch64StateV1)
    requires
        state.is_cleared(),
    ensures
        state.header.magic == 0x4f4c_4f4c,
        state.header.version == 1,
        state.header.architecture == 1,
        state.header.size == 896,
        state.header.flags == 0,
        forall|i: int| 0 <= i < 31 ==> #[trigger] state.x[i] == 0,
        state.sp == 0 && state.pc == 0 && state.pstate == 0,
        state.tpidr_el0 == 0 && state.tpidrro_el0 == 0,
        forall|i: int|
            0 <= i < 32 ==> (#[trigger] state.vectors[i]).low == 0 && state.vectors[i].high == 0,
        state.fpcr == 0 && state.fpsr == 0,
        state.exception.kind == 0 && state.exception.flags == 0 && state.exception.esr == 0
            && state.exception.far == 0 && state.exception.pc == 0,
        forall|i: int| 0 <= i < 5 ==> #[trigger] state.reserved[i] == 0,
{
}

/// The empty exception record and the cleared vector hold nothing but zeroes.
pub proof fn empty_records_are_zero()
    ensures
        Aarch64ExceptionState::none().kind == 0,
        Aarch64ExceptionState::none().flags == 0,
        Aarch64ExceptionState::none().esr == 0,
        Aarch64ExceptionState::none().far == 0,
        Aarch64ExceptionState::none().pc == 0,
        Aarch64Vector::zero().low == 0,
        Aarch64Vector::zero().high == 0,
{
}

} // verus!
