//! What resume validation lets through.
use crate::foreign::aarch64::{
    Aarch64StateV1, ValidationError, FPCR_WRITABLE_MASK, FPSR_WRITABLE_MASK,
    PSTATE_FORBIDDEN_RESUME_MASK, PSTATE_NZCV_MASK,
};
use crate::foreign::laws::snapshots::registers_do_not_matter;
use vstd::prelude::*;

verus! {

/// The four masks of the resume rules, bit by bit: the mode, DAIF, IL and
/// single-step bits are forbidden, and what is not writable is the complement
/// of what is.
proof fn lemma_masks(pstate: u64, before: u64, word: u32, word_before: u32)
    ensures
        pstate & PSTATE_FORBIDDEN_RESUME_MASK == pstate & 0x30_03df,
        (pstate & !PSTATE_NZCV_MASK == before & !PSTATE_NZCV_MASK) <==> (pstate ^ before)
            & 0xffff_ffff_0fff_ffff == 0,
        (word & !FPCR_WRITABLE_MASK == word_before & !FPCR_WRITABLE_MASK) <==> (word ^ word_before)
            & 0xf83f_60ff == 0,
        (word & !FPSR_WRITABLE_MASK == word_before & !FPSR_WRITABLE_MASK) <==> (word ^ word_before)
            & 0xf7ff_ff60 == 0,
{
    assert(pstate & PSTATE_FORBIDDEN_RESUME_MASK == pstate & 0x30_03df) by (bit_vector);
    assert((pstate & !PSTATE_NZCV_MASK == before & !PSTATE_NZCV_MASK) == ((pstate ^ before)
        & 0xffff_ffff_0fff_ffff == 0)) by (bit_vector);
    assert((word & !FPCR_WRITABLE_MASK == word_before & !FPCR_WRITABLE_MASK) == ((word
        ^ word_before) & 0xf83f_60ff == 0)) by (bit_vector);
    assert((word & !FPSR_WRITABLE_MASK == word_before & !FPSR_WRITABLE_MASK) == ((word
        ^ word_before) & 0xf7ff_ff60 == 0)) by (bit_vector);
}

/// Whatever was edited, an accepted state resumes at an instruction boundary
/// inside the address space, on a 16-byte aligned stack that ends inside it.
pub proof fn accepted_target_is_aligned_and_inside(
    requested: Aarch64StateV1,
    stopped: Aarch64StateV1,
    user_end: u64,
)
    requires
        requested.resume_verdict(stopped, user_end) is Ok,
    ensures
        requested.pc % 4 == 0,
        requested.pc & 3 == 0,
        requested.pc < user_end,
        requested.sp % 16 == 0,
        requested.sp & 15 == 0,
        requested.sp <= user_end,
{
    let pc = requested.pc;
    let sp = requested.sp;
    assert((pc & 3 == 0) == (pc % 4 == 0)) by (bit_vector);
    assert((sp & 15 == 0) == (sp % 16 == 0)) by (bit_vector);
}

/// An accepted state comes back exactly as it was requested.
pub proof fn accepted_state_is_the_requested_one(
    requested: Aarch64StateV1,
    stopped: Aarch64StateV1,
    user_end: u64,
    accepted: Aarch64StateV1,
)
    requires
        requested.resume_verdict(stopped, user_end) == Ok::<_, ValidationError>(accepted),
    ensures
        accepted == requested,
{
}

/// Between two snapshots, acceptance is decided by these bits and no others.
pub proof fn acceptance_between_snapshots(
    requested: Aarch64StateV1,
    stopped: Aarch64StateV1,
    user_end: u64,
)
    requires
        requested.snapshot_verdict() is Ok,
        stopped.snapshot_verdict() is Ok,
    ensures
        requested.resume_verdict(stopped, user_end) is Ok <==> {
            &&& requested.pc % 4 == 0
            &&& requested.pc < user_end
            &&& requested.sp % 16 == 0
            &&& requested.sp <= user_end
            &&& requested.pstate & 0x30_03df == 0
            &&& (requested.pstate ^ stopped.pstate) & 0xffff_ffff_0fff_ffff == 0
            &&& (requested.fpcr ^ stopped.fpcr) & 0xf83f_60ff == 0
            &&& (requested.fpsr ^ stopped.fpsr) & 0xf7ff_ff60 == 0
            &&& requested.header.flags == stopped.header.flags
            &&& requested.exception.kind == stopped.exception.kind
            &&& requested.exception.flags == stopped.exception.flags
            &&& requested.exception.esr == stopped.exception.esr
            &&& requested.exception.far == stopped.exception.far
            &&& requested.exception.pc == stopped.exception.pc
        },
{
    lemma_masks(requested.pstate, stopped.pstate, requested.fpcr, stopped.fpcr);
    lemma_masks(requested.pstate, stopped.pstate, requested.fpsr, stopped.fpsr);
}

/// A requested state that is no snapshot is refused for its own fault, and a
/// stopped state that is none for its own after that.
pub proof fn malformed_states_are_refused_first(
    requested: Aarch64StateV1,
    stopped: Aarch64StateV1,
    user_end: u64,
    error: ValidationError,
)
    ensures
        requested.snapshot_verdict() == Err::<(), _>(error) ==> requested.resume_verdict(
            stopped,
            user_end,
        ) == Err::<Aarch64StateV1, _>(error),
        requested.snapshot_verdict() is Ok && stopped.snapshot_verdict() == Err::<(), _>(error)
            ==> requested.resume_verdict(stopped, user_end) == Err::<Aarch64StateV1, _>(error),
{
}

/// The refusals of targets, in order: PC alignment, PC bound, SP alignment, SP
/// bound.
pub proof fn target_refusals(requested: Aarch64StateV1, stopped: Aarch64StateV1, user_end: u64)
    requires
        requested.snapshot_verdict() is Ok,
        stopped.snapshot_verdict() is Ok,
    ensures
        requested.resume_verdict(stopped, user_end) == Err::<Aarch64StateV1, _>(
            ValidationError::MisalignedPc,
        ) <==> requested.pc % 4 != 0,
        requested.resume_verdict(stopped, user_end) == Err::<Aarch64StateV1, _>(
            ValidationError::PcOutsideUserspace,
        ) <==> requested.pc % 4 == 0 && requested.pc >= user_end,
        requested.resume_verdict(stopped, user_end) == Err::<Aarch64StateV1, _>(
            ValidationError::MisalignedSp,
        ) <==> requested.pc % 4 == 0 && requested.pc < user_end && requested.sp % 16 != 0,
        requested.resume_verdict(stopped, user_end) == Err::<Aarch64StateV1, _>(
            ValidationError::SpOutsideUserspace,
        ) <==> requested.pc % 4 == 0 && requested.pc < user_end && requested.sp % 16 == 0
            && requested.sp > user_end,
{
}

/// The refusals of control words, in order, once the target is fine: a
/// forbidden PSTATE bit, another PSTATE bit changed, an FPCR bit changed, an
/// FPSR bit changed, the exception fields changed.
pub proof fn control_refusals(requested: Aarch64StateV1, stopped: Aarch64StateV1, user_end: u64)
    requires
        requested.snapshot_verdict() is Ok,
        stopped.snapshot_verdict() is Ok,
        requested.pc % 4 == 0 && requested.pc < user_end,
        requested.sp % 16 == 0 && requested.sp <= user_end,
    ensures
        requested.resume_verdict(stopped, user_end) == Err::<Aarch64StateV1, _>(
            ValidationError::ForbiddenPstate,
        ) <==> requested.pstate & 0x30_03df != 0,
        requested.resume_verdict(stopped, user_end) == Err::<Aarch64StateV1, _>(
            ValidationError::NonWritablePstateChanged,
        ) <==> requested.pstate & 0x30_03df == 0 && (requested.pstate ^ stopped.pstate)
            & 0xffff_ffff_0fff_ffff != 0,
        requested.resume_verdict(stopped, user_end) == Err::<Aarch64StateV1, _>(
            ValidationError::InvalidFpcr,
        ) <==> requested.pstate & 0x30_03df == 0 && (requested.pstate ^ stopped.pstate)
            & 0xffff_ffff_0fff_ffff == 0 && (requested.fpcr ^ stopped.fpcr) & 0xf83f_60ff != 0,
        requested.resume_verdict(stopped, user_end) == Err::<Aarch64StateV1, _>(
            ValidationError::InvalidFpsr,
        ) <==> requested.pstate & 0x30_03df == 0 && (requested.pstate ^ stopped.pstate)
            & 0xffff_ffff_0fff_ffff == 0 && (requested.fpcr ^ stopped.fpcr) & 0xf83f_60ff == 0
            && (requested.fpsr ^ stopped.fpsr) & 0xf7ff_ff60 != 0,
        requested.resume_verdict(stopped, user_end) == Err::<Aarch64StateV1, _>(
            ValidationError::ExceptionStateChanged,
        ) <==> requested.pstate & 0x30_03df == 0 && (requested.pstate ^ stopped.pstate)
            & 0xffff_ffff_0fff_ffff == 0 && (requested.fpcr ^ stopped.fpcr) & 0xf83f_60ff == 0
            && (requested.fpsr ^ stopped.fpsr) & 0xf7ff_ff60 == 0 && (requested.header.flags
            != stopped.header.flags || requested.exception != stopped.exception),
{
    lemma_masks(requested.pstate, stopped.pstate, requested.fpcr, stopped.fpcr);
    lemma_masks(requested.pstate, stopped.pstate, requested.fpsr, stopped.fpsr);
}

/// Where the task stopped plays no part: stopped snapshots that differ in
/// registers, TLS, PC, SP and writable control bits alone give one verdict.
pub proof fn stopping_place_does_not_matter(
    requested: Aarch64StateV1,
    a: Aarch64StateV1,
    b: Aarch64StateV1,
    user_end: u64,
)
    requires
        a.header == b.header,
        a.exception == b.exception,
        a.reserved == b.reserved,
        (a.pstate ^ b.pstate) & 0xffff_ffff_0fff_ffff == 0,
        (a.fpcr ^ b.fpcr) & 0xf83f_60ff == 0,
        (a.fpsr ^ b.fpsr) & 0xf7ff_ff60 == 0,
    ensures
        requested.resume_verdict(a, user_end) == requested.resume_verdict(b, user_end),
{
    lemma_masks(a.pstate, b.pstate, a.fpcr, b.fpcr);
    lemma_masks(a.pstate, b.pstate, a.fpsr, b.fpsr);
}

/// Integer registers, TLS and vectors of the requested state play no part:
/// requests that differ in them alone are accepted or refused alike.
pub proof fn free_registers_do_not_matter(
    a: Aarch64StateV1,
    b: Aarch64StateV1,
    stopped: Aarch64StateV1,
    user_end: u64,
    error: ValidationError,
)
    requires
        a == (Aarch64StateV1 {
            x: a.x,
            tpidr_el0: a.tpidr_el0,
            tpidrro_el0: a.tpidrro_el0,
            vectors: a.vectors,
            ..b
        }),
    ensures
        a.resume_verdict(stopped, user_end) is Ok <==> b.resume_verdict(stopped, user_end) is Ok,
        a.resume_verdict(stopped, user_end) == Err::<Aarch64StateV1, _>(error)
            <==> b.resume_verdict(stopped, user_end) == Err::<Aarch64StateV1, _>(error),
{
    registers_do_not_matter(a, b);
}

} // verus!
