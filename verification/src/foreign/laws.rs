//! Properties of the protocol that span several operations.
//!
//! Each function states one law over the models that the operations'
//! contracts speak of. The layout tables, and that an encoding determines its
//! record, stand in [`layout`](super::layout).
//!
//! The submodules say of each operation, in the numbers and bits of its inputs
//! and results, what a record carries, when it is accepted, and for which fault
//! it is refused.
use super::aarch64::{
    agree_outside, agree_outside_u32, kind_of, lower_el_record, Aarch64ExceptionState,
    Aarch64StateV1, EXCEPTION_NONE, FPCR_WRITABLE_MASK, FPSR_WRITABLE_MASK,
    PSTATE_FORBIDDEN_RESUME_MASK, PSTATE_NZCV_MASK, STATE_FLAG_EXCEPTION_VALID, STATE_MAGIC,
    ValidationError,
};
use super::endian::{field, lemma_le_bytes_len};
use super::layout::{header_layout, message_layout, state_layout, state_wire_injective};
use super::message::{
    ExitReason, ForeignHeader, ForeignMessageV1, KickOrigin, ReplyKind, WaitOutcome,
};
use super::wait::{ForeignWaitU32RequestV1, WaitOperation};
use super::wire::{WireReader, WireWriter};
use super::{
    is_supported, ForeignError, FOREIGN_MAGIC, FOREIGN_VERSION_V1, FOREIGN_VERSION_V4,
    FOREIGN_WAIT_U32_MAGIC,
};
use vstd::prelude::*;

/// What each call returns, in terms of what it was given.
pub mod calls;
/// What an exception syndrome says, bit by bit.
pub mod exceptions;
/// What exit records carry, and how frames read as exits.
pub mod exits;
/// Numbers on the wire, byte by byte.
pub mod numbers;
/// What replies carry, and which of them a domain accepts.
pub mod replies;
/// What resume validation lets through.
pub mod resume;
/// Which register states are snapshots, and what each refusal means.
pub mod snapshots;
/// What wait requests carry, which are valid, and how bytes decode to them.
pub mod waits;

verus! {

/// Exit codes name their reasons, and no exit code is a reply code.
pub proof fn codes_are_distinct(reason: ExitReason, other: ExitReason, kind: ReplyKind)
    ensures
        ExitReason::of_code(reason.code()) == Some(reason),
        reason.code() == other.code() ==> reason == other,
        reason.code() != kind.code(),
        ExitReason::of_code(kind.code()) is None,
{
}

/// A record that reads as an exit is refused as a reply, whatever domain and
/// version it is held against.
pub proof fn exit_is_no_reply(message: ForeignMessageV1, domain_id: u64, version: u16)
    requires
        message.exit_verdict() is Ok,
    ensures
        message.reply_verdict(domain_id, version) == Err::<ReplyKind, _>(
            if message.header.version != version {
                ForeignError::WrongProtocolVersion
            } else if message.domain_id != domain_id {
                ForeignError::WrongDomain
            } else if !message.tail_is(0) {
                ForeignError::NonzeroReserved
            } else {
                ForeignError::UnknownCode
            },
        ),
{
}

/// A record that reads as a reply is refused as an exit.
pub proof fn reply_is_no_exit(message: ForeignMessageV1, domain_id: u64, version: u16)
    requires
        message.reply_verdict(domain_id, version) is Ok,
    ensures
        message.exit_verdict() == Err::<ExitReason, _>(ForeignError::UnknownCode),
        message.kick_verdict() == Err::<KickOrigin, _>(ForeignError::UnknownCode),
        message.wait_verdict() == Err::<WaitOutcome, _>(ForeignError::UnknownCode),
{
}

/// A plain exit record reads back as its reason.
pub proof fn exit_record_classifies(
    message: ForeignMessageV1,
    version: u16,
    reason: ExitReason,
    domain_id: u64,
    task_id: u64,
    sequence: u64,
    state: Aarch64StateV1,
)
    requires
        is_supported(version),
        reason.since() == FOREIGN_VERSION_V1,
        message.is_exit_record(version, reason, domain_id, task_id, sequence, state, 0),
    ensures
        message.exit_verdict() == Ok::<_, ForeignError>(reason),
{
}

/// A kick record reads back as a kick with its origin.
pub proof fn kick_record_classifies(
    message: ForeignMessageV1,
    version: u16,
    domain_id: u64,
    task_id: u64,
    sequence: u64,
    state: Aarch64StateV1,
    origin: KickOrigin,
)
    requires
        ExitReason::Kick.since() <= version <= FOREIGN_VERSION_V4,
        message.is_exit_record(
            version,
            ExitReason::Kick,
            domain_id,
            task_id,
            sequence,
            state,
            origin.word(),
        ),
    ensures
        message.exit_verdict() == Ok::<_, ForeignError>(ExitReason::Kick),
        message.kick_verdict() == Ok::<_, ForeignError>(origin),
        message.wait_verdict() == Err::<WaitOutcome, _>(ForeignError::InvalidWaitOutcome),
{
}

/// A wait-completion record reads back as a completion with its outcome.
pub proof fn wait_complete_record_classifies(
    message: ForeignMessageV1,
    version: u16,
    domain_id: u64,
    task_id: u64,
    sequence: u64,
    state: Aarch64StateV1,
    outcome: WaitOutcome,
)
    requires
        ExitReason::WaitComplete.since() <= version <= FOREIGN_VERSION_V4,
        message.is_exit_record(
            version,
            ExitReason::WaitComplete,
            domain_id,
            task_id,
            sequence,
            state,
            outcome.word(),
        ),
    ensures
        message.exit_verdict() == Ok::<_, ForeignError>(ExitReason::WaitComplete),
        message.wait_verdict() == Ok::<_, ForeignError>(outcome),
        message.kick_verdict() == Err::<KickOrigin, _>(ForeignError::InvalidKickOrigin),
{
}

/// No version sees a reason that a later version introduced: such a code is
/// unknown to it. Under V1 only supervisor calls, exceptions and deaths exist.
pub proof fn reasons_are_versioned(message: ForeignMessageV1, reason: ExitReason)
    requires
        message.is_framed(),
        message.header.code == reason.code(),
    ensures
        message.header.version < reason.since() ==> message.exit_verdict() == Err::<ExitReason, _>(
            ForeignError::UnknownCode,
        ),
        message.exit_verdict() is Ok ==> message.header.version >= reason.since()
            && message.exit_verdict() == Ok::<_, ForeignError>(reason),
{
}

/// The tail of an accepted record: zero throughout for every reply and every
/// V1 exit, and zero past the first word for every exit; the first word is used
/// by kicks and wait completions alone.
pub proof fn tails_are_versioned(message: ForeignMessageV1, domain_id: u64, version: u16)
    ensures
        message.reply_verdict(domain_id, version) is Ok ==> message.tail_is(0),
        message.exit_verdict() matches Ok(reason) ==> message.tail_rest_is_zero() && (
        message.header.version == FOREIGN_VERSION_V1 || !(reason is Kick || reason is WaitComplete)
            ==> message.tail_is(0)),
{
}

/// The reply built from a frame that the broker could read is accepted by that
/// frame's domain under that frame's protocol, for any register state, and by
/// no other domain and under no other protocol.
pub proof fn answer_is_accepted(
    exit: ForeignMessageV1,
    reply: ForeignMessageV1,
    kind: ReplyKind,
    state: Aarch64StateV1,
    domain_id: u64,
    version: u16,
)
    requires
        is_supported(exit.header.version),
        exit.header == ForeignHeader::framed(exit.header.version, exit.header.code),
        reply.is_answer_to(exit, kind, state),
    ensures
        reply.reply_verdict(exit.domain_id, exit.header.version) == Ok::<_, ForeignError>(kind),
        reply.reply_verdict(domain_id, version) is Ok <==> domain_id == exit.domain_id && version
            == exit.header.version,
        version != exit.header.version ==> reply.reply_verdict(domain_id, version) == Err::<
            ReplyKind,
            _,
        >(ForeignError::WrongProtocolVersion),
        version == exit.header.version && domain_id != exit.domain_id ==> reply.reply_verdict(
            domain_id,
            version,
        ) == Err::<ReplyKind, _>(ForeignError::WrongDomain),
{
}

/// Validation looks at header, flags and tail, and for a reply at the domain
/// token: the other tokens and the register state never change a verdict.
pub proof fn verdicts_ignore_payload(
    a: ForeignMessageV1,
    b: ForeignMessageV1,
    domain_id: u64,
    version: u16,
)
    requires
        a.header == b.header,
        a.flags == b.flags,
        a.reserved == b.reserved,
    ensures
        a.exit_verdict() == b.exit_verdict(),
        a.kick_verdict() == b.kick_verdict(),
        a.wait_verdict() == b.wait_verdict(),
        a.domain_id == b.domain_id ==> a.reply_verdict(domain_id, version) == b.reply_verdict(
            domain_id,
            version,
        ),
{
}

/// A header with no code is well-formed but goes in neither direction.
pub proof fn codeless_frame_is_unknown(message: ForeignMessageV1)
    requires
        message.is_framed(),
        message.header.code == 0,
        message.tail_is(0),
    ensures
        message.exit_verdict() == Err::<ExitReason, _>(ForeignError::UnknownCode),
        message.reply_verdict(message.domain_id, message.header.version) == Err::<ReplyKind, _>(
            ForeignError::UnknownCode,
        ),
{
}

/// Later protocol versions keep the earlier spelling byte for byte: frames that
/// differ in their version alone differ on the wire in the two version bytes
/// alone.
pub proof fn versions_share_layout(a: ForeignMessageV1, b: ForeignMessageV1)
    requires
        b == (ForeignMessageV1 {
            header: ForeignHeader { version: b.header.version, ..a.header },
            ..a
        }),
    ensures
        forall|i: int|
            0 <= i < 976 && i != 4 && i != 5 ==> #[trigger] a.wire()[i] == b.wire()[i],
{
    broadcast use lemma_le_bytes_len;

    message_layout(a);
    message_layout(b);
    header_layout(a.header);
    header_layout(b.header);
    assert forall|i: int| 0 <= i < 976 && i != 4 && i != 5 implies #[trigger] a.wire()[i]
        == b.wire()[i] by {
        if i < 16 {
            assert(a.wire()[i] == a.header.wire()[i]);
            assert(b.wire()[i] == b.header.wire()[i]);
        }
    }
}

/// The kick and wait-completion records of two versions are such frames: they
/// differ on the wire in the two version bytes alone.
pub proof fn exit_spelling_is_stable(
    a: ForeignMessageV1,
    b: ForeignMessageV1,
    version_a: u16,
    version_b: u16,
    reason: ExitReason,
    domain_id: u64,
    task_id: u64,
    sequence: u64,
    state: Aarch64StateV1,
    first: u64,
)
    requires
        a.is_exit_record(version_a, reason, domain_id, task_id, sequence, state, first),
        b.is_exit_record(version_b, reason, domain_id, task_id, sequence, state, first),
    ensures
        forall|i: int|
            0 <= i < 976 && i != 4 && i != 5 ==> #[trigger] a.wire()[i] == b.wire()[i],
        version_a == version_b ==> a == b,
{
    assert(a.reserved =~= b.reserved);
    versions_share_layout(a, b);
}

/// Reading a state where one was written gives that state back, and leaves the
/// reader where the writer stopped. `start` stands in a record that begins with
/// what the writer wrote, at the place where the state was written.
pub proof fn state_read_inverts_write<'a, const N: usize>(
    before: WireWriter<N>,
    after: WireWriter<N>,
    written: Aarch64StateV1,
    start: WireReader<'a>,
    end: WireReader<'a>,
    read: Aarch64StateV1,
)
    requires
        after.written() == before.written() + written.wire(),
        after.written().is_prefix_of(start.source()),
        start.consumed() == before.written(),
        read.wire() == start.upcoming(896),
        end.advanced(&start, read.wire()),
    ensures
        read == written,
        end.consumed() == after.written(),
{
    written.lemma_wire_len();
    let position = before.written().len() as int;
    assert(written.wire() =~= after.written().subrange(position, position + 896));
    assert(written.wire() =~= start.upcoming(896));
    state_wire_injective(read, written);
}

/// The three record magics differ, so the leading word of a record tells which
/// it is: bytes that start like a register state never pass as a frame, and
/// bytes that start like a frame never pass as a register state.
pub proof fn records_are_told_apart(message: ForeignMessageV1, state: Aarch64StateV1)
    requires
        field(message.wire(), 0, 4) == field(state.wire(), 0, 4),
    ensures
        FOREIGN_MAGIC != STATE_MAGIC,
        FOREIGN_MAGIC != FOREIGN_WAIT_U32_MAGIC,
        STATE_MAGIC != FOREIGN_WAIT_U32_MAGIC,
        state.is_snapshot() ==> message.frame_verdict() == Err::<(), _>(ForeignError::BadMagic),
        message.is_framed() ==> state.snapshot_verdict() == Err::<(), _>(
            ValidationError::BadMagic,
        ),
{
    message_layout(message);
    state_layout(state);
}

/// The cleared state is a snapshot, and it can be resumed in any address space
/// that is not empty.
pub proof fn cleared_state_is_snapshot(state: Aarch64StateV1, user_end: u64)
    requires
        state.is_cleared(),
    ensures
        state.snapshot_verdict() == Ok::<_, ValidationError>(()),
        user_end > 0 ==> state.resume_verdict(state, user_end) == Ok::<_, ValidationError>(state),
{
    assert(0u64 & PSTATE_FORBIDDEN_RESUME_MASK == 0) by (bit_vector);
}

/// Recording an exception makes a record that snapshot validation accepts, and
/// that recording its own fields again does not change.
pub proof fn recorded_exception_is_valid(state: Aarch64StateV1, esr: u64, far: u64, pc: u64)
    requires
        state.has_v1_header(),
        state.reserved_is_zero(),
        state.header.flags == STATE_FLAG_EXCEPTION_VALID,
        state.exception == lower_el_record(esr, far, pc),
    ensures
        state.snapshot_verdict() == Ok::<_, ValidationError>(()),
        state.exception.kind != EXCEPTION_NONE,
        lower_el_record(state.exception.esr, state.exception.far, state.exception.pc)
            == state.exception,
{
}

/// Every snapshot with the exception flag carries a record that could have been
/// taken from the hardware, and every other snapshot carries none.
pub proof fn snapshot_exceptions_are_recorded(state: Aarch64StateV1)
    requires
        state.snapshot_verdict() is Ok,
    ensures
        state.header.flags == STATE_FLAG_EXCEPTION_VALID ==> state.exception == lower_el_record(
            state.exception.esr,
            state.exception.far,
            state.exception.pc,
        ) && state.exception.kind == kind_of(state.exception.esr),
        state.header.flags != STATE_FLAG_EXCEPTION_VALID ==> state.exception
            == Aarch64ExceptionState::none(),
{
}

/// What a resumed task may change: integer and vector registers, TLS, PC, SP,
/// NZCV and the writable floating-point bits. Everything else is as it was in
/// the stopped snapshot, which therefore held no forbidden PSTATE bit either.
pub proof fn resume_keeps_the_rest(
    requested: Aarch64StateV1,
    stopped: Aarch64StateV1,
    user_end: u64,
)
    requires
        requested.resume_verdict(stopped, user_end) is Ok,
    ensures
        requested.resume_verdict(stopped, user_end) == Ok::<_, ValidationError>(requested),
        requested.header == stopped.header,
        requested.exception == stopped.exception,
        requested.reserved == stopped.reserved,
        agree_outside(requested.pstate, stopped.pstate, PSTATE_NZCV_MASK),
        agree_outside_u32(requested.fpcr, stopped.fpcr, FPCR_WRITABLE_MASK),
        agree_outside_u32(requested.fpsr, stopped.fpsr, FPSR_WRITABLE_MASK),
        requested.pstate & PSTATE_FORBIDDEN_RESUME_MASK == 0,
        stopped.pstate & PSTATE_FORBIDDEN_RESUME_MASK == 0,
        requested.pc < user_end,
        requested.sp <= user_end,
{
    assert(requested.reserved =~= stopped.reserved);
    let now = requested.pstate;
    let before = stopped.pstate;
    assert(now & PSTATE_FORBIDDEN_RESUME_MASK == 0 && now & !PSTATE_NZCV_MASK == before
        & !PSTATE_NZCV_MASK ==> before & PSTATE_FORBIDDEN_RESUME_MASK == 0) by (bit_vector);
}

/// The registers that a resumed task may change are free: changing them in a
/// resumable state, within their own bounds, leaves it resumable.
pub proof fn resume_allows_register_edits(
    requested: Aarch64StateV1,
    edited: Aarch64StateV1,
    stopped: Aarch64StateV1,
    user_end: u64,
)
    requires
        requested.resume_verdict(stopped, user_end) is Ok,
        edited == (Aarch64StateV1 {
            x: edited.x,
            sp: edited.sp,
            pc: edited.pc,
            pstate: edited.pstate,
            tpidr_el0: edited.tpidr_el0,
            tpidrro_el0: edited.tpidrro_el0,
            vectors: edited.vectors,
            fpcr: edited.fpcr,
            fpsr: edited.fpsr,
            ..requested
        }),
        edited.pc % 4 == 0 && edited.pc < user_end,
        edited.sp % 16 == 0 && edited.sp <= user_end,
        agree_outside(edited.pstate, requested.pstate, PSTATE_NZCV_MASK),
        agree_outside_u32(edited.fpcr, requested.fpcr, FPCR_WRITABLE_MASK),
        agree_outside_u32(edited.fpsr, requested.fpsr, FPSR_WRITABLE_MASK),
    ensures
        edited.resume_verdict(stopped, user_end) == Ok::<_, ValidationError>(edited),
{
    let now = edited.pstate;
    let before = requested.pstate;
    assert(before & PSTATE_FORBIDDEN_RESUME_MASK == 0 && now & !PSTATE_NZCV_MASK == before
        & !PSTATE_NZCV_MASK ==> now & PSTATE_FORBIDDEN_RESUME_MASK == 0) by (bit_vector);
}

/// An unedited snapshot resumes as itself, bits unknown to this version and
/// all, exactly when its PC, SP and PSTATE allow a return to user mode.
pub proof fn unedited_snapshot_resumes(stopped: Aarch64StateV1, user_end: u64)
    requires
        stopped.is_snapshot(),
    ensures
        stopped.resume_verdict(stopped, user_end) == Ok::<_, ValidationError>(stopped)
            <==> stopped.pc % 4 == 0 && stopped.pc < user_end && stopped.sp % 16 == 0 && stopped.sp
            <= user_end && stopped.pstate & PSTATE_FORBIDDEN_RESUME_MASK == 0,
{
}

/// A chain of resumptions allows no more than one resumption from its first
/// snapshot.
pub proof fn resume_is_transitive(
    last: Aarch64StateV1,
    middle: Aarch64StateV1,
    first: Aarch64StateV1,
    user_end: u64,
)
    requires
        last.resume_verdict(middle, user_end) is Ok,
        middle.resume_verdict(first, user_end) is Ok,
    ensures
        last.resume_verdict(first, user_end) == Ok::<_, ValidationError>(last),
{
}

/// A larger address space accepts what a smaller one accepts.
pub proof fn resume_grows_with_userspace(
    requested: Aarch64StateV1,
    stopped: Aarch64StateV1,
    smaller: u64,
    larger: u64,
)
    requires
        smaller <= larger,
        requested.resume_verdict(stopped, smaller) is Ok,
    ensures
        requested.resume_verdict(stopped, larger) == Ok::<_, ValidationError>(requested),
{
}

/// Every valid wait request is one that its operation's constructor makes: no
/// field that the operation does not use carries anything.
pub proof fn valid_requests_are_constructed(request: ForeignWaitU32RequestV1)
    requires
        request.is_valid(),
    ensures
        request == (match request.operation {
            WaitOperation::Park => ForeignWaitU32RequestV1::parking(
                request.sequence,
                request.address,
                request.expected,
                request.timeout_ns,
            ),
            WaitOperation::Wake => ForeignWaitU32RequestV1::waking(request.address, request.count),
            WaitOperation::Requeue => ForeignWaitU32RequestV1::requeueing(
                request.address,
                request.count,
                request.address2,
                request.requeue_count,
            ),
            WaitOperation::Interrupt => ForeignWaitU32RequestV1::interrupting(request.sequence),
        }),
{
}

/// When a constructed wait request is valid.
pub proof fn constructed_requests_validity(
    sequence: u64,
    address: u64,
    expected: u32,
    timeout_ns: u64,
    count: u32,
    address2: u64,
    requeue_count: u32,
)
    ensures
        ForeignWaitU32RequestV1::parking(sequence, address, expected, timeout_ns).is_valid()
            <==> sequence != 0 && address % 4 == 0,
        ForeignWaitU32RequestV1::waking(address, count).is_valid() <==> address % 4 == 0,
        ForeignWaitU32RequestV1::requeueing(address, count, address2, requeue_count).is_valid()
            <==> address % 4 == 0 && address2 % 4 == 0,
        ForeignWaitU32RequestV1::interrupting(sequence).is_valid() <==> sequence != 0,
{
}

/// Requests bound to an exit and requests bound to none have disjoint shapes:
/// relabelling a valid request of one sort as the other makes it invalid.
pub proof fn sequence_bound_shapes_are_disjoint(
    request: ForeignWaitU32RequestV1,
    operation: WaitOperation,
)
    requires
        request.is_valid(),
        (request.operation is Park || request.operation is Interrupt) != (operation is Park
            || operation is Interrupt),
    ensures
        !(ForeignWaitU32RequestV1 { operation, ..request }).is_valid(),
{
}

} // verus!
