//! What each call returns, in terms of what it was given.
//!
//! Every function here takes the arguments of one call and a result that the
//! call may give, and says how the two are related.
use crate::foreign::aarch64::{
    classify_exception, exception_class, Aarch64ExceptionState, Aarch64StateV1,
    Aarch64Vector, ValidationError,
};
use crate::foreign::laws::exceptions::{
    class_is_bits_26_to_31, kinds_are_told_by_class, record_keeps_far_of_aborts,
    record_keeps_syndrome_and_pc,
};
use crate::foreign::laws::exits::{exit_record_carries_its_parts, tail_words};
use crate::foreign::laws::replies::answer_carries_its_parts;
use crate::foreign::laws::resume::{
    acceptance_between_snapshots, accepted_target_is_aligned_and_inside,
};
use crate::foreign::laws::snapshots::cleared_state_fields;
use crate::foreign::laws::waits::valid_requests;
use crate::foreign::{
    protocol_version_is_supported, ExitReason, ForeignError, ForeignHeader, ForeignMessageV1,
    ForeignWaitU32RequestV1, KickOrigin, ReplyKind, WaitOutcome,
};
use vstd::prelude::*;

verus! {

/// Exactly the versions one to four are reported as supported.
pub proof fn version_test_answers(version: u16, supported: bool)
    requires
        call_ensures(protocol_version_is_supported, (version,), supported),
    ensures
        supported <==> 1 <= version <= 4,
{
}

/// The class that is read is bits 26 to 31.
pub proof fn class_reader_answers(esr: u64, class: u8)
    requires
        call_ensures(exception_class, (esr,), class),
    ensures
        class == (esr >> 26) & 0x3f,
{
    class_is_bits_26_to_31(esr);
}

/// Syndromes with the same class bits are classified alike, and each class as
/// its kind.
pub proof fn classifier_answers(a: u64, b: u64, kind_a: u32, kind_b: u32, class: u64)
    requires
        call_ensures(classify_exception, (a,), kind_a),
        call_ensures(classify_exception, (b,), kind_b),
        class == (a >> 26) & 0x3f,
        class == (b >> 26) & 0x3f,
    ensures
        kind_a == kind_b,
        kind_a == 1 <==> class == 0x15,
        kind_a == 2 <==> class == 0x24 || class == 0x25,
        kind_a == 3 <==> class == 0x20 || class == 0x21,
        kind_a == 4 <==> class == 0,
        kind_a == 5 <==> class == 0x30 || class == 0x31 || class == 0x3c,
        1 <= kind_a <= 5 || kind_a == 0xffff_ffff,
{
    kinds_are_told_by_class(a, class);
    kinds_are_told_by_class(b, class);
}

/// A recorded exception has the syndrome and the return address it was made
/// from, the kind of that syndrome, and the fault address exactly for an abort
/// whose bit 10 is clear.
pub proof fn recorder_answers(
    esr: u64,
    far: u64,
    pc: u64,
    record: Aarch64ExceptionState,
    class: u64,
)
    requires
        call_ensures(Aarch64ExceptionState::from_lower_el, (esr, far, pc), record),
        class == (esr >> 26) & 0x3f,
    ensures
        record.esr == esr,
        record.pc == pc,
        record.kind == 1 <==> class == 0x15,
        record.kind == 2 <==> class == 0x24 || class == 0x25,
        record.kind == 3 <==> class == 0x20 || class == 0x21,
        record.kind == 4 <==> class == 0,
        record.kind == 5 <==> class == 0x30 || class == 0x31 || class == 0x3c,
        1 <= record.kind <= 5 || record.kind == 0xffff_ffff,
        if (record.kind == 2 || record.kind == 3) && esr & 0x400 == 0 {
            record.far == far && record.flags == 3
        } else {
            record.far == 0 && record.flags == 2
        },
{
    kinds_are_told_by_class(esr, class);
    record_keeps_syndrome_and_pc(esr, far, pc);
    record_keeps_far_of_aborts(esr, far, pc, class);
}

/// Snapshot validation gives the verdict of the state it was asked about.
pub proof fn snapshot_validator_answers(
    state: Aarch64StateV1,
    verdict: Result<(), ValidationError>,
)
    requires
        call_ensures(Aarch64StateV1::validate_snapshot, (&state,), verdict),
    ensures
        verdict == state.snapshot_verdict(),
{
}

/// What resume validation lets through is what was requested; it runs inside
/// the address space from an aligned PC and an aligned SP, and shares with the
/// stopped snapshot every bit that a broker may not write.
pub proof fn resume_validator_answers(
    requested: Aarch64StateV1,
    stopped: Aarch64StateV1,
    user_end: u64,
    verdict: Result<Aarch64StateV1, ValidationError>,
)
    requires
        call_ensures(
            Aarch64StateV1::sanitized_for_resume,
            (&requested, &stopped, user_end),
            verdict,
        ),
    ensures
        verdict == requested.resume_verdict(stopped, user_end),
        verdict matches Ok(resumed) ==> {
            &&& resumed == requested
            &&& resumed.pc & 3 == 0 && resumed.pc < user_end
            &&& resumed.sp & 15 == 0 && resumed.sp <= user_end
            &&& resumed.pstate & 0x30_03df == 0
            &&& (resumed.pstate ^ stopped.pstate) & 0xffff_ffff_0fff_ffff == 0
            &&& (resumed.fpcr ^ stopped.fpcr) & 0xf83f_60ff == 0
            &&& (resumed.fpsr ^ stopped.fpsr) & 0xf7ff_ff60 == 0
            &&& resumed.header == stopped.header
            &&& resumed.exception == stopped.exception
        },
{
    if verdict is Ok {
        accepted_target_is_aligned_and_inside(requested, stopped, user_end);
        acceptance_between_snapshots(requested, stopped, user_end);
    }
}

/// A plain exit is built for each plain reason and each supported version, and
/// carries the tokens and the state it was given. The other reasons are
/// refused whatever the version is.
pub proof fn exit_builder_answers(
    version: u16,
    reason: ExitReason,
    domain_id: u64,
    task_id: u64,
    sequence: u64,
    state: Aarch64StateV1,
    built: Result<ForeignMessageV1, ForeignError>,
)
    requires
        call_ensures(
            ForeignMessageV1::new_exit_for_version,
            (version, reason, domain_id, task_id, sequence, state),
            built,
        ),
    ensures
        built is Ok <==> !(reason is Kick) && !(reason is WaitComplete) && 1 <= version <= 4,
        reason is Kick ==> built == Err::<ForeignMessageV1, _>(ForeignError::InvalidKickOrigin),
        reason is WaitComplete ==> built == Err::<ForeignMessageV1, _>(
            ForeignError::InvalidWaitRequest,
        ),
        built is Err && !(reason is Kick) && !(reason is WaitComplete) ==> built == Err::<
            ForeignMessageV1,
            _,
        >(ForeignError::UnsupportedVersion),
        built matches Ok(message) ==> {
            &&& message.domain_id == domain_id
            &&& message.task_id == task_id
            &&& message.sequence == sequence
            &&& message.state == state
            &&& message.flags == 0
            &&& message.header.version == version
            &&& message.header.code == 1 <==> reason is SupervisorCall
            &&& message.header.code == 2 <==> reason is Exception
            &&& message.header.code == 3 <==> reason is TaskDeath
            &&& forall|i: int| 0 <= i < 4 ==> #[trigger] message.reserved[i] == 0
            &&& message.exit_verdict() == Ok::<_, ForeignError>(reason)
        },
{
    if let Ok(message) = built {
        exit_record_carries_its_parts(
            message,
            version,
            reason,
            domain_id,
            task_id,
            sequence,
            state,
            0,
        );
    }
}

/// The builder without a version builds version one.
pub proof fn first_version_exit_builder_answers(
    reason: ExitReason,
    domain_id: u64,
    task_id: u64,
    sequence: u64,
    state: Aarch64StateV1,
    built: Result<ForeignMessageV1, ForeignError>,
)
    requires
        call_ensures(
            ForeignMessageV1::new_exit,
            (reason, domain_id, task_id, sequence, state),
            built,
        ),
    ensures
        built is Ok <==> !(reason is Kick) && !(reason is WaitComplete),
        reason is Kick ==> built == Err::<ForeignMessageV1, _>(ForeignError::InvalidKickOrigin),
        reason is WaitComplete ==> built == Err::<ForeignMessageV1, _>(
            ForeignError::InvalidWaitRequest,
        ),
        built matches Ok(message) ==> {
            &&& message.domain_id == domain_id
            &&& message.task_id == task_id
            &&& message.sequence == sequence
            &&& message.state == state
            &&& message.flags == 0
            &&& message.header.version == 1
            &&& forall|i: int| 0 <= i < 4 ==> #[trigger] message.reserved[i] == 0
            &&& message.exit_verdict() == Ok::<_, ForeignError>(reason)
        },
{
    if let Ok(message) = built {
        exit_record_carries_its_parts(
            message,
            1,
            reason,
            domain_id,
            task_id,
            sequence,
            state,
            0,
        );
    }
}

/// A kick is built for versions two to four, carries the tokens and the state
/// it was given, and reads back as a kick of its origin.
pub proof fn kick_builder_answers(
    version: u16,
    domain_id: u64,
    task_id: u64,
    sequence: u64,
    state: Aarch64StateV1,
    origin: KickOrigin,
    built: Result<ForeignMessageV1, ForeignError>,
)
    requires
        call_ensures(
            ForeignMessageV1::new_kick_exit_for_version,
            (version, domain_id, task_id, sequence, state, origin),
            built,
        ),
    ensures
        built is Ok <==> 2 <= version <= 4,
        built is Err ==> built == Err::<ForeignMessageV1, _>(ForeignError::InvalidKickOrigin),
        built matches Ok(message) ==> {
            &&& message.domain_id == domain_id
            &&& message.task_id == task_id
            &&& message.sequence == sequence
            &&& message.state == state
            &&& message.flags == 0
            &&& message.header.version == version
            &&& message.header.code == 4
            &&& message.reserved[0] == 0 <==> origin is Asynchronous
            &&& message.reserved[0] == 1 <==> origin is SupervisorCall
            &&& message.reserved[0] == 2 <==> origin is Exception
            &&& message.kick_verdict() == Ok::<_, ForeignError>(origin)
        },
{
    tail_words(origin, WaitOutcome::Woken);
    if let Ok(message) = built {
        exit_record_carries_its_parts(
            message,
            version,
            ExitReason::Kick,
            domain_id,
            task_id,
            sequence,
            state,
            origin.word(),
        );
    }
}

/// The kick builder without a version builds version two.
pub proof fn second_version_kick_builder_answers(
    domain_id: u64,
    task_id: u64,
    sequence: u64,
    state: Aarch64StateV1,
    origin: KickOrigin,
    message: ForeignMessageV1,
)
    requires
        call_ensures(
            ForeignMessageV1::new_kick_exit,
            (domain_id, task_id, sequence, state, origin),
            message,
        ),
    ensures
        message.domain_id == domain_id,
        message.task_id == task_id,
        message.sequence == sequence,
        message.state == state,
        message.flags == 0,
        message.header.version == 2,
        message.header.code == 4,
        message.kick_verdict() == Ok::<_, ForeignError>(origin),
{
    exit_record_carries_its_parts(
        message,
        2,
        ExitReason::Kick,
        domain_id,
        task_id,
        sequence,
        state,
        origin.word(),
    );
}

/// A wait completion is built for versions three and four, carries the tokens
/// and the state it was given, and reads back with its outcome.
pub proof fn completion_builder_answers(
    version: u16,
    domain_id: u64,
    task_id: u64,
    sequence: u64,
    state: Aarch64StateV1,
    outcome: WaitOutcome,
    built: Result<ForeignMessageV1, ForeignError>,
)
    requires
        call_ensures(
            ForeignMessageV1::new_wait_complete_exit_for_version,
            (version, domain_id, task_id, sequence, state, outcome),
            built,
        ),
    ensures
        built is Ok <==> 3 <= version <= 4,
        built is Err ==> built == Err::<ForeignMessageV1, _>(ForeignError::InvalidWaitOutcome),
        built matches Ok(message) ==> {
            &&& message.domain_id == domain_id
            &&& message.task_id == task_id
            &&& message.sequence == sequence
            &&& message.state == state
            &&& message.flags == 0
            &&& message.header.version == version
            &&& message.header.code == 5
            &&& message.reserved[0] == 0 <==> outcome is Woken
            &&& message.reserved[0] == 1 <==> outcome is TimedOut
            &&& message.reserved[0] == 2 <==> outcome is Interrupted
            &&& message.reserved[0] == 3 <==> outcome is MappingInvalidated
            &&& message.wait_verdict() == Ok::<_, ForeignError>(outcome)
        },
{
    tail_words(KickOrigin::Asynchronous, outcome);
    if let Ok(message) = built {
        exit_record_carries_its_parts(
            message,
            version,
            ExitReason::WaitComplete,
            domain_id,
            task_id,
            sequence,
            state,
            outcome.word(),
        );
    }
}

/// The completion builder without a version builds version three.
pub proof fn third_version_completion_builder_answers(
    domain_id: u64,
    task_id: u64,
    sequence: u64,
    state: Aarch64StateV1,
    outcome: WaitOutcome,
    message: ForeignMessageV1,
)
    requires
        call_ensures(
            ForeignMessageV1::new_wait_complete_exit,
            (domain_id, task_id, sequence, state, outcome),
            message,
        ),
    ensures
        message.domain_id == domain_id,
        message.task_id == task_id,
        message.sequence == sequence,
        message.state == state,
        message.flags == 0,
        message.header.version == 3,
        message.header.code == 5,
        message.wait_verdict() == Ok::<_, ForeignError>(outcome),
{
    exit_record_carries_its_parts(
        message,
        3,
        ExitReason::WaitComplete,
        domain_id,
        task_id,
        sequence,
        state,
        outcome.word(),
    );
}

/// The three readings of a frame as an exit give the verdicts on that frame.
pub proof fn exit_readers_answer(
    message: ForeignMessageV1,
    reason: Result<ExitReason, ForeignError>,
    origin: Result<KickOrigin, ForeignError>,
    outcome: Result<WaitOutcome, ForeignError>,
)
    requires
        call_ensures(ForeignMessageV1::exit_reason, (&message,), reason),
        call_ensures(ForeignMessageV1::kick_origin, (&message,), origin),
        call_ensures(ForeignMessageV1::wait_outcome, (&message,), outcome),
    ensures
        reason == message.exit_verdict(),
        origin == message.kick_verdict(),
        outcome == message.wait_verdict(),
        origin is Ok ==> reason == Ok::<_, ForeignError>(ExitReason::Kick),
        outcome is Ok ==> reason == Ok::<_, ForeignError>(ExitReason::WaitComplete),
{
}

/// The two readings of a frame as a reply give the verdict on that frame for
/// the domain and version asked about; the one without a version asks about
/// version one.
pub proof fn reply_readers_answer(
    message: ForeignMessageV1,
    domain_id: u64,
    version: u16,
    first: Result<ReplyKind, ForeignError>,
    versioned: Result<ReplyKind, ForeignError>,
)
    requires
        call_ensures(ForeignMessageV1::validate_reply, (&message, domain_id), first),
        call_ensures(
            ForeignMessageV1::validate_reply_for_version,
            (&message, domain_id, version),
            versioned,
        ),
    ensures
        versioned == message.reply_verdict(domain_id, version),
        version == 1 ==> first == versioned,
        versioned is Ok ==> message.domain_id == domain_id && message.header.version == version,
        first is Ok ==> message.domain_id == domain_id && message.header.version == 1,
{
}

/// A terminate reply carries the tokens and the state of the frame it answers.
pub proof fn terminate_builder_answers(exit: ForeignMessageV1, reply: ForeignMessageV1)
    requires
        call_ensures(ForeignMessageV1::to_terminate_reply, (&exit,), reply),
    ensures
        reply.domain_id == exit.domain_id,
        reply.task_id == exit.task_id,
        reply.sequence == exit.sequence,
        reply.state == exit.state,
        reply.flags == 0,
        reply.header.magic == exit.header.magic,
        reply.header.version == exit.header.version,
        reply.header.architecture == exit.header.architecture,
        reply.header.size == exit.header.size,
        reply.header.code == 0x102,
        reply.reserved[0] == 0 && reply.reserved[1] == 0 && reply.reserved[2] == 0
            && reply.reserved[3] == 0,
{
    answer_carries_its_parts(reply, exit, ReplyKind::Terminate, exit.state);
}

/// A resume reply carries the tokens of the frame it answers, and the state
/// that the edit made of that frame's state.
pub proof fn resume_builder_answers<F: FnOnce(&mut Aarch64StateV1)>(
    exit: ForeignMessageV1,
    edit: F,
    reply: ForeignMessageV1,
)
    requires
        call_ensures(ForeignMessageV1::to_resume_reply, (&exit, edit), reply),
    ensures
        reply.domain_id == exit.domain_id,
        reply.task_id == exit.task_id,
        reply.sequence == exit.sequence,
        reply.flags == 0,
        reply.header.magic == exit.header.magic,
        reply.header.version == exit.header.version,
        reply.header.architecture == exit.header.architecture,
        reply.header.size == exit.header.size,
        reply.header.code == 0x101,
        reply.reserved[0] == 0 && reply.reserved[1] == 0 && reply.reserved[2] == 0
            && reply.reserved[3] == 0,
        exists|state: &mut Aarch64StateV1|
            *state == exit.state && *final(state) == reply.state && #[trigger] call_ensures(
                edit,
                (state,),
                (),
            ),
{
    answer_carries_its_parts(reply, exit, ReplyKind::Resume, reply.state);
}

/// Encoding a message and decoding the bytes gives the message back, and bytes
/// decode exactly when there are 976 of them.
pub proof fn message_codec_answers(
    message: ForeignMessageV1,
    bytes: [u8; 976],
    input: &[u8],
    decoded: Result<ForeignMessageV1, ForeignError>,
)
    requires
        call_ensures(ForeignMessageV1::to_wire_bytes, (&message,), bytes),
        call_ensures(ForeignMessageV1::from_wire_bytes, (input,), decoded),
    ensures
        bytes@ == message.wire(),
        input@ == bytes@ ==> decoded == Ok::<_, ForeignError>(message),
        decoded is Ok <==> input@.len() == 976,
        decoded is Err ==> decoded == Err::<ForeignMessageV1, _>(ForeignError::WrongWireSize),
        decoded matches Ok(other) ==> other.wire() == input@,
{
    message.lemma_wire_len();
    if let Ok(other) = decoded {
        other.lemma_wire_len();
    }
}

/// A park request carries its arguments; no timeout is the largest number.
pub proof fn park_builder_answers(
    sequence: u64,
    address: u64,
    expected: u32,
    timeout_ns: Option<u64>,
    request: ForeignWaitU32RequestV1,
)
    requires
        call_ensures(
            ForeignWaitU32RequestV1::park,
            (sequence, address, expected, timeout_ns),
            request,
        ),
    ensures
        request.operation is Park,
        request.sequence == sequence,
        request.address == address,
        request.expected == expected,
        timeout_ns matches Some(limit) ==> request.timeout_ns == limit,
        timeout_ns is None ==> request.timeout_ns == 0xffff_ffff_ffff_ffff,
        request.count == 0 && request.address2 == 0 && request.requeue_count == 0,
        request.is_valid() <==> sequence != 0 && address & 3 == 0,
{
    valid_requests(request);
}

/// A wake request carries its address and its count, whatever the count is.
pub proof fn wake_builder_answers(address: u64, count: u32, request: ForeignWaitU32RequestV1)
    requires
        call_ensures(ForeignWaitU32RequestV1::wake, (address, count), request),
    ensures
        request.operation is Wake,
        request.address == address,
        request.count == count,
        request.sequence == 0 && request.expected == 0 && request.timeout_ns == 0
            && request.address2 == 0 && request.requeue_count == 0,
        request.is_valid() <==> address & 3 == 0,
{
    valid_requests(request);
}

/// A requeue request carries both addresses and both counts.
pub proof fn requeue_builder_answers(
    address: u64,
    wake_count: u32,
    address2: u64,
    requeue_count: u32,
    request: ForeignWaitU32RequestV1,
)
    requires
        call_ensures(
            ForeignWaitU32RequestV1::requeue,
            (address, wake_count, address2, requeue_count),
            request,
        ),
    ensures
        request.operation is Requeue,
        request.address == address,
        request.count == wake_count,
        request.address2 == address2,
        request.requeue_count == requeue_count,
        request.sequence == 0 && request.expected == 0 && request.timeout_ns == 0,
        request.is_valid() <==> address & 3 == 0 && address2 & 3 == 0,
{
    valid_requests(request);
}

/// An interrupt request carries its sequence.
pub proof fn interrupt_builder_answers(sequence: u64, request: ForeignWaitU32RequestV1)
    requires
        call_ensures(ForeignWaitU32RequestV1::interrupt, (sequence,), request),
    ensures
        request.operation is Interrupt,
        request.sequence == sequence,
        request.address == 0 && request.expected == 0 && request.count == 0 && request.timeout_ns
            == 0 && request.address2 == 0 && request.requeue_count == 0,
        request.is_valid() <==> sequence != 0,
{
    valid_requests(request);
}

/// Validation accepts exactly the valid requests and has one refusal.
pub proof fn request_validator_answers(
    request: ForeignWaitU32RequestV1,
    verdict: Result<(), ForeignError>,
)
    requires
        call_ensures(ForeignWaitU32RequestV1::validate, (&request,), verdict),
    ensures
        verdict is Ok <==> request.is_valid(),
        verdict is Err ==> verdict == Err::<(), _>(ForeignError::InvalidWaitRequest),
{
}

/// Encoding a request and decoding the bytes gives the request back where it is
/// valid and refuses it where it is not; bytes that decode are the encoding of
/// what they decode to.
pub proof fn request_codec_answers(
    request: ForeignWaitU32RequestV1,
    bytes: [u8; 64],
    input: &[u8],
    decoded: Result<ForeignWaitU32RequestV1, ForeignError>,
)
    requires
        call_ensures(ForeignWaitU32RequestV1::to_wire_bytes, (&request,), bytes),
        call_ensures(ForeignWaitU32RequestV1::from_wire_bytes, (input,), decoded),
    ensures
        bytes@ == request.wire(),
        decoded == ForeignWaitU32RequestV1::decode_verdict(input@),
        input@ == bytes@ && request.is_valid() ==> decoded == Ok::<_, ForeignError>(request),
        input@ == bytes@ && !request.is_valid() ==> decoded == Err::<ForeignWaitU32RequestV1, _>(
            ForeignError::InvalidWaitRequest,
        ),
        decoded matches Ok(other) ==> other.wire() == input@ && other.is_valid(),
{
}

/// What the defaults hold: a version-one frame header without a code, a frame
/// with nothing behind it, a cleared state, and zeroes.
pub proof fn defaults_answer(
    header: ForeignHeader,
    message: ForeignMessageV1,
    state: Aarch64StateV1,
    exception: Aarch64ExceptionState,
    vector: Aarch64Vector,
)
    requires
        call_ensures(ForeignHeader::default, (), header),
        call_ensures(ForeignMessageV1::default, (), message),
        call_ensures(Aarch64StateV1::default, (), state),
        call_ensures(Aarch64ExceptionState::default, (), exception),
        call_ensures(Aarch64Vector::default, (), vector),
    ensures
        header.magic == 0x524f_464c && header.version == 1 && header.architecture == 1
            && header.size == 976 && header.code == 0,
        message.header == header,
        message.domain_id == 0 && message.task_id == 0 && message.sequence == 0 && message.flags
            == 0,
        message.state == state,
        forall|i: int| 0 <= i < 4 ==> #[trigger] message.reserved[i] == 0,
        state.is_cleared(),
        exception.kind == 0 && exception.flags == 0 && exception.esr == 0 && exception.far == 0
            && exception.pc == 0,
        vector.low == 0 && vector.high == 0,
{
    cleared_state_fields(state);
    cleared_state_fields(message.state);
    assert(message.state.x =~= state.x);
    assert(message.state.vectors =~= state.vectors);
    assert(message.state.reserved =~= state.reserved);
}

} // verus!
