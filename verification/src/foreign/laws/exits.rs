//! What exit records carry, and how frames read as exits.
use crate::foreign::aarch64::Aarch64StateV1;
use crate::foreign::endian::field;
use crate::foreign::layout::message_layout;
use crate::foreign::{
    is_supported, ExitReason, ForeignError, ForeignHeader, ForeignMessageV1, KickOrigin, ReplyKind,
    WaitOutcome,
};
use vstd::prelude::*;

verus! {

/// Versions one to four are supported, and no others.
pub proof fn supported_versions(version: u16)
    ensures
        is_supported(version) <==> version == 1 || version == 2 || version == 3 || version == 4,
{
}

/// Plain reasons exist from version one on, kicks from two, wait completions
/// from three.
pub proof fn reasons_by_first_version(reason: ExitReason)
    ensures
        reason.since() == 1 <==> reason is SupervisorCall || reason is Exception
            || reason is TaskDeath,
        reason.since() == 2 <==> reason is Kick,
        reason.since() == 3 <==> reason is WaitComplete,
{
}

/// The header of a frame, field by field.
pub proof fn framed_header_fields(version: u16, code: u32)
    ensures
        ForeignHeader::framed(version, code).magic == 0x524f_464c,
        ForeignHeader::framed(version, code).version == version,
        ForeignHeader::framed(version, code).architecture == 1,
        ForeignHeader::framed(version, code).size == 976,
        ForeignHeader::framed(version, code).code == code,
{
}

/// An exit record carries what it was built from, for every version and every
/// reason: its tokens, its state, its version and the code of its reason, with
/// no flag and nothing in the tail past the first word. The tokens stand at
/// offsets 16, 24 and 32 of its encoding, and the first tail word at 944.
pub proof fn exit_record_carries_its_parts(
    message: ForeignMessageV1,
    version: u16,
    reason: ExitReason,
    domain_id: u64,
    task_id: u64,
    sequence: u64,
    state: Aarch64StateV1,
    first: u64,
)
    requires
        message.is_exit_record(version, reason, domain_id, task_id, sequence, state, first),
    ensures
        message.domain_id == domain_id,
        message.task_id == task_id,
        message.sequence == sequence,
        message.state == state,
        message.flags == 0,
        message.header.magic == 0x524f_464c,
        message.header.version == version,
        message.header.architecture == 1,
        message.header.size == 976,
        reason is SupervisorCall ==> message.header.code == 1,
        reason is Exception ==> message.header.code == 2,
        reason is TaskDeath ==> message.header.code == 3,
        reason is Kick ==> message.header.code == 4,
        reason is WaitComplete ==> message.header.code == 5,
        message.reserved[0] == first,
        message.reserved[1] == 0 && message.reserved[2] == 0 && message.reserved[3] == 0,
        field(message.wire(), 16, 8) == domain_id,
        field(message.wire(), 24, 8) == task_id,
        field(message.wire(), 32, 8) == sequence,
        field(message.wire(), 944, 8) == first,
        message.wire().subrange(48, 944) == state.wire(),
{
    message_layout(message);
    assert(message.reserved[0] == first);
}

/// The word that a kick's origin or a completion's outcome is carried in.
pub proof fn tail_words(origin: KickOrigin, outcome: WaitOutcome)
    ensures
        origin.word() == 0 <==> origin is Asynchronous,
        origin.word() == 1 <==> origin is SupervisorCall,
        origin.word() == 2 <==> origin is Exception,
        outcome.word() == 0 <==> outcome is Woken,
        outcome.word() == 1 <==> outcome is TimedOut,
        outcome.word() == 2 <==> outcome is Interrupted,
        outcome.word() == 3 <==> outcome is MappingInvalidated,
{
}

/// A frame with a bad header or a flag is refused alike in both directions and
/// by every reading, for the first of these faults: magic, version,
/// architecture, size, flags.
pub proof fn frame_refusals(message: ForeignMessageV1, domain_id: u64, version: u16)
    ensures
        message.header.magic != 0x524f_464c <==> message.exit_verdict() == Err::<ExitReason, _>(
            ForeignError::BadMagic,
        ),
        message.header.magic == 0x524f_464c && !(1 <= message.header.version <= 4)
            <==> message.exit_verdict() == Err::<ExitReason, _>(ForeignError::UnsupportedVersion),
        message.header.magic == 0x524f_464c && 1 <= message.header.version <= 4
            && message.header.architecture != 1 <==> message.exit_verdict() == Err::<
            ExitReason,
            _,
        >(ForeignError::WrongArchitecture),
        message.header.magic == 0x524f_464c && 1 <= message.header.version <= 4
            && message.header.architecture == 1 && message.header.size != 976
            <==> message.exit_verdict() == Err::<ExitReason, _>(ForeignError::WrongSize),
        message.header.magic == 0x524f_464c && 1 <= message.header.version <= 4
            && message.header.architecture == 1 && message.header.size == 976 && message.flags != 0
            <==> message.exit_verdict() == Err::<ExitReason, _>(ForeignError::NonzeroFlags),
        message.header.magic != 0x524f_464c <==> message.reply_verdict(domain_id, version)
            == Err::<ReplyKind, _>(ForeignError::BadMagic),
        message.header.magic == 0x524f_464c && !(1 <= message.header.version <= 4)
            <==> message.reply_verdict(domain_id, version) == Err::<ReplyKind, _>(
            ForeignError::UnsupportedVersion,
        ),
        message.header.magic == 0x524f_464c && 1 <= message.header.version <= 4
            && message.header.architecture != 1 <==> message.reply_verdict(domain_id, version)
            == Err::<ReplyKind, _>(ForeignError::WrongArchitecture),
        message.header.magic == 0x524f_464c && 1 <= message.header.version <= 4
            && message.header.architecture == 1 && message.header.size != 976
            <==> message.reply_verdict(domain_id, version) == Err::<ReplyKind, _>(
            ForeignError::WrongSize,
        ),
        message.header.magic == 0x524f_464c && 1 <= message.header.version <= 4
            && message.header.architecture == 1 && message.header.size == 976 && message.flags != 0
            <==> message.reply_verdict(domain_id, version) == Err::<ReplyKind, _>(
            ForeignError::NonzeroFlags,
        ),
{
}

/// A frame with a good header and no flag reads as an exit exactly when its
/// version knows its code and the tail is one that the code allows.
pub proof fn frames_read_as_exits(message: ForeignMessageV1, rest_is_zero: bool)
    requires
        message.header.magic == 0x524f_464c,
        1 <= message.header.version <= 4,
        message.header.architecture == 1,
        message.header.size == 976,
        message.flags == 0,
        rest_is_zero == (message.reserved[1] == 0 && message.reserved[2] == 0
            && message.reserved[3] == 0),
    ensures
        message.exit_verdict() == Ok::<_, ForeignError>(ExitReason::SupervisorCall)
            <==> message.header.code == 1 && message.reserved[0] == 0 && rest_is_zero,
        message.exit_verdict() == Ok::<_, ForeignError>(ExitReason::Exception)
            <==> message.header.code == 2 && message.reserved[0] == 0 && rest_is_zero,
        message.exit_verdict() == Ok::<_, ForeignError>(ExitReason::TaskDeath)
            <==> message.header.code == 3 && message.reserved[0] == 0 && rest_is_zero,
        message.exit_verdict() == Ok::<_, ForeignError>(ExitReason::Kick)
            <==> message.header.code == 4 && message.header.version >= 2 && message.reserved[0] <= 2
            && rest_is_zero,
        message.exit_verdict() == Ok::<_, ForeignError>(ExitReason::WaitComplete)
            <==> message.header.code == 5 && message.header.version >= 3 && message.reserved[0] <= 3
            && rest_is_zero,
{
}

/// The refusals of a frame with a good header and no flag: a code that its
/// version does not know, a tail word that must be zero, an origin or an outcome
/// that does not exist.
pub proof fn exit_refusals(message: ForeignMessageV1, known: bool, rest_is_zero: bool)
    requires
        message.header.magic == 0x524f_464c,
        1 <= message.header.version <= 4,
        message.header.architecture == 1,
        message.header.size == 976,
        message.flags == 0,
        known == (1 <= message.header.code <= 3 || (message.header.code == 4
            && message.header.version >= 2) || (message.header.code == 5 && message.header.version
            >= 3)),
        rest_is_zero == (message.reserved[1] == 0 && message.reserved[2] == 0
            && message.reserved[3] == 0),
    ensures
        message.exit_verdict() == Err::<ExitReason, _>(ForeignError::UnknownCode) <==> !known,
        message.exit_verdict() == Err::<ExitReason, _>(ForeignError::NonzeroReserved)
            <==> known && (!rest_is_zero || (message.header.code <= 3 && message.reserved[0] != 0)),
        message.exit_verdict() == Err::<ExitReason, _>(ForeignError::InvalidKickOrigin) <==> known
            && rest_is_zero && message.header.code == 4 && message.reserved[0] > 2,
        message.exit_verdict() == Err::<ExitReason, _>(ForeignError::InvalidWaitOutcome) <==> known
            && rest_is_zero && message.header.code == 5 && message.reserved[0] > 3,
{
}

/// A kick's origin is the one that its first tail word numbers. Another exit
/// has none, and what is no exit is refused as it is when read as an exit.
pub proof fn kicks_tell_their_origin(message: ForeignMessageV1, error: ForeignError)
    ensures
        message.kick_verdict() == Ok::<_, ForeignError>(KickOrigin::Asynchronous)
            <==> message.exit_verdict() == Ok::<_, ForeignError>(ExitReason::Kick)
            && message.reserved[0] == 0,
        message.kick_verdict() == Ok::<_, ForeignError>(KickOrigin::SupervisorCall)
            <==> message.exit_verdict() == Ok::<_, ForeignError>(ExitReason::Kick)
            && message.reserved[0] == 1,
        message.kick_verdict() == Ok::<_, ForeignError>(KickOrigin::Exception)
            <==> message.exit_verdict() == Ok::<_, ForeignError>(ExitReason::Kick)
            && message.reserved[0] == 2,
        message.exit_verdict() == Err::<ExitReason, _>(error) ==> message.kick_verdict() == Err::<
            KickOrigin,
            _,
        >(error),
        message.exit_verdict() matches Ok(reason) ==> !(reason is Kick) ==> message.kick_verdict()
            == Err::<KickOrigin, _>(ForeignError::InvalidKickOrigin),
{
}

/// A completion's outcome is the one that its first tail word numbers. Another
/// exit has none, and what is no exit is refused as it is when read as an exit.
pub proof fn completions_tell_their_outcome(message: ForeignMessageV1, error: ForeignError)
    ensures
        message.wait_verdict() == Ok::<_, ForeignError>(WaitOutcome::Woken)
            <==> message.exit_verdict() == Ok::<_, ForeignError>(ExitReason::WaitComplete)
            && message.reserved[0] == 0,
        message.wait_verdict() == Ok::<_, ForeignError>(WaitOutcome::TimedOut)
            <==> message.exit_verdict() == Ok::<_, ForeignError>(ExitReason::WaitComplete)
            && message.reserved[0] == 1,
        message.wait_verdict() == Ok::<_, ForeignError>(WaitOutcome::Interrupted)
            <==> message.exit_verdict() == Ok::<_, ForeignError>(ExitReason::WaitComplete)
            && message.reserved[0] == 2,
        message.wait_verdict() == Ok::<_, ForeignError>(WaitOutcome::MappingInvalidated)
            <==> message.exit_verdict() == Ok::<_, ForeignError>(ExitReason::WaitComplete)
            && message.reserved[0] == 3,
        message.exit_verdict() == Err::<ExitReason, _>(error) ==> message.wait_verdict() == Err::<
            WaitOutcome,
            _,
        >(error),
        message.exit_verdict() matches Ok(reason) ==> !(reason is WaitComplete)
            ==> message.wait_verdict() == Err::<WaitOutcome, _>(ForeignError::InvalidWaitOutcome),
{
}

} // verus!
