//! What replies carry, and which of them a domain accepts.
use crate::foreign::aarch64::Aarch64StateV1;
use crate::foreign::endian::field;
use crate::foreign::layout::message_layout;
use crate::foreign::{ForeignError, ForeignMessageV1, ReplyKind};
use vstd::prelude::*;

verus! {

/// A reply carries the tokens and the frame of the exit it answers, the code of
/// its kind and the state it was given, with flags and tail cleared. The
/// tokens stand at offsets 16, 24 and 32 of its encoding.
pub proof fn answer_carries_its_parts(
    reply: ForeignMessageV1,
    exit: ForeignMessageV1,
    kind: ReplyKind,
    state: Aarch64StateV1,
)
    requires
        reply.is_answer_to(exit, kind, state),
    ensures
        reply.header.magic == exit.header.magic,
        reply.header.version == exit.header.version,
        reply.header.architecture == exit.header.architecture,
        reply.header.size == exit.header.size,
        kind is Resume ==> reply.header.code == 0x101,
        kind is Terminate ==> reply.header.code == 0x102,
        reply.domain_id == exit.domain_id,
        reply.task_id == exit.task_id,
        reply.sequence == exit.sequence,
        reply.flags == 0,
        reply.state == state,
        reply.reserved[0] == 0 && reply.reserved[1] == 0 && reply.reserved[2] == 0
            && reply.reserved[3] == 0,
        field(reply.wire(), 16, 8) == exit.domain_id,
        field(reply.wire(), 24, 8) == exit.task_id,
        field(reply.wire(), 32, 8) == exit.sequence,
{
    message_layout(reply);
}

/// A frame with a good header and no flag is accepted as a reply exactly when
/// it is of the domain's version, names the domain, has an empty tail and a
/// reply code.
pub proof fn frames_read_as_replies(message: ForeignMessageV1, domain_id: u64, version: u16)
    requires
        message.header.magic == 0x524f_464c,
        1 <= message.header.version <= 4,
        message.header.architecture == 1,
        message.header.size == 976,
        message.flags == 0,
    ensures
        message.reply_verdict(domain_id, version) == Ok::<_, ForeignError>(ReplyKind::Resume)
            <==> message.header.version == version && message.domain_id == domain_id
            && message.reserved[0] == 0 && message.reserved[1] == 0 && message.reserved[2] == 0
            && message.reserved[3] == 0 && message.header.code == 0x101,
        message.reply_verdict(domain_id, version) == Ok::<_, ForeignError>(ReplyKind::Terminate)
            <==> message.header.version == version && message.domain_id == domain_id
            && message.reserved[0] == 0 && message.reserved[1] == 0 && message.reserved[2] == 0
            && message.reserved[3] == 0 && message.header.code == 0x102,
{
}

/// The refusals of a frame with a good header and no flag, in order: another
/// version, another domain, a tail that is not empty, a code that is no reply.
pub proof fn reply_refusals(
    message: ForeignMessageV1,
    domain_id: u64,
    version: u16,
    tail_is_empty: bool,
)
    requires
        message.header.magic == 0x524f_464c,
        1 <= message.header.version <= 4,
        message.header.architecture == 1,
        message.header.size == 976,
        message.flags == 0,
        tail_is_empty == (message.reserved[0] == 0 && message.reserved[1] == 0
            && message.reserved[2] == 0 && message.reserved[3] == 0),
    ensures
        message.reply_verdict(domain_id, version) == Err::<ReplyKind, _>(
            ForeignError::WrongProtocolVersion,
        ) <==> message.header.version != version,
        message.reply_verdict(domain_id, version) == Err::<ReplyKind, _>(ForeignError::WrongDomain)
            <==> message.header.version == version && message.domain_id != domain_id,
        message.reply_verdict(domain_id, version) == Err::<ReplyKind, _>(
            ForeignError::NonzeroReserved,
        ) <==> message.header.version == version && message.domain_id == domain_id
            && !tail_is_empty,
        message.reply_verdict(domain_id, version) == Err::<ReplyKind, _>(ForeignError::UnknownCode)
            <==> message.header.version == version && message.domain_id == domain_id
            && tail_is_empty && message.header.code != 0x101 && message.header.code != 0x102,
{
}

} // verus!
