//! The layout tables of the wire records, as theorems about their encodings.
//!
//! Each function here states one table: the number found at an offset of the
//! encoded record is the field that the table names. An encoding therefore
//! determines its record.
use super::aarch64::{
    lemma_vectors_wire_len, vectors_wire, Aarch64ExceptionState, Aarch64StateV1, Aarch64Vector,
    StateHeader, STATE_MAGIC,
};
use super::endian::{
    field, le16, le32, le64, le_bytes, le_range, lemma_le_bytes_len, lemma_le_bytes_of_le_value,
    lemma_le_fields, lemma_le_range, lemma_words_wire_field, lemma_words_wire_len, words_wire,
};
use super::message::{ForeignHeader, ForeignMessageV1};
use super::wait::{ForeignWaitU32RequestV1, WaitOperation};
use super::{
    ForeignError, FOREIGN_MAGIC, FOREIGN_WAIT_U32_MAGIC, FOREIGN_WAIT_U32_REQUEST_V1_WIRE_SIZE,
    FOREIGN_WAIT_U32_VERSION_V1,
};
use vstd::prelude::*;

verus! {

/// A field of a block of a record is a field of the record.
proof fn lemma_block_field(bytes: Seq<u8>, start: int, end: int)
    requires
        0 <= start <= end <= bytes.len(),
    ensures
        forall|offset: int, width: int|
            0 <= offset && 0 <= width && offset + width <= end - start ==> #[trigger] field(
                bytes.subrange(start, end),
                offset,
                width,
            ) == field(bytes, start + offset, width),
{
    assert forall|offset: int, width: int|
        0 <= offset && 0 <= width && offset + width <= end - start implies #[trigger] field(
        bytes.subrange(start, end),
        offset,
        width,
    ) == field(bytes, start + offset, width) by {
        assert(bytes.subrange(start, end).subrange(offset, offset + width) =~= bytes.subrange(
            start + offset,
            start + offset + width,
        ));
    }
}

/// The two halves of each vector register in their joint encoding.
proof fn lemma_vectors_wire_field(vectors: Seq<Aarch64Vector>, index: int)
    requires
        0 <= index < vectors.len(),
    ensures
        vectors_wire(vectors).subrange(16 * index, 16 * index + 8) == le64(vectors[index].low),
        vectors_wire(vectors).subrange(16 * index + 8, 16 * index + 16) == le64(
            vectors[index].high,
        ),
    decreases vectors.len(),
{
    broadcast use {lemma_le_bytes_len, lemma_vectors_wire_len};

    let all = vectors_wire(vectors);
    let shorter = vectors_wire(vectors.drop_last());
    if index < vectors.len() - 1 {
        lemma_vectors_wire_field(vectors.drop_last(), index);
        assert(all.subrange(16 * index, 16 * index + 8) =~= shorter.subrange(
            16 * index,
            16 * index + 8,
        ));
        assert(all.subrange(16 * index + 8, 16 * index + 16) =~= shorter.subrange(
            16 * index + 8,
            16 * index + 16,
        ));
    } else {
        assert(all.subrange(16 * index, 16 * index + 8) =~= le64(vectors[index].low));
        assert(all.subrange(16 * index + 8, 16 * index + 16) =~= le64(vectors[index].high));
    }
}

/// The words of an encoded array, one by one.
proof fn lemma_words_fields(words: Seq<u64>)
    ensures
        forall|i: int|
            0 <= i < words.len() ==> field(words_wire(words), 8 * i, 8) == #[trigger] words[i],
{
    lemma_le_fields();
    assert forall|i: int| 0 <= i < words.len() implies field(words_wire(words), 8 * i, 8)
        == #[trigger] words[i] by {
        lemma_words_wire_field(words, i);
    }
}

/// The state header: magic, version, architecture, size and flags.
pub proof fn state_header_layout(header: StateHeader)
    ensures
        header.wire().len() == 16,
        field(header.wire(), 0, 4) == header.magic,
        field(header.wire(), 4, 2) == header.version,
        field(header.wire(), 6, 2) == header.architecture,
        field(header.wire(), 8, 4) == header.size,
        field(header.wire(), 12, 4) == header.flags,
{
    broadcast use lemma_le_bytes_len;

    lemma_le_fields();
    let bytes = header.wire();
    assert(bytes.subrange(0, 4) =~= le32(header.magic));
    assert(bytes.subrange(4, 6) =~= le16(header.version));
    assert(bytes.subrange(6, 8) =~= le16(header.architecture));
    assert(bytes.subrange(8, 12) =~= le32(header.size));
    assert(bytes.subrange(12, 16) =~= le32(header.flags));
}

/// The exception record: kind, flags, ESR, FAR and PC.
pub proof fn exception_layout(exception: Aarch64ExceptionState)
    ensures
        exception.wire().len() == 32,
        field(exception.wire(), 0, 4) == exception.kind,
        field(exception.wire(), 4, 4) == exception.flags,
        field(exception.wire(), 8, 8) == exception.esr,
        field(exception.wire(), 16, 8) == exception.far,
        field(exception.wire(), 24, 8) == exception.pc,
{
    broadcast use lemma_le_bytes_len;

    lemma_le_fields();
    let bytes = exception.wire();
    assert(bytes.subrange(0, 4) =~= le32(exception.kind));
    assert(bytes.subrange(4, 8) =~= le32(exception.flags));
    assert(bytes.subrange(8, 16) =~= le64(exception.esr));
    assert(bytes.subrange(16, 24) =~= le64(exception.far));
    assert(bytes.subrange(24, 32) =~= le64(exception.pc));
}

/// The blocks of an encoded state that hold more than one integer.
proof fn lemma_state_blocks(state: Aarch64StateV1)
    ensures
        state.wire().len() == 896,
        state.wire().subrange(0, 16) == state.header.wire(),
        state.wire().subrange(16, 264) == words_wire(state.x@),
        state.wire().subrange(304, 816) == vectors_wire(state.vectors@),
        state.wire().subrange(824, 856) == state.exception.wire(),
        state.wire().subrange(856, 896) == words_wire(state.reserved@),
{
    broadcast use {lemma_le_bytes_len, lemma_words_wire_len, lemma_vectors_wire_len};

    state.lemma_wire_len();
    let bytes = state.wire();
    assert(bytes.subrange(0, 16) =~= state.header.wire());
    assert(bytes.subrange(16, 264) =~= words_wire(state.x@));
    assert(bytes.subrange(304, 816) =~= vectors_wire(state.vectors@));
    assert(bytes.subrange(824, 856) =~= state.exception.wire());
    assert(bytes.subrange(856, 896) =~= words_wire(state.reserved@));
}

/// The register state: every register at its fixed offset.
pub proof fn state_layout(state: Aarch64StateV1)
    ensures
        state.wire().len() == 896,
        field(state.wire(), 0, 4) == state.header.magic,
        field(state.wire(), 4, 2) == state.header.version,
        field(state.wire(), 6, 2) == state.header.architecture,
        field(state.wire(), 8, 4) == state.header.size,
        field(state.wire(), 12, 4) == state.header.flags,
        forall|i: int|
            0 <= i < 31 ==> field(state.wire(), 16 + 8 * i, 8) == #[trigger] state.x[i],
        field(state.wire(), 264, 8) == state.sp,
        field(state.wire(), 272, 8) == state.pc,
        field(state.wire(), 280, 8) == state.pstate,
        field(state.wire(), 288, 8) == state.tpidr_el0,
        field(state.wire(), 296, 8) == state.tpidrro_el0,
        forall|i: int|
            0 <= i < 32 ==> field(state.wire(), 304 + 16 * i, 8) == (
            #[trigger] state.vectors[i]).low && field(state.wire(), 312 + 16 * i, 8)
                == state.vectors[i].high,
        field(state.wire(), 816, 4) == state.fpcr,
        field(state.wire(), 820, 4) == state.fpsr,
        field(state.wire(), 824, 4) == state.exception.kind,
        field(state.wire(), 828, 4) == state.exception.flags,
        field(state.wire(), 832, 8) == state.exception.esr,
        field(state.wire(), 840, 8) == state.exception.far,
        field(state.wire(), 848, 8) == state.exception.pc,
        forall|i: int|
            0 <= i < 5 ==> field(state.wire(), 856 + 8 * i, 8) == #[trigger] state.reserved[i],
{
    broadcast use {lemma_le_bytes_len, lemma_words_wire_len, lemma_vectors_wire_len};

    let bytes = state.wire();
    lemma_le_fields();
    lemma_state_blocks(state);
    state_header_layout(state.header);
    exception_layout(state.exception);
    lemma_block_field(bytes, 0, 16);
    lemma_block_field(bytes, 824, 856);
    assert(bytes.subrange(264, 272) =~= le64(state.sp));
    assert(bytes.subrange(272, 280) =~= le64(state.pc));
    assert(bytes.subrange(280, 288) =~= le64(state.pstate));
    assert(bytes.subrange(288, 296) =~= le64(state.tpidr_el0));
    assert(bytes.subrange(296, 304) =~= le64(state.tpidrro_el0));
    assert(bytes.subrange(816, 820) =~= le32(state.fpcr));
    assert(bytes.subrange(820, 824) =~= le32(state.fpsr));
    assert forall|i: int| 0 <= i < 31 implies field(bytes, 16 + 8 * i, 8)
        == #[trigger] state.x[i] by {
        lemma_words_fields(state.x@);
        lemma_block_field(bytes, 16, 264);
        assert(field(bytes.subrange(16, 264), 8 * i, 8) == state.x@[i]);
    }
    assert forall|i: int| 0 <= i < 32 implies field(bytes, 304 + 16 * i, 8) == (
    #[trigger] state.vectors[i]).low && field(bytes, 312 + 16 * i, 8)
        == state.vectors[i].high by {
        lemma_vectors_wire_field(state.vectors@, i);
        lemma_block_field(bytes, 304, 816);
        assert(field(bytes.subrange(304, 816), 16 * i, 8) == state.vectors@[i].low);
        assert(field(bytes.subrange(304, 816), 16 * i + 8, 8) == state.vectors@[i].high);
    }
    assert forall|i: int| 0 <= i < 5 implies field(bytes, 856 + 8 * i, 8)
        == #[trigger] state.reserved[i] by {
        lemma_words_fields(state.reserved@);
        lemma_block_field(bytes, 856, 896);
        assert(field(bytes.subrange(856, 896), 8 * i, 8) == state.reserved@[i]);
    }
}

/// The frame header: magic, version, architecture, size and code.
pub proof fn header_layout(header: ForeignHeader)
    ensures
        header.wire().len() == 16,
        field(header.wire(), 0, 4) == header.magic,
        field(header.wire(), 4, 2) == header.version,
        field(header.wire(), 6, 2) == header.architecture,
        field(header.wire(), 8, 4) == header.size,
        field(header.wire(), 12, 4) == header.code,
{
    broadcast use lemma_le_bytes_len;

    lemma_le_fields();
    let bytes = header.wire();
    assert(bytes.subrange(0, 4) =~= le32(header.magic));
    assert(bytes.subrange(4, 6) =~= le16(header.version));
    assert(bytes.subrange(6, 8) =~= le16(header.architecture));
    assert(bytes.subrange(8, 12) =~= le32(header.size));
    assert(bytes.subrange(12, 16) =~= le32(header.code));
}

/// The exit/reply frame: header, tokens, flags, the embedded state as a block,
/// and the tail.
pub proof fn message_layout(message: ForeignMessageV1)
    ensures
        message.wire().len() == 976,
        field(message.wire(), 0, 4) == message.header.magic,
        field(message.wire(), 4, 2) == message.header.version,
        field(message.wire(), 6, 2) == message.header.architecture,
        field(message.wire(), 8, 4) == message.header.size,
        field(message.wire(), 12, 4) == message.header.code,
        field(message.wire(), 16, 8) == message.domain_id,
        field(message.wire(), 24, 8) == message.task_id,
        field(message.wire(), 32, 8) == message.sequence,
        field(message.wire(), 40, 8) == message.flags,
        message.wire().subrange(48, 944) == message.state.wire(),
        forall|i: int|
            0 <= i < 4 ==> field(message.wire(), 944 + 8 * i, 8) == #[trigger] message.reserved[i],
{
    broadcast use {lemma_le_bytes_len, lemma_words_wire_len};

    let bytes = message.wire();
    lemma_le_fields();
    message.lemma_wire_len();
    message.state.lemma_wire_len();
    header_layout(message.header);
    assert(bytes.subrange(0, 16) =~= message.header.wire());
    lemma_block_field(bytes, 0, 16);
    assert(bytes.subrange(16, 24) =~= le64(message.domain_id));
    assert(bytes.subrange(24, 32) =~= le64(message.task_id));
    assert(bytes.subrange(32, 40) =~= le64(message.sequence));
    assert(bytes.subrange(40, 48) =~= le64(message.flags));
    assert(bytes.subrange(48, 944) =~= message.state.wire());
    assert(bytes.subrange(944, 976) =~= words_wire(message.reserved@));
    assert forall|i: int| 0 <= i < 4 implies field(bytes, 944 + 8 * i, 8)
        == #[trigger] message.reserved[i] by {
        lemma_words_fields(message.reserved@);
        lemma_block_field(bytes, 944, 976);
        assert(field(bytes.subrange(944, 976), 8 * i, 8) == message.reserved@[i]);
    }
}

/// Two states with the same encoding are the same state.
pub proof fn state_wire_injective(a: Aarch64StateV1, b: Aarch64StateV1)
    requires
        a.wire() == b.wire(),
    ensures
        a == b,
{
    state_layout(a);
    state_layout(b);
    assert forall|i: int| 0 <= i < 31 implies a.x[i] == b.x[i] by {}
    assert forall|i: int| 0 <= i < 32 implies a.vectors[i] == b.vectors[i] by {}
    assert forall|i: int| 0 <= i < 5 implies a.reserved[i] == b.reserved[i] by {}
    assert(a.x =~= b.x);
    assert(a.vectors =~= b.vectors);
    assert(a.reserved =~= b.reserved);
}

/// Two messages with the same encoding are the same message.
pub proof fn message_wire_injective(a: ForeignMessageV1, b: ForeignMessageV1)
    requires
        a.wire() == b.wire(),
    ensures
        a == b,
{
    message_layout(a);
    message_layout(b);
    state_wire_injective(a.state, b.state);
    assert forall|i: int| 0 <= i < 4 implies a.reserved[i] == b.reserved[i] by {}
    assert(a.reserved =~= b.reserved);
}

/// The wait request: constants, operation and operands at their offsets.
pub proof fn wait_request_layout(request: ForeignWaitU32RequestV1)
    ensures
        request.wire().len() == 64,
        field(request.wire(), 0, 4) == FOREIGN_WAIT_U32_MAGIC,
        field(request.wire(), 4, 2) == FOREIGN_WAIT_U32_VERSION_V1,
        field(request.wire(), 6, 2) == request.operation.code(),
        field(request.wire(), 8, 4) == FOREIGN_WAIT_U32_REQUEST_V1_WIRE_SIZE,
        field(request.wire(), 12, 4) == 0,
        field(request.wire(), 16, 8) == request.sequence,
        field(request.wire(), 24, 8) == request.address,
        field(request.wire(), 32, 4) == request.expected,
        field(request.wire(), 36, 4) == request.count,
        field(request.wire(), 40, 8) == request.timeout_ns,
        field(request.wire(), 48, 8) == request.address2,
        field(request.wire(), 56, 4) == request.requeue_count,
        field(request.wire(), 60, 4) == 0,
{
    broadcast use lemma_le_bytes_len;

    lemma_le_fields();
    let bytes = request.wire();
    assert(bytes.subrange(0, 4) =~= le32(FOREIGN_WAIT_U32_MAGIC));
    assert(bytes.subrange(4, 6) =~= le16(FOREIGN_WAIT_U32_VERSION_V1));
    assert(bytes.subrange(6, 8) =~= le16(request.operation.code()));
    assert(bytes.subrange(8, 12) =~= le32(FOREIGN_WAIT_U32_REQUEST_V1_WIRE_SIZE as u32));
    assert(bytes.subrange(12, 16) =~= le32(0));
    assert(bytes.subrange(16, 24) =~= le64(request.sequence));
    assert(bytes.subrange(24, 32) =~= le64(request.address));
    assert(bytes.subrange(32, 36) =~= le32(request.expected));
    assert(bytes.subrange(36, 40) =~= le32(request.count));
    assert(bytes.subrange(40, 48) =~= le64(request.timeout_ns));
    assert(bytes.subrange(48, 56) =~= le64(request.address2));
    assert(bytes.subrange(56, 60) =~= le32(request.requeue_count));
    assert(bytes.subrange(60, 64) =~= le32(0));
}

/// The magics are little-endian spellings of their names: `b"LFOR"` for a frame,
/// `b"LOLO"` for a register state and `b"LWAT"` for a wait request.
pub proof fn magics_spell_their_names()
    ensures
        le32(FOREIGN_MAGIC) == seq![0x4cu8, 0x46u8, 0x4fu8, 0x52u8],
        le32(STATE_MAGIC) == seq![0x4cu8, 0x4fu8, 0x4cu8, 0x4fu8],
        le32(FOREIGN_WAIT_U32_MAGIC) == seq![0x4cu8, 0x57u8, 0x41u8, 0x54u8],
{
    reveal_with_fuel(le_bytes, 5);
    assert(le32(FOREIGN_MAGIC) =~= seq![0x4cu8, 0x46u8, 0x4fu8, 0x52u8]);
    assert(le32(STATE_MAGIC) =~= seq![0x4cu8, 0x4fu8, 0x4cu8, 0x4fu8]);
    assert(le32(FOREIGN_WAIT_U32_MAGIC) =~= seq![0x4cu8, 0x57u8, 0x41u8, 0x54u8]);
}

/// Every accepted frame starts with `b"LFOR"` and carries `b"LOLO"` at offset 48
/// if its state is a snapshot; every wait request starts with `b"LWAT"`.
pub proof fn records_start_with_their_names(
    message: ForeignMessageV1,
    request: ForeignWaitU32RequestV1,
)
    ensures
        message.is_framed() ==> message.wire().subrange(0, 4) == seq![
            0x4cu8,
            0x46u8,
            0x4fu8,
            0x52u8,
        ],
        message.state.is_snapshot() ==> message.wire().subrange(48, 52) == seq![
            0x4cu8,
            0x4fu8,
            0x4cu8,
            0x4fu8,
        ],
        request.wire().subrange(0, 4) == seq![0x4cu8, 0x57u8, 0x41u8, 0x54u8],
{
    magics_spell_their_names();
    message_layout(message);
    state_layout(message.state);
    wait_request_layout(request);
    lemma_field_bytes(message.wire(), 0, 4);
    lemma_field_bytes(message.state.wire(), 0, 4);
    lemma_field_bytes(request.wire(), 0, 4);
    assert(message.wire().subrange(48, 944).subrange(0, 4) =~= message.wire().subrange(48, 52));
}

/// The bytes of a field are the encoding of its number.
proof fn lemma_field_bytes(bytes: Seq<u8>, offset: int, width: int)
    requires
        0 <= offset && 0 <= width && offset + width <= bytes.len(),
    ensures
        bytes.subrange(offset, offset + width) == le_bytes(
            field(bytes, offset, width),
            width as nat,
        ),
        field(bytes, offset, width) < le_range(width as nat),
{
    lemma_le_bytes_of_le_value(bytes.subrange(offset, offset + width));
}

/// Decoding the encoding of a request gives that request back if it is valid,
/// and refuses it as invalid if it is not.
pub proof fn wait_decode_of_wire(request: ForeignWaitU32RequestV1)
    ensures
        ForeignWaitU32RequestV1::decode_verdict(request.wire()) == (if request.is_valid() {
            Ok(request)
        } else {
            Err(ForeignError::InvalidWaitRequest)
        }),
{
    wait_request_layout(request);
    assert(WaitOperation::of_code(request.operation.code() as nat) == Some(request.operation));
    assert(ForeignWaitU32RequestV1::of_fields(request.operation, request.wire()) == request);
}

/// Bytes that decode are the encoding of the request they decode to, so a
/// request has exactly one accepted spelling.
pub proof fn wait_decode_canonical(bytes: Seq<u8>)
    ensures
        ForeignWaitU32RequestV1::decode_verdict(bytes) matches Ok(request) ==> request.is_valid()
            && request.wire() == bytes,
{
    broadcast use lemma_le_bytes_len;

    if let Ok(request) = ForeignWaitU32RequestV1::decode_verdict(bytes) {
        lemma_le_range();
        lemma_field_bytes(bytes, 0, 4);
        lemma_field_bytes(bytes, 4, 2);
        lemma_field_bytes(bytes, 6, 2);
        lemma_field_bytes(bytes, 8, 4);
        lemma_field_bytes(bytes, 12, 4);
        lemma_field_bytes(bytes, 16, 8);
        lemma_field_bytes(bytes, 24, 8);
        lemma_field_bytes(bytes, 32, 4);
        lemma_field_bytes(bytes, 36, 4);
        lemma_field_bytes(bytes, 40, 8);
        lemma_field_bytes(bytes, 48, 8);
        lemma_field_bytes(bytes, 56, 4);
        lemma_field_bytes(bytes, 60, 4);
        let joined = bytes.subrange(0, 4) + bytes.subrange(4, 6) + bytes.subrange(6, 8)
            + bytes.subrange(8, 12) + bytes.subrange(12, 16) + bytes.subrange(16, 24)
            + bytes.subrange(24, 32) + bytes.subrange(32, 36) + bytes.subrange(36, 40)
            + bytes.subrange(40, 48) + bytes.subrange(48, 56) + bytes.subrange(56, 60)
            + bytes.subrange(60, 64);
        assert(joined =~= bytes);
        assert(joined == request.wire());
    }
}

} // verus!
