//! What wait requests carry, which are valid, and how bytes decode to them.
use crate::foreign::endian::field;
use crate::foreign::layout::{wait_decode_canonical, wait_decode_of_wire, wait_request_layout};
use crate::foreign::{ForeignError, ForeignWaitU32RequestV1, WaitOperation};
use vstd::prelude::*;

verus! {

/// A park request carries its sequence, address, expected value and timeout,
/// and nothing else.
pub proof fn park_carries_its_arguments(
    sequence: u64,
    address: u64,
    expected: u32,
    timeout_ns: u64,
)
    ensures
        ForeignWaitU32RequestV1::parking(sequence, address, expected, timeout_ns) == (
        ForeignWaitU32RequestV1 {
            operation: WaitOperation::Park,
            sequence,
            address,
            expected,
            count: 0,
            timeout_ns,
            address2: 0,
            requeue_count: 0,
        }),
{
}

/// A wake request carries its address and its count, and nothing else.
pub proof fn wake_carries_its_arguments(address: u64, count: u32)
    ensures
        ForeignWaitU32RequestV1::waking(address, count) == (ForeignWaitU32RequestV1 {
            operation: WaitOperation::Wake,
            sequence: 0,
            address,
            expected: 0,
            count,
            timeout_ns: 0,
            address2: 0,
            requeue_count: 0,
        }),
{
}

/// A requeue request carries both addresses and both counts, and nothing else.
pub proof fn requeue_carries_its_arguments(
    address: u64,
    wake_count: u32,
    address2: u64,
    requeue_count: u32,
)
    ensures
        ForeignWaitU32RequestV1::requeueing(address, wake_count, address2, requeue_count) == (
        ForeignWaitU32RequestV1 {
            operation: WaitOperation::Requeue,
            sequence: 0,
            address,
            expected: 0,
            count: wake_count,
            timeout_ns: 0,
            address2,
            requeue_count,
        }),
{
}

/// An interrupt request carries its sequence, and nothing else.
pub proof fn interrupt_carries_its_arguments(sequence: u64)
    ensures
        ForeignWaitU32RequestV1::interrupting(sequence) == (ForeignWaitU32RequestV1 {
            operation: WaitOperation::Interrupt,
            sequence,
            address: 0,
            expected: 0,
            count: 0,
            timeout_ns: 0,
            address2: 0,
            requeue_count: 0,
        }),
{
}

/// When a request of each operation is valid: addresses on four-byte
/// boundaries, a sequence exactly for parks and interrupts, and zero in each
/// field that the operation does not use. Every other value is free: any
/// expected value and timeout of a park, any count of a wake, any counts of a
/// requeue.
pub proof fn valid_requests(request: ForeignWaitU32RequestV1)
    ensures
        request.operation is Park ==> (request.is_valid() <==> request.sequence != 0
            && request.address & 3 == 0 && request.count == 0 && request.address2 == 0
            && request.requeue_count == 0),
        request.operation is Wake ==> (request.is_valid() <==> request.address & 3 == 0
            && request.sequence == 0 && request.expected == 0 && request.timeout_ns == 0
            && request.address2 == 0 && request.requeue_count == 0),
        request.operation is Requeue ==> (request.is_valid() <==> request.address & 3 == 0
            && request.address2 & 3 == 0 && request.sequence == 0 && request.expected == 0
            && request.timeout_ns == 0),
        request.operation is Interrupt ==> (request.is_valid() <==> request.sequence != 0
            && request.address == 0 && request.expected == 0 && request.count == 0
            && request.timeout_ns == 0 && request.address2 == 0 && request.requeue_count == 0),
{
    let address = request.address;
    let address2 = request.address2;
    assert((address & 3 == 0) == (address % 4 == 0)) by (bit_vector);
    assert((address2 & 3 == 0) == (address2 % 4 == 0)) by (bit_vector);
}

/// The amounts of a request play no part in its validity where its operation
/// uses them.
pub proof fn used_amounts_are_free(
    request: ForeignWaitU32RequestV1,
    expected: u32,
    count: u32,
    timeout_ns: u64,
    requeue_count: u32,
)
    ensures
        request.operation is Park ==> (ForeignWaitU32RequestV1 {
            expected,
            timeout_ns,
            ..request
        }).is_valid() == request.is_valid(),
        request.operation is Wake ==> (ForeignWaitU32RequestV1 { count, ..request }).is_valid()
            == request.is_valid(),
        request.operation is Requeue ==> (ForeignWaitU32RequestV1 {
            count,
            requeue_count,
            ..request
        }).is_valid() == request.is_valid(),
{
}

/// The bytes of a request, number by number: its magic, version one, the
/// operation as one to four, its size and then its fields.
pub proof fn request_bytes(request: ForeignWaitU32RequestV1)
    ensures
        request.wire().len() == 64,
        field(request.wire(), 0, 4) == 0x5441_574c,
        field(request.wire(), 4, 2) == 1,
        field(request.wire(), 6, 2) == 1 <==> request.operation is Park,
        field(request.wire(), 6, 2) == 2 <==> request.operation is Wake,
        field(request.wire(), 6, 2) == 3 <==> request.operation is Requeue,
        field(request.wire(), 6, 2) == 4 <==> request.operation is Interrupt,
        field(request.wire(), 8, 4) == 64,
        field(request.wire(), 12, 4) == 0,
        field(request.wire(), 16, 8) == request.sequence,
        field(request.wire(), 24, 8) == request.address,
        field(request.wire(), 32, 4) == request.expected,
        field(request.wire(), 36, 4) == request.count,
        field(request.wire(), 40, 8) == request.timeout_ns,
        field(request.wire(), 48, 8) == request.address2,
        field(request.wire(), 56, 4) == request.requeue_count,
        field(request.wire(), 60, 4) == 0,
{
    wait_request_layout(request);
}

/// Bytes decode to a request exactly when they are its encoding and it is
/// valid.
pub proof fn bytes_decode_to_their_request(bytes: Seq<u8>, request: ForeignWaitU32RequestV1)
    ensures
        ForeignWaitU32RequestV1::decode_verdict(bytes) == Ok::<_, ForeignError>(request)
            <==> request.wire() == bytes && request.is_valid(),
{
    wait_decode_canonical(bytes);
    wait_decode_of_wire(request);
}

/// The refusals of bytes, in order: a length other than 64 or another magic,
/// another version or size or a reserved byte that is not zero, and last an
/// operation that does not exist or fields that are not valid for it.
pub proof fn decode_refusals(bytes: Seq<u8>, well_formed: bool)
    requires
        well_formed == (bytes.len() == 64 && field(bytes, 0, 4) == 0x5441_574c && field(bytes, 4, 2)
            == 1 && field(bytes, 8, 4) == 64 && field(bytes, 12, 4) == 0 && field(bytes, 60, 4)
            == 0),
    ensures
        ForeignWaitU32RequestV1::decode_verdict(bytes) == Err::<ForeignWaitU32RequestV1, _>(
            ForeignError::WrongWaitRequestMagic,
        ) <==> bytes.len() == 64 && field(bytes, 0, 4) != 0x5441_574c,
        ForeignWaitU32RequestV1::decode_verdict(bytes) == Err::<ForeignWaitU32RequestV1, _>(
            ForeignError::WrongWaitRequestSize,
        ) <==> bytes.len() != 64 || (field(bytes, 0, 4) == 0x5441_574c && !well_formed),
        ForeignWaitU32RequestV1::decode_verdict(bytes) == Err::<ForeignWaitU32RequestV1, _>(
            ForeignError::InvalidWaitRequest,
        ) ==> well_formed,
        well_formed && !(1 <= field(bytes, 6, 2) <= 4)
            ==> ForeignWaitU32RequestV1::decode_verdict(bytes) == Err::<
            ForeignWaitU32RequestV1,
            _,
        >(ForeignError::InvalidWaitRequest),
        well_formed ==> ForeignWaitU32RequestV1::decode_verdict(bytes) is Ok
            || ForeignWaitU32RequestV1::decode_verdict(bytes) == Err::<
            ForeignWaitU32RequestV1,
            _,
        >(ForeignError::InvalidWaitRequest),
{
}

/// A well-formed record is accepted exactly when the request in its fields is
/// valid, and decodes to that request.
pub proof fn well_formed_records_decode_by_field(bytes: Seq<u8>, request: ForeignWaitU32RequestV1)
    requires
        bytes.len() == 64,
        field(bytes, 0, 4) == 0x5441_574c,
        field(bytes, 4, 2) == 1,
        field(bytes, 8, 4) == 64,
        field(bytes, 12, 4) == 0,
        field(bytes, 60, 4) == 0,
        field(bytes, 6, 2) == (match request.operation {
            WaitOperation::Park => 1nat,
            WaitOperation::Wake => 2,
            WaitOperation::Requeue => 3,
            WaitOperation::Interrupt => 4,
        }),
        field(bytes, 16, 8) == request.sequence,
        field(bytes, 24, 8) == request.address,
        field(bytes, 32, 4) == request.expected,
        field(bytes, 36, 4) == request.count,
        field(bytes, 40, 8) == request.timeout_ns,
        field(bytes, 48, 8) == request.address2,
        field(bytes, 56, 4) == request.requeue_count,
    ensures
        ForeignWaitU32RequestV1::decode_verdict(bytes) == (if request.is_valid() {
            Ok(request)
        } else {
            Err(ForeignError::InvalidWaitRequest)
        }),
{
    assert(ForeignWaitU32RequestV1::of_fields(request.operation, bytes) == request);
}

} // verus!
