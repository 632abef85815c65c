//! The atomic wait/wake request.
use super::endian::{field, le16, le32, le64, lemma_le_bytes_len, lemma_le_range};
use super::layout::{wait_decode_canonical, wait_decode_of_wire};
use super::wire::{read_le, WireWriter};
use super::{
    ForeignError, FOREIGN_WAIT_U32_MAGIC, FOREIGN_WAIT_U32_NO_TIMEOUT,
    FOREIGN_WAIT_U32_REQUEST_V1_WIRE_SIZE, FOREIGN_WAIT_U32_VERSION_V1,
};
use vstd::prelude::*;

verus! {

const WAIT_OPERATION_PARK: u16 = 1;

const WAIT_OPERATION_WAKE: u16 = 2;

const WAIT_OPERATION_REQUEUE: u16 = 3;

const WAIT_OPERATION_INTERRUPT: u16 = 4;

/// Generic operations accepted by a task-bound wait capability.
#[derive(Clone, Copy, Debug, Eq, PartialEq, Structural)]
pub enum WaitOperation {
    Park,
    Wake,
    Requeue,
    Interrupt,
}

/// A fixed, pointer-free atomic wait/wake request.
///
/// `sequence` binds `Park` and `Interrupt` to the exact outstanding foreign
/// exit. `address` and `address2` are guest integers that the kernel resolves
/// through the capability's address space; they are never Rust references.
/// `count` is a wake bound and `requeue_count` is the number to move after the
/// requested wake count. All unused fields must be zero, making a future ABI
/// extension fail closed.
///
/// The record is [`FOREIGN_WAIT_U32_REQUEST_V1_WIRE_SIZE`] (64) little-endian
/// bytes with no implicit padding:
///
/// | Offset | Size | Field | Notes |
/// |-------:|-----:|-------|-------|
/// | 0 | 4 | `magic` | u32, little-endian `b"LWAT"` ([`FOREIGN_WAIT_U32_MAGIC`]) |
/// | 4 | 2 | `version` | u16, `1` ([`FOREIGN_WAIT_U32_VERSION_V1`]) |
/// | 6 | 2 | `operation` | u16 discriminant |
/// | 8 | 4 | `size` | u32, always 64 |
/// | 12 | 4 | reserved | must be zero |
/// | 16 | 8 | `sequence` | u64 |
/// | 24 | 8 | `address` | u64 |
/// | 32 | 4 | `expected` | u32 |
/// | 36 | 4 | `count` | u32 wake bound |
/// | 40 | 8 | `timeout_ns` | u64 |
/// | 48 | 8 | `address2` | u64 requeue target |
/// | 56 | 4 | `requeue_count` | u32 |
/// | 60 | 4 | reserved | must be zero |
#[derive(Clone, Copy, Debug, Eq, PartialEq, Structural)]
pub struct ForeignWaitU32RequestV1 {
    pub operation: WaitOperation,
    pub sequence: u64,
    pub address: u64,
    pub expected: u32,
    pub count: u32,
    pub timeout_ns: u64,
    pub address2: u64,
    pub requeue_count: u32,
}

impl WaitOperation {
    /// The discriminant of this operation on the wire.
    pub open spec fn code(self) -> u16 {
        match self {
            WaitOperation::Park => 1,
            WaitOperation::Wake => 2,
            WaitOperation::Requeue => 3,
            WaitOperation::Interrupt => 4,
        }
    }

    /// The operation that a discriminant names.
    pub open spec fn of_code(code: nat) -> Option<WaitOperation> {
        if code == 1 {
            Some(WaitOperation::Park)
        } else if code == 2 {
            Some(WaitOperation::Wake)
        } else if code == 3 {
            Some(WaitOperation::Requeue)
        } else if code == 4 {
            Some(WaitOperation::Interrupt)
        } else {
            None
        }
    }
}

impl ForeignWaitU32RequestV1 {
    /// The 64 bytes of this request on the wire.
    pub open spec fn wire(self) -> Seq<u8> {
        le32(FOREIGN_WAIT_U32_MAGIC) + le16(FOREIGN_WAIT_U32_VERSION_V1) + le16(
            self.operation.code(),
        ) + le32(FOREIGN_WAIT_U32_REQUEST_V1_WIRE_SIZE as u32) + le32(0) + le64(self.sequence)
            + le64(self.address) + le32(self.expected) + le32(self.count) + le64(self.timeout_ns)
            + le64(self.address2) + le32(self.requeue_count) + le32(0)
    }

    /// The request to wait at an address on behalf of one exit.
    pub open spec fn parking(
        sequence: u64,
        address: u64,
        expected: u32,
        timeout_ns: u64,
    ) -> Self {
        ForeignWaitU32RequestV1 {
            operation: WaitOperation::Park,
            sequence,
            address,
            expected,
            count: 0,
            timeout_ns,
            address2: 0,
            requeue_count: 0,
        }
    }

    /// The request to wake waiters at an address.
    pub open spec fn waking(address: u64, count: u32) -> Self {
        ForeignWaitU32RequestV1 {
            operation: WaitOperation::Wake,
            sequence: 0,
            address,
            expected: 0,
            count,
            timeout_ns: 0,
            address2: 0,
            requeue_count: 0,
        }
    }

    /// The request to wake some waiters and move others.
    pub open spec fn requeueing(
        address: u64,
        wake_count: u32,
        address2: u64,
        requeue_count: u32,
    ) -> Self {
        ForeignWaitU32RequestV1 {
            operation: WaitOperation::Requeue,
            sequence: 0,
            address,
            expected: 0,
            count: wake_count,
            timeout_ns: 0,
            address2,
            requeue_count,
        }
    }

    /// The request to interrupt the wait of one exit.
    pub open spec fn interrupting(sequence: u64) -> Self {
        ForeignWaitU32RequestV1 {
            operation: WaitOperation::Interrupt,
            sequence,
            address: 0,
            expected: 0,
            count: 0,
            timeout_ns: 0,
            address2: 0,
            requeue_count: 0,
        }
    }

    /// Whether the request has the shape of its operation: addresses aligned,
    /// a sequence exactly where one is needed, and unused fields zero.
    pub open spec fn is_valid(self) -> bool {
        match self.operation {
            WaitOperation::Park => {
                &&& self.sequence != 0
                &&& self.address % 4 == 0
                &&& self.count == 0
                &&& self.address2 == 0
                &&& self.requeue_count == 0
            },
            WaitOperation::Wake => {
                &&& self.address % 4 == 0
                &&& self.sequence == 0
                &&& self.expected == 0
                &&& self.timeout_ns == 0
                &&& self.address2 == 0
                &&& self.requeue_count == 0
            },
            WaitOperation::Requeue => {
                &&& self.address % 4 == 0
                &&& self.address2 % 4 == 0
                &&& self.sequence == 0
                &&& self.expected == 0
                &&& self.timeout_ns == 0
            },
            WaitOperation::Interrupt => {
                &&& self.sequence != 0
                &&& self.address == 0
                &&& self.expected == 0
                &&& self.count == 0
                &&& self.timeout_ns == 0
                &&& self.address2 == 0
                &&& self.requeue_count == 0
            },
        }
    }

    /// The request for `operation` in the fields of a 64-byte record.
    pub open spec fn of_fields(operation: WaitOperation, bytes: Seq<u8>) -> Self {
        ForeignWaitU32RequestV1 {
            operation,
            sequence: field(bytes, 16, 8) as u64,
            address: field(bytes, 24, 8) as u64,
            expected: field(bytes, 32, 4) as u32,
            count: field(bytes, 36, 4) as u32,
            timeout_ns: field(bytes, 40, 8) as u64,
            address2: field(bytes, 48, 8) as u64,
            requeue_count: field(bytes, 56, 4) as u32,
        }
    }

    /// What decoding answers.
    pub open spec fn decode_verdict(bytes: Seq<u8>) -> Result<Self, ForeignError> {
        if bytes.len() != FOREIGN_WAIT_U32_REQUEST_V1_WIRE_SIZE {
            Err(ForeignError::WrongWaitRequestSize)
        } else if field(bytes, 0, 4) != FOREIGN_WAIT_U32_MAGIC {
            Err(ForeignError::WrongWaitRequestMagic)
        } else if field(bytes, 4, 2) != FOREIGN_WAIT_U32_VERSION_V1 || field(bytes, 8, 4)
            != FOREIGN_WAIT_U32_REQUEST_V1_WIRE_SIZE || field(bytes, 12, 4) != 0 || field(
            bytes,
            60,
            4,
        ) != 0 {
            Err(ForeignError::WrongWaitRequestSize)
        } else {
            match WaitOperation::of_code(field(bytes, 6, 2)) {
                Some(operation) if Self::of_fields(operation, bytes).is_valid() => Ok(
                    Self::of_fields(operation, bytes),
                ),
                _ => Err(ForeignError::InvalidWaitRequest),
            }
        }
    }

    /// Wait at `address` while it holds `expected`, on behalf of the exit
    /// `sequence`.
    #[must_use]
    pub fn park(sequence: u64, address: u64, expected: u32, timeout_ns: Option<u64>) -> (request:
        Self)
        ensures
            request == Self::parking(
                sequence,
                address,
                expected,
                match timeout_ns {
                    Some(timeout_ns) => timeout_ns,
                    None => FOREIGN_WAIT_U32_NO_TIMEOUT,
                },
            ),
    {
        let timeout_ns: u64 = match timeout_ns {
            Some(timeout_ns) => timeout_ns,
            None => FOREIGN_WAIT_U32_NO_TIMEOUT,
        };
        ForeignWaitU32RequestV1 {
            operation: WaitOperation::Park,
            sequence,
            address,
            expected,
            count: 0,
            timeout_ns,
            address2: 0,
            requeue_count: 0,
        }
    }

    /// Wake up to `count` waiters at `address`.
    #[must_use]
    pub fn wake(address: u64, count: u32) -> (request: Self)
        ensures
            request == Self::waking(address, count),
    {
        ForeignWaitU32RequestV1 {
            operation: WaitOperation::Wake,
            sequence: 0,
            address,
            expected: 0,
            count,
            timeout_ns: 0,
            address2: 0,
            requeue_count: 0,
        }
    }

    /// Wake up to `wake_count` waiters at `address` and move up to
    /// `requeue_count` more to `address2`.
    #[must_use]
    pub fn requeue(address: u64, wake_count: u32, address2: u64, requeue_count: u32) -> (request:
        Self)
        ensures
            request == Self::requeueing(address, wake_count, address2, requeue_count),
    {
        ForeignWaitU32RequestV1 {
            operation: WaitOperation::Requeue,
            sequence: 0,
            address,
            expected: 0,
            count: wake_count,
            timeout_ns: 0,
            address2,
            requeue_count,
        }
    }

    /// Interrupt the wait of the exit `sequence`.
    #[must_use]
    pub fn interrupt(sequence: u64) -> (request: Self)
        ensures
            request == Self::interrupting(sequence),
    {
        ForeignWaitU32RequestV1 {
            operation: WaitOperation::Interrupt,
            sequence,
            address: 0,
            expected: 0,
            count: 0,
            timeout_ns: 0,
            address2: 0,
            requeue_count: 0,
        }
    }

    /// Validate semantic invariants that can be checked without kernel state.
    pub fn validate(&self) -> (verdict: Result<(), ForeignError>)
        ensures
            verdict == (if self.is_valid() {
                Ok(())
            } else {
                Err(ForeignError::InvalidWaitRequest)
            }),
    {
        let address: u64 = self.address;
        let address2: u64 = self.address2;
        assert((address & 3 == 0) == (address % 4 == 0)) by (bit_vector);
        assert((address2 & 3 == 0) == (address2 % 4 == 0)) by (bit_vector);
        let aligned: bool = address & 3 == 0;
        match self.operation {
            WaitOperation::Park => {
                if self.sequence == 0 || !aligned || self.count != 0 || self.address2 != 0
                    || self.requeue_count != 0 {
                    Err(ForeignError::InvalidWaitRequest)
                } else {
                    Ok(())
                }
            },
            WaitOperation::Wake => {
                if !aligned || self.sequence != 0 || self.expected != 0 || self.timeout_ns != 0
                    || self.address2 != 0 || self.requeue_count != 0 {
                    Err(ForeignError::InvalidWaitRequest)
                } else {
                    Ok(())
                }
            },
            WaitOperation::Requeue => {
                if !aligned || address2 & 3 != 0 || self.sequence != 0 || self.expected != 0
                    || self.timeout_ns != 0 {
                    Err(ForeignError::InvalidWaitRequest)
                } else {
                    Ok(())
                }
            },
            WaitOperation::Interrupt => {
                if self.sequence == 0 || self.address != 0 || self.expected != 0 || self.count != 0
                    || self.timeout_ns != 0 || self.address2 != 0 || self.requeue_count != 0 {
                    Err(ForeignError::InvalidWaitRequest)
                } else {
                    Ok(())
                }
            },
        }
    }

    /// Encode this request in its explicit, padding-free little-endian form.
    #[must_use]
    pub fn to_wire_bytes(&self) -> (bytes: [u8; FOREIGN_WAIT_U32_REQUEST_V1_WIRE_SIZE])
        ensures
            bytes@ == self.wire(),
    {
        broadcast use lemma_le_bytes_len;

        let operation: u16 = match self.operation {
            WaitOperation::Park => WAIT_OPERATION_PARK,
            WaitOperation::Wake => WAIT_OPERATION_WAKE,
            WaitOperation::Requeue => WAIT_OPERATION_REQUEUE,
            WaitOperation::Interrupt => WAIT_OPERATION_INTERRUPT,
        };
        let mut writer: WireWriter<FOREIGN_WAIT_U32_REQUEST_V1_WIRE_SIZE> = WireWriter::new();
        assert(writer.written() + le32(FOREIGN_WAIT_U32_MAGIC) =~= le32(FOREIGN_WAIT_U32_MAGIC));
        writer.u32(FOREIGN_WAIT_U32_MAGIC);
        writer.u16(FOREIGN_WAIT_U32_VERSION_V1);
        writer.u16(operation);
        writer.u32(FOREIGN_WAIT_U32_REQUEST_V1_WIRE_SIZE as u32);
        // Explicit reserved zeroes.
        writer.u32(0);
        writer.u64(self.sequence);
        writer.u64(self.address);
        writer.u32(self.expected);
        writer.u32(self.count);
        writer.u64(self.timeout_ns);
        writer.u64(self.address2);
        writer.u32(self.requeue_count);
        // Explicit reserved zeroes.
        writer.u32(0);
        writer.finish()
    }

    /// Decode and validate one exact request record.
    pub fn from_wire_bytes(bytes: &[u8]) -> (decoded: Result<Self, ForeignError>)
        ensures
            decoded == Self::decode_verdict(bytes@),
            decoded matches Ok(request) ==> request.is_valid() && request.wire() == bytes@,
            forall|request: Self|
                #![trigger request.wire()]
                request.wire() == bytes@ ==> decoded == (if request.is_valid() {
                    Ok(request)
                } else {
                    Err(ForeignError::InvalidWaitRequest)
                }),
    {
        proof {
            wait_decode_canonical(bytes@);
            assert forall|request: Self| #[trigger]
                request.wire() == bytes@ implies Self::decode_verdict(bytes@) == (
            if request.is_valid() {
                Ok::<_, ForeignError>(request)
            } else {
                Err(ForeignError::InvalidWaitRequest)
            }) by {
                wait_decode_of_wire(request);
            }
        }
        if bytes.len() != FOREIGN_WAIT_U32_REQUEST_V1_WIRE_SIZE {
            return Err(ForeignError::WrongWaitRequestSize);
        }
        proof {
            lemma_le_range();
        }
        if read_le(bytes, 0, 4) != FOREIGN_WAIT_U32_MAGIC as u64 {
            return Err(ForeignError::WrongWaitRequestMagic);
        }
        if read_le(bytes, 4, 2) != FOREIGN_WAIT_U32_VERSION_V1 as u64 || read_le(bytes, 8, 4)
            != FOREIGN_WAIT_U32_REQUEST_V1_WIRE_SIZE as u64 || read_le(bytes, 12, 4) != 0
            || read_le(bytes, 60, 4) != 0 {
            return Err(ForeignError::WrongWaitRequestSize);
        }
        let operation: WaitOperation = match read_le(bytes, 6, 2) as u16 {
            WAIT_OPERATION_PARK => WaitOperation::Park,
            WAIT_OPERATION_WAKE => WaitOperation::Wake,
            WAIT_OPERATION_REQUEUE => WaitOperation::Requeue,
            WAIT_OPERATION_INTERRUPT => WaitOperation::Interrupt,
            _ => return Err(ForeignError::InvalidWaitRequest),
        };
        let request = ForeignWaitU32RequestV1 {
            operation,
            sequence: read_le(bytes, 16, 8),
            address: read_le(bytes, 24, 8),
            expected: read_le(bytes, 32, 4) as u32,
            count: read_le(bytes, 36, 4) as u32,
            timeout_ns: read_le(bytes, 40, 8),
            address2: read_le(bytes, 48, 8),
            requeue_count: read_le(bytes, 56, 4) as u32,
        };
        request.validate()?;
        Ok(request)
    }
}

} // verus!
