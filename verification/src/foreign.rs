//! Versioned foreign-domain trap/reply protocol shared by the kernel and an
//! unprivileged foreign-task broker.
//!
//! The kernel diverts every `svc` and unhandled architectural exception from an
//! attached foreign task into a broker-owned queue as a [`ForeignMessageV1`]
//! exit record, and the broker replies with the same record shape to resume or
//! terminate the task. The register payload is the
//! [`Aarch64StateV1`](aarch64::Aarch64StateV1) so that every broker-provided
//! register update flows through the same validation boundary; there is exactly
//! one register layout.
//!
//! The broker is any unprivileged supervisor of foreign tasks -- a debugger, a
//! language runtime, or a sandbox. No guest syscall number, errno, or signal
//! number appears here: the broker interprets AArch64 state; the kernel only
//! reports the trap.
//!
//! # Wire layout
//!
//! Every field is little-endian with no implicit padding, so a non-Rust broker
//! can implement the protocol from these tables alone. The fixed exit/reply
//! frame is [`FOREIGN_MESSAGE_V1_WIRE_SIZE`] (976) bytes:
//!
//! | Offset | Size | Field | Notes |
//! |-------:|-----:|-------|-------|
//! | 0 | 4 | `magic` | u32, little-endian `b"LFOR"` ([`FOREIGN_MAGIC`]) |
//! | 4 | 2 | `version` | u16 protocol version |
//! | 6 | 2 | `architecture` | u16, `1` = AArch64 ([`FOREIGN_ARCH_AARCH64`]) |
//! | 8 | 4 | `size` | u32, always 976 |
//! | 12 | 4 | `code` | u32 exit reason or reply kind |
//! | 16 | 8 | `domain_id` | u64 opaque domain token |
//! | 24 | 8 | `task_id` | u64 opaque task token |
//! | 32 | 8 | `sequence` | u64 monotonic exit-sequence token |
//! | 40 | 8 | `flags` | u64, reserved, must be zero |
//! | 48 | 896 | `state` | register record (see below) |
//! | 944 | 32 | `reserved` | four u64 tail words |
//!
//! The embedded register record begins at frame offset 48 and carries its
//! own [`StateHeader`](aarch64::StateHeader), whose magic is
//! [`STATE_MAGIC`](aarch64::STATE_MAGIC) (`b"LOLO"`), deliberately distinct from
//! [`FOREIGN_MAGIC`] so the embedded state header cannot be confused with the
//! surrounding frame. Its fields, at offsets relative to that 48-byte base:
//!
//! | Offset | Size | Field |
//! |-------:|-----:|-------|
//! | 0 | 16 | `header` (magic u32, version u16, architecture u16, size u32, flags u32) |
//! | 16 | 248 | `x[0..31]` general registers, u64 each |
//! | 264 | 8 | `sp` |
//! | 272 | 8 | `pc` |
//! | 280 | 8 | `pstate` |
//! | 288 | 8 | `tpidr_el0` |
//! | 296 | 8 | `tpidrro_el0` |
//! | 304 | 512 | `vectors[0..32]`, each `{ low: u64, high: u64 }` |
//! | 816 | 4 | `fpcr` |
//! | 820 | 4 | `fpsr` |
//! | 824 | 32 | `exception` (kind u32, flags u32, esr u64, far u64, pc u64) |
//! | 856 | 40 | `reserved[0..5]`, u64 each, always zero |
//!
//! The four-word tail at frame offset 944 is all zero for V1 frames and for
//! every reply. On a V2-or-later [`ExitReason::Kick`] its first word
//! (`reserved[0]`, at frame offset 944) carries the [`KickOrigin`] wire value;
//! on a V3-or-later [`ExitReason::WaitComplete`] that same word carries the
//! [`WaitOutcome`] wire value. All other tail words stay zero.
//!
//! # Sub-protocols
//!
//! A broker endpoint mints task-bound capabilities by `dup`-ing a decimal task
//! token appended to a fixed handle prefix:
//!
//! - task-bound memory: [`FOREIGN_MEMORY_HANDLE_PREFIX`] (`"memory/"`), driven
//!   through the positioned read/write scheme interface with no pointer-bearing
//!   record.
//! - atomic-u32: [`FOREIGN_ATOMIC_U32_HANDLE_PREFIX`] (`"atomic-u32/"`).
//! - atomic wait/wake: [`FOREIGN_WAIT_U32_HANDLE_PREFIX`] (`"wait-u32/"`),
//!   carrying the fixed [`ForeignWaitU32RequestV1`] request record.
//!
//! # What is proved
//!
//! The records' `wire` functions say what bytes stand for a record. [`layout`]
//! proves the tables above of them, and with it that no two records share an
//! encoding. [`laws`] holds the properties that span several operations, such as
//! the separation of exits from replies and what a resumed task may change.
use vstd::prelude::*;

/// AArch64 register-state ABI shared by the foreign message protocol.
pub mod aarch64;
/// Control opcodes of a foreign-domain control handle.
pub mod domain_op;
/// Little-endian integers as byte sequences.
pub mod endian;
/// Properties that span several operations.
pub mod laws;
/// The layout tables of the wire records, proved of their encodings.
pub mod layout;
mod message;
mod wait;
pub(crate) mod wire;

pub use message::{
    ExitReason, ForeignHeader, ForeignMessageV1, KickOrigin, ReplyKind, WaitOutcome,
};
pub use wait::{ForeignWaitU32RequestV1, WaitOperation};

verus! {

/// Magic identifying a foreign exit/reply record: little-endian `b"LFOR"`.
///
/// Distinct from the register-state magic so a stale register state cannot be
/// replayed as a foreign message, or vice versa.
pub const FOREIGN_MAGIC: u32 = 0x524f_464c;

/// First protocol version carried by [`ForeignMessageV1`].
///
/// V1 has only supervisor-call, architectural-exception, and task-death exit
/// reasons. Existing domains remain on this version unless their trusted
/// controller explicitly selects V2 before opening a broker endpoint.
pub const FOREIGN_VERSION_V1: u16 = 1;

/// Lifecycle protocol version.
///
/// V2 preserves the fixed 976-byte wire layout, but adds the checked `Kick`
/// exit reason. For a `Kick` exit only, the first word of the existing tail
/// records whether it superseded a simultaneous supervisor call or exception.
/// Every other tail word remains zero. Keeping the extension versioned and
/// layout-stable lets a broker reject an unsupported domain protocol before it
/// starts supervising tasks.
pub const FOREIGN_VERSION_V2: u16 = 2;

/// Atomic wait/wake protocol version.
///
/// V3 preserves the existing fixed exit/reply frame and adds a checked
/// `WaitComplete` exit. The separate wait-operation request is also
/// versioned, so neither a broker nor the kernel can reinterpret an older
/// lifecycle record as a wait completion.
pub const FOREIGN_VERSION_V3: u16 = 3;

/// Resource-governance protocol version.
///
/// V4 preserves the fixed V3 exit/reply frame and generic atomic-wait request.
/// It adds a pre-activation domain-control operation for selecting explicit
/// resource limits. The limits are kernel policy for one trust domain, not a
/// guest OS resource policy; V1--V3 callers keep their bounded
/// default limits without having to understand the V4 control operation.
pub const FOREIGN_VERSION_V4: u16 = 4;

/// Architecture identifier: AArch64.
pub const FOREIGN_ARCH_AARCH64: u16 = 1;

/// Exit reason: the foreign task executed `svc`.
pub const EXIT_SUPERVISOR_CALL: u32 = 1;

/// Exit reason: an unhandled lower-EL architectural exception was routed.
pub const EXIT_EXCEPTION: u32 = 2;

/// Exit reason: the task died; terminal, cannot be resumed.
pub const EXIT_TASK_DEATH: u32 = 3;

/// Exit reason: a trusted controller interrupted the foreign task.
///
/// Available from protocol V2 on. The record carries the exact stopped state;
/// see [`KickOrigin`] for the versioned tail's meaning.
pub const EXIT_KICK: u32 = 4;

/// Exit reason: a generic atomic wait completed.
///
/// This is deliberately not a guest wait result. The broker receives the
/// generic completion fact and chooses any guest ABI-visible return value in
/// its normal, validated resume reply.
pub const EXIT_WAIT_COMPLETE: u32 = 5;

/// Reply kind: resume the task with the validated register state.
///
/// Chosen not to overlap the exit reasons, so that a message used in the wrong
/// direction fails validation instead of being silently misinterpreted.
pub const REPLY_RESUME: u32 = 0x101;

/// Reply kind: terminate the task.
pub const REPLY_TERMINATE: u32 = 0x102;

/// Version of the task-bound foreign-memory capability.
///
/// The memory operations themselves use the normal positioned `read`/`write`
/// scheme interface, so there is no pointer-bearing request record. The version
/// and bounds are still part of the UAPI contract: a future incompatible
/// capability shape must use a new version rather than silently changing the
/// meaning of offsets or result counts.
pub const FOREIGN_MEMORY_VERSION_V1: u16 = 1;

/// Maximum bytes transferred by one foreign-memory operation.
///
/// This bounds the kernel-owned staging buffer. A protocol client may compose
/// several exact operations and report progress explicitly; the kernel never
/// performs an implicit partial transfer within this bound.
pub const FOREIGN_MEMORY_MAX_TRANSFER_V1: usize = 0x1_0000;

/// `dup` path prefix used on a broker endpoint to mint a task-bound memory
/// capability. The decimal task token follows this prefix.
pub const FOREIGN_MEMORY_HANDLE_PREFIX: &'static str = "memory/";

/// `dup` path prefix used on a broker endpoint to mint a task-bound atomic
/// 32-bit capability. The decimal task token follows this prefix.
///
/// This intentionally names a separate endpoint rather than changing the
/// byte-copy endpoint's behavior when a transfer happens to be four bytes.
/// A caller can therefore distinguish exact copies from sequentially
/// consistent atomic load and compare-exchange operations at the ABI level.
pub const FOREIGN_ATOMIC_U32_HANDLE_PREFIX: &'static str = "atomic-u32/";

/// `dup` path prefix used on a broker endpoint to mint an atomic-wait
/// capability. The decimal task token follows this prefix.
pub const FOREIGN_WAIT_U32_HANDLE_PREFIX: &'static str = "wait-u32/";

/// Number of resource values following [`domain_op::SET_LIMITS_V1`].
///
/// The control channel itself uses native-width words because it is a Redox
/// proc-scheme operation. The values are counts rather than pointers, and the
/// selected V4 protocol version makes this fixed ordering part of the contract.
pub const FOREIGN_DOMAIN_LIMITS_V1_VALUE_COUNT: usize = 6;

/// Total native-width words in one V4 `SET_LIMITS_V1` request, its opcode
/// among them.
pub const FOREIGN_DOMAIN_LIMITS_V1_CONTROL_WORD_COUNT: usize = 1
    + FOREIGN_DOMAIN_LIMITS_V1_VALUE_COUNT;

/// Size of the fixed foreign message record in bytes.
pub const FOREIGN_MESSAGE_V1_SIZE: u32 = 976;

/// The fixed wire length in bytes, equal to [`FOREIGN_MESSAGE_V1_SIZE`]; this is
/// the exact buffer length [`ForeignMessageV1::from_wire_bytes`] accepts.
pub const FOREIGN_MESSAGE_V1_WIRE_SIZE: usize = 976;

/// Magic identifying an atomic-wait operation request: little-endian
/// `b"LWAT"`.
pub const FOREIGN_WAIT_U32_MAGIC: u32 = 0x5441_574c;

/// First fixed request version for atomic wait/wake operations.
pub const FOREIGN_WAIT_U32_VERSION_V1: u16 = 1;

/// No timeout. Any other timeout is a relative monotonic duration in
/// nanoseconds, not a guest clock or flag combination.
pub const FOREIGN_WAIT_U32_NO_TIMEOUT: u64 = 0xffff_ffff_ffff_ffff;

/// Fixed byte length of [`ForeignWaitU32RequestV1`] on the wire.
pub const FOREIGN_WAIT_U32_REQUEST_V1_WIRE_SIZE: usize = 64;

/// Reasons a protocol record fails structural validation.
#[derive(Clone, Copy, Debug, Eq, PartialEq, Structural)]
pub enum ForeignError {
    BadMagic,
    UnsupportedVersion,
    WrongArchitecture,
    WrongSize,
    UnknownCode,
    NonzeroFlags,
    NonzeroReserved,
    WrongDomain,
    WrongWireSize,
    WrongProtocolVersion,
    InvalidKickOrigin,
    InvalidWaitOutcome,
    WrongWaitRequestMagic,
    WrongWaitRequestSize,
    InvalidWaitRequest,
}

/// The protocol versions that this crate decodes.
pub open spec fn is_supported(version: u16) -> bool {
    FOREIGN_VERSION_V1 <= version <= FOREIGN_VERSION_V4
}

/// Whether this crate can safely decode the selected protocol version.
#[must_use]
pub fn protocol_version_is_supported(version: u16) -> (supported: bool)
    ensures
        supported == is_supported(version),
{
    matches!(
        version,
        FOREIGN_VERSION_V1 | FOREIGN_VERSION_V2 | FOREIGN_VERSION_V3 | FOREIGN_VERSION_V4
    )
}

} // verus!
