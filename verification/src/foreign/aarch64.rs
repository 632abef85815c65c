//! Complete, architecture-explicit AArch64 register-state ABI carried by the
//! foreign message protocol; used verbatim in both exit and reply records.
use super::endian::{
    le16, le32, le64, lemma_le_bytes_len, lemma_words_wire_len, words_wire,
};
use vstd::prelude::*;

verus! {

/// Opaque frozen magic of the embedded state record: little-endian `b"LOLO"`.
///
/// Deliberately distinct from `FOREIGN_MAGIC` so that a frame at offset 0 and
/// its embedded state header (at message offset 48) cannot be confused. This is
/// a frozen wire value; never change it.
pub const STATE_MAGIC: u32 = 0x4f4c_4f4c;

pub const ARCHITECTURE_AARCH64: u16 = 1;

pub const STATE_VERSION_V1: u16 = 1;

pub const STATE_FLAG_EXCEPTION_VALID: u32 = 1;

pub const STATE_FLAGS_V1: u32 = STATE_FLAG_EXCEPTION_VALID;

pub const EXCEPTION_FLAG_FAR_VALID: u32 = 1;

pub const EXCEPTION_FLAG_LOWER_EL: u32 = 2;

pub const EXCEPTION_FLAGS_V1: u32 = EXCEPTION_FLAG_FAR_VALID | EXCEPTION_FLAG_LOWER_EL;

pub const EXCEPTION_NONE: u32 = 0;

pub const EXCEPTION_SUPERVISOR_CALL: u32 = 1;

pub const EXCEPTION_DATA_ABORT: u32 = 2;

pub const EXCEPTION_INSTRUCTION_ABORT: u32 = 3;

pub const EXCEPTION_ILLEGAL_INSTRUCTION: u32 = 4;

pub const EXCEPTION_BREAKPOINT: u32 = 5;

pub const EXCEPTION_OTHER: u32 = 0xffff_ffff;

/// Data/instruction-abort ISS bit indicating that FAR is not valid.
pub const ESR_ABORT_FAR_NOT_VALID: u64 = 0x400;

pub const PSTATE_NZCV_MASK: u64 = 0xf000_0000;

pub const PSTATE_MODE_MASK: u64 = 0x1f;

pub const PSTATE_DAIF_MASK: u64 = 0x3c0;

pub const PSTATE_IL: u64 = 0x10_0000;

pub const PSTATE_SINGLE_STEP: u64 = 0x20_0000;

pub const PSTATE_PAN: u64 = 0x40_0000;

pub const PSTATE_UAO: u64 = 0x80_0000;

pub const PSTATE_FORBIDDEN_RESUME_MASK: u64 = PSTATE_MODE_MASK | PSTATE_DAIF_MASK | PSTATE_IL
    | PSTATE_SINGLE_STEP;

/// This state ABI does not expose single-step control. A later protocol version may add it
/// only if the foreign execution mechanism needs it.
pub const SINGLE_STEP_SUPPORTED: bool = false;

/// Portable FPCR bits supported by the v1 state ABI.
pub const FPCR_WRITABLE_MASK: u32 = 0x07c0_9f00;

/// Portable FPSR cumulative-status and saturation bits supported by v1.
pub const FPSR_WRITABLE_MASK: u32 = 0x0800_009f;

/// Size of the state record in bytes.
pub const STATE_V1_SIZE: u32 = 896;

#[derive(Clone, Copy, Debug, Eq, PartialEq, Structural)]
pub struct StateHeader {
    pub magic: u32,
    pub version: u16,
    pub architecture: u16,
    pub size: u32,
    pub flags: u32,
}

#[derive(Clone, Copy, Debug, Eq, PartialEq, Structural)]
pub struct Aarch64Vector {
    pub low: u64,
    pub high: u64,
}

#[derive(Clone, Copy, Debug, Eq, PartialEq, Structural)]
pub struct Aarch64ExceptionState {
    pub kind: u32,
    pub flags: u32,
    pub esr: u64,
    pub far: u64,
    /// Architectural exception-return PC captured in ELR_EL1.
    pub pc: u64,
}

/// Complete, architecture-explicit AArch64 state ABI.
///
/// All fields use fixed-width integers. Exception fields describe why the task
/// stopped and are immutable when the structure is submitted for resumption.
#[derive(Clone, Copy, Debug, Eq, PartialEq)]
pub struct Aarch64StateV1 {
    pub header: StateHeader,
    pub x: [u64; 31],
    pub sp: u64,
    pub pc: u64,
    pub pstate: u64,
    pub tpidr_el0: u64,
    pub tpidrro_el0: u64,
    pub vectors: [Aarch64Vector; 32],
    pub fpcr: u32,
    pub fpsr: u32,
    pub exception: Aarch64ExceptionState,
    /// Explicitly occupies the tail so the fixed-size record has no padding
    /// bytes that could carry uninitialized kernel memory.
    pub reserved: [u64; 5],
}

#[derive(Clone, Copy, Debug, Eq, PartialEq, Structural)]
pub enum ValidationError {
    BadMagic,
    UnsupportedVersion,
    WrongArchitecture,
    WrongSize,
    UnknownStateFlags,
    UnknownExceptionFlags,
    InvalidExceptionRecord,
    NonzeroReserved,
    MisalignedPc,
    PcOutsideUserspace,
    MisalignedSp,
    SpOutsideUserspace,
    ForbiddenPstate,
    NonWritablePstateChanged,
    InvalidFpcr,
    InvalidFpsr,
    ExceptionStateChanged,
}

/// The exception class: bits 26 to 31 of the syndrome.
pub open spec fn class_of(esr: u64) -> int {
    (esr as int / 0x400_0000) % 64
}

/// The exception kind that the class of a syndrome stands for.
pub open spec fn kind_of(esr: u64) -> u32 {
    let class = class_of(esr);
    if class == 0x15 {
        EXCEPTION_SUPERVISOR_CALL
    } else if class == 0x20 || class == 0x21 {
        EXCEPTION_INSTRUCTION_ABORT
    } else if class == 0x24 || class == 0x25 {
        EXCEPTION_DATA_ABORT
    } else if class == 0 {
        EXCEPTION_ILLEGAL_INSTRUCTION
    } else if class == 0x30 || class == 0x31 || class == 0x3c {
        EXCEPTION_BREAKPOINT
    } else {
        EXCEPTION_OTHER
    }
}

/// Whether FAR means anything under this syndrome: only for an abort, and
/// only while bit 10 is clear.
pub open spec fn reports_far(esr: u64) -> bool {
    &&& kind_of(esr) == EXCEPTION_DATA_ABORT || kind_of(esr) == EXCEPTION_INSTRUCTION_ABORT
    &&& (esr as int / 0x400) % 2 == 0
}

/// The one record that describes an exception taken from a lower level.
pub open spec fn lower_el_record(esr: u64, far: u64, pc: u64) -> Aarch64ExceptionState {
    Aarch64ExceptionState {
        kind: kind_of(esr),
        flags: if reports_far(esr) {
            3
        } else {
            EXCEPTION_FLAG_LOWER_EL
        },
        esr,
        far: if reports_far(esr) {
            far
        } else {
            0
        },
        pc,
    }
}

/// Whether `a` and `b` have the same bits outside `mask`.
pub open spec fn agree_outside(a: u64, b: u64, mask: u64) -> bool {
    a & !mask == b & !mask
}

/// Whether two control words have the same bits outside `mask`.
pub open spec fn agree_outside_u32(a: u32, b: u32, mask: u32) -> bool {
    a & !mask == b & !mask
}

/// Consecutive vector registers on the wire, low half first.
pub open spec fn vectors_wire(vectors: Seq<Aarch64Vector>) -> Seq<u8>
    decreases vectors.len(),
{
    if vectors.len() == 0 {
        Seq::empty()
    } else {
        vectors_wire(vectors.drop_last()) + le64(vectors.last().low) + le64(vectors.last().high)
    }
}

/// Each vector register takes sixteen bytes.
pub broadcast proof fn lemma_vectors_wire_len(vectors: Seq<Aarch64Vector>)
    ensures
        #[trigger] vectors_wire(vectors).len() == 16 * vectors.len(),
    decreases vectors.len(),
{
    broadcast use lemma_le_bytes_len;

    if vectors.len() > 0 {
        lemma_vectors_wire_len(vectors.drop_last());
    }
}

impl StateHeader {
    /// The 16 bytes of this header on the wire.
    pub open spec fn wire(self) -> Seq<u8> {
        le32(self.magic) + le16(self.version) + le16(self.architecture) + le32(self.size) + le32(
            self.flags,
        )
    }
}

impl Aarch64Vector {
    /// The cleared vector register.
    pub open spec fn zero() -> Self {
        Aarch64Vector { low: 0, high: 0 }
    }
}

impl Default for Aarch64Vector {
    fn default() -> (vector: Self)
        ensures
            vector == Aarch64Vector::zero(),
    {
        Aarch64Vector { low: 0, high: 0 }
    }
}

impl Aarch64ExceptionState {
    /// The empty record of a state that holds no exception.
    pub open spec fn none() -> Self {
        Aarch64ExceptionState { kind: EXCEPTION_NONE, flags: 0, esr: 0, far: 0, pc: 0 }
    }

    /// The 32 bytes of this record on the wire.
    pub open spec fn wire(self) -> Seq<u8> {
        le32(self.kind) + le32(self.flags) + le64(self.esr) + le64(self.far) + le64(self.pc)
    }

    /// Records an exception taken from a lower exception level. FAR is kept
    /// only where the syndrome says that it is valid.
    #[must_use]
    pub fn from_lower_el(esr: u64, far: u64, pc: u64) -> (record: Self)
        ensures
            record == lower_el_record(esr, far, pc),
    {
        let kind: u32 = classify_exception(esr);
        let far_valid: bool = matches!(kind, EXCEPTION_DATA_ABORT | EXCEPTION_INSTRUCTION_ABORT)
            && esr & ESR_ABORT_FAR_NOT_VALID == 0;
        assert((esr & ESR_ABORT_FAR_NOT_VALID == 0) == ((esr / 0x400) % 2 == 0)) by (bit_vector);
        assert(EXCEPTION_FLAG_LOWER_EL | EXCEPTION_FLAG_FAR_VALID == 3) by (bit_vector);
        assert(EXCEPTION_FLAG_LOWER_EL | 0 == EXCEPTION_FLAG_LOWER_EL) by (bit_vector);
        Aarch64ExceptionState {
            kind,
            flags: EXCEPTION_FLAG_LOWER_EL | if far_valid {
                EXCEPTION_FLAG_FAR_VALID
            } else {
                0
            },
            esr,
            far: if far_valid {
                far
            } else {
                0
            },
            pc,
        }
    }
}

impl Default for Aarch64ExceptionState {
    fn default() -> (record: Self)
        ensures
            record == Aarch64ExceptionState::none(),
    {
        Aarch64ExceptionState { kind: EXCEPTION_NONE, flags: 0, esr: 0, far: 0, pc: 0 }
    }
}

impl Default for Aarch64StateV1 {
    fn default() -> (state: Self)
        ensures
            state.is_cleared(),
    {
        Aarch64StateV1 {
            header: StateHeader {
                magic: STATE_MAGIC,
                version: STATE_VERSION_V1,
                architecture: ARCHITECTURE_AARCH64,
                size: STATE_V1_SIZE,
                flags: 0,
            },
            x: [0; 31],
            sp: 0,
            pc: 0,
            pstate: 0,
            tpidr_el0: 0,
            tpidrro_el0: 0,
            vectors: [Aarch64Vector::default(); 32],
            fpcr: 0,
            fpsr: 0,
            exception: Aarch64ExceptionState::default(),
            reserved: [0; 5],
        }
    }
}

impl Aarch64StateV1 {
    /// Whether this is the state with a plain V1 header and every register
    /// clear.
    pub open spec fn is_cleared(self) -> bool {
        &&& self.header == StateHeader {
            magic: STATE_MAGIC,
            version: STATE_VERSION_V1,
            architecture: ARCHITECTURE_AARCH64,
            size: STATE_V1_SIZE,
            flags: 0,
        }
        &&& forall|i: int| 0 <= i < 31 ==> self.x[i] == 0
        &&& self.sp == 0
        &&& self.pc == 0
        &&& self.pstate == 0
        &&& self.tpidr_el0 == 0
        &&& self.tpidrro_el0 == 0
        &&& forall|i: int| 0 <= i < 32 ==> self.vectors[i] == Aarch64Vector::zero()
        &&& self.fpcr == 0
        &&& self.fpsr == 0
        &&& self.exception == Aarch64ExceptionState::none()
        &&& self.reserved_is_zero()
    }

    /// The 896 bytes of this state on the wire.
    pub open spec fn wire(self) -> Seq<u8> {
        self.header.wire() + words_wire(self.x@) + le64(self.sp) + le64(self.pc) + le64(self.pstate)
            + le64(self.tpidr_el0) + le64(self.tpidrro_el0) + vectors_wire(self.vectors@) + le32(
            self.fpcr,
        ) + le32(self.fpsr) + self.exception.wire() + words_wire(self.reserved@)
    }

    /// A state takes 896 bytes on the wire.
    pub proof fn lemma_wire_len(self)
        ensures
            self.wire().len() == STATE_V1_SIZE,
    {
        broadcast use {lemma_le_bytes_len, lemma_words_wire_len, lemma_vectors_wire_len};

    }

    /// Whether the tail words are all zero.
    pub open spec fn reserved_is_zero(self) -> bool {
        forall|i: int| 0 <= i < 5 ==> self.reserved[i] == 0
    }

    /// Whether the header is that of a V1 AArch64 state with known flags.
    pub open spec fn has_v1_header(self) -> bool {
        &&& self.header.magic == STATE_MAGIC
        &&& self.header.version == STATE_VERSION_V1
        &&& self.header.architecture == ARCHITECTURE_AARCH64
        &&& self.header.size == STATE_V1_SIZE
        &&& self.header.flags <= STATE_FLAGS_V1
    }

    /// Whether the exception fields are what the header's flag announces: the
    /// empty record without it, the record of a lower-level exception with it.
    pub open spec fn exception_matches_flag(self) -> bool {
        let e = self.exception;
        if self.header.flags == STATE_FLAG_EXCEPTION_VALID {
            e == lower_el_record(e.esr, e.far, e.pc)
        } else {
            e == Aarch64ExceptionState::none()
        }
    }

    /// A well-formed V1 snapshot.
    pub open spec fn is_snapshot(self) -> bool {
        &&& self.has_v1_header()
        &&& self.reserved_is_zero()
        &&& self.exception_matches_flag()
    }

    /// What snapshot validation answers: the first broken rule decides.
    pub open spec fn snapshot_verdict(self) -> Result<(), ValidationError> {
        if self.header.magic != STATE_MAGIC {
            Err(ValidationError::BadMagic)
        } else if self.header.version != STATE_VERSION_V1 {
            Err(ValidationError::UnsupportedVersion)
        } else if self.header.architecture != ARCHITECTURE_AARCH64 {
            Err(ValidationError::WrongArchitecture)
        } else if self.header.size != STATE_V1_SIZE {
            Err(ValidationError::WrongSize)
        } else if self.header.flags > STATE_FLAGS_V1 {
            Err(ValidationError::UnknownStateFlags)
        } else if !self.reserved_is_zero() {
            Err(ValidationError::NonzeroReserved)
        } else if self.exception_matches_flag() {
            Ok(())
        } else if self.header.flags == STATE_FLAG_EXCEPTION_VALID && self.exception.kind
            != EXCEPTION_NONE && self.exception.flags > 3 {
            Err(ValidationError::UnknownExceptionFlags)
        } else {
            Err(ValidationError::InvalidExceptionRecord)
        }
    }

    /// Validate the header, the exception record and the reserved tail of a
    /// snapshot. Register contents are not inspected.
    pub fn validate_snapshot(&self) -> (verdict: Result<(), ValidationError>)
        ensures
            verdict == self.snapshot_verdict(),
            verdict is Ok <==> self.is_snapshot(),
    {
        if self.header.magic != STATE_MAGIC {
            return Err(ValidationError::BadMagic);
        }
        if self.header.version != STATE_VERSION_V1 {
            return Err(ValidationError::UnsupportedVersion);
        }
        if self.header.architecture != ARCHITECTURE_AARCH64 {
            return Err(ValidationError::WrongArchitecture);
        }
        if self.header.size != STATE_V1_SIZE {
            return Err(ValidationError::WrongSize);
        }
        let state_flags: u32 = self.header.flags;
        assert((state_flags & !STATE_FLAGS_V1 != 0) == (state_flags > STATE_FLAGS_V1))
            by (bit_vector);
        if state_flags & !STATE_FLAGS_V1 != 0 {
            return Err(ValidationError::UnknownStateFlags);
        }
        if self.reserved[0] != 0 || self.reserved[1] != 0 || self.reserved[2] != 0
            || self.reserved[3] != 0 || self.reserved[4] != 0 {
            return Err(ValidationError::NonzeroReserved);
        }
        assert(state_flags <= 1 ==> (state_flags & STATE_FLAG_EXCEPTION_VALID == 0) == (state_flags
            == 0)) by (bit_vector);
        if state_flags & STATE_FLAG_EXCEPTION_VALID == 0 {
            if self.exception != Aarch64ExceptionState::default() {
                return Err(ValidationError::InvalidExceptionRecord);
            }
        } else {
            let flags: u32 = self.exception.flags;
            let esr: u64 = self.exception.esr;
            assert((flags & !EXCEPTION_FLAGS_V1 != 0) == (flags > 3)) by (bit_vector);
            assert((esr & ESR_ABORT_FAR_NOT_VALID == 0) == ((esr / 0x400) % 2 == 0))
                by (bit_vector);
            assert(flags <= 3 ==> (flags & EXCEPTION_FLAG_LOWER_EL == 0) == (flags < 2)
                && (flags & EXCEPTION_FLAG_FAR_VALID != 0) == (flags == 1 || flags == 3))
                by (bit_vector);
            if self.exception.kind == EXCEPTION_NONE {
                return Err(ValidationError::InvalidExceptionRecord);
            }
            if flags & !EXCEPTION_FLAGS_V1 != 0 {
                return Err(ValidationError::UnknownExceptionFlags);
            }
            if flags & EXCEPTION_FLAG_LOWER_EL == 0 {
                return Err(ValidationError::InvalidExceptionRecord);
            }
            if self.exception.kind != classify_exception(esr) {
                return Err(ValidationError::InvalidExceptionRecord);
            }
            let far_valid: bool = flags & EXCEPTION_FLAG_FAR_VALID != 0;
            let far_is_valid: bool = matches!(
                self.exception.kind,
                EXCEPTION_DATA_ABORT | EXCEPTION_INSTRUCTION_ABORT
            ) && esr & ESR_ABORT_FAR_NOT_VALID == 0;
            if far_valid != far_is_valid || (!far_valid && self.exception.far != 0) {
                return Err(ValidationError::InvalidExceptionRecord);
            }
        }
        Ok(())
    }

    /// Whether a task stopped at `stopped` may go on with this state in an
    /// address space that ends at `user_end`.
    pub open spec fn may_resume(self, stopped: Self, user_end: u64) -> bool {
        &&& self.is_snapshot()
        &&& stopped.is_snapshot()
        &&& self.pc % 4 == 0
        &&& self.pc < user_end
        &&& self.sp % 16 == 0
        &&& self.sp <= user_end
        &&& self.pstate & PSTATE_FORBIDDEN_RESUME_MASK == 0
        &&& agree_outside(self.pstate, stopped.pstate, PSTATE_NZCV_MASK)
        &&& agree_outside_u32(self.fpcr, stopped.fpcr, FPCR_WRITABLE_MASK)
        &&& agree_outside_u32(self.fpsr, stopped.fpsr, FPSR_WRITABLE_MASK)
        &&& self.header.flags == stopped.header.flags
        &&& self.exception == stopped.exception
    }

    /// What resume validation answers: the requested state itself, or the
    /// first broken rule, this state's own rules before those of `stopped`.
    pub open spec fn resume_verdict(self, stopped: Self, user_end: u64) -> Result<
        Self,
        ValidationError,
    > {
        if let Err(error) = self.snapshot_verdict() {
            Err(error)
        } else if let Err(error) = stopped.snapshot_verdict() {
            Err(error)
        } else if self.pc % 4 != 0 {
            Err(ValidationError::MisalignedPc)
        } else if self.pc >= user_end {
            Err(ValidationError::PcOutsideUserspace)
        } else if self.sp % 16 != 0 {
            Err(ValidationError::MisalignedSp)
        } else if self.sp > user_end {
            Err(ValidationError::SpOutsideUserspace)
        } else if self.pstate & PSTATE_FORBIDDEN_RESUME_MASK != 0 {
            Err(ValidationError::ForbiddenPstate)
        } else if !agree_outside(self.pstate, stopped.pstate, PSTATE_NZCV_MASK) {
            Err(ValidationError::NonWritablePstateChanged)
        } else if !agree_outside_u32(self.fpcr, stopped.fpcr, FPCR_WRITABLE_MASK) {
            Err(ValidationError::InvalidFpcr)
        } else if !agree_outside_u32(self.fpsr, stopped.fpsr, FPSR_WRITABLE_MASK) {
            Err(ValidationError::InvalidFpsr)
        } else if self.header.flags != stopped.header.flags || self.exception
            != stopped.exception {
            Err(ValidationError::ExceptionStateChanged)
        } else {
            Ok(self)
        }
    }

    /// Validate and canonicalize state supplied for a return to EL0.
    ///
    /// Only integer registers, TLS, FP/SIMD state, PC, SP, and NZCV may change.
    /// Exception metadata and all other PSTATE bits must match the stopped
    /// snapshot exactly. Those rules leave nothing to canonicalize: what is
    /// accepted comes back as it was requested.
    pub fn sanitized_for_resume(&self, stopped: &Self, user_end: u64) -> (verdict: Result<
        Self,
        ValidationError,
    >)
        ensures
            verdict == self.resume_verdict(*stopped, user_end),
            verdict is Ok <==> self.may_resume(*stopped, user_end),
    {
        self.validate_snapshot()?;
        stopped.validate_snapshot()?;

        proof {
            lemma_low_bits(self.pc, self.sp);
            lemma_merge_outside(self.pstate, stopped.pstate, PSTATE_NZCV_MASK);
            lemma_merge_outside_u32(self.fpcr, stopped.fpcr, FPCR_WRITABLE_MASK);
            lemma_merge_outside_u32(self.fpsr, stopped.fpsr, FPSR_WRITABLE_MASK);
        }
        if self.pc & 0b11 != 0 {
            return Err(ValidationError::MisalignedPc);
        }
        if self.pc >= user_end {
            return Err(ValidationError::PcOutsideUserspace);
        }
        if self.sp & 0b1111 != 0 {
            return Err(ValidationError::MisalignedSp);
        }
        if self.sp > user_end {
            return Err(ValidationError::SpOutsideUserspace);
        }
        if self.pstate & PSTATE_FORBIDDEN_RESUME_MASK != 0 {
            return Err(ValidationError::ForbiddenPstate);
        }
        if (self.pstate ^ stopped.pstate) & !PSTATE_NZCV_MASK != 0 {
            return Err(ValidationError::NonWritablePstateChanged);
        }
        if (self.fpcr ^ stopped.fpcr) & !FPCR_WRITABLE_MASK != 0 {
            return Err(ValidationError::InvalidFpcr);
        }
        if (self.fpsr ^ stopped.fpsr) & !FPSR_WRITABLE_MASK != 0 {
            return Err(ValidationError::InvalidFpsr);
        }
        if self.header.flags != stopped.header.flags || self.exception != stopped.exception {
            return Err(ValidationError::ExceptionStateChanged);
        }
        let mut sanitized: Self = *self;
        sanitized.pstate = (stopped.pstate & !PSTATE_NZCV_MASK) | (self.pstate & PSTATE_NZCV_MASK);
        sanitized.fpcr = (stopped.fpcr & !FPCR_WRITABLE_MASK) | (self.fpcr & FPCR_WRITABLE_MASK);
        sanitized.fpsr = (stopped.fpsr & !FPSR_WRITABLE_MASK) | (self.fpsr & FPSR_WRITABLE_MASK);
        sanitized.exception = stopped.exception;
        sanitized.header.flags = stopped.header.flags;
        sanitized.reserved = [0; 5];
        assert(sanitized.reserved =~= self.reserved);
        Ok(sanitized)
    }
}

/// Alignment tests on low bits are divisibility.
proof fn lemma_low_bits(pc: u64, sp: u64)
    ensures
        (pc & 0b11 == 0) == (pc % 4 == 0),
        (sp & 0b1111 == 0) == (sp % 16 == 0),
{
    assert((pc & 0b11 == 0) == (pc % 4 == 0)) by (bit_vector);
    assert((sp & 0b1111 == 0) == (sp % 16 == 0)) by (bit_vector);
}

/// Taking the masked bits from `a` and the others from `b` gives `a` exactly
/// where the two agree outside the mask.
proof fn lemma_merge_outside(a: u64, b: u64, mask: u64)
    ensures
        ((a ^ b) & !mask == 0) == agree_outside(a, b, mask),
        agree_outside(a, b, mask) == ((b & !mask) | (a & mask) == a),
{
    assert(((a ^ b) & !mask == 0) == (a & !mask == b & !mask)) by (bit_vector);
    assert((a & !mask == b & !mask) == ((b & !mask) | (a & mask) == a)) by (bit_vector);
}

/// As [`lemma_merge_outside`], for a 32-bit control word.
proof fn lemma_merge_outside_u32(a: u32, b: u32, mask: u32)
    ensures
        ((a ^ b) & !mask == 0) == agree_outside_u32(a, b, mask),
        agree_outside_u32(a, b, mask) == ((b & !mask) | (a & mask) == a),
{
    assert(((a ^ b) & !mask == 0) == (a & !mask == b & !mask)) by (bit_vector);
    assert((a & !mask == b & !mask) == ((b & !mask) | (a & mask) == a)) by (bit_vector);
}

/// The exception class field of a syndrome.
#[must_use]
pub fn exception_class(esr: u64) -> (class: u8)
    ensures
        class == class_of(esr),
{
    assert((esr >> 26) & 0x3f == (esr / 0x400_0000) % 64) by (bit_vector);
    ((esr >> 26) & 0x3f) as u8
}

/// The exception kind that a syndrome stands for.
#[must_use]
pub fn classify_exception(esr: u64) -> (kind: u32)
    ensures
        kind == kind_of(esr),
{
    match exception_class(esr) {
        0x15 => EXCEPTION_SUPERVISOR_CALL,
        0x20 | 0x21 => EXCEPTION_INSTRUCTION_ABORT,
        0x24 | 0x25 => EXCEPTION_DATA_ABORT,
        0x00 => EXCEPTION_ILLEGAL_INSTRUCTION,
        0x30 | 0x31 | 0x3c => EXCEPTION_BREAKPOINT,
        _ => EXCEPTION_OTHER,
    }
}

} // verus!
