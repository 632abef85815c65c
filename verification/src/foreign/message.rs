//! The exit/reply frame.
use super::aarch64::Aarch64StateV1;
use super::endian::{le16, le32, le64, lemma_le_bytes_len, lemma_words_wire_len, words_wire};
use super::layout::{header_layout, message_wire_injective};
use super::wire::{WireReader, WireWriter};
use super::{
    is_supported, protocol_version_is_supported, ForeignError, EXIT_EXCEPTION, EXIT_KICK,
    EXIT_SUPERVISOR_CALL, EXIT_TASK_DEATH, EXIT_WAIT_COMPLETE, FOREIGN_ARCH_AARCH64, FOREIGN_MAGIC,
    FOREIGN_MESSAGE_V1_SIZE, FOREIGN_MESSAGE_V1_WIRE_SIZE, FOREIGN_VERSION_V1, FOREIGN_VERSION_V2,
    FOREIGN_VERSION_V3, FOREIGN_VERSION_V4, REPLY_RESUME, REPLY_TERMINATE,
};
use vstd::prelude::*;

verus! {

const KICK_ORIGIN_ASYNCHRONOUS: u64 = 0;

const KICK_ORIGIN_SUPERVISOR_CALL: u64 = 1;

const KICK_ORIGIN_EXCEPTION: u64 = 2;

const WAIT_OUTCOME_WOKEN: u64 = 0;

const WAIT_OUTCOME_TIMED_OUT: u64 = 1;

const WAIT_OUTCOME_INTERRUPTED: u64 = 2;

const WAIT_OUTCOME_MAPPING_INVALIDATED: u64 = 3;

/// Fixed message header. Identical for exit records and reply records; `code`
/// carries the exit reason or the reply kind depending on direction.
#[derive(Clone, Copy, Debug, Eq, PartialEq, Structural)]
pub struct ForeignHeader {
    pub magic: u32,
    pub version: u16,
    pub architecture: u16,
    pub size: u32,
    pub code: u32,
}

/// A foreign exit record (kernel to broker) or reply record (broker to kernel).
///
/// One fixed-width, architecture-explicit layout is used in both directions.
/// The register payload reuses the [`Aarch64StateV1`] verbatim; there is no
/// second register ABI to keep in sync.
#[derive(Clone, Copy, Debug, Eq, PartialEq)]
pub struct ForeignMessageV1 {
    pub header: ForeignHeader,
    /// Opaque domain token.
    pub domain_id: u64,
    /// Opaque task token, unique within the domain.
    pub task_id: u64,
    /// Monotonic exit-sequence token; a reply must echo the exact outstanding
    /// value.
    pub sequence: u64,
    /// Reserved for future negotiated behavior; must be zero.
    pub flags: u64,
    /// Complete AArch64 machine state: the stopped snapshot on an exit, the
    /// requested state on a resume reply. Ignored for terminate replies and
    /// death exits.
    pub state: Aarch64StateV1,
    /// Explicit tail so the fixed record carries no implicit padding.
    ///
    /// V1 requires all four words to be zero. Later versions do too, except
    /// that a `Kick` exit uses `reserved[0]` for its checked [`KickOrigin`] and
    /// a `WaitComplete` exit for its [`WaitOutcome`]. A reply always requires
    /// all four words to be zero.
    pub reserved: [u64; 4],
}

/// The kind of exit an exit record represents.
#[derive(Clone, Copy, Debug, Eq, PartialEq, Structural)]
pub enum ExitReason {
    SupervisorCall,
    Exception,
    TaskDeath,
    Kick,
    WaitComplete,
}

/// The event that a V2-or-later [`ExitReason::Kick`] interrupted.
///
/// `Asynchronous` means the task was interrupted while it was merely running
/// or blocked. The other two values preserve the fact that a racing
/// supervisor-call or architectural exception was observed before the kick
/// took ownership of the task's parked state; the event is never silently
/// reinterpreted as a native syscall.
#[derive(Clone, Copy, Debug, Eq, PartialEq, Structural)]
pub enum KickOrigin {
    Asynchronous,
    SupervisorCall,
    Exception,
}

/// A kernel-mechanism outcome for an atomic wait.
///
/// These values intentionally do not encode a guest errno, signal, or wait
/// operation. A broker maps the fact to its own guest ABI in a later reply.
#[derive(Clone, Copy, Debug, Eq, PartialEq, Structural)]
pub enum WaitOutcome {
    Woken,
    TimedOut,
    Interrupted,
    MappingInvalidated,
}

/// The action a reply record requests.
#[derive(Clone, Copy, Debug, Eq, PartialEq, Structural)]
pub enum ReplyKind {
    Resume,
    Terminate,
}

impl ExitReason {
    /// The header code of an exit for this reason.
    pub open spec fn code(self) -> u32 {
        match self {
            ExitReason::SupervisorCall => EXIT_SUPERVISOR_CALL,
            ExitReason::Exception => EXIT_EXCEPTION,
            ExitReason::TaskDeath => EXIT_TASK_DEATH,
            ExitReason::Kick => EXIT_KICK,
            ExitReason::WaitComplete => EXIT_WAIT_COMPLETE,
        }
    }

    /// The first protocol version that knows this reason.
    pub open spec fn since(self) -> u16 {
        match self {
            ExitReason::SupervisorCall => FOREIGN_VERSION_V1,
            ExitReason::Exception => FOREIGN_VERSION_V1,
            ExitReason::TaskDeath => FOREIGN_VERSION_V1,
            ExitReason::Kick => FOREIGN_VERSION_V2,
            ExitReason::WaitComplete => FOREIGN_VERSION_V3,
        }
    }

    /// The reason that a header code stands for under any version.
    pub open spec fn of_code(code: u32) -> Option<ExitReason> {
        if code == EXIT_SUPERVISOR_CALL {
            Some(ExitReason::SupervisorCall)
        } else if code == EXIT_EXCEPTION {
            Some(ExitReason::Exception)
        } else if code == EXIT_TASK_DEATH {
            Some(ExitReason::TaskDeath)
        } else if code == EXIT_KICK {
            Some(ExitReason::Kick)
        } else if code == EXIT_WAIT_COMPLETE {
            Some(ExitReason::WaitComplete)
        } else {
            None
        }
    }
}

impl KickOrigin {
    /// The tail word that carries this origin.
    pub open spec fn word(self) -> u64 {
        match self {
            KickOrigin::Asynchronous => 0,
            KickOrigin::SupervisorCall => 1,
            KickOrigin::Exception => 2,
        }
    }

    /// The origin that a tail word carries.
    pub open spec fn of_word(word: u64) -> Option<KickOrigin> {
        if word == 0 {
            Some(KickOrigin::Asynchronous)
        } else if word == 1 {
            Some(KickOrigin::SupervisorCall)
        } else if word == 2 {
            Some(KickOrigin::Exception)
        } else {
            None
        }
    }
}

impl WaitOutcome {
    /// The tail word that carries this outcome.
    pub open spec fn word(self) -> u64 {
        match self {
            WaitOutcome::Woken => 0,
            WaitOutcome::TimedOut => 1,
            WaitOutcome::Interrupted => 2,
            WaitOutcome::MappingInvalidated => 3,
        }
    }

    /// The outcome that a tail word carries.
    pub open spec fn of_word(word: u64) -> Option<WaitOutcome> {
        if word == 0 {
            Some(WaitOutcome::Woken)
        } else if word == 1 {
            Some(WaitOutcome::TimedOut)
        } else if word == 2 {
            Some(WaitOutcome::Interrupted)
        } else if word == 3 {
            Some(WaitOutcome::MappingInvalidated)
        } else {
            None
        }
    }
}

impl ReplyKind {
    /// The header code of a reply of this kind.
    pub open spec fn code(self) -> u32 {
        match self {
            ReplyKind::Resume => REPLY_RESUME,
            ReplyKind::Terminate => REPLY_TERMINATE,
        }
    }
}

impl ForeignHeader {
    /// The header of a well-formed frame.
    pub open spec fn framed(version: u16, code: u32) -> Self {
        ForeignHeader {
            magic: FOREIGN_MAGIC,
            version,
            architecture: FOREIGN_ARCH_AARCH64,
            size: FOREIGN_MESSAGE_V1_SIZE,
            code,
        }
    }

    /// The 16 bytes of this header on the wire.
    pub open spec fn wire(self) -> Seq<u8> {
        le32(self.magic) + le16(self.version) + le16(self.architecture) + le32(self.size) + le32(
            self.code,
        )
    }
}

impl Default for ForeignHeader {
    fn default() -> (header: Self)
        ensures
            header == ForeignHeader::framed(FOREIGN_VERSION_V1, 0),
    {
        ForeignHeader {
            magic: FOREIGN_MAGIC,
            version: FOREIGN_VERSION_V1,
            architecture: FOREIGN_ARCH_AARCH64,
            size: FOREIGN_MESSAGE_V1_SIZE,
            code: 0,
        }
    }
}

impl Default for ForeignMessageV1 {
    fn default() -> (message: Self)
        ensures
            message.header == ForeignHeader::framed(FOREIGN_VERSION_V1, 0),
            message.domain_id == 0,
            message.task_id == 0,
            message.sequence == 0,
            message.flags == 0,
            message.state.is_cleared(),
            message.tail_is(0),
    {
        ForeignMessageV1 {
            header: ForeignHeader::default(),
            domain_id: 0,
            task_id: 0,
            sequence: 0,
            flags: 0,
            state: Aarch64StateV1::default(),
            reserved: [0; 4],
        }
    }
}

impl ForeignMessageV1 {
    /// The 976 bytes of this record on the wire.
    pub open spec fn wire(self) -> Seq<u8> {
        self.header.wire() + le64(self.domain_id) + le64(self.task_id) + le64(self.sequence) + le64(
            self.flags,
        ) + self.state.wire() + words_wire(self.reserved@)
    }

    /// A message takes 976 bytes on the wire.
    pub proof fn lemma_wire_len(self)
        ensures
            self.wire().len() == FOREIGN_MESSAGE_V1_WIRE_SIZE,
    {
        broadcast use {lemma_le_bytes_len, lemma_words_wire_len};

        self.state.lemma_wire_len();
    }

    /// Whether the tail is `first` followed by three zero words.
    pub open spec fn tail_is(self, first: u64) -> bool {
        &&& self.reserved[0] == first
        &&& self.tail_rest_is_zero()
    }

    /// Whether every tail word but the first is zero.
    pub open spec fn tail_rest_is_zero(self) -> bool {
        self.reserved[1] == 0 && self.reserved[2] == 0 && self.reserved[3] == 0
    }

    /// Whether this is the record of one exit, with `first` in its tail and
    /// everything else as given.
    pub open spec fn is_exit_record(
        self,
        version: u16,
        reason: ExitReason,
        domain_id: u64,
        task_id: u64,
        sequence: u64,
        state: Aarch64StateV1,
        first: u64,
    ) -> bool {
        &&& self.header == ForeignHeader::framed(version, reason.code())
        &&& self.domain_id == domain_id
        &&& self.task_id == task_id
        &&& self.sequence == sequence
        &&& self.flags == 0
        &&& self.state == state
        &&& self.tail_is(first)
    }

    /// What the checks common to all frames answer.
    pub open spec fn frame_verdict(self) -> Result<(), ForeignError> {
        if self.header.magic != FOREIGN_MAGIC {
            Err(ForeignError::BadMagic)
        } else if !is_supported(self.header.version) {
            Err(ForeignError::UnsupportedVersion)
        } else if self.header.architecture != FOREIGN_ARCH_AARCH64 {
            Err(ForeignError::WrongArchitecture)
        } else if self.header.size != FOREIGN_MESSAGE_V1_SIZE {
            Err(ForeignError::WrongSize)
        } else if self.flags != 0 {
            Err(ForeignError::NonzeroFlags)
        } else {
            Ok(())
        }
    }

    /// Whether the common part of the frame is well-formed.
    pub open spec fn is_framed(self) -> bool {
        &&& is_supported(self.header.version)
        &&& self.header == ForeignHeader::framed(self.header.version, self.header.code)
        &&& self.flags == 0
    }

    /// Whether the tail is one that an exit for `reason` may carry.
    pub open spec fn tail_fits(self, reason: ExitReason) -> bool {
        &&& self.tail_rest_is_zero()
        &&& match reason {
            ExitReason::Kick => KickOrigin::of_word(self.reserved[0]) is Some,
            ExitReason::WaitComplete => WaitOutcome::of_word(self.reserved[0]) is Some,
            _ => self.reserved[0] == 0,
        }
    }

    /// Whether this is a well-formed exit record for `reason`.
    pub open spec fn is_exit(self, reason: ExitReason) -> bool {
        &&& self.is_framed()
        &&& self.header.code == reason.code()
        &&& self.header.version >= reason.since()
        &&& self.tail_fits(reason)
    }

    /// What the check of an exit's tail answers. A version that does not know
    /// `reason` gives the error of that reason's tail, except that under V1 a
    /// tail is only ever compared with zero.
    pub open spec fn tail_verdict(self, reason: ExitReason) -> Result<(), ForeignError> {
        let version = self.header.version;
        if version != FOREIGN_VERSION_V1 && version < reason.since() || version
            > FOREIGN_VERSION_V4 {
            match reason {
                ExitReason::Kick => Err(ForeignError::InvalidKickOrigin),
                ExitReason::WaitComplete => Err(ForeignError::InvalidWaitOutcome),
                _ => Err(ForeignError::UnsupportedVersion),
            }
        } else if !self.tail_rest_is_zero() {
            Err(ForeignError::NonzeroReserved)
        } else if version == FOREIGN_VERSION_V1 {
            if self.reserved[0] == 0 {
                Ok(())
            } else {
                Err(ForeignError::NonzeroReserved)
            }
        } else if self.tail_fits(reason) {
            Ok(())
        } else {
            match reason {
                ExitReason::Kick => Err(ForeignError::InvalidKickOrigin),
                ExitReason::WaitComplete => Err(ForeignError::InvalidWaitOutcome),
                _ => Err(ForeignError::NonzeroReserved),
            }
        }
    }

    /// What reading this record as an exit answers.
    pub open spec fn exit_verdict(self) -> Result<ExitReason, ForeignError> {
        if let Err(error) = self.frame_verdict() {
            Err(error)
        } else {
            match ExitReason::of_code(self.header.code) {
                Some(reason) if self.header.version >= reason.since() => {
                    match self.tail_verdict(reason) {
                        Ok(_) => Ok(reason),
                        Err(error) => Err(error),
                    }
                },
                _ => Err(ForeignError::UnknownCode),
            }
        }
    }

    /// What reading this record as a `Kick` and asking for its origin answers.
    pub open spec fn kick_verdict(self) -> Result<KickOrigin, ForeignError> {
        match self.exit_verdict() {
            Err(error) => Err(error),
            Ok(ExitReason::Kick) => Ok(KickOrigin::of_word(self.reserved[0])->0),
            Ok(_) => Err(ForeignError::InvalidKickOrigin),
        }
    }

    /// What reading this record as a wait completion and asking for its outcome
    /// answers.
    pub open spec fn wait_verdict(self) -> Result<WaitOutcome, ForeignError> {
        match self.exit_verdict() {
            Err(error) => Err(error),
            Ok(ExitReason::WaitComplete) => Ok(WaitOutcome::of_word(self.reserved[0])->0),
            Ok(_) => Err(ForeignError::InvalidWaitOutcome),
        }
    }

    /// What reading this record as a reply to a domain of a known protocol
    /// answers.
    pub open spec fn reply_verdict(self, domain_id: u64, version: u16) -> Result<
        ReplyKind,
        ForeignError,
    > {
        if let Err(error) = self.frame_verdict() {
            Err(error)
        } else if self.header.version != version {
            Err(ForeignError::WrongProtocolVersion)
        } else if self.domain_id != domain_id {
            Err(ForeignError::WrongDomain)
        } else if !self.tail_is(0) {
            Err(ForeignError::NonzeroReserved)
        } else if self.header.code == REPLY_RESUME {
            Ok(ReplyKind::Resume)
        } else if self.header.code == REPLY_TERMINATE {
            Ok(ReplyKind::Terminate)
        } else {
            Err(ForeignError::UnknownCode)
        }
    }

    /// Whether this is a well-formed reply of one kind, bound to a domain and
    /// its protocol.
    pub open spec fn is_reply(self, kind: ReplyKind, domain_id: u64, version: u16) -> bool {
        &&& self.is_framed()
        &&& self.header.code == kind.code()
        &&& self.header.version == version
        &&& self.domain_id == domain_id
        &&& self.tail_is(0)
    }

    /// Whether this record answers `exit` with `kind` and `state`: same frame,
    /// domain, task and sequence, with flags and tail cleared.
    pub open spec fn is_answer_to(
        self,
        exit: Self,
        kind: ReplyKind,
        state: Aarch64StateV1,
    ) -> bool {
        &&& self.header == ForeignHeader { code: kind.code(), ..exit.header }
        &&& self.domain_id == exit.domain_id
        &&& self.task_id == exit.task_id
        &&& self.sequence == exit.sequence
        &&& self.flags == 0
        &&& self.state == state
        &&& self.tail_is(0)
    }

    /// Build an exit record. Used by the kernel; the register `state` must
    /// already be a valid register snapshot for supervisor-call/exception exits, and
    /// is left at its default for death exits.
    #[must_use]
    pub fn new_exit(
        reason: ExitReason,
        domain_id: u64,
        task_id: u64,
        sequence: u64,
        state: Aarch64StateV1,
    ) -> (built: Result<Self, ForeignError>)
        ensures
            match built {
                Ok(message) => reason.since() == FOREIGN_VERSION_V1 && message.is_exit_record(
                    FOREIGN_VERSION_V1,
                    reason,
                    domain_id,
                    task_id,
                    sequence,
                    state,
                    0,
                ),
                Err(error) => match reason {
                    ExitReason::Kick => error == ForeignError::InvalidKickOrigin,
                    ExitReason::WaitComplete => error == ForeignError::InvalidWaitRequest,
                    _ => false,
                },
            },
    {
        Self::new_exit_for_version(
            FOREIGN_VERSION_V1,
            reason,
            domain_id,
            task_id,
            sequence,
            state,
        )
    }

    /// Build an exit record for an explicitly selected domain protocol.
    ///
    /// The protocol choice belongs to the trusted domain controller and is
    /// fixed before a broker or task exists. Returning an error instead of
    /// silently downgrading means a kernel bug cannot turn a lifecycle `Kick` into a
    /// different V1 event.
    pub fn new_exit_for_version(
        version: u16,
        reason: ExitReason,
        domain_id: u64,
        task_id: u64,
        sequence: u64,
        state: Aarch64StateV1,
    ) -> (built: Result<Self, ForeignError>)
        ensures
            match built {
                Ok(message) => reason.since() == FOREIGN_VERSION_V1 && is_supported(version)
                    && message.is_exit_record(
                    version,
                    reason,
                    domain_id,
                    task_id,
                    sequence,
                    state,
                    0,
                ),
                Err(error) => match reason {
                    ExitReason::Kick => error == ForeignError::InvalidKickOrigin,
                    ExitReason::WaitComplete => error == ForeignError::InvalidWaitRequest,
                    _ => !is_supported(version) && error == ForeignError::UnsupportedVersion,
                },
            },
    {
        let code: u32 = match reason {
            ExitReason::SupervisorCall => EXIT_SUPERVISOR_CALL,
            ExitReason::Exception => EXIT_EXCEPTION,
            ExitReason::TaskDeath => EXIT_TASK_DEATH,
            ExitReason::Kick => return Err(ForeignError::InvalidKickOrigin),
            ExitReason::WaitComplete => return Err(ForeignError::InvalidWaitRequest),
        };
        if !protocol_version_is_supported(version) {
            return Err(ForeignError::UnsupportedVersion);
        }
        Ok(
            ForeignMessageV1 {
                header: ForeignHeader { version, code, ..ForeignHeader::default() },
                domain_id,
                task_id,
                sequence,
                flags: 0,
                state,
                reserved: [0; 4],
            },
        )
    }

    /// Build the V2 lifecycle interruption record for a parked foreign task.
    ///
    /// There is no V1 spelling: callers must choose the V2 domain protocol
    /// before attaching a task. The exact stopped state is carried in `state`;
    /// the tail states whether a racing guest-originated event was superseded.
    #[must_use]
    pub fn new_kick_exit(
        domain_id: u64,
        task_id: u64,
        sequence: u64,
        state: Aarch64StateV1,
        origin: KickOrigin,
    ) -> (message: Self)
        ensures
            message.is_exit_record(
                FOREIGN_VERSION_V2,
                ExitReason::Kick,
                domain_id,
                task_id,
                sequence,
                state,
                origin.word(),
            ),
    {
        Self::new_kick_exit_for_version(
            FOREIGN_VERSION_V2,
            domain_id,
            task_id,
            sequence,
            state,
            origin,
        ).expect("V2 is a supported lifecycle protocol")
    }

    /// Build a V2-or-later lifecycle interruption record.
    ///
    /// V3 keeps the exact V2 `Kick` spelling so controlled lifecycle actions
    /// remain available while V3 wait operations are enabled.
    pub fn new_kick_exit_for_version(
        version: u16,
        domain_id: u64,
        task_id: u64,
        sequence: u64,
        state: Aarch64StateV1,
        origin: KickOrigin,
    ) -> (built: Result<Self, ForeignError>)
        ensures
            match built {
                Ok(message) => FOREIGN_VERSION_V2 <= version <= FOREIGN_VERSION_V4
                    && message.is_exit_record(
                    version,
                    ExitReason::Kick,
                    domain_id,
                    task_id,
                    sequence,
                    state,
                    origin.word(),
                ),
                Err(error) => !(FOREIGN_VERSION_V2 <= version <= FOREIGN_VERSION_V4) && error
                    == ForeignError::InvalidKickOrigin,
            },
    {
        if !matches!(version, FOREIGN_VERSION_V2 | FOREIGN_VERSION_V3 | FOREIGN_VERSION_V4) {
            return Err(ForeignError::InvalidKickOrigin);
        }
        let origin: u64 = match origin {
            KickOrigin::Asynchronous => KICK_ORIGIN_ASYNCHRONOUS,
            KickOrigin::SupervisorCall => KICK_ORIGIN_SUPERVISOR_CALL,
            KickOrigin::Exception => KICK_ORIGIN_EXCEPTION,
        };
        Ok(
            ForeignMessageV1 {
                header: ForeignHeader { version, code: EXIT_KICK, ..ForeignHeader::default() },
                domain_id,
                task_id,
                sequence,
                flags: 0,
                state,
                reserved: [origin, 0, 0, 0],
            },
        )
    }

    /// Build a V3 generic atomic-wait completion record.
    #[must_use]
    pub fn new_wait_complete_exit(
        domain_id: u64,
        task_id: u64,
        sequence: u64,
        state: Aarch64StateV1,
        outcome: WaitOutcome,
    ) -> (message: Self)
        ensures
            message.is_exit_record(
                FOREIGN_VERSION_V3,
                ExitReason::WaitComplete,
                domain_id,
                task_id,
                sequence,
                state,
                outcome.word(),
            ),
    {
        Self::new_wait_complete_exit_for_version(
            FOREIGN_VERSION_V3,
            domain_id,
            task_id,
            sequence,
            state,
            outcome,
        ).expect("V3 is a supported atomic-wait protocol")
    }

    /// Build a V3-or-later generic atomic-wait completion record.
    ///
    /// V4 keeps the V3 completion spelling byte-for-byte. The explicit version
    /// argument prevents a V4 domain from accidentally publishing a reply that
    /// its broker must reject as an older protocol frame.
    pub fn new_wait_complete_exit_for_version(
        version: u16,
        domain_id: u64,
        task_id: u64,
        sequence: u64,
        state: Aarch64StateV1,
        outcome: WaitOutcome,
    ) -> (built: Result<Self, ForeignError>)
        ensures
            match built {
                Ok(message) => FOREIGN_VERSION_V3 <= version <= FOREIGN_VERSION_V4
                    && message.is_exit_record(
                    version,
                    ExitReason::WaitComplete,
                    domain_id,
                    task_id,
                    sequence,
                    state,
                    outcome.word(),
                ),
                Err(error) => !(FOREIGN_VERSION_V3 <= version <= FOREIGN_VERSION_V4) && error
                    == ForeignError::InvalidWaitOutcome,
            },
    {
        if !matches!(version, FOREIGN_VERSION_V3 | FOREIGN_VERSION_V4) {
            return Err(ForeignError::InvalidWaitOutcome);
        }
        let outcome: u64 = match outcome {
            WaitOutcome::Woken => WAIT_OUTCOME_WOKEN,
            WaitOutcome::TimedOut => WAIT_OUTCOME_TIMED_OUT,
            WaitOutcome::Interrupted => WAIT_OUTCOME_INTERRUPTED,
            WaitOutcome::MappingInvalidated => WAIT_OUTCOME_MAPPING_INVALIDATED,
        };
        Ok(
            ForeignMessageV1 {
                header: ForeignHeader {
                    version,
                    code: EXIT_WAIT_COMPLETE,
                    ..ForeignHeader::default()
                },
                domain_id,
                task_id,
                sequence,
                flags: 0,
                state,
                reserved: [outcome, 0, 0, 0],
            },
        )
    }

    /// Validate the fixed header and flags common to all messages. Exit and
    /// reply validation handle the versioned tail separately because a `Kick`
    /// legitimately uses its first word.
    fn validate_frame(&self) -> (verdict: Result<(), ForeignError>)
        ensures
            verdict == self.frame_verdict(),
            verdict is Ok <==> self.is_framed(),
    {
        if self.header.magic != FOREIGN_MAGIC {
            return Err(ForeignError::BadMagic);
        }
        if !protocol_version_is_supported(self.header.version) {
            return Err(ForeignError::UnsupportedVersion);
        }
        if self.header.architecture != FOREIGN_ARCH_AARCH64 {
            return Err(ForeignError::WrongArchitecture);
        }
        if self.header.size != FOREIGN_MESSAGE_V1_SIZE {
            return Err(ForeignError::WrongSize);
        }
        if self.flags != 0 {
            return Err(ForeignError::NonzeroFlags);
        }
        Ok(())
    }

    /// Whether every tail word but the first is zero.
    fn tail_rest_is_clear(&self) -> (clear: bool)
        ensures
            clear == self.tail_rest_is_zero(),
    {
        self.reserved[1] == 0 && self.reserved[2] == 0 && self.reserved[3] == 0
    }

    /// Validate the tail of an exit for `reason` under this record's version.
    fn validate_exit_tail(&self, reason: ExitReason) -> (verdict: Result<(), ForeignError>)
        ensures
            verdict == self.tail_verdict(reason),
    {
        match (self.header.version, reason) {
            (FOREIGN_VERSION_V1, _) | (
                FOREIGN_VERSION_V2 | FOREIGN_VERSION_V3 | FOREIGN_VERSION_V4,
                ExitReason::SupervisorCall | ExitReason::Exception | ExitReason::TaskDeath,
            ) => {
                if self.reserved[0] == 0 && self.tail_rest_is_clear() {
                    Ok(())
                } else {
                    Err(ForeignError::NonzeroReserved)
                }
            },
            (FOREIGN_VERSION_V2 | FOREIGN_VERSION_V3 | FOREIGN_VERSION_V4, ExitReason::Kick) => {
                if !self.tail_rest_is_clear() {
                    return Err(ForeignError::NonzeroReserved);
                }
                match self.reserved[0] {
                    KICK_ORIGIN_ASYNCHRONOUS
                    | KICK_ORIGIN_SUPERVISOR_CALL
                    | KICK_ORIGIN_EXCEPTION => Ok(()),
                    _ => Err(ForeignError::InvalidKickOrigin),
                }
            },
            (FOREIGN_VERSION_V3 | FOREIGN_VERSION_V4, ExitReason::WaitComplete) => {
                if !self.tail_rest_is_clear() {
                    return Err(ForeignError::NonzeroReserved);
                }
                match self.reserved[0] {
                    WAIT_OUTCOME_WOKEN
                    | WAIT_OUTCOME_TIMED_OUT
                    | WAIT_OUTCOME_INTERRUPTED
                    | WAIT_OUTCOME_MAPPING_INVALIDATED => Ok(()),
                    _ => Err(ForeignError::InvalidWaitOutcome),
                }
            },
            (_, ExitReason::Kick) => Err(ForeignError::InvalidKickOrigin),
            (_, ExitReason::WaitComplete) => Err(ForeignError::InvalidWaitOutcome),
            _ => Err(ForeignError::UnsupportedVersion),
        }
    }

    /// Interpret this record as an exit and return its reason. Used by the
    /// broker to classify what it read.
    pub fn exit_reason(&self) -> (verdict: Result<ExitReason, ForeignError>)
        ensures
            verdict == self.exit_verdict(),
            forall|reason: ExitReason|
                verdict == Ok::<_, ForeignError>(reason) <==> #[trigger] self.is_exit(reason),
    {
        self.validate_frame()?;
        let reason: ExitReason = match self.header.code {
            EXIT_SUPERVISOR_CALL => ExitReason::SupervisorCall,
            EXIT_EXCEPTION => ExitReason::Exception,
            EXIT_TASK_DEATH => ExitReason::TaskDeath,
            EXIT_KICK if matches!(
                self.header.version,
                FOREIGN_VERSION_V2 | FOREIGN_VERSION_V3 | FOREIGN_VERSION_V4
            ) => ExitReason::Kick,
            EXIT_WAIT_COMPLETE if matches!(
                self.header.version,
                FOREIGN_VERSION_V3 | FOREIGN_VERSION_V4
            ) => ExitReason::WaitComplete,
            _ => return Err(ForeignError::UnknownCode),
        };
        self.validate_exit_tail(reason)?;
        Ok(reason)
    }

    /// Decode the `Kick` origin. Calling this for a non-kick record is a
    /// structural error, rather than an ambiguous `None` result.
    pub fn kick_origin(&self) -> (verdict: Result<KickOrigin, ForeignError>)
        ensures
            verdict == self.kick_verdict(),
            forall|origin: KickOrigin|
                verdict == Ok::<_, ForeignError>(origin) <==> self.is_exit(ExitReason::Kick)
                    && self.reserved[0] == #[trigger] origin.word(),
    {
        if self.exit_reason()? != ExitReason::Kick {
            return Err(ForeignError::InvalidKickOrigin);
        }
        match self.reserved[0] {
            KICK_ORIGIN_ASYNCHRONOUS => Ok(KickOrigin::Asynchronous),
            KICK_ORIGIN_SUPERVISOR_CALL => Ok(KickOrigin::SupervisorCall),
            KICK_ORIGIN_EXCEPTION => Ok(KickOrigin::Exception),
            _ => Err(ForeignError::InvalidKickOrigin),
        }
    }

    /// Decode a generic atomic-wait completion outcome.
    pub fn wait_outcome(&self) -> (verdict: Result<WaitOutcome, ForeignError>)
        ensures
            verdict == self.wait_verdict(),
            forall|outcome: WaitOutcome|
                verdict == Ok::<_, ForeignError>(outcome) <==> self.is_exit(
                    ExitReason::WaitComplete,
                ) && self.reserved[0] == #[trigger] outcome.word(),
    {
        if self.exit_reason()? != ExitReason::WaitComplete {
            return Err(ForeignError::InvalidWaitOutcome);
        }
        match self.reserved[0] {
            WAIT_OUTCOME_WOKEN => Ok(WaitOutcome::Woken),
            WAIT_OUTCOME_TIMED_OUT => Ok(WaitOutcome::TimedOut),
            WAIT_OUTCOME_INTERRUPTED => Ok(WaitOutcome::Interrupted),
            WAIT_OUTCOME_MAPPING_INVALIDATED => Ok(WaitOutcome::MappingInvalidated),
            _ => Err(ForeignError::InvalidWaitOutcome),
        }
    }

    /// Validate this record as a V1 reply bound to `expected_domain_id` and
    /// return the requested action. Stateful checks (task liveness, sequence
    /// match) and register validation happen in the kernel after this passes.
    pub fn validate_reply(&self, expected_domain_id: u64) -> (verdict: Result<
        ReplyKind,
        ForeignError,
    >)
        ensures
            verdict == self.reply_verdict(expected_domain_id, FOREIGN_VERSION_V1),
            forall|kind: ReplyKind|
                verdict == Ok::<_, ForeignError>(kind) <==> #[trigger] self.is_reply(
                    kind,
                    expected_domain_id,
                    FOREIGN_VERSION_V1,
                ),
    {
        self.validate_reply_for_version(expected_domain_id, FOREIGN_VERSION_V1)
    }

    /// Validate a reply against the domain's explicitly selected protocol.
    ///
    /// The reply tail is always all zero, whatever the version. A lifecycle exit
    /// cannot be replayed as a reply because codes and tail rules are disjoint.
    pub fn validate_reply_for_version(
        &self,
        expected_domain_id: u64,
        expected_version: u16,
    ) -> (verdict: Result<ReplyKind, ForeignError>)
        ensures
            verdict == self.reply_verdict(expected_domain_id, expected_version),
            forall|kind: ReplyKind|
                verdict == Ok::<_, ForeignError>(kind) <==> #[trigger] self.is_reply(
                    kind,
                    expected_domain_id,
                    expected_version,
                ),
    {
        self.validate_frame()?;
        if self.header.version != expected_version {
            return Err(ForeignError::WrongProtocolVersion);
        }
        if self.domain_id != expected_domain_id {
            return Err(ForeignError::WrongDomain);
        }
        if self.reserved[0] != 0 || !self.tail_rest_is_clear() {
            return Err(ForeignError::NonzeroReserved);
        }
        match self.header.code {
            REPLY_RESUME => Ok(ReplyKind::Resume),
            REPLY_TERMINATE => Ok(ReplyKind::Terminate),
            _ => Err(ForeignError::UnknownCode),
        }
    }

    /// Turn an exit record the broker read into a resume reply for the same
    /// task and sequence, applying `edit` to the register state. Convenience for
    /// a broker; the kernel re-validates everything.
    #[must_use]
    pub fn to_resume_reply(&self, edit: impl FnOnce(&mut Aarch64StateV1)) -> (reply: Self)
        requires
            forall|state: &mut Aarch64StateV1|
                *state == self.state ==> #[trigger] call_requires(edit, (state,)),
        ensures
            reply.is_answer_to(*self, ReplyKind::Resume, reply.state),
            exists|state: &mut Aarch64StateV1|
                *state == self.state && *final(state) == reply.state && #[trigger] call_ensures(
                    edit,
                    (state,),
                    (),
                ),
    {
        let mut reply: Self = *self;
        reply.header.code = REPLY_RESUME;
        reply.flags = 0;
        reply.reserved = [0; 4];
        edit(&mut reply.state);
        reply
    }

    /// Turn an exit record the broker read into a terminate reply for the same
    /// task and sequence.
    #[must_use]
    pub fn to_terminate_reply(&self) -> (reply: Self)
        ensures
            reply.is_answer_to(*self, ReplyKind::Terminate, self.state),
    {
        let mut reply: Self = *self;
        reply.header.code = REPLY_TERMINATE;
        reply.flags = 0;
        reply.reserved = [0; 4];
        reply
    }

    /// Encode this record as its explicit little-endian wire representation.
    ///
    /// The kernel uses this instead of exposing an in-memory Rust layout to a
    /// broker. Keeping this conversion here makes the byte-level contract
    /// explicit and lets a broker without unsafe code use the protocol.
    #[must_use]
    pub fn to_wire_bytes(&self) -> (bytes: [u8; FOREIGN_MESSAGE_V1_WIRE_SIZE])
        ensures
            bytes@ == self.wire(),
    {
        broadcast use {lemma_le_bytes_len, lemma_words_wire_len};

        proof {
            self.lemma_wire_len();
            self.state.lemma_wire_len();
        }
        let mut writer: WireWriter<FOREIGN_MESSAGE_V1_WIRE_SIZE> = WireWriter::new();
        assert(writer.written() + self.header.wire() =~= self.header.wire());
        writer.header(&self.header);
        writer.u64(self.domain_id);
        writer.u64(self.task_id);
        writer.u64(self.sequence);
        writer.u64(self.flags);
        writer.state(&self.state);
        writer.words(&self.reserved);
        writer.finish()
    }

    /// Decode one complete little-endian wire record.
    ///
    /// This intentionally performs no semantic validation. Call
    /// [`Self::exit_reason`] or [`Self::validate_reply`] after decoding, just
    /// as a kernel would after receiving a C-layout record.
    pub fn from_wire_bytes(bytes: &[u8]) -> (decoded: Result<Self, ForeignError>)
        ensures
            match decoded {
                Ok(message) => message.wire() == bytes@,
                Err(error) => bytes@.len() != FOREIGN_MESSAGE_V1_WIRE_SIZE && error
                    == ForeignError::WrongWireSize,
            },
            forall|message: ForeignMessageV1|
                #![trigger message.wire()]
                message.wire() == bytes@ ==> decoded == Ok::<_, ForeignError>(message),
    {
        if bytes.len() != FOREIGN_MESSAGE_V1_WIRE_SIZE {
            proof {
                assert forall|message: ForeignMessageV1| #[trigger]
                    message.wire().len() == FOREIGN_MESSAGE_V1_WIRE_SIZE by {
                    message.lemma_wire_len();
                }
            }
            return Err(ForeignError::WrongWireSize);
        }
        broadcast use {lemma_le_bytes_len, lemma_words_wire_len};

        let mut reader = WireReader::new(bytes);
        let header: ForeignHeader = reader.header();
        proof {
            header_layout(header);
            assert(Seq::<u8>::empty() + header.wire() =~= header.wire());
        }
        let domain_id: u64 = reader.u64();
        let task_id: u64 = reader.u64();
        let sequence: u64 = reader.u64();
        let flags: u64 = reader.u64();
        let state: Aarch64StateV1 = reader.state();
        proof {
            state.lemma_wire_len();
        }
        let reserved: [u64; 4] = reader.words();
        let message = ForeignMessageV1 {
            header,
            domain_id,
            task_id,
            sequence,
            flags,
            state,
            reserved,
        };
        proof {
            message.lemma_wire_len();
            reader.lemma_finished();
            assert forall|other: ForeignMessageV1| #[trigger]
                other.wire() == bytes@ implies other == message by {
                message_wire_injective(other, message);
            }
        }
        Ok(message)
    }
}

} // verus!
