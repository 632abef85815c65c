//! The protocol's laws and edge cases on concrete values.
use foreign_protocol::foreign::aarch64::{
    classify_exception, exception_class, Aarch64ExceptionState, Aarch64StateV1, Aarch64Vector,
    ValidationError, ESR_ABORT_FAR_NOT_VALID, EXCEPTION_BREAKPOINT, EXCEPTION_DATA_ABORT,
    EXCEPTION_FLAGS_V1, EXCEPTION_FLAG_FAR_VALID, EXCEPTION_FLAG_LOWER_EL,
    EXCEPTION_ILLEGAL_INSTRUCTION, EXCEPTION_INSTRUCTION_ABORT, EXCEPTION_NONE, EXCEPTION_OTHER,
    EXCEPTION_SUPERVISOR_CALL, PSTATE_FORBIDDEN_RESUME_MASK, PSTATE_IL, PSTATE_NZCV_MASK,
    PSTATE_PAN, PSTATE_UAO, SINGLE_STEP_SUPPORTED, STATE_FLAG_EXCEPTION_VALID, STATE_MAGIC,
};
use foreign_protocol::foreign::domain_op;
use foreign_protocol::foreign::{
    protocol_version_is_supported, ExitReason, ForeignError, ForeignHeader, ForeignMessageV1,
    ForeignWaitU32RequestV1, KickOrigin, ReplyKind, WaitOperation, WaitOutcome, EXIT_EXCEPTION,
    EXIT_KICK, EXIT_SUPERVISOR_CALL, EXIT_TASK_DEATH, EXIT_WAIT_COMPLETE, FOREIGN_MAGIC,
    FOREIGN_MESSAGE_V1_SIZE, FOREIGN_MESSAGE_V1_WIRE_SIZE, FOREIGN_VERSION_V1, FOREIGN_VERSION_V2,
    FOREIGN_VERSION_V3, FOREIGN_VERSION_V4, FOREIGN_WAIT_U32_MAGIC, FOREIGN_WAIT_U32_NO_TIMEOUT,
    REPLY_RESUME, REPLY_TERMINATE,
};

const USER_END: u64 = 1 << 48;

fn running_state() -> Aarch64StateV1 {
    let mut state = Aarch64StateV1::default();
    state.pc = 0x4000;
    state.sp = 0x8000;
    state.pstate = 0x6000_0000;
    state
}

fn plain_exit(version: u16, reason: ExitReason) -> ForeignMessageV1 {
    ForeignMessageV1::new_exit_for_version(version, reason, 7, 11, 3, running_state())
        .expect("a plain exit exists in every version")
}

fn kick(version: u16, origin: KickOrigin) -> ForeignMessageV1 {
    ForeignMessageV1::new_kick_exit_for_version(version, 7, 11, 4, running_state(), origin)
        .expect("kicks exist from the second version on")
}

fn completion(version: u16, outcome: WaitOutcome) -> ForeignMessageV1 {
    ForeignMessageV1::new_wait_complete_exit_for_version(
        version,
        7,
        11,
        4,
        running_state(),
        outcome,
    )
    .expect("completions exist from the third version on")
}

fn every_exit() -> Vec<(ForeignMessageV1, ExitReason)> {
    let mut exits = Vec::new();
    for version in FOREIGN_VERSION_V1..=FOREIGN_VERSION_V4 {
        for reason in [
            ExitReason::SupervisorCall,
            ExitReason::Exception,
            ExitReason::TaskDeath,
        ] {
            exits.push((plain_exit(version, reason), reason));
        }
    }
    for version in FOREIGN_VERSION_V2..=FOREIGN_VERSION_V4 {
        for origin in [
            KickOrigin::Asynchronous,
            KickOrigin::SupervisorCall,
            KickOrigin::Exception,
        ] {
            exits.push((kick(version, origin), ExitReason::Kick));
        }
    }
    for version in FOREIGN_VERSION_V3..=FOREIGN_VERSION_V4 {
        for outcome in [
            WaitOutcome::Woken,
            WaitOutcome::TimedOut,
            WaitOutcome::Interrupted,
            WaitOutcome::MappingInvalidated,
        ] {
            exits.push((completion(version, outcome), ExitReason::WaitComplete));
        }
    }
    exits
}

#[test]
fn four_versions_are_supported() {
    let supported: Vec<u16> = (0..=u16::MAX)
        .filter(|&version| protocol_version_is_supported(version))
        .collect();
    assert_eq!(supported, vec![1, 2, 3, 4]);
}

#[test]
fn magics_spell_their_names() {
    assert_eq!(&FOREIGN_MAGIC.to_le_bytes(), b"LFOR");
    assert_eq!(&STATE_MAGIC.to_le_bytes(), b"LOLO");
    assert_eq!(&FOREIGN_WAIT_U32_MAGIC.to_le_bytes(), b"LWAT");
    assert_eq!(FOREIGN_WAIT_U32_NO_TIMEOUT, u64::MAX);
    assert_eq!(FOREIGN_MESSAGE_V1_SIZE as usize, FOREIGN_MESSAGE_V1_WIRE_SIZE);
}

#[test]
fn control_opcodes_are_in_order() {
    assert_eq!(
        [
            domain_op::SET_CAPACITY,
            domain_op::ATTACH,
            domain_op::START,
            domain_op::DESTROY,
            domain_op::SET_PROTOCOL_VERSION,
            domain_op::KICK,
            domain_op::CANCEL,
            domain_op::SET_LIMITS_V1,
        ],
        [0, 1, 2, 3, 4, 5, 6, 7]
    );
}

#[test]
fn frame_bytes_are_exact() {
    let mut message = kick(FOREIGN_VERSION_V2, KickOrigin::Exception);
    message.domain_id = 0x0807_0605_0403_0201;
    message.state.x[30] = 0xff;
    message.state.vectors[31] = Aarch64Vector { low: 0xaa, high: 0xbb };
    let bytes = message.to_wire_bytes();
    assert_eq!(
        bytes[..24],
        [
            b'L', b'F', b'O', b'R', 2, 0, 1, 0, 0xd0, 0x03, 0, 0, 4, 0, 0, 0, 1, 2, 3, 4, 5, 6, 7,
            8
        ]
    );
    assert_eq!(bytes[24..32], [11, 0, 0, 0, 0, 0, 0, 0]);
    assert_eq!(bytes[32..40], [4, 0, 0, 0, 0, 0, 0, 0]);
    assert_eq!(bytes[40..48], [0; 8]);
    assert_eq!(
        bytes[48..64],
        [b'L', b'O', b'L', b'O', 1, 0, 1, 0, 0x80, 0x03, 0, 0, 0, 0, 0, 0]
    );
    assert_eq!(bytes[48 + 16 + 8 * 30], 0xff);
    assert_eq!(bytes[48 + 264..48 + 272], [0, 0x80, 0, 0, 0, 0, 0, 0]);
    assert_eq!(bytes[48 + 272..48 + 280], [0, 0x40, 0, 0, 0, 0, 0, 0]);
    assert_eq!(bytes[48 + 304 + 16 * 31], 0xaa);
    assert_eq!(bytes[48 + 304 + 16 * 31 + 8], 0xbb);
    assert_eq!(bytes[944..952], [2, 0, 0, 0, 0, 0, 0, 0]);
    assert_eq!(bytes[952..], [0; 24]);
}

#[test]
fn any_frame_sized_bytes_decode_without_loss() {
    let mut bytes = [0_u8; FOREIGN_MESSAGE_V1_WIRE_SIZE];
    for (index, byte) in bytes.iter_mut().enumerate() {
        *byte = (index * 7 + 3) as u8;
    }
    let message = ForeignMessageV1::from_wire_bytes(&bytes).expect("the length is exact");
    assert_eq!(message.to_wire_bytes(), bytes);
    assert_eq!(message.domain_id, u64::from_le_bytes([115, 122, 129, 136, 143, 150, 157, 164]));
    assert_eq!(
        ForeignMessageV1::from_wire_bytes(&[]),
        Err(ForeignError::WrongWireSize)
    );
}

#[test]
fn every_exit_reads_back_and_survives_the_wire() {
    for (message, reason) in every_exit() {
        assert_eq!(message.exit_reason(), Ok(reason));
        assert_eq!(
            ForeignMessageV1::from_wire_bytes(&message.to_wire_bytes()),
            Ok(message)
        );
    }
}

#[test]
fn no_exit_is_accepted_as_a_reply() {
    for (message, _) in every_exit() {
        for version in 0..=5 {
            assert!(message.validate_reply_for_version(7, version).is_err());
        }
    }
    assert_eq!(
        kick(FOREIGN_VERSION_V2, KickOrigin::Exception)
            .validate_reply_for_version(7, FOREIGN_VERSION_V2),
        Err(ForeignError::NonzeroReserved)
    );
    assert_eq!(
        kick(FOREIGN_VERSION_V2, KickOrigin::Asynchronous)
            .validate_reply_for_version(7, FOREIGN_VERSION_V2),
        Err(ForeignError::UnknownCode)
    );
}

#[test]
fn every_answer_is_accepted_by_its_domain_alone() {
    for (message, _) in every_exit() {
        let version = message.header.version;
        let resume = message.to_resume_reply(|state| state.x[0] = 0x55);
        let terminate = message.to_terminate_reply();
        assert_eq!(resume.header.code, REPLY_RESUME);
        assert_eq!(terminate.header.code, REPLY_TERMINATE);
        assert_eq!(resume.state.x[0], 0x55);
        assert_eq!(terminate.state, message.state);
        for (reply, kind) in [(resume, ReplyKind::Resume), (terminate, ReplyKind::Terminate)] {
            assert_eq!(reply.task_id, message.task_id);
            assert_eq!(reply.sequence, message.sequence);
            assert_eq!(reply.validate_reply_for_version(7, version), Ok(kind));
            assert_eq!(
                reply.validate_reply_for_version(8, version),
                Err(ForeignError::WrongDomain)
            );
            assert_eq!(
                reply.validate_reply_for_version(7, version + 1),
                Err(ForeignError::WrongProtocolVersion)
            );
            assert_eq!(reply.exit_reason(), Err(ForeignError::UnknownCode));
            assert_eq!(reply.kick_origin(), Err(ForeignError::UnknownCode));
            assert_eq!(reply.wait_outcome(), Err(ForeignError::UnknownCode));
        }
    }
}

#[test]
fn an_answer_clears_flags_and_tail() {
    let mut exit = plain_exit(FOREIGN_VERSION_V1, ExitReason::SupervisorCall);
    exit.flags = 9;
    exit.reserved = [1, 2, 3, 4];
    assert_eq!(exit.exit_reason(), Err(ForeignError::NonzeroFlags));
    let reply = exit.to_resume_reply(|_| {});
    assert_eq!(reply.flags, 0);
    assert_eq!(reply.reserved, [0; 4]);
    assert_eq!(reply.validate_reply(7), Ok(ReplyKind::Resume));
    assert_eq!(exit.to_terminate_reply().validate_reply(7), Ok(ReplyKind::Terminate));
}

#[test]
fn constructors_refuse_what_a_version_does_not_know() {
    let state = running_state();
    for version in [0, 5, u16::MAX] {
        assert_eq!(
            ForeignMessageV1::new_exit_for_version(version, ExitReason::TaskDeath, 7, 11, 3, state),
            Err(ForeignError::UnsupportedVersion)
        );
    }
    for version in [0, 1, 5] {
        assert_eq!(
            ForeignMessageV1::new_kick_exit_for_version(
                version,
                7,
                11,
                3,
                state,
                KickOrigin::Asynchronous
            ),
            Err(ForeignError::InvalidKickOrigin)
        );
    }
    for version in [0, 1, 2, 5] {
        assert_eq!(
            ForeignMessageV1::new_wait_complete_exit_for_version(
                version,
                7,
                11,
                3,
                state,
                WaitOutcome::Woken
            ),
            Err(ForeignError::InvalidWaitOutcome)
        );
    }
    assert_eq!(
        ForeignMessageV1::new_exit(ExitReason::WaitComplete, 7, 11, 3, state),
        Err(ForeignError::InvalidWaitRequest)
    );
    assert_eq!(
        ForeignMessageV1::new_exit_for_version(0, ExitReason::Kick, 7, 11, 3, state),
        Err(ForeignError::InvalidKickOrigin)
    );
}

#[test]
fn later_reasons_are_unknown_to_earlier_versions() {
    let mut message = plain_exit(FOREIGN_VERSION_V1, ExitReason::Exception);
    message.header.code = EXIT_KICK;
    assert_eq!(message.exit_reason(), Err(ForeignError::UnknownCode));
    message.header.version = FOREIGN_VERSION_V2;
    assert_eq!(message.exit_reason(), Ok(ExitReason::Kick));
    message.header.code = EXIT_WAIT_COMPLETE;
    assert_eq!(message.exit_reason(), Err(ForeignError::UnknownCode));
    assert_eq!(message.wait_outcome(), Err(ForeignError::UnknownCode));
    message.header.version = FOREIGN_VERSION_V3;
    assert_eq!(message.exit_reason(), Ok(ExitReason::WaitComplete));
    assert_eq!(message.wait_outcome(), Ok(WaitOutcome::Woken));
}

#[test]
fn tails_are_checked_by_reason() {
    let mut death = plain_exit(FOREIGN_VERSION_V4, ExitReason::TaskDeath);
    death.reserved[0] = 1;
    assert_eq!(death.exit_reason(), Err(ForeignError::NonzeroReserved));

    let mut kicked = kick(FOREIGN_VERSION_V2, KickOrigin::Asynchronous);
    kicked.reserved[0] = 3;
    assert_eq!(kicked.exit_reason(), Err(ForeignError::InvalidKickOrigin));
    assert_eq!(kicked.kick_origin(), Err(ForeignError::InvalidKickOrigin));
    kicked.reserved[3] = 1;
    assert_eq!(kicked.exit_reason(), Err(ForeignError::NonzeroReserved));

    let mut done = completion(FOREIGN_VERSION_V3, WaitOutcome::Woken);
    done.reserved[0] = 3;
    assert_eq!(done.wait_outcome(), Ok(WaitOutcome::MappingInvalidated));
    done.reserved[0] = 4;
    assert_eq!(done.exit_reason(), Err(ForeignError::InvalidWaitOutcome));
    done.reserved[2] = 1;
    assert_eq!(done.wait_outcome(), Err(ForeignError::NonzeroReserved));
}

#[test]
fn origin_and_outcome_belong_to_their_reasons() {
    let kicked = kick(FOREIGN_VERSION_V3, KickOrigin::SupervisorCall);
    let done = completion(FOREIGN_VERSION_V3, WaitOutcome::Interrupted);
    assert_eq!(kicked.kick_origin(), Ok(KickOrigin::SupervisorCall));
    assert_eq!(kicked.wait_outcome(), Err(ForeignError::InvalidWaitOutcome));
    assert_eq!(done.wait_outcome(), Ok(WaitOutcome::Interrupted));
    assert_eq!(done.kick_origin(), Err(ForeignError::InvalidKickOrigin));
    let plain = plain_exit(FOREIGN_VERSION_V4, ExitReason::Exception);
    assert_eq!(plain.kick_origin(), Err(ForeignError::InvalidKickOrigin));
    assert_eq!(plain.wait_outcome(), Err(ForeignError::InvalidWaitOutcome));
}

#[test]
fn versions_differ_in_the_version_bytes_alone() {
    let pairs = [
        (
            kick(FOREIGN_VERSION_V2, KickOrigin::Exception),
            kick(FOREIGN_VERSION_V3, KickOrigin::Exception),
        ),
        (
            completion(FOREIGN_VERSION_V3, WaitOutcome::TimedOut),
            completion(FOREIGN_VERSION_V4, WaitOutcome::TimedOut),
        ),
    ];
    for (earlier, later) in pairs {
        let earlier = earlier.to_wire_bytes();
        let later = later.to_wire_bytes();
        let differing: Vec<usize> = (0..earlier.len())
            .filter(|&index| earlier[index] != later[index])
            .collect();
        assert_eq!(differing, vec![4]);
    }
}

#[test]
fn payload_does_not_change_a_verdict() {
    let mut message = kick(FOREIGN_VERSION_V2, KickOrigin::Exception);
    message.task_id = u64::MAX;
    message.sequence = 0;
    message.state.header.magic = 0;
    assert_eq!(message.exit_reason(), Ok(ExitReason::Kick));
    assert_eq!(message.kick_origin(), Ok(KickOrigin::Exception));
}

#[test]
fn the_default_frame_goes_nowhere() {
    let message = ForeignMessageV1::default();
    assert_eq!(message.header, ForeignHeader::default());
    assert_eq!(message.header.version, FOREIGN_VERSION_V1);
    assert_eq!(message.reserved, [0; 4]);
    assert_eq!(message.state, Aarch64StateV1::default());
    assert_eq!(message.exit_reason(), Err(ForeignError::UnknownCode));
    assert_eq!(message.validate_reply(0), Err(ForeignError::UnknownCode));
}

#[test]
fn a_register_state_is_no_frame() {
    let mut bytes = [0_u8; FOREIGN_MESSAGE_V1_WIRE_SIZE];
    let exit = plain_exit(FOREIGN_VERSION_V1, ExitReason::SupervisorCall).to_wire_bytes();
    bytes[..896].copy_from_slice(&exit[48..944]);
    let replayed = ForeignMessageV1::from_wire_bytes(&bytes).expect("the length is exact");
    assert_eq!(replayed.exit_reason(), Err(ForeignError::BadMagic));
    assert_eq!(replayed.validate_reply(7), Err(ForeignError::BadMagic));

    let mut state = running_state();
    state.header.magic = FOREIGN_MAGIC;
    assert_eq!(state.validate_snapshot(), Err(ValidationError::BadMagic));
}

#[test]
fn exit_codes_name_their_reasons() {
    let cases = [
        (EXIT_SUPERVISOR_CALL, ExitReason::SupervisorCall),
        (EXIT_EXCEPTION, ExitReason::Exception),
        (EXIT_TASK_DEATH, ExitReason::TaskDeath),
        (EXIT_KICK, ExitReason::Kick),
        (EXIT_WAIT_COMPLETE, ExitReason::WaitComplete),
    ];
    for (code, reason) in cases {
        let mut message = plain_exit(FOREIGN_VERSION_V4, ExitReason::SupervisorCall);
        message.header.code = code;
        assert_eq!(message.exit_reason(), Ok(reason));
        assert_ne!(code, REPLY_RESUME);
        assert_ne!(code, REPLY_TERMINATE);
    }
    for code in [0, 6, REPLY_RESUME, REPLY_TERMINATE, u32::MAX] {
        let mut message = plain_exit(FOREIGN_VERSION_V4, ExitReason::SupervisorCall);
        message.header.code = code;
        assert_eq!(message.exit_reason(), Err(ForeignError::UnknownCode));
    }
}

#[test]
fn wait_request_bytes_are_exact() {
    let request = ForeignWaitU32RequestV1::park(9, 0x4000, 0xfeed_beef, Some(42));
    let bytes = request.to_wire_bytes();
    assert_eq!(
        bytes[..40],
        [
            b'L', b'W', b'A', b'T', 1, 0, 1, 0, 64, 0, 0, 0, 0, 0, 0, 0, 9, 0, 0, 0, 0, 0, 0, 0, 0,
            0x40, 0, 0, 0, 0, 0, 0, 0xef, 0xbe, 0xed, 0xfe, 0, 0, 0, 0
        ]
    );
    assert_eq!(bytes[40..48], [42, 0, 0, 0, 0, 0, 0, 0]);
    assert_eq!(bytes[48..], [0; 16]);

    let request = ForeignWaitU32RequestV1::requeue(8, 1, 0x0100, 2);
    let bytes = request.to_wire_bytes();
    assert_eq!(bytes[6], 3);
    assert_eq!(bytes[36], 1);
    assert_eq!(bytes[48..60], [0, 1, 0, 0, 0, 0, 0, 0, 2, 0, 0, 0]);
}

#[test]
fn every_valid_request_has_one_spelling() {
    for request in [
        ForeignWaitU32RequestV1::park(1, 4, 5, None),
        ForeignWaitU32RequestV1::park(u64::MAX, u64::MAX - 3, u32::MAX, Some(0)),
        ForeignWaitU32RequestV1::wake(8, u32::MAX),
        ForeignWaitU32RequestV1::requeue(8, 1, 16, 2),
        ForeignWaitU32RequestV1::interrupt(3),
    ] {
        assert_eq!(request.validate(), Ok(()));
        let bytes = request.to_wire_bytes();
        assert_eq!(ForeignWaitU32RequestV1::from_wire_bytes(&bytes), Ok(request));
        for index in [0, 4, 8, 12, 15, 60, 63] {
            let mut changed = bytes;
            changed[index] ^= 0x80;
            assert!(ForeignWaitU32RequestV1::from_wire_bytes(&changed).is_err());
        }
    }
    assert_eq!(
        ForeignWaitU32RequestV1::park(1, 4, 5, None),
        ForeignWaitU32RequestV1::park(1, 4, 5, Some(u64::MAX))
    );
}

#[test]
fn wait_decoding_names_the_first_fault() {
    let bytes = ForeignWaitU32RequestV1::wake(8, 1).to_wire_bytes();
    assert_eq!(
        ForeignWaitU32RequestV1::from_wire_bytes(&bytes[..63]),
        Err(ForeignError::WrongWaitRequestSize)
    );
    assert_eq!(
        ForeignWaitU32RequestV1::from_wire_bytes(&[]),
        Err(ForeignError::WrongWaitRequestSize)
    );
    for (index, value, error) in [
        (0, 0, ForeignError::WrongWaitRequestMagic),
        (4, 2, ForeignError::WrongWaitRequestSize),
        (8, 63, ForeignError::WrongWaitRequestSize),
        (13, 1, ForeignError::WrongWaitRequestSize),
        (62, 1, ForeignError::WrongWaitRequestSize),
        (6, 0, ForeignError::InvalidWaitRequest),
        (6, 5, ForeignError::InvalidWaitRequest),
        (7, 1, ForeignError::InvalidWaitRequest),
        (16, 1, ForeignError::InvalidWaitRequest),
        (24, 9, ForeignError::InvalidWaitRequest),
    ] {
        let mut changed = bytes;
        changed[index] = value;
        assert_eq!(ForeignWaitU32RequestV1::from_wire_bytes(&changed), Err(error));
    }
}

#[test]
fn unused_request_fields_must_be_zero() {
    let park = ForeignWaitU32RequestV1::park(1, 4, 5, Some(6));
    let wake = ForeignWaitU32RequestV1::wake(4, 5);
    let requeue = ForeignWaitU32RequestV1::requeue(4, 5, 8, 6);
    let interrupt = ForeignWaitU32RequestV1::interrupt(1);
    for request in [
        ForeignWaitU32RequestV1 { count: 1, ..park },
        ForeignWaitU32RequestV1 { address2: 4, ..park },
        ForeignWaitU32RequestV1 { requeue_count: 1, ..park },
        ForeignWaitU32RequestV1 { address: 6, ..park },
        ForeignWaitU32RequestV1 { sequence: 1, ..wake },
        ForeignWaitU32RequestV1 { expected: 1, ..wake },
        ForeignWaitU32RequestV1 { timeout_ns: 1, ..wake },
        ForeignWaitU32RequestV1 { address2: 4, ..wake },
        ForeignWaitU32RequestV1 { requeue_count: 1, ..wake },
        ForeignWaitU32RequestV1 { sequence: 1, ..requeue },
        ForeignWaitU32RequestV1 { expected: 1, ..requeue },
        ForeignWaitU32RequestV1 { timeout_ns: 1, ..requeue },
        ForeignWaitU32RequestV1 { address: 5, ..requeue },
        ForeignWaitU32RequestV1 { sequence: 0, ..interrupt },
        ForeignWaitU32RequestV1 { address: 4, ..interrupt },
        ForeignWaitU32RequestV1 { expected: 1, ..interrupt },
        ForeignWaitU32RequestV1 { count: 1, ..interrupt },
        ForeignWaitU32RequestV1 { timeout_ns: 1, ..interrupt },
        ForeignWaitU32RequestV1 { address2: 4, ..interrupt },
        ForeignWaitU32RequestV1 { requeue_count: 1, ..interrupt },
        ForeignWaitU32RequestV1 { operation: WaitOperation::Wake, ..park },
        ForeignWaitU32RequestV1 { operation: WaitOperation::Park, ..requeue },
        ForeignWaitU32RequestV1 { operation: WaitOperation::Requeue, ..interrupt },
        ForeignWaitU32RequestV1 { operation: WaitOperation::Interrupt, ..wake },
    ] {
        assert_eq!(request.validate(), Err(ForeignError::InvalidWaitRequest));
        assert_eq!(
            ForeignWaitU32RequestV1::from_wire_bytes(&request.to_wire_bytes()),
            Err(ForeignError::InvalidWaitRequest)
        );
    }
}

#[test]
fn exception_classes_are_bits_26_to_31() {
    assert_eq!(exception_class(u64::MAX), 0x3f);
    assert_eq!(exception_class(0x03ff_ffff), 0);
    assert_eq!(exception_class(0xffff_ffff_0000_0000), 0);
    for class in 0_u64..64 {
        let kind = match class {
            0x15 => EXCEPTION_SUPERVISOR_CALL,
            0x20 | 0x21 => EXCEPTION_INSTRUCTION_ABORT,
            0x24 | 0x25 => EXCEPTION_DATA_ABORT,
            0x00 => EXCEPTION_ILLEGAL_INSTRUCTION,
            0x30 | 0x31 | 0x3c => EXCEPTION_BREAKPOINT,
            _ => EXCEPTION_OTHER,
        };
        assert_eq!(exception_class(class << 26), class as u8);
        assert_eq!(classify_exception(class << 26), kind);
    }
}

#[test]
fn every_recorded_exception_is_a_snapshot() {
    for class in 0_u64..64 {
        for iss in [0, ESR_ABORT_FAR_NOT_VALID, 0x3ff] {
            let esr = (class << 26) | iss;
            let mut state = running_state();
            state.header.flags = STATE_FLAG_EXCEPTION_VALID;
            state.exception = Aarch64ExceptionState::from_lower_el(esr, 0x1234, 0x4000);
            assert_eq!(state.validate_snapshot(), Ok(()));
            let e = state.exception;
            assert_ne!(e.kind, EXCEPTION_NONE);
            assert_eq!(Aarch64ExceptionState::from_lower_el(e.esr, e.far, e.pc), e);
        }
    }
    let abort = Aarch64ExceptionState::from_lower_el(0x20 << 26, 5, 4);
    assert_eq!(abort.flags, EXCEPTION_FLAGS_V1);
    assert_eq!(abort.far, 5);
    let call = Aarch64ExceptionState::from_lower_el(0x15 << 26, 5, 4);
    assert_eq!(call.flags, EXCEPTION_FLAG_LOWER_EL);
    assert_eq!(call.pc, 4);
}

#[test]
fn malformed_exception_records_are_refused() {
    let mut valid = running_state();
    valid.header.flags = STATE_FLAG_EXCEPTION_VALID;
    valid.exception = Aarch64ExceptionState::from_lower_el(0x24 << 26, 0x1234, 0x4000);

    let mut state = valid;
    state.exception.flags |= 4;
    assert_eq!(state.validate_snapshot(), Err(ValidationError::UnknownExceptionFlags));
    state.exception.kind = EXCEPTION_NONE;
    assert_eq!(state.validate_snapshot(), Err(ValidationError::InvalidExceptionRecord));

    state = valid;
    state.exception.flags = EXCEPTION_FLAG_FAR_VALID;
    assert_eq!(state.validate_snapshot(), Err(ValidationError::InvalidExceptionRecord));

    state = valid;
    state.exception.kind = EXCEPTION_OTHER;
    assert_eq!(state.validate_snapshot(), Err(ValidationError::InvalidExceptionRecord));

    state = valid;
    state.header.flags = 0;
    assert_eq!(state.validate_snapshot(), Err(ValidationError::InvalidExceptionRecord));

    state = valid;
    state.exception = Aarch64ExceptionState::from_lower_el(0x15 << 26, 0, 0x4000);
    state.exception.far = 1;
    assert_eq!(state.validate_snapshot(), Err(ValidationError::InvalidExceptionRecord));

    state = valid;
    state.reserved[4] = 1;
    assert_eq!(state.validate_snapshot(), Err(ValidationError::NonzeroReserved));
}

#[test]
fn resume_bounds_are_exact() {
    let stopped = running_state();
    let mut requested = stopped;
    requested.pc = USER_END - 4;
    requested.sp = USER_END;
    assert_eq!(requested.sanitized_for_resume(&stopped, USER_END), Ok(requested));
    assert_eq!(
        requested.sanitized_for_resume(&stopped, USER_END - 4),
        Err(ValidationError::PcOutsideUserspace)
    );
    assert_eq!(
        requested.sanitized_for_resume(&stopped, USER_END - 1),
        Err(ValidationError::SpOutsideUserspace)
    );
    assert_eq!(
        requested.sanitized_for_resume(&stopped, USER_END + 1),
        Ok(requested)
    );
    let cleared = Aarch64StateV1::default();
    assert_eq!(cleared.sanitized_for_resume(&cleared, 1), Ok(cleared));
    assert_eq!(
        cleared.sanitized_for_resume(&cleared, 0),
        Err(ValidationError::PcOutsideUserspace)
    );
}

#[test]
fn the_requested_state_is_checked_before_the_stopped_one() {
    let good = running_state();
    let mut bad = good;
    bad.header.size = 0;
    let mut worse = good;
    worse.header.version = 9;
    assert_eq!(
        good.sanitized_for_resume(&bad, USER_END),
        Err(ValidationError::WrongSize)
    );
    assert_eq!(
        worse.sanitized_for_resume(&bad, USER_END),
        Err(ValidationError::UnsupportedVersion)
    );
}

#[test]
fn only_condition_flags_of_pstate_may_change() {
    let stopped = running_state();
    for bit in 0..64 {
        let mut requested = stopped;
        requested.pstate ^= 1 << bit;
        let expected = if PSTATE_NZCV_MASK & (1 << bit) != 0 {
            Ok(requested)
        } else if PSTATE_FORBIDDEN_RESUME_MASK & (1 << bit) != 0 {
            Err(ValidationError::ForbiddenPstate)
        } else {
            Err(ValidationError::NonWritablePstateChanged)
        };
        assert_eq!(requested.sanitized_for_resume(&stopped, USER_END), expected);
    }
    assert_eq!(PSTATE_FORBIDDEN_RESUME_MASK, 0x0030_03df);
    assert_eq!(PSTATE_UAO, 1 << 23);
    assert!(!SINGLE_STEP_SUPPORTED);

    let mut illegal = stopped;
    illegal.pstate |= PSTATE_IL;
    assert_eq!(
        illegal.sanitized_for_resume(&illegal, USER_END),
        Err(ValidationError::ForbiddenPstate)
    );
}

#[test]
fn resumption_chains() {
    let mut first = running_state();
    first.pstate |= PSTATE_PAN;
    let mut middle = first;
    middle.x[3] = 7;
    middle.pstate ^= PSTATE_NZCV_MASK;
    let mut last = middle;
    last.pc = 0x9000;
    last.fpcr = 0x0040_0000;
    last.tpidr_el0 = 5;
    assert_eq!(middle.sanitized_for_resume(&first, USER_END), Ok(middle));
    assert_eq!(last.sanitized_for_resume(&middle, USER_END), Ok(last));
    assert_eq!(last.sanitized_for_resume(&first, USER_END), Ok(last));
}
