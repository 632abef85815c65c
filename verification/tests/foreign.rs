//! The exit/reply frame and the wait request, seen from outside.
use foreign_protocol::foreign::aarch64::{
    Aarch64ExceptionState, Aarch64StateV1, Aarch64Vector, STATE_FLAG_EXCEPTION_VALID, STATE_MAGIC,
};
use foreign_protocol::foreign::{
    protocol_version_is_supported, ExitReason, ForeignError, ForeignHeader, ForeignMessageV1,
    ForeignWaitU32RequestV1, KickOrigin, ReplyKind, WaitOutcome, EXIT_EXCEPTION, EXIT_KICK,
    EXIT_SUPERVISOR_CALL, EXIT_TASK_DEATH, FOREIGN_ATOMIC_U32_HANDLE_PREFIX,
    FOREIGN_DOMAIN_LIMITS_V1_CONTROL_WORD_COUNT, FOREIGN_DOMAIN_LIMITS_V1_VALUE_COUNT,
    FOREIGN_MAGIC, FOREIGN_MEMORY_HANDLE_PREFIX, FOREIGN_MEMORY_MAX_TRANSFER_V1,
    FOREIGN_MEMORY_VERSION_V1, FOREIGN_MESSAGE_V1_SIZE, FOREIGN_MESSAGE_V1_WIRE_SIZE,
    FOREIGN_VERSION_V1, FOREIGN_VERSION_V2, FOREIGN_VERSION_V3, FOREIGN_VERSION_V4,
    FOREIGN_WAIT_U32_HANDLE_PREFIX, FOREIGN_WAIT_U32_REQUEST_V1_WIRE_SIZE, REPLY_RESUME,
    REPLY_TERMINATE,
};
use std::mem::size_of;

/// The first wire byte that an edit of the default message changes.
fn wire_offset(edit: fn(&mut ForeignMessageV1)) -> usize {
    let plain = ForeignMessageV1::default();
    let mut edited = plain;
    edit(&mut edited);
    let before = plain.to_wire_bytes();
    let after = edited.to_wire_bytes();
    (0..before.len())
        .find(|&index| before[index] != after[index])
        .expect("the edit reaches the wire")
}

#[test]
fn foreign_v1_layout_is_stable() {
    assert_eq!(size_of::<ForeignHeader>(), 16);
    assert_eq!(size_of::<ForeignMessageV1>(), 976);
    assert_eq!(ForeignMessageV1::default().to_wire_bytes().len(), 976);
    assert_eq!(wire_offset(|m| m.header.magic ^= 1), 0);
    assert_eq!(wire_offset(|m| m.domain_id = 1), 16);
    assert_eq!(wire_offset(|m| m.task_id = 1), 24);
    assert_eq!(wire_offset(|m| m.sequence = 1), 32);
    assert_eq!(wire_offset(|m| m.flags = 1), 40);
    assert_eq!(wire_offset(|m| m.state.header.magic ^= 1), 48);
    assert_eq!(wire_offset(|m| m.reserved[0] = 1), 944);
    assert_eq!(
        wire_offset(|m| m.reserved[0] = 1) + size_of::<[u64; 4]>(),
        size_of::<ForeignMessageV1>()
    );
    assert_eq!(FOREIGN_MESSAGE_V1_SIZE, 976);
    // The record and its embedded state start on 16-byte boundaries of the frame.
    assert_eq!(FOREIGN_MESSAGE_V1_WIRE_SIZE % 16, 0);
    assert_eq!(wire_offset(|m| m.state.header.magic ^= 1) % 16, 0);
}

#[test]
fn magic_is_distinct_from_state_magic() {
    assert_ne!(FOREIGN_MAGIC, STATE_MAGIC);
}

#[test]
fn wire_round_trip_preserves_every_field() {
    let mut message = valid_exit();
    message.state.x[0] = 0x0102_0304_0506_0708;
    message.state.x[30] = u64::MAX;
    message.state.vectors[0] = Aarch64Vector {
        low: 0x1111_2222_3333_4444,
        high: 0x5555_6666_7777_8888,
    };
    message.state.vectors[31] = Aarch64Vector {
        low: 0x9999_aaaa_bbbb_cccc,
        high: 0xdddd_eeee_ffff_0001,
    };
    message.state.fpcr = 0x1234_5678;
    message.state.fpsr = 0x90ab_cdef;
    message.state.exception.kind = 4;
    message.state.exception.flags = 2;
    message.state.exception.esr = 0xfeed_face_cafe_beef;
    message.state.exception.pc = 0x4000;
    message.reserved = [1, 2, 3, 4];

    let bytes = message.to_wire_bytes();
    assert_eq!(&bytes[..4], b"LFOR");
    assert_eq!(ForeignMessageV1::from_wire_bytes(&bytes), Ok(message));
}

#[test]
fn wire_decode_rejects_non_exact_lengths() {
    let bytes = valid_exit().to_wire_bytes();
    assert_eq!(
        ForeignMessageV1::from_wire_bytes(&bytes[..bytes.len() - 1]),
        Err(ForeignError::WrongWireSize)
    );
    assert_eq!(
        ForeignMessageV1::from_wire_bytes(&[0; FOREIGN_MESSAGE_V1_WIRE_SIZE + 1]),
        Err(ForeignError::WrongWireSize)
    );
}

#[test]
fn memory_contract_is_bounded_and_versioned() {
    assert_eq!(FOREIGN_MEMORY_VERSION_V1, 1);
    assert_eq!(FOREIGN_MEMORY_MAX_TRANSFER_V1, 64 * 1024);
    assert_eq!(FOREIGN_MEMORY_HANDLE_PREFIX, "memory/");
    assert_eq!(FOREIGN_ATOMIC_U32_HANDLE_PREFIX, "atomic-u32/");
    assert_eq!(FOREIGN_WAIT_U32_HANDLE_PREFIX, "wait-u32/");
}

fn valid_exit() -> ForeignMessageV1 {
    let mut state = Aarch64StateV1::default();
    state.pc = 0x4000;
    state.sp = 0x8000;
    ForeignMessageV1::new_exit(ExitReason::SupervisorCall, 7, 11, 3, state)
        .expect("supervisor calls are valid V1 exits")
}

#[test]
fn exit_records_classify() {
    assert_eq!(valid_exit().exit_reason(), Ok(ExitReason::SupervisorCall));

    let mut death = valid_exit();
    death.header.code = EXIT_TASK_DEATH;
    assert_eq!(death.exit_reason(), Ok(ExitReason::TaskDeath));
}

#[test]
fn v2_kick_preserves_a_racing_guest_exit_kind() {
    let state = valid_exit().state;
    let kick = ForeignMessageV1::new_kick_exit(7, 11, 4, state, KickOrigin::SupervisorCall);

    assert_eq!(kick.header.version, FOREIGN_VERSION_V2);
    assert_eq!(kick.exit_reason(), Ok(ExitReason::Kick));
    assert_eq!(kick.kick_origin(), Ok(KickOrigin::SupervisorCall));
    assert_eq!(
        ForeignMessageV1::from_wire_bytes(&kick.to_wire_bytes()),
        Ok(kick)
    );

    let resume = kick.to_resume_reply(|state| state.x[0] = 0x55);
    assert_eq!(
        resume.validate_reply_for_version(7, FOREIGN_VERSION_V2),
        Ok(ReplyKind::Resume)
    );
    assert_eq!(
        resume.validate_reply(7),
        Err(ForeignError::WrongProtocolVersion)
    );
}

#[test]
fn v3_wait_completion_is_versioned_and_replyable() {
    let exit = ForeignMessageV1::new_wait_complete_exit(
        7,
        11,
        4,
        valid_exit().state,
        WaitOutcome::TimedOut,
    );

    assert_eq!(exit.header.version, FOREIGN_VERSION_V3);
    assert_eq!(exit.exit_reason(), Ok(ExitReason::WaitComplete));
    assert_eq!(exit.wait_outcome(), Ok(WaitOutcome::TimedOut));
    assert_eq!(
        ForeignMessageV1::from_wire_bytes(&exit.to_wire_bytes()),
        Ok(exit)
    );
    assert_eq!(
        exit.to_resume_reply(|_| {})
            .validate_reply_for_version(7, FOREIGN_VERSION_V3),
        Ok(ReplyKind::Resume)
    );
}

#[test]
fn v3_preserves_the_v2_kick_contract() {
    let kick = ForeignMessageV1::new_kick_exit_for_version(
        FOREIGN_VERSION_V3,
        7,
        11,
        4,
        valid_exit().state,
        KickOrigin::Asynchronous,
    )
    .expect("V3 retains lifecycle kicks");
    assert_eq!(kick.exit_reason(), Ok(ExitReason::Kick));
    assert_eq!(kick.kick_origin(), Ok(KickOrigin::Asynchronous));
}

#[test]
fn v4_preserves_v3_frames_and_names_the_complete_limit_request() {
    assert!(protocol_version_is_supported(FOREIGN_VERSION_V4));
    assert_eq!(
        FOREIGN_DOMAIN_LIMITS_V1_CONTROL_WORD_COUNT,
        1 + FOREIGN_DOMAIN_LIMITS_V1_VALUE_COUNT
    );

    let state = valid_exit().state;
    let wait = ForeignMessageV1::new_wait_complete_exit_for_version(
        FOREIGN_VERSION_V4,
        7,
        11,
        4,
        state,
        WaitOutcome::Woken,
    )
    .expect("V4 retains atomic-wait completions");
    assert_eq!(wait.header.version, FOREIGN_VERSION_V4);
    assert_eq!(wait.exit_reason(), Ok(ExitReason::WaitComplete));
    assert_eq!(wait.wait_outcome(), Ok(WaitOutcome::Woken));
    assert_eq!(
        wait.to_resume_reply(|_| {})
            .validate_reply_for_version(7, FOREIGN_VERSION_V4),
        Ok(ReplyKind::Resume)
    );

    let kick = ForeignMessageV1::new_kick_exit_for_version(
        FOREIGN_VERSION_V4,
        7,
        11,
        5,
        state,
        KickOrigin::Exception,
    )
    .expect("V4 retains lifecycle kicks");
    assert_eq!(kick.kick_origin(), Ok(KickOrigin::Exception));
}

#[test]
fn deterministic_wire_fuzz_never_reinterprets_or_panics() {
    // This intentionally uses no random crate or test-time entropy: every
    // CI run exercises the same 16k hostile exit/reply/state inputs and
    // can reproduce a failure from the initial seed. `from_wire_bytes`
    // is a lossless decode, while the following semantic checks are the
    // untrusted-broker boundaries used by the kernel.
    const CASES: usize = 16_384;
    let mut seed = 0x4c4f_4c4f_4d38_4655_u64;
    let stopped = Aarch64StateV1::default();
    for _ in 0..CASES {
        let mut bytes = ForeignMessageV1::new_exit_for_version(
            FOREIGN_VERSION_V4,
            ExitReason::SupervisorCall,
            7,
            11,
            13,
            stopped,
        )
        .expect("V4 supervisor-call frame is valid")
        .to_wire_bytes();
        let mutations = usize::try_from(next_fuzz_word(&mut seed) % 8 + 1)
            .expect("small mutation count fits usize");
        for _ in 0..mutations {
            let index = usize::try_from(
                next_fuzz_word(&mut seed) % FOREIGN_MESSAGE_V1_WIRE_SIZE as u64,
            )
            .expect("wire index fits usize");
            bytes[index] ^= next_fuzz_word(&mut seed) as u8;
        }

        let decoded = ForeignMessageV1::from_wire_bytes(&bytes)
            .expect("an exact-width record must always decode losslessly");
        assert_eq!(decoded.to_wire_bytes(), bytes);
        let _ = decoded.exit_reason();
        let _ = decoded.validate_reply_for_version(decoded.domain_id, FOREIGN_VERSION_V4);
        let _ = decoded.state.validate_snapshot();
        let _ = decoded.state.sanitized_for_resume(&stopped, 1_u64 << 48);
    }

    // The independent wait/capability request decoder must also tolerate
    // arbitrary lengths and bytes without accepting a malformed record as
    // a differently shaped operation.
    for _ in 0..CASES {
        let mut bytes = [0_u8; FOREIGN_WAIT_U32_REQUEST_V1_WIRE_SIZE];
        for byte in &mut bytes {
            *byte = next_fuzz_word(&mut seed) as u8;
        }
        let length = usize::try_from(
            next_fuzz_word(&mut seed) % (FOREIGN_WAIT_U32_REQUEST_V1_WIRE_SIZE as u64 + 2),
        )
        .expect("fuzz length fits usize");
        let input = if length <= bytes.len() {
            &bytes[..length]
        } else {
            &bytes[..]
        };
        let _ = ForeignWaitU32RequestV1::from_wire_bytes(input);
    }
}

fn next_fuzz_word(seed: &mut u64) -> u64 {
    // SplitMix64: small, deterministic, and sufficient to distribute
    // bit/field mutations without becoming a protocol dependency.
    *seed = seed.wrapping_add(0x9e37_79b9_7f4a_7c15);
    let mut value = *seed;
    value = (value ^ (value >> 30)).wrapping_mul(0xbf58_476d_1ce4_e5b9);
    value = (value ^ (value >> 27)).wrapping_mul(0x94d0_49bb_1331_11eb);
    value ^ (value >> 31)
}

#[test]
fn wait_request_wire_codec_rejects_ambiguous_inputs() {
    let request = ForeignWaitU32RequestV1::park(9, 0x4000, 0xfeed_beef, Some(42));
    let bytes = request.to_wire_bytes();
    assert_eq!(
        ForeignWaitU32RequestV1::from_wire_bytes(&bytes),
        Ok(request)
    );

    let mut wrong_tail = bytes;
    wrong_tail[60] = 1;
    assert_eq!(
        ForeignWaitU32RequestV1::from_wire_bytes(&wrong_tail),
        Err(ForeignError::WrongWaitRequestSize)
    );

    let unaligned = ForeignWaitU32RequestV1::wake(3, 1).to_wire_bytes();
    assert_eq!(
        ForeignWaitU32RequestV1::from_wire_bytes(&unaligned),
        Err(ForeignError::InvalidWaitRequest)
    );
}

#[test]
fn wait_request_operations_have_disjoint_shapes() {
    assert!(ForeignWaitU32RequestV1::park(1, 0, 0, None)
        .validate()
        .is_ok());
    assert!(ForeignWaitU32RequestV1::wake(0, 0).validate().is_ok());
    assert!(ForeignWaitU32RequestV1::requeue(0, 1, 4, 2)
        .validate()
        .is_ok());
    assert!(ForeignWaitU32RequestV1::interrupt(1).validate().is_ok());
    assert!(ForeignWaitU32RequestV1::park(0, 0, 0, None)
        .validate()
        .is_err());
    assert!(ForeignWaitU32RequestV1::requeue(0, 0, 2, 0)
        .validate()
        .is_err());
}

#[test]
fn kick_is_unrepresentable_in_v1_and_tails_are_version_checked() {
    let state = valid_exit().state;
    assert_eq!(
        ForeignMessageV1::new_exit_for_version(
            FOREIGN_VERSION_V1,
            ExitReason::Kick,
            7,
            11,
            4,
            state,
        ),
        Err(ForeignError::InvalidKickOrigin)
    );

    let mut v1 = valid_exit();
    v1.header.code = EXIT_KICK;
    assert_eq!(v1.exit_reason(), Err(ForeignError::UnknownCode));

    let mut v2 = ForeignMessageV1::new_kick_exit(7, 11, 4, state, KickOrigin::Asynchronous);
    v2.reserved[1] = 1;
    assert_eq!(v2.exit_reason(), Err(ForeignError::NonzeroReserved));
}

#[test]
fn reply_validation_binds_domain_and_kind() {
    let resume = valid_exit().to_resume_reply(|s| s.x[0] = 0x1234);
    assert_eq!(resume.validate_reply(7), Ok(ReplyKind::Resume));
    // Cross-domain reply is rejected structurally.
    assert_eq!(resume.validate_reply(8), Err(ForeignError::WrongDomain));

    let terminate = valid_exit().to_terminate_reply();
    assert_eq!(terminate.validate_reply(7), Ok(ReplyKind::Terminate));
}

#[test]
fn hostile_frames_are_rejected() {
    let mut m = valid_exit().to_resume_reply(|_| {});
    m.header.magic = 0;
    assert_eq!(m.validate_reply(7), Err(ForeignError::BadMagic));

    m = valid_exit().to_resume_reply(|_| {});
    m.header.version = FOREIGN_VERSION_V2;
    assert_eq!(m.validate_reply(7), Err(ForeignError::WrongProtocolVersion));

    m = valid_exit().to_resume_reply(|_| {});
    m.header.architecture = 2;
    assert_eq!(m.validate_reply(7), Err(ForeignError::WrongArchitecture));

    m = valid_exit().to_resume_reply(|_| {});
    m.header.size -= 1;
    assert_eq!(m.validate_reply(7), Err(ForeignError::WrongSize));

    m = valid_exit().to_resume_reply(|_| {});
    m.header.code = 0xdead;
    assert_eq!(m.validate_reply(7), Err(ForeignError::UnknownCode));

    m = valid_exit().to_resume_reply(|_| {});
    m.flags = 1;
    assert_eq!(m.validate_reply(7), Err(ForeignError::NonzeroFlags));

    m = valid_exit().to_resume_reply(|_| {});
    m.reserved[3] = 1;
    assert_eq!(m.validate_reply(7), Err(ForeignError::NonzeroReserved));

    m = valid_exit().to_resume_reply(|_| {});
    m.header.version = 99;
    assert_eq!(
        m.validate_reply_for_version(7, 99),
        Err(ForeignError::UnsupportedVersion)
    );
}

#[test]
fn exit_code_and_reply_code_do_not_overlap() {
    for exit in [EXIT_SUPERVISOR_CALL, EXIT_EXCEPTION, EXIT_TASK_DEATH] {
        assert_ne!(exit, REPLY_RESUME);
        assert_ne!(exit, REPLY_TERMINATE);
    }
    // An exit record cannot be misread as a reply and vice versa.
    let exit = valid_exit();
    assert_eq!(exit.validate_reply(7), Err(ForeignError::UnknownCode));
}

#[test]
fn resume_reply_carries_exception_state_unchanged() {
    let mut state = Aarch64StateV1::default();
    state.pc = 0x4000;
    state.sp = 0x8000;
    state.header.flags = STATE_FLAG_EXCEPTION_VALID;
    state.exception =
        Aarch64ExceptionState::from_lower_el(0x24 << 26, 0xdead_0000, 0x4000);
    let exit = ForeignMessageV1::new_exit(ExitReason::Exception, 1, 2, 9, state)
        .expect("exceptions are valid V1 exits");
    let reply = exit.to_resume_reply(|s| s.pc += 4);
    // The exception metadata is echoed back verbatim for the kernel's
    // immutability check.
    assert_eq!(reply.state.exception, state.exception);
    assert_eq!(reply.state.pc, 0x4004);
}
