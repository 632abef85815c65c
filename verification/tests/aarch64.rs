//! The register-state record, seen from outside.
use foreign_protocol::foreign::aarch64::{
    classify_exception, Aarch64ExceptionState, Aarch64StateV1, Aarch64Vector, StateHeader,
    ValidationError, ESR_ABORT_FAR_NOT_VALID, EXCEPTION_BREAKPOINT, EXCEPTION_DATA_ABORT,
    EXCEPTION_FLAG_FAR_VALID, EXCEPTION_ILLEGAL_INSTRUCTION, EXCEPTION_INSTRUCTION_ABORT,
    EXCEPTION_OTHER, EXCEPTION_SUPERVISOR_CALL, FPCR_WRITABLE_MASK, FPSR_WRITABLE_MASK,
    PSTATE_DAIF_MASK, PSTATE_PAN, PSTATE_SINGLE_STEP, STATE_FLAG_EXCEPTION_VALID, STATE_V1_SIZE,
};
use foreign_protocol::foreign::ForeignMessageV1;
use std::mem::size_of;

const USER_END: u64 = 1 << 48;

fn stopped_state() -> Aarch64StateV1 {
    let mut state = Aarch64StateV1::default();
    state.pc = 0x4000;
    state.sp = 0x8000;
    state.pstate = 0xa000_0000;
    state
}

/// The first byte of the encoded state that an edit changes.
fn state_offset(edit: fn(&mut Aarch64StateV1)) -> usize {
    let plain = ForeignMessageV1::default();
    let mut edited = plain;
    edit(&mut edited.state);
    let before = plain.to_wire_bytes();
    let after = edited.to_wire_bytes();
    (0..before.len())
        .find(|&index| before[index] != after[index])
        .expect("the edit reaches the wire")
        - 48
}

#[test]
fn aarch64_v1_layout_is_stable() {
    assert_eq!(size_of::<StateHeader>(), 16);
    assert_eq!(size_of::<Aarch64Vector>(), 16);
    assert_eq!(state_offset(|s| s.vectors[1].low = 1) % 16, 0);
    assert_eq!(size_of::<Aarch64ExceptionState>(), 32);
    assert_eq!(size_of::<Aarch64StateV1>(), 896);
    assert_eq!(STATE_V1_SIZE as usize % 16, 0);
    assert_eq!(state_offset(|s| s.header.magic ^= 1), 0);
    assert_eq!(state_offset(|s| s.x[0] = 1), 16);
    assert_eq!(state_offset(|s| s.sp = 1), 264);
    assert_eq!(state_offset(|s| s.pc = 1), 272);
    assert_eq!(state_offset(|s| s.pstate = 1), 280);
    assert_eq!(state_offset(|s| s.tpidr_el0 = 1), 288);
    assert_eq!(state_offset(|s| s.tpidrro_el0 = 1), 296);
    assert_eq!(state_offset(|s| s.vectors[0].low = 1), 304);
    assert_eq!(state_offset(|s| s.fpcr = 1), 816);
    assert_eq!(state_offset(|s| s.fpsr = 1), 820);
    assert_eq!(state_offset(|s| s.exception.kind = 1), 824);
    assert_eq!(state_offset(|s| s.reserved[0] = 1), 856);
    assert_eq!(
        state_offset(|s| s.reserved[0] = 1) + size_of::<[u64; 5]>(),
        size_of::<Aarch64StateV1>()
    );
    assert_eq!(STATE_V1_SIZE, 896);
}

#[test]
fn classifies_lower_el_exceptions() {
    assert_eq!(classify_exception(0x15 << 26), EXCEPTION_SUPERVISOR_CALL);
    assert_eq!(classify_exception(0x24 << 26), EXCEPTION_DATA_ABORT);
    assert_eq!(classify_exception(0x20 << 26), EXCEPTION_INSTRUCTION_ABORT);
    assert_eq!(classify_exception(0), EXCEPTION_ILLEGAL_INSTRUCTION);
    assert_eq!(classify_exception(0x3c << 26), EXCEPTION_BREAKPOINT);
    assert_eq!(classify_exception(0x2f << 26), EXCEPTION_OTHER);
}

#[test]
fn abort_records_preserve_far_and_other_records_clear_it() {
    let abort = Aarch64ExceptionState::from_lower_el(0x24 << 26, 0xdead_0000, 0x4000);
    assert_eq!(abort.kind, EXCEPTION_DATA_ABORT);
    assert_eq!(abort.far, 0xdead_0000);
    assert_ne!(abort.flags & EXCEPTION_FLAG_FAR_VALID, 0);

    let svc = Aarch64ExceptionState::from_lower_el(0x15 << 26, 0xdead_0000, 0x4004);
    assert_eq!(svc.kind, EXCEPTION_SUPERVISOR_CALL);
    assert_eq!(svc.far, 0);
    assert_eq!(svc.flags & EXCEPTION_FLAG_FAR_VALID, 0);

    let abort_without_far = Aarch64ExceptionState::from_lower_el(
        (0x24 << 26) | ESR_ABORT_FAR_NOT_VALID,
        0xdead_0000,
        0x4008,
    );
    assert_eq!(abort_without_far.kind, EXCEPTION_DATA_ABORT);
    assert_eq!(abort_without_far.far, 0);
    assert_eq!(abort_without_far.flags & EXCEPTION_FLAG_FAR_VALID, 0);
}

#[test]
fn distinctive_state_round_trips_through_resume_validation() {
    let stopped = stopped_state();
    let mut requested = stopped;
    for (index, value) in requested.x.iter_mut().enumerate() {
        *value = 0x1000_0000_0000_0000 | index as u64;
    }
    requested.pc = 0x9000;
    requested.sp = 0xa000;
    requested.pstate = 0x5000_0000;
    requested.tpidr_el0 = 0x1111_2222_3333_4444;
    requested.tpidrro_el0 = 0x5555_6666_7777_8888;
    for (index, vector) in requested.vectors.iter_mut().enumerate() {
        vector.low = 0xaaaa_0000_0000_0000 | index as u64;
        vector.high = 0xbbbb_0000_0000_0000 | index as u64;
    }
    requested.fpcr = FPCR_WRITABLE_MASK;
    requested.fpsr = FPSR_WRITABLE_MASK;

    assert_eq!(
        requested.sanitized_for_resume(&stopped, USER_END),
        Ok(requested)
    );
}

#[test]
fn rejects_incompatible_headers_and_reserved_fields() {
    let stopped = stopped_state();
    for (mut invalid, expected) in [
        {
            let mut state = stopped;
            state.header.magic = 0;
            (state, ValidationError::BadMagic)
        },
        {
            let mut state = stopped;
            state.header.version += 1;
            (state, ValidationError::UnsupportedVersion)
        },
        {
            let mut state = stopped;
            state.header.architecture += 1;
            (state, ValidationError::WrongArchitecture)
        },
        {
            let mut state = stopped;
            state.header.size -= 1;
            (state, ValidationError::WrongSize)
        },
        {
            let mut state = stopped;
            state.header.flags = 1 << 31;
            (state, ValidationError::UnknownStateFlags)
        },
        {
            let mut state = stopped;
            state.reserved[0] = 1;
            (state, ValidationError::NonzeroReserved)
        },
    ] {
        assert_eq!(
            invalid.sanitized_for_resume(&stopped, USER_END),
            Err(expected)
        );
        invalid = stopped;
        assert_eq!(invalid.validate_snapshot(), Ok(()));
    }
}

#[test]
fn rejects_unsafe_resume_control() {
    let stopped = stopped_state();
    for (invalid, expected) in [
        {
            let mut state = stopped;
            state.pc += 2;
            (state, ValidationError::MisalignedPc)
        },
        {
            let mut state = stopped;
            state.pc = USER_END;
            (state, ValidationError::PcOutsideUserspace)
        },
        {
            let mut state = stopped;
            state.sp += 8;
            (state, ValidationError::MisalignedSp)
        },
        {
            let mut state = stopped;
            state.sp = USER_END + 16;
            (state, ValidationError::SpOutsideUserspace)
        },
        {
            let mut state = stopped;
            state.pstate |= 1;
            (state, ValidationError::ForbiddenPstate)
        },
        {
            let mut state = stopped;
            state.pstate |= PSTATE_DAIF_MASK;
            (state, ValidationError::ForbiddenPstate)
        },
        {
            let mut state = stopped;
            state.pstate |= PSTATE_SINGLE_STEP;
            (state, ValidationError::ForbiddenPstate)
        },
        {
            let mut state = stopped;
            state.pstate |= 1 << 12;
            (state, ValidationError::NonWritablePstateChanged)
        },
        {
            let mut state = stopped;
            state.fpcr = 1;
            (state, ValidationError::InvalidFpcr)
        },
        {
            let mut state = stopped;
            state.fpsr = 1 << 12;
            (state, ValidationError::InvalidFpsr)
        },
    ] {
        assert_eq!(
            invalid.sanitized_for_resume(&stopped, USER_END),
            Err(expected)
        );
    }
}

#[test]
fn exception_metadata_is_validated_and_immutable() {
    let mut stopped = stopped_state();
    stopped.header.flags = STATE_FLAG_EXCEPTION_VALID;
    stopped.exception = Aarch64ExceptionState::from_lower_el(0x24 << 26, 0x1234, stopped.pc);
    assert_eq!(stopped.validate_snapshot(), Ok(()));

    let mut changed = stopped;
    changed.exception.far += 1;
    assert_eq!(
        changed.sanitized_for_resume(&stopped, USER_END),
        Err(ValidationError::ExceptionStateChanged)
    );

    let mut malformed = stopped;
    malformed.exception.flags &= !EXCEPTION_FLAG_FAR_VALID;
    assert_eq!(
        malformed.validate_snapshot(),
        Err(ValidationError::InvalidExceptionRecord)
    );

    let mut no_far = stopped_state();
    no_far.header.flags = STATE_FLAG_EXCEPTION_VALID;
    no_far.exception = Aarch64ExceptionState::from_lower_el(
        (0x24 << 26) | ESR_ABORT_FAR_NOT_VALID,
        0x5678,
        no_far.pc,
    );
    assert_eq!(no_far.validate_snapshot(), Ok(()));

    let mut malformed_no_far = no_far;
    malformed_no_far.exception.flags |= EXCEPTION_FLAG_FAR_VALID;
    assert_eq!(
        malformed_no_far.validate_snapshot(),
        Err(ValidationError::InvalidExceptionRecord)
    );
}

#[test]
fn preserves_unknown_snapshot_bits_but_rejects_changes_to_them() {
    let mut stopped = stopped_state();
    stopped.pstate |= PSTATE_PAN;
    stopped.fpcr |= 1;
    stopped.fpsr |= 1 << 12;

    assert_eq!(
        stopped.sanitized_for_resume(&stopped, USER_END),
        Ok(stopped)
    );

    let mut changed = stopped;
    changed.pstate ^= PSTATE_PAN;
    assert_eq!(
        changed.sanitized_for_resume(&stopped, USER_END),
        Err(ValidationError::NonWritablePstateChanged)
    );

    changed = stopped;
    changed.fpcr ^= 1;
    assert_eq!(
        changed.sanitized_for_resume(&stopped, USER_END),
        Err(ValidationError::InvalidFpcr)
    );

    changed = stopped;
    changed.fpsr ^= 1 << 12;
    assert_eq!(
        changed.sanitized_for_resume(&stopped, USER_END),
        Err(ValidationError::InvalidFpsr)
    );
}
