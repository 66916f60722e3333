use tpm_transport::control::{
    bootstrap_action, bootstrap_command, bootstrap_init, bootstrap_step, check_platform_ack,
    BootstrapAction, BootstrapEvent, BootstrapState, TpmCommand,
};
use tpm_transport::errors::{MarshalingError, TpmError, TpmRcError, TssError};
use tpm_transport::transact::{
    build_header, frame_command, transact_init, transact_step, TransactEvent, TransactState,
};
use tpm_transport::wire::{decode_be32, encode_be32, store_response};

#[test]
fn command_codes_are_fixed() {
    assert_eq!(TpmCommand::PowerOn.code(), 1);
    assert_eq!(TpmCommand::PowerOff.code(), 2);
    assert_eq!(TpmCommand::SendCommand.code(), 8);
    assert_eq!(TpmCommand::NvOn.code(), 11);
    assert_eq!(TpmCommand::NvOff.code(), 12);
}

#[test]
fn be32_encodes_most_significant_first() {
    assert_eq!(encode_be32(0x01020304), [1, 2, 3, 4]);
    assert_eq!(encode_be32(0), [0, 0, 0, 0]);
    assert_eq!(encode_be32(u32::MAX), [0xff, 0xff, 0xff, 0xff]);
    assert_eq!(encode_be32(8), [0, 0, 0, 8]);
}

#[test]
fn be32_round_trip() {
    for v in [0u32, 1, 0xdead_beef, u32::MAX, 0x8000_0000] {
        assert_eq!(decode_be32(&encode_be32(v)), v);
    }
    assert_eq!(decode_be32(&[0, 0, 1, 44]), 300);
}

#[test]
fn header_length_field_equals_command_length() {
    let h = build_header(300);
    assert_eq!(h.len(), 9);
    assert_eq!(&h[0..4], &[0, 0, 0, 8]);
    assert_eq!(h[4], 0);
    assert_eq!(&h[5..9], &[0, 0, 1, 44]);
}

#[test]
fn frame_is_header_then_payload() {
    let cmd = vec![0xaa, 0xbb, 0xcc];
    let framed = frame_command(&cmd).unwrap();
    assert_eq!(
        framed,
        vec![0, 0, 0, 8, 0, 0, 0, 0, 3, 0xaa, 0xbb, 0xcc]
    );
}

#[test]
fn frame_of_empty_command() {
    let framed = frame_command(&Vec::new()).unwrap();
    assert_eq!(framed, vec![0, 0, 0, 8, 0, 0, 0, 0, 0]);
}

#[test]
fn oversized_command_is_bad_size() {
    let too_long = (u32::MAX as usize) + 1;
    assert_eq!(
        transact_init(too_long, 16),
        TransactState::Aborted {
            err: TpmError::BadSize
        }
    );
}

#[test]
fn platform_ack_zero_succeeds() {
    assert_eq!(check_platform_ack(0), Ok(()));
}

#[test]
fn platform_ack_nonzero_is_protocol_violation() {
    assert_eq!(
        check_platform_ack(3),
        Err(TpmError::ProtocolViolation { code: 3 })
    );
}

#[test]
fn marshaling_error_numeric_codes() {
    assert_eq!(
        TpmRcError::from(MarshalingError::ArrayLengthExceeded),
        TpmRcError::Size
    );
    assert_eq!(
        TpmRcError::from(MarshalingError::MarshalingDeriveError),
        TpmRcError::Failure
    );
    assert_eq!(
        TpmRcError::from(MarshalingError::UnexpectedEndOfBuffer),
        TpmRcError::Memory
    );
    assert_eq!(
        TpmRcError::from(MarshalingError::UnknownSelector),
        TpmRcError::Selector
    );
}

#[test]
fn marshaling_error_representations_agree() {
    for e in [
        MarshalingError::ArrayLengthExceeded,
        MarshalingError::MarshalingDeriveError,
        MarshalingError::UnexpectedEndOfBuffer,
        MarshalingError::UnknownSelector,
    ] {
        let numeric = TpmRcError::from(e);
        let structured = TssError::from(e);
        assert_eq!(structured, TssError::TpmRc { rc: numeric });
        assert_eq!(structured, TssError::from(numeric));
    }
}

#[test]
fn transport_error_wraps_into_structured_error() {
    assert_eq!(
        TssError::from(TpmError::InsufficientBuffer),
        TssError::Transport {
            err: TpmError::InsufficientBuffer
        }
    );
}

#[test]
fn marshaling_error_descriptions() {
    assert_eq!(
        MarshalingError::ArrayLengthExceeded.description(),
        "length of array is larger than the type allows"
    );
    assert_eq!(
        MarshalingError::MarshalingDeriveError.description(),
        "unexpected derive error"
    );
    assert_eq!(
        MarshalingError::UnexpectedEndOfBuffer.description(),
        "expected to have more buffer data but found none"
    );
    assert_eq!(
        MarshalingError::UnknownSelector.description(),
        "selector targeted is not known to the unmarshaling code"
    );
}

#[test]
fn transact_full_success() {
    let cmd_len: usize = 5;
    let mut s = transact_init(cmd_len, 100);
    assert_eq!(
        s,
        TransactState::Send {
            payload_len: 5,
            capacity: 100
        }
    );
    s = transact_step(s, TransactEvent::Wrote { n: 14 });
    assert_eq!(s, TransactState::ReadLen { capacity: 100 });
    s = transact_step(s, TransactEvent::Word { value: 20 });
    assert_eq!(s, TransactState::ReadPayload { resp_len: 20 });
    s = transact_step(s, TransactEvent::PayloadRead);
    assert_eq!(s, TransactState::ReadTrailer { resp_len: 20 });
    s = transact_step(s, TransactEvent::Word { value: 0 });
    assert_eq!(s, TransactState::Complete { resp_len: 20 });
}

#[test]
fn transact_short_write_is_io_error() {
    let s = transact_init(5, 100);
    assert_eq!(
        transact_step(s, TransactEvent::Wrote { n: 13 }),
        TransactState::Aborted {
            err: TpmError::IoError
        }
    );
    assert_eq!(
        transact_step(s, TransactEvent::Wrote { n: 0 }),
        TransactState::Aborted {
            err: TpmError::IoError
        }
    );
}

#[test]
fn transact_oversized_response_rejected_before_payload() {
    let mut s = transact_init(2, 8);
    s = transact_step(s, TransactEvent::Wrote { n: 11 });
    assert_eq!(s, TransactState::ReadLen { capacity: 8 });
    // The length word exceeds the buffer capacity: the exchange aborts here,
    // never reaching the payload-reading state, so the buffer stays untouched.
    s = transact_step(s, TransactEvent::Word { value: 9 });
    assert_eq!(
        s,
        TransactState::Aborted {
            err: TpmError::InsufficientBuffer
        }
    );
}

#[test]
fn transact_response_length_at_capacity_is_accepted() {
    let mut s = transact_init(2, 8);
    s = transact_step(s, TransactEvent::Wrote { n: 11 });
    s = transact_step(s, TransactEvent::Word { value: 8 });
    assert_eq!(s, TransactState::ReadPayload { resp_len: 8 });
}

#[test]
fn transact_nonzero_trailer_is_protocol_violation() {
    let mut s = transact_init(5, 100);
    s = transact_step(s, TransactEvent::Wrote { n: 14 });
    s = transact_step(s, TransactEvent::Word { value: 20 });
    s = transact_step(s, TransactEvent::PayloadRead);
    // The payload arrived in full; the trailer 0x00000001 still fails the call.
    s = transact_step(s, TransactEvent::Word { value: 0x00000001 });
    assert_eq!(
        s,
        TransactState::Aborted {
            err: TpmError::ProtocolViolation { code: 1 }
        }
    );
}

#[test]
fn transact_read_failure_is_io_error() {
    let mut s = transact_init(5, 100);
    s = transact_step(s, TransactEvent::Wrote { n: 14 });
    assert_eq!(
        transact_step(s, TransactEvent::IoFailed),
        TransactState::Aborted {
            err: TpmError::IoError
        }
    );
}

#[test]
fn store_response_fills_prefix_only() {
    let mut response = vec![9u8; 6];
    let payload = vec![1u8, 2, 3];
    store_response(&mut response, &payload);
    assert_eq!(response, vec![1, 2, 3, 9, 9, 9]);
}

#[test]
fn bootstrap_sequence_order_and_success() {
    let mut s = bootstrap_init();
    assert_eq!(
        bootstrap_action(s),
        BootstrapAction::Connect { pause_first: false }
    );
    s = bootstrap_step(s, BootstrapEvent::Connected);
    let mut issued = Vec::new();
    while let BootstrapAction::Issue { command } = bootstrap_action(s) {
        issued.push(command);
        s = bootstrap_step(s, BootstrapEvent::Ack { rc: 0 });
    }
    assert_eq!(
        issued,
        vec![
            TpmCommand::NvOff,
            TpmCommand::PowerOff,
            TpmCommand::PowerOn,
            TpmCommand::NvOn
        ]
    );
    assert_eq!(s, BootstrapState::Done);
}

#[test]
fn bootstrap_nonzero_ack_aborts_sequence() {
    let mut s = bootstrap_init();
    s = bootstrap_step(s, BootstrapEvent::Connected);
    // First command acknowledged, second one refused: the sequence aborts,
    // no later command is issued, and a fresh connect attempt begins.
    s = bootstrap_step(s, BootstrapEvent::Ack { rc: 0 });
    s = bootstrap_step(s, BootstrapEvent::Ack { rc: 7 });
    assert_eq!(s, BootstrapState::Connect { attempts: 1 });
    assert_eq!(
        bootstrap_action(s),
        BootstrapAction::Connect { pause_first: true }
    );
}

#[test]
fn bootstrap_succeeds_on_third_connect_attempt() {
    let mut s = bootstrap_init();
    s = bootstrap_step(s, BootstrapEvent::ConnectFailed);
    s = bootstrap_step(s, BootstrapEvent::ConnectFailed);
    s = bootstrap_step(s, BootstrapEvent::Connected);
    for _ in 0..4 {
        s = bootstrap_step(s, BootstrapEvent::Ack { rc: 0 });
    }
    assert_eq!(s, BootstrapState::Done);
}

#[test]
fn bootstrap_fails_after_four_refused_connects() {
    let mut s = bootstrap_init();
    for _ in 0..3 {
        s = bootstrap_step(s, BootstrapEvent::ConnectFailed);
        assert!(matches!(s, BootstrapState::Connect { .. }));
    }
    s = bootstrap_step(s, BootstrapEvent::ConnectFailed);
    assert_eq!(
        s,
        BootstrapState::Failed {
            err: TpmError::IoError
        }
    );
}

#[test]
fn bootstrap_command_follows_sequence() {
    assert_eq!(bootstrap_command(0), TpmCommand::NvOff);
    assert_eq!(bootstrap_command(1), TpmCommand::PowerOff);
    assert_eq!(bootstrap_command(2), TpmCommand::PowerOn);
    assert_eq!(bootstrap_command(3), TpmCommand::NvOn);
}
