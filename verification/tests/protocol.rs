use thermal_bringup::config::{
    DESCRIPTOR_READ_LEN, FRAME_CAPACITY, INTERFACE_NUMBER, PRODUCT_ID, STREAM_ENDPOINT,
    TRANSFER_TIMEOUT_MS, VENDOR_ID,
};
use thermal_bringup::discovery::{find_device, is_target, target_identity, DeviceIdentity};
use thermal_bringup::negotiation::{
    advance, current_stage, initial_state, run_negotiation, NegotiationResult, NegotiationState,
};
use thermal_bringup::request::{request_type_byte, Direction, Recipient, RequestKind};
use thermal_bringup::stages::{descriptor_request, stage_at, stage_request, Stage, STAGE_COUNT};
use thermal_bringup::transport::TransferOutcome;

#[test]
fn device_contract_constants() {
    assert_eq!(VENDOR_ID, 0x0BDA);
    assert_eq!(PRODUCT_ID, 0x5830);
    assert_eq!(INTERFACE_NUMBER, 0);
    assert_eq!(STREAM_ENDPOINT, 0x81);
    assert_eq!(FRAME_CAPACITY, 4096);
    assert_eq!(DESCRIPTOR_READ_LEN, 512);
    assert_eq!(TRANSFER_TIMEOUT_MS, 1000);
}

#[test]
fn request_type_bytes() {
    assert_eq!(
        request_type_byte(Direction::Out, RequestKind::Standard, Recipient::Device),
        0x00
    );
    assert_eq!(
        request_type_byte(Direction::In, RequestKind::Standard, Recipient::Device),
        0x80
    );
    assert_eq!(
        request_type_byte(Direction::Out, RequestKind::Standard, Recipient::Interface),
        0x01
    );
    assert_eq!(
        request_type_byte(Direction::Out, RequestKind::Class, Recipient::Interface),
        0x21
    );
    assert_eq!(
        request_type_byte(Direction::Out, RequestKind::Vendor, Recipient::Interface),
        0x41
    );
    assert_eq!(
        request_type_byte(Direction::In, RequestKind::Class, Recipient::Endpoint),
        0xA2
    );
}

#[test]
fn stage_order_is_fixed() {
    assert_eq!(STAGE_COUNT, 5);
    assert_eq!(stage_at(0), Stage::SetConfiguration);
    assert_eq!(stage_at(1), Stage::VendorEnable);
    assert_eq!(stage_at(2), Stage::SetParameters);
    assert_eq!(stage_at(3), Stage::CommitParameters);
    assert_eq!(stage_at(4), Stage::SelectAlternate);
}

#[test]
fn set_configuration_request_bytes() {
    let r = stage_request(Stage::SetConfiguration);
    assert_eq!(r.direction, Direction::Out);
    assert_eq!(r.kind, RequestKind::Standard);
    assert_eq!(r.recipient, Recipient::Device);
    assert_eq!(r.type_byte(), 0x00);
    assert_eq!(r.request, 0x09);
    assert_eq!(r.value, 0x0001);
    assert_eq!(r.index, 0x0000);
    assert_eq!(
        r.payload,
        vec![
            0x1c, 0x00, 0x90, 0x05, 0x9a, 0xab, 0x83, 0xe2, 0xff, 0xff, 0x00, 0x00, 0x00, 0x00,
            0x00, 0x00, 0x00, 0x01, 0x00, 0x0d, 0x00, 0x00, 0x02, 0x08, 0x00, 0x00, 0x00, 0x00,
            0x00, 0x09, 0x01, 0x00, 0x00, 0x00, 0x00, 0x00,
        ]
    );
}

#[test]
fn vendor_enable_request_bytes() {
    let r = stage_request(Stage::VendorEnable);
    assert_eq!(r.direction, Direction::Out);
    assert_eq!(r.kind, RequestKind::Vendor);
    assert_eq!(r.recipient, Recipient::Interface);
    assert_eq!(r.type_byte(), 0x41);
    assert_eq!(r.request, 0x45);
    assert_eq!(r.value, 0x0078);
    assert_eq!(r.index, 0x1d00);
    assert_eq!(
        r.payload,
        vec![0x05, 0x84, 0x00, 0x00, 0x00, 0x00, 0x00, 0x08]
    );
}

#[test]
fn set_parameters_request_bytes() {
    let r = stage_request(Stage::SetParameters);
    assert_eq!(r.direction, Direction::Out);
    assert_eq!(r.kind, RequestKind::Class);
    assert_eq!(r.recipient, Recipient::Interface);
    assert_eq!(r.type_byte(), 0x21);
    assert_eq!(r.request, 0x01);
    assert_eq!(r.value, 0x0100);
    assert_eq!(r.index, 0x0001);
    assert_eq!(
        r.payload,
        vec![
            0x01, 0x00, 0x01, 0x02, 0x80, 0x1a, 0x06, 0x00, 0x00, 0x00, 0x00, 0x00, 0x00, 0x00,
            0x00, 0x20, 0x00, 0x00, 0x80, 0x01, 0x00, 0x00, 0x0c, 0x00, 0x00,
        ]
    );
}

#[test]
fn commit_parameters_request_bytes() {
    let r = stage_request(Stage::CommitParameters);
    assert_eq!(r.direction, Direction::Out);
    assert_eq!(r.kind, RequestKind::Class);
    assert_eq!(r.recipient, Recipient::Interface);
    assert_eq!(r.type_byte(), 0x21);
    assert_eq!(r.request, 0x01);
    assert_eq!(r.value, 0x0200);
    assert_eq!(r.index, 0x0001);
    assert_eq!(
        r.payload,
        vec![
            0x01, 0x00, 0x01, 0x02, 0x80, 0x1a, 0x06, 0x00, 0x00, 0x00, 0x00, 0x00, 0x00, 0x00,
            0x00, 0x00, 0x20, 0x00, 0x00, 0x00, 0x03, 0x00, 0x0c, 0x00, 0x00,
        ]
    );
}

#[test]
fn proposal_and_commit_differ_only_as_captured() {
    let proposal = stage_request(Stage::SetParameters);
    let commit = stage_request(Stage::CommitParameters);
    assert_eq!(proposal.payload.len(), 25);
    assert_eq!(commit.payload.len(), 25);
    assert_ne!(proposal.payload, commit.payload);
    // The first fifteen bytes of the two blobs agree.
    assert_eq!(proposal.payload[..15], commit.payload[..15]);
}

#[test]
fn select_alternate_request_bytes() {
    let r = stage_request(Stage::SelectAlternate);
    assert_eq!(r.direction, Direction::Out);
    assert_eq!(r.kind, RequestKind::Standard);
    assert_eq!(r.recipient, Recipient::Interface);
    assert_eq!(r.type_byte(), 0x01);
    assert_eq!(r.request, 0x0B);
    assert_eq!(r.value, 0x0007);
    assert_eq!(r.index, 0x0001);
    assert!(r.payload.is_empty());
}

#[test]
fn descriptor_request_bytes() {
    let r = descriptor_request();
    assert_eq!(r.direction, Direction::In);
    assert_eq!(r.kind, RequestKind::Standard);
    assert_eq!(r.recipient, Recipient::Device);
    assert_eq!(r.type_byte(), 0x80);
    assert_eq!(r.request, 0x06);
    assert_eq!(r.value, 0x0200);
    assert_eq!(r.index, 0x0000);
    assert!(r.payload.is_empty());
}

#[test]
fn negotiation_issues_all_stages_in_order() {
    let outcomes = vec![
        TransferOutcome::Completed(36),
        TransferOutcome::Completed(8),
        TransferOutcome::Completed(25),
        TransferOutcome::Completed(25),
        TransferOutcome::Completed(0),
    ];
    let log = run_negotiation(&outcomes);
    assert_eq!(log.result, NegotiationResult::Complete);
    assert_eq!(log.requests.len(), 5);
    let codes: Vec<(u8, u16, u16)> = log
        .requests
        .iter()
        .map(|r| (r.request, r.value, r.index))
        .collect();
    assert_eq!(
        codes,
        vec![
            (0x09, 0x0001, 0x0000),
            (0x45, 0x0078, 0x1d00),
            (0x01, 0x0100, 0x0001),
            (0x01, 0x0200, 0x0001),
            (0x0B, 0x0007, 0x0001),
        ]
    );
}

#[test]
fn negotiation_aborts_at_failing_stage() {
    let outcomes = vec![
        TransferOutcome::Completed(36),
        TransferOutcome::Completed(8),
        TransferOutcome::Faulted,
        TransferOutcome::Completed(25),
        TransferOutcome::Completed(0),
    ];
    let log = run_negotiation(&outcomes);
    assert_eq!(
        log.result,
        NegotiationResult::Aborted {
            stage: Stage::SetParameters
        }
    );
    // The failing stage's request went out; nothing after it was issued.
    assert_eq!(log.requests.len(), 3);
    assert_eq!(log.requests[2].value, 0x0100);
}

#[test]
fn negotiation_treats_timeout_as_fatal() {
    let outcomes = vec![
        TransferOutcome::TimedOut,
        TransferOutcome::Completed(8),
        TransferOutcome::Completed(25),
        TransferOutcome::Completed(25),
        TransferOutcome::Completed(0),
    ];
    let log = run_negotiation(&outcomes);
    assert_eq!(
        log.result,
        NegotiationResult::Aborted {
            stage: Stage::SetConfiguration
        }
    );
    assert_eq!(log.requests.len(), 1);
}

#[test]
fn sequencer_steps_through_states() {
    let mut state = initial_state();
    assert_eq!(state, NegotiationState::Pending { next: 0 });
    for i in 0..5 {
        let stage = current_stage(state).expect("a stage is owed");
        assert_eq!(stage, stage_at(i));
        state = advance(state, TransferOutcome::Completed(0));
    }
    assert_eq!(state, NegotiationState::Complete);
    assert_eq!(current_stage(state), None);
}

#[test]
fn sequencer_aborts_on_error_outcome() {
    let mut state = initial_state();
    state = advance(state, TransferOutcome::Completed(36));
    state = advance(state, TransferOutcome::Faulted);
    assert_eq!(state, NegotiationState::Aborted { failed: 1 });
    assert_eq!(current_stage(state), None);
}

#[test]
fn discovery_picks_first_match() {
    let devices = vec![
        DeviceIdentity {
            vendor: 0x1234,
            product: 0x5678,
        },
        DeviceIdentity {
            vendor: 0x0BDA,
            product: 0x5830,
        },
        DeviceIdentity {
            vendor: 0x0BDA,
            product: 0x5830,
        },
    ];
    assert_eq!(find_device(&devices), Some(1));
}

#[test]
fn discovery_reports_no_match() {
    let devices = vec![
        DeviceIdentity {
            vendor: 0x0BDA,
            product: 0x0001,
        },
        DeviceIdentity {
            vendor: 0x1D6B,
            product: 0x5830,
        },
    ];
    assert_eq!(find_device(&devices), None);
    assert_eq!(find_device(&Vec::new()), None);
}

#[test]
fn target_identity_matches_itself() {
    let target = target_identity();
    assert_eq!(target.vendor, 0x0BDA);
    assert_eq!(target.product, 0x5830);
    assert!(is_target(&target));
    assert!(!is_target(&DeviceIdentity {
        vendor: 0x0BDA,
        product: 0x5831,
    }));
}
