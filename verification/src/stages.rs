//! The five negotiation stages and their fixed control requests, plus the
//! configuration-descriptor query. Every byte here is part of the device
//! contract: the payloads were captured for one sensor model and must be
//! forwarded exactly as written, never derived.

use vstd::prelude::*;

use crate::request::{ControlRequest, ControlRequestModel, Direction, Recipient, RequestKind};

verus! {

/// One step of the fixed five-stage negotiation, in its required order.
#[derive(Clone, Copy, Debug, PartialEq, Eq, Structural)]
pub enum Stage {
    /// Selects the device configuration with a device-specific blob.
    SetConfiguration,
    /// Vendor-specific enable that readies the streaming function.
    VendorEnable,
    /// Proposes the streaming parameters (control selector 1).
    SetParameters,
    /// Commits the streaming parameters (control selector 2).
    CommitParameters,
    /// Switches the streaming interface to its data-bearing alternate setting.
    SelectAlternate,
}

/// How many stages the negotiation has.
pub const STAGE_COUNT: usize = 5;

/// The position of a stage in the required order.
pub open spec fn stage_index(s: Stage) -> int {
    match s {
        Stage::SetConfiguration => 0,
        Stage::VendorEnable => 1,
        Stage::SetParameters => 2,
        Stage::CommitParameters => 3,
        Stage::SelectAlternate => 4,
    }
}

/// The stage at a given position of the required order.
pub fn stage_at(i: usize) -> (s: Stage)
    requires
        i < STAGE_COUNT,
    ensures
        stage_index(s) == i,
{
    if i == 0 {
        Stage::SetConfiguration
    } else if i == 1 {
        Stage::VendorEnable
    } else if i == 2 {
        Stage::SetParameters
    } else if i == 3 {
        Stage::CommitParameters
    } else {
        Stage::SelectAlternate
    }
}

/// The 36-byte configuration blob sent by the first stage.
pub open spec fn set_configuration_payload() -> Seq<u8> {
    seq![
        0x1c, 0x00, 0x90, 0x05, 0x9a, 0xab, 0x83, 0xe2, 0xff, 0xff,
        0x00, 0x00, 0x00, 0x00, 0x00, 0x00, 0x00, 0x01, 0x00, 0x0d,
        0x00, 0x00, 0x02, 0x08, 0x00, 0x00, 0x00, 0x00, 0x00, 0x09,
        0x01, 0x00, 0x00, 0x00, 0x00, 0x00,
    ]
}

/// The 8-byte blob of the vendor-specific enable stage.
pub open spec fn vendor_enable_payload() -> Seq<u8> {
    seq![0x05, 0x84, 0x00, 0x00, 0x00, 0x00, 0x00, 0x08]
}

/// The 25-byte parameter blob proposed by the third stage.
pub open spec fn set_parameters_payload() -> Seq<u8> {
    seq![
        0x01, 0x00, 0x01, 0x02, 0x80, 0x1a, 0x06, 0x00, 0x00, 0x00,
        0x00, 0x00, 0x00, 0x00, 0x00, 0x20, 0x00, 0x00, 0x80, 0x01,
        0x00, 0x00, 0x0c, 0x00, 0x00,
    ]
}

/// The 25-byte blob committed by the fourth stage. It is structurally the
/// same record as the proposal but not byte-identical; the difference is
/// device-specific and deliberate.
pub open spec fn commit_parameters_payload() -> Seq<u8> {
    seq![
        0x01, 0x00, 0x01, 0x02, 0x80, 0x1a, 0x06, 0x00, 0x00, 0x00,
        0x00, 0x00, 0x00, 0x00, 0x00, 0x00, 0x20, 0x00, 0x00, 0x00,
        0x03, 0x00, 0x0c, 0x00, 0x00,
    ]
}

/// The full control request a stage issues: request-type triple, code,
/// value, index and payload, all fixed constants of the device contract.
pub open spec fn stage_request_model(i: int) -> ControlRequestModel {
    if i == 0 {
        ControlRequestModel {
            direction: Direction::Out,
            kind: RequestKind::Standard,
            recipient: Recipient::Device,
            request: 0x09,
            value: 0x0001,
            index: 0x0000,
            payload: set_configuration_payload(),
        }
    } else if i == 1 {
        ControlRequestModel {
            direction: Direction::Out,
            kind: RequestKind::Vendor,
            recipient: Recipient::Interface,
            request: 0x45,
            value: 0x0078,
            index: 0x1d00,
            payload: vendor_enable_payload(),
        }
    } else if i == 2 {
        ControlRequestModel {
            direction: Direction::Out,
            kind: RequestKind::Class,
            recipient: Recipient::Interface,
            request: 0x01,
            value: 0x0100,
            index: 0x0001,
            payload: set_parameters_payload(),
        }
    } else if i == 3 {
        ControlRequestModel {
            direction: Direction::Out,
            kind: RequestKind::Class,
            recipient: Recipient::Interface,
            request: 0x01,
            value: 0x0200,
            index: 0x0001,
            payload: commit_parameters_payload(),
        }
    } else {
        ControlRequestModel {
            direction: Direction::Out,
            kind: RequestKind::Standard,
            recipient: Recipient::Interface,
            request: 0x0B,
            value: 0x0007,
            index: 0x0001,
            payload: Seq::empty(),
        }
    }
}

/// Builds the control request of one stage, byte for byte.
pub fn stage_request(s: Stage) -> (r: ControlRequest)
    ensures
        r@ == stage_request_model(stage_index(s)),
{
    match s {
        Stage::SetConfiguration => {
            let payload: Vec<u8> = vec![
                0x1c, 0x00, 0x90, 0x05, 0x9a, 0xab, 0x83, 0xe2, 0xff, 0xff,
                0x00, 0x00, 0x00, 0x00, 0x00, 0x00, 0x00, 0x01, 0x00, 0x0d,
                0x00, 0x00, 0x02, 0x08, 0x00, 0x00, 0x00, 0x00, 0x00, 0x09,
                0x01, 0x00, 0x00, 0x00, 0x00, 0x00,
            ];
            proof {
                assert(payload@ =~= set_configuration_payload());
            }
            ControlRequest {
                direction: Direction::Out,
                kind: RequestKind::Standard,
                recipient: Recipient::Device,
                request: 0x09,
                value: 0x0001,
                index: 0x0000,
                payload,
            }
        },
        Stage::VendorEnable => {
            let payload: Vec<u8> = vec![0x05, 0x84, 0x00, 0x00, 0x00, 0x00, 0x00, 0x08];
            proof {
                assert(payload@ =~= vendor_enable_payload());
            }
            ControlRequest {
                direction: Direction::Out,
                kind: RequestKind::Vendor,
                recipient: Recipient::Interface,
                request: 0x45,
                value: 0x0078,
                index: 0x1d00,
                payload,
            }
        },
        Stage::SetParameters => {
            let payload: Vec<u8> = vec![
                0x01, 0x00, 0x01, 0x02, 0x80, 0x1a, 0x06, 0x00, 0x00, 0x00,
                0x00, 0x00, 0x00, 0x00, 0x00, 0x20, 0x00, 0x00, 0x80, 0x01,
                0x00, 0x00, 0x0c, 0x00, 0x00,
            ];
            proof {
                assert(payload@ =~= set_parameters_payload());
            }
            ControlRequest {
                direction: Direction::Out,
                kind: RequestKind::Class,
                recipient: Recipient::Interface,
                request: 0x01,
                value: 0x0100,
                index: 0x0001,
                payload,
            }
        },
        Stage::CommitParameters => {
            let payload: Vec<u8> = vec![
                0x01, 0x00, 0x01, 0x02, 0x80, 0x1a, 0x06, 0x00, 0x00, 0x00,
                0x00, 0x00, 0x00, 0x00, 0x00, 0x00, 0x20, 0x00, 0x00, 0x00,
                0x03, 0x00, 0x0c, 0x00, 0x00,
            ];
            proof {
                assert(payload@ =~= commit_parameters_payload());
            }
            ControlRequest {
                direction: Direction::Out,
                kind: RequestKind::Class,
                recipient: Recipient::Interface,
                request: 0x01,
                value: 0x0200,
                index: 0x0001,
                payload,
            }
        },
        Stage::SelectAlternate => {
            let payload: Vec<u8> = Vec::new();
            proof {
                assert(payload@ =~= Seq::<u8>::empty());
            }
            ControlRequest {
                direction: Direction::Out,
                kind: RequestKind::Standard,
                recipient: Recipient::Interface,
                request: 0x0B,
                value: 0x0007,
                index: 0x0001,
                payload,
            }
        },
    }
}

/// The standard query that reads the configuration descriptor: a pure,
/// device-to-host request with no payload; the answer may be shorter than
/// the buffer offered for it.
pub open spec fn descriptor_request_model() -> ControlRequestModel {
    ControlRequestModel {
        direction: Direction::In,
        kind: RequestKind::Standard,
        recipient: Recipient::Device,
        request: 0x06,
        value: 0x0200,
        index: 0x0000,
        payload: Seq::empty(),
    }
}

/// Builds the configuration-descriptor query.
pub fn descriptor_request() -> (r: ControlRequest)
    ensures
        r@ == descriptor_request_model(),
{
    let payload: Vec<u8> = Vec::new();
    proof {
        assert(payload@ =~= Seq::<u8>::empty());
    }
    ControlRequest {
        direction: Direction::In,
        kind: RequestKind::Standard,
        recipient: Recipient::Device,
        request: 0x06,
        value: 0x0200,
        index: 0x0000,
        payload,
    }
}

} // verus!
