//! The compiled-in device contract: identifiers, endpoint, sizes and the
//! per-operation deadline, kept in one place so the device-specific numbers
//! are inspectable together.

use vstd::prelude::*;

verus! {

/// Vendor identifier of the target sensor.
pub const VENDOR_ID: u16 = 0x0BDA;

/// Product identifier of the target sensor.
pub const PRODUCT_ID: u16 = 0x5830;

/// The interface that must be claimed before any request is issued.
pub const INTERFACE_NUMBER: u8 = 0;

/// Address of the device-to-host streaming endpoint (high bit set: IN).
pub const STREAM_ENDPOINT: u8 = 0x81;

/// Capacity of the buffer one streaming read fills.
pub const FRAME_CAPACITY: usize = 4096;

/// How many bytes a configuration-descriptor read asks for at most.
pub const DESCRIPTOR_READ_LEN: usize = 512;

/// Deadline for every blocking transfer, in milliseconds.
pub const TRANSFER_TIMEOUT_MS: u64 = 1000;

} // verus!
