//! Bring-up protocol for a USB-attached thermal imaging sensor.
//!
//! The library holds the verified core of the bring-up: the fixed control
//! requests that negotiate the device's streaming mode, the sequencer that
//! issues them in their required order, the decision logic of the frame
//! acquisition loop, and the device discovery match. The transport itself
//! (enumeration, control transfers, endpoint reads) is left to the host
//! program, which feeds outcomes back into these functions.

pub mod acquisition;
pub mod config;
pub mod discovery;
pub mod negotiation;
pub mod request;
pub mod stages;
pub mod transport;
