//! What a blocking transfer reports back. The host program performs the
//! transfer and classifies its result into one of these three outcomes;
//! every decision the library makes is a function of them.

use vstd::prelude::*;

verus! {

/// Outcome of one blocking transfer, control or streaming.
#[derive(Clone, Copy, Debug, PartialEq, Eq, Structural)]
pub enum TransferOutcome {
    /// The transfer completed and moved this many bytes.
    Completed(usize),
    /// The deadline passed before the device answered.
    TimedOut,
    /// Any other transport-level failure.
    Faulted,
}

/// True of an outcome that counts as success: the transfer completed,
/// whatever byte count it reported.
pub open spec fn is_success(o: TransferOutcome) -> bool {
    o is Completed
}

} // verus!
