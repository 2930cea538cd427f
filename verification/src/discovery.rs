//! Device discovery: picking the one target sensor out of an enumeration
//! by its vendor and product identifiers. Zero matches is a fatal
//! condition; with several, the first enumerated wins.

use vstd::prelude::*;

use crate::config::{PRODUCT_ID, VENDOR_ID};

verus! {

/// The identity a device presents: its vendor and product identifiers.
#[derive(Clone, Copy, Debug, PartialEq, Eq, Structural)]
pub struct DeviceIdentity {
    pub vendor: u16,
    pub product: u16,
}

/// True of a device that is the target sensor.
pub open spec fn matches_target(d: DeviceIdentity) -> bool {
    d.vendor == VENDOR_ID && d.product == PRODUCT_ID
}

/// The identity the bring-up looks for.
pub fn target_identity() -> (d: DeviceIdentity)
    ensures
        matches_target(d),
{
    DeviceIdentity { vendor: VENDOR_ID, product: PRODUCT_ID }
}

/// Tests one enumerated device against the target identity.
pub fn is_target(d: &DeviceIdentity) -> (r: bool)
    ensures
        r == matches_target(*d),
{
    d.vendor == VENDOR_ID && d.product == PRODUCT_ID
}

/// Finds the device to operate on: the position of the first enumerated
/// device with the target identity, or nothing when no device matches —
/// the discovery failure, after which no open, claim or negotiation may
/// follow.
pub fn find_device(devices: &Vec<DeviceIdentity>) -> (r: Option<usize>)
    ensures
        match r {
            Some(i) => {
                &&& i < devices@.len()
                &&& matches_target(devices@[i as int])
                &&& forall|j: int| 0 <= j < i ==> !matches_target(#[trigger] devices@[j])
            },
            None => forall|j: int|
                0 <= j < devices@.len() ==> !matches_target(#[trigger] devices@[j]),
        },
{
    let mut i: usize = 0;
    while i < devices.len()
        invariant
            i <= devices@.len(),
            forall|j: int| 0 <= j < i ==> !matches_target(#[trigger] devices@[j]),
        decreases devices@.len() - i,
    {
        if is_target(&devices[i]) {
            return Some(i);
        }
        i = i + 1;
    }
    None
}

} // verus!
