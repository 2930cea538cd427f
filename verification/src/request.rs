//! Control requests: the immutable record describing one control transfer,
//! and the encoding of its request-type byte.

use vstd::prelude::*;

verus! {

/// Transfer direction of a control request, seen from the host.
#[derive(Clone, Copy, Debug, PartialEq, Eq, Structural)]
pub enum Direction {
    /// Host to device.
    Out,
    /// Device to host.
    In,
}

/// The class a control request belongs to.
#[derive(Clone, Copy, Debug, PartialEq, Eq, Structural)]
pub enum RequestKind {
    Standard,
    Class,
    Vendor,
}

/// The entity on the device a control request addresses.
#[derive(Clone, Copy, Debug, PartialEq, Eq, Structural)]
pub enum Recipient {
    Device,
    Interface,
    Endpoint,
}

/// Bit 7 of the request-type byte carries the direction.
pub open spec fn direction_bits(d: Direction) -> u8 {
    match d {
        Direction::Out => 0x00,
        Direction::In => 0x80,
    }
}

/// Bits 5 and 6 of the request-type byte carry the request kind.
pub open spec fn kind_bits(k: RequestKind) -> u8 {
    match k {
        RequestKind::Standard => 0x00,
        RequestKind::Class => 0x20,
        RequestKind::Vendor => 0x40,
    }
}

/// Bits 0 to 4 of the request-type byte carry the recipient.
pub open spec fn recipient_bits(r: Recipient) -> u8 {
    match r {
        Recipient::Device => 0x00,
        Recipient::Interface => 0x01,
        Recipient::Endpoint => 0x02,
    }
}

/// The request-type byte of a control transfer: the direction, kind and
/// recipient fields packed into their standard bit positions. The three
/// fields occupy disjoint bits, so packing them is plain addition.
pub open spec fn request_type_spec(d: Direction, k: RequestKind, r: Recipient) -> u8 {
    (direction_bits(d) + kind_bits(k) + recipient_bits(r)) as u8
}

pub fn direction_code(d: Direction) -> (b: u8)
    ensures
        b == direction_bits(d),
{
    match d {
        Direction::Out => 0x00,
        Direction::In => 0x80,
    }
}

pub fn kind_code(k: RequestKind) -> (b: u8)
    ensures
        b == kind_bits(k),
{
    match k {
        RequestKind::Standard => 0x00,
        RequestKind::Class => 0x20,
        RequestKind::Vendor => 0x40,
    }
}

pub fn recipient_code(r: Recipient) -> (b: u8)
    ensures
        b == recipient_bits(r),
{
    match r {
        Recipient::Device => 0x00,
        Recipient::Interface => 0x01,
        Recipient::Endpoint => 0x02,
    }
}

/// Packs direction, kind and recipient into the request-type byte.
pub fn request_type_byte(d: Direction, k: RequestKind, r: Recipient) -> (b: u8)
    ensures
        b == request_type_spec(d, k, r),
{
    direction_code(d) + kind_code(k) + recipient_code(r)
}

/// One control transfer, fully described: the request-type triple, the
/// request code, the two 16-bit parameters, and the bytes to send. The
/// payload is forwarded verbatim; its layout is opaque to the sequencer.
#[derive(Debug)]
pub struct ControlRequest {
    pub direction: Direction,
    pub kind: RequestKind,
    pub recipient: Recipient,
    pub request: u8,
    pub value: u16,
    pub index: u16,
    pub payload: Vec<u8>,
}

/// The mathematical shape of a control request: the same fields, with the
/// payload as a sequence of bytes.
pub struct ControlRequestModel {
    pub direction: Direction,
    pub kind: RequestKind,
    pub recipient: Recipient,
    pub request: u8,
    pub value: u16,
    pub index: u16,
    pub payload: Seq<u8>,
}

impl View for ControlRequest {
    type V = ControlRequestModel;

    open spec fn view(&self) -> ControlRequestModel {
        ControlRequestModel {
            direction: self.direction,
            kind: self.kind,
            recipient: self.recipient,
            request: self.request,
            value: self.value,
            index: self.index,
            payload: self.payload@,
        }
    }
}

impl ControlRequest {
    /// The request-type byte this request is issued with.
    pub fn type_byte(&self) -> (b: u8)
        ensures
            b == request_type_spec(self.direction, self.kind, self.recipient),
    {
        request_type_byte(self.direction, self.kind, self.recipient)
    }
}

} // verus!
