//! Outbound reports: protocol-ready descriptions of pointer motion,
//! handed to the report sink for transport.

use vstd::prelude::*;

verus! {

/// A pointer-motion report: a buttons bitmask and signed single-byte
/// motion deltas, the shape the report transport expects.
#[derive(Clone, Copy, PartialEq, Eq, Structural, Debug)]
pub struct MouseReport {
    pub buttons: u8,
    pub x: i8,
    pub y: i8,
    pub wheel: i8,
    pub pan: i8,
}

/// An outbound report ready for the device-side transport.
#[derive(Clone, Copy, PartialEq, Eq, Structural, Debug)]
pub enum Report {
    Mouse(MouseReport),
}

} // verus!
