//! The event model: the common currency flowing from input devices
//! through channels into processor chains.

use vstd::prelude::*;

verus! {

/// A single key transition reported by the switch-matrix scanner.
///
/// Opaque to the joystick core: processors that do not handle key
/// transitions must still route these events further down the chain.
#[derive(Clone, Copy, PartialEq, Eq, Structural, Debug)]
pub struct KeyEvent {
    pub row: u8,
    pub col: u8,
    pub pressed: bool,
}

/// One occurrence on the shared event bus.
#[derive(Debug)]
pub enum Event {
    /// A key transition from the debounced matrix scanner.
    Key(KeyEvent),
    /// One batch of raw analog axis readings from a joystick sensor
    /// cluster, one sign-extended ADC sample per physical axis.
    Joystick(Vec<i16>),
    /// A raw analog sample for supply-voltage estimation.
    Battery(i16),
}

/// What a processor decided about one event offered to it.
#[derive(Debug)]
pub enum ProcessResult {
    /// The event was not consumed; offer it (possibly transformed) to
    /// the next processor in the chain.
    Continue(Event),
    /// The event was fully consumed; no later processor sees it.
    Stop,
}

} // verus!
