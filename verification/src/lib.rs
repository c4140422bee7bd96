//! Input-event processing pipeline for a split keyboard with two
//! joystick-like pointing devices.
//!
//! Raw analog axis samples flow from input devices through a bounded
//! event channel into a chain of stateful processors.  The joystick
//! processor converts each batch of raw readings into a calibrated,
//! saturation-safe pointer-motion report via bias correction, a linear
//! transform in fixed-point arithmetic, dead-zone thresholding and
//! saturating quantization.  Other processors (battery sampling, key
//! transitions) share the same chain interface; events that a processor
//! does not consume pass through it unchanged.

pub mod addr;
pub mod battery;
pub mod chain;
pub mod channel;
pub mod joystick;
pub mod event;
pub mod keymap;
pub mod report;
