//! Alternate-function routing for the pin multiplexer of a small
//! microcontroller, and an owning façade over its CAN peripherals.
//!
//! The shared remap / debug configuration register is reached through one
//! owned handle (`afio::MAPR`); every write through it keeps the debug-port
//! bits in step with the handle's own flag. Valid pin / peripheral pairings
//! are a closed set of trait impls, each of which writes a fixed bit pattern
//! and hands back a proof token that the CAN façade accepts.

mod sealed;

pub mod afio;
pub mod can;
pub mod gpio;
pub mod pac;
pub mod rcc;
