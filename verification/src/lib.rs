//! Core of a USB-connected MIDI controller: translation of debounced button
//! transitions into MIDI messages, a queued non-blocking USB-MIDI class
//! driver, and the priority-tiered task logic that ties them together.
//!
//! Everything here is pure logic over plain values; the hardware edges
//! (GPIO sampling, the USB transceiver registers) live outside and exchange
//! bytes and events with this crate.

pub mod codec;
pub mod driver;
pub mod midi;
pub mod queue;
pub mod scheduler;
pub mod state;
