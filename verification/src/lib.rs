//! Core logic of an encoder-driven waveform generator device.
//!
//! The device streams samples from a fixed-capacity waveform table to an
//! output sink while two rotary encoders, serviced from interrupt context,
//! adjust the table parameters.  This crate holds the verified core: the
//! waveform table generators, the playback cursor, the exclusive-access
//! arbiter for the shared module state, and the decision logic of the two
//! interrupt handlers.  Hardware access (pins, display, DAC, alarms) stays
//! outside and hands this crate plain values.

pub mod arbiter;
pub mod encoder_interrupt;
pub mod io_irq_bank0;
pub mod samples;
pub mod types;
