//! Core logic for driving an addressable-LED eye display over SPI.
//!
//! Two independent stages share one lifecycle discipline: a terminal sink
//! that expands each pixel byte of a frame into the bus-level waveform the
//! LED chain decodes, and a pass-through throughput counter whose periodic
//! reports and shutdown protocol are driven by a background timer task.
//! The hardware transport and the thread that runs the timer live outside
//! this crate; everything they decide on is computed and proved here.

pub mod fps_counter;
pub mod lifecycle;
pub mod spi_encoding;
pub mod tasbot_eyes_sink;
