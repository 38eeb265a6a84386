//! Live audio capture core: input device selection, downmix-and-chunk of
//! interleaved native callback data into fixed-size mono blocks, an ordered
//! handoff queue for completed blocks, and the capture lifecycle state machine.
//!
//! Everything here works on plain values. The audio host, the hardware stream
//! and the thread boundary are driven from outside and feed their results in.

pub mod accumulator;
pub mod config;
pub mod controller;
pub mod device;
pub mod error;
pub mod handoff;
