//! DFU run-time class.
//!
//! DFU (Device Firmware Upgrade) defines two USB classes: the DFU mode class, which transfers
//! new firmware, and the run-time class, which advertises DFU capability and lets a host ask
//! the device to switch into DFU mode. This crate holds the run-time class: its descriptor
//! bytes, its request handling and the countdown that decides when the device-specific
//! switch to DFU mode happens.

/// DFU run-time class
pub mod class;

pub use crate::class::{DfuRuntimeClass, DfuRuntimeOps};
