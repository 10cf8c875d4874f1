//! Core of a USB HID status-light ("busylight") driver.
//!
//! The library contains the verified logic: perceptual-to-linear color
//! correction, wire-protocol framing and checksumming, the device-session
//! state machine with its reconnect policy, the pulse-animation scheduler,
//! and the thread-safe controller facade's state transitions. The
//! unverified binary around it performs the actual HID I/O and persistence,
//! feeding plain values into these functions and writing out the frames
//! they produce.

pub mod busylight;
pub mod color;
pub mod config;
pub mod controller;
pub mod models;
pub mod protocol;
pub mod pulse;
pub mod weather;
