//! Core of a hand-cranked zoetrope installation: a rotation sensor drives the
//! apparent spin of a live camera image and the playback rate of accompanying
//! audio.
//!
//! The library holds the verified data pipeline: decoding raw sensor bytes
//! into signed rotation samples, the discovery/connect/subscribe state machine
//! for the wireless sensor, the single-slot frame mailbox between the capture
//! thread and the renderer, the fixed-offset square crop of camera frames, and
//! the conversion of rotation samples into bounded animation and audio
//! control values.

use vstd::prelude::*;

pub mod frame;
pub mod link;
pub mod mailbox;
pub mod modulator;
pub mod sensor;
pub mod signal;

verus! {

/// Substring of a peripheral's advertised name that identifies the rotation
/// sensor.
pub const SENSOR_NAME_PATTERN: &'static str = "Arduino";

/// Identifier of the notification characteristic carrying rotation samples,
/// as a 128-bit UUID value.
pub const NOTIFY_CHARACTERISTIC: u128 = 0x13012F00_F8C3_4F4A_A8F4_15CD926DA146;

} // verus!
