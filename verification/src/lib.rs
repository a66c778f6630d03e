//! Verified core of a driver for the Raspberry Pi Sense HAT joystick.
//!
//! The joystick shows up as a generic input-event device. This crate holds
//! the device-independent logic of the driver, with its behaviour proved:
//! decoding raw kernel input records into typed joystick events, and picking
//! the joystick out of a list of candidate devices by its hardware name.
//! The thin layer that talks to the kernel (globbing `/dev/input/event*`,
//! opening devices, polling for readiness) lives outside this crate and
//! feeds plain values into it.

pub mod decode;
pub mod event;
pub mod locator;

pub use decode::RawRecord;
pub use event::Action;
pub use event::Direction;
pub use event::Error;
pub use event::JoyStickEvent;
pub use event::Timestamp;
