//! Detection of a game-controller adapter's USB modes and the decisions that
//! manage its Windows driver stack (XInput DLL, WinUSB binding).
//!
//! Everything that touches the machine (USB enumeration, the driver
//! database, files, subprocesses) is done by the caller; this crate decides
//! what to do with what the machine reported, and says so in its contracts.
//! The mutating operations are machines: each step takes what happened and
//! returns the next action, until one finishes with an outcome.

pub mod drivers;
pub mod operation;
pub mod registry;
pub mod status;
pub mod text;
pub mod usb;
pub mod winusb;
pub mod xinput;
