//! USB input devices.
pub mod hid;
