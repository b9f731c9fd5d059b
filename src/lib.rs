//! Core of a pre-boot loader: page-aligned memory regions, the byte layouts
//! shared with an x86 Linux kernel, memory-map translation and the sequence
//! that stages a kernel for its firmware-native handover.

pub mod bytes;
pub mod display;
pub mod error;
pub mod firmware;
pub mod fs;
pub mod loaders;
pub mod mem;
pub mod serial;
pub mod shell;
pub mod usb;
