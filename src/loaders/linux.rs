//! The x86 Linux boot protocol: its binary layouts and the sequence that
//! stages a kernel for the firmware-native handover.
pub mod common;
pub mod x86;
pub mod boot;
