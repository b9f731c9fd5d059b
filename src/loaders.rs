//! Kernel boot conventions the loader can follow.
pub mod linux;
