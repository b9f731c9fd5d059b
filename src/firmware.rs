//! What the loader needs to know of the firmware it runs on: its memory map,
//! input keys and file systems.
pub mod filesystem;
pub mod framebuffer;
pub mod input;
pub mod memory;
