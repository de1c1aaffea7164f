//! Execute-in-place boot and in-system programming for an external octal NOR
//! flash chip.
//!
//! The library decides; a thin runtime acts. Every operation returns the
//! commands and status-indicator changes to perform, so the rules about
//! address translation, bus modes and indicator restoration are proved here
//! once, independently of the hardware driver that finally carries them out.
pub mod geometry;
pub mod flash;
pub mod boot;
pub mod algorithm;
