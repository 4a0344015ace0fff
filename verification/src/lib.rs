//! Console subsystem of a bare-metal kernel, written against Verus.
//!
//! The crate provides a hardware-agnostic capability interface for character
//! I/O ([`console`]), a registry holding the currently active console
//! ([`console::Registry`]), a no-op console used as the safe default before a
//! real device is registered ([`null_console::NullConsole`]), a board-specific
//! memory-mapped output device ([`qemu_console::QEMUOutput`]), and the
//! mutual-exclusion primitive that serializes access to shared console state
//! ([`synchronization::NullLock`]).

pub mod console;
pub mod null_console;
pub mod qemu_console;
pub mod synchronization;
