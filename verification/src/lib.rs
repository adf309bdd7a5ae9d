//! Firmware-table discovery and multi-core bring-up for a pre-kernel boot stage.
//!
//! The library reads and writes no memory and no register. Physical memory
//! is handed to it as a [`mem::PhysMemory`] image, register contents as plain
//! values, and every hardware action it decides on is handed back as a value
//! for the caller to perform. The one thing it asks the processor itself is
//! which features it has.

pub mod mem;

pub mod acpi;
pub mod apic;
pub mod mm;
pub mod flatten;
