//! The memory manager of a small 64-bit kernel and the parts of the kernel
//! around it, as a library without access to the machine: frames and their
//! allocation, pages and their tables, and the values that the processor's
//! registers, its interrupt table, the keyboard and the text screen hold.

pub mod acpi;
pub mod boot;
pub mod bytes;
pub mod control_regs;
pub mod cpuid;
pub mod cpuio;
pub mod keyboard;
pub mod memory;
pub mod text;
pub mod vga_buffer;
