//! The control registers of the processor, as values: what a register holds is
//! read and written elsewhere; here it is taken apart and put together.

pub mod cr0;
pub mod cr3;
pub mod cr4;
pub mod cr8;
pub mod efer;
pub mod rflags;
