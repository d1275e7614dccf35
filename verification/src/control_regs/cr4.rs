//! Control register 4.

use vstd::prelude::*;

verus! {

/// Interrupts and exceptions are enabled in virtual mode.
pub const VIRTUAL_MODE_EXTENSIONS: u64 = 0x1;

/// Virtual interrupts are enabled in protected mode.
pub const PROTECTED_MODE_VIRT_INTERRUPTS: u64 = 0x2;

/// Only ring 0 may read the time-stamp counter.
pub const RESTRICTED_TIMESTAMPS: u64 = 0x4;

/// Debug registers 4 and 5 are off.
pub const DISABLE_DEBUG_REGISTERS: u64 = 0x8;

/// Large pages are enabled.
pub const PAGE_SIZE_EXTENSION: u64 = 0x10;

/// Physical addresses of more than 32 bits are enabled.
pub const PHYSICAL_ADDRESS_EXTENSION: u64 = 0x20;

/// The machine check exception is enabled.
pub const MACHINE_CHECK: u64 = 0x40;

/// Global pages are enabled.
pub const GLOBAL_PAGES: u64 = 0x80;

/// Every ring may read the performance counters.
pub const PERFORMANCE_COUNTER: u64 = 0x100;

/// The SSE instructions and the saving of their state are enabled.
pub const SSE_ENABLED: u64 = 0x200;

/// Unmasked SIMD floating-point exceptions are enabled.
pub const UNMASKED_SIMD_EXCEPTIONS: u64 = 0x400;

/// Only ring 0 may read the descriptor table registers.
pub const RESTRICTED_DESCRIPTOR_TABLES: u64 = 0x800;

/// The virtual machine extensions are enabled.
pub const VIRTUAL_MACHINE_EXTENSISONS: u64 = 0x2000;

/// The safer mode extensions are enabled.
pub const SAFER_MODE_EXTENSIONS: u64 = 0x4000;

/// The instructions that read and write the FS and GS base are enabled.
pub const FSGSBASE: u64 = 0x1_0000;

/// Process context identifiers are enabled.
pub const PCID: u64 = 0x2_0000;

/// The XSAVE instructions are enabled.
pub const XSAVE: u64 = 0x4_0000;

/// The supervisor cannot execute code in user pages.
pub const SUPERVISOR_EXECUTION_PREVENTION: u64 = 0x10_0000;

/// The supervisor cannot access user pages.
pub const SUPERVISOR_ACCESS_PREVENTION: u64 = 0x20_0000;

/// Memory protection keys are enabled.
pub const MEMORY_PROTECTION_KEYS: u64 = 0x40_0000;

/// Every bit that is a flag.
pub const ALL: u64 = 0x77_6fff;

/// True if `bits` has no bit outside the flags.
pub open spec fn known(bits: u64) -> bool {
    bits & !ALL == 0
}

/// The flags of the register.
#[derive(Debug, Clone, Copy, PartialEq, Eq, Structural)]
pub struct CR4 {
    bits: u64,
}

impl View for CR4 {
    type V = u64;

    closed spec fn view(&self) -> u64 {
        self.bits
    }
}

impl CR4 {
    #[verifier::type_invariant]
    spec fn well_formed(self) -> bool {
        known(self.bits)
    }

    /// The flags that `bits` stands for, unless `bits` has a bit that is no flag.
    pub fn from_bits(bits: u64) -> (flags: Option<CR4>)
        ensures
            flags is Some <==> known(bits),
            flags matches Some(f) ==> f@ == bits,
    {
        if bits & !ALL == 0 {
            Some(CR4 { bits })
        } else {
            None
        }
    }

    pub fn bits(&self) -> (bits: u64)
        ensures
            bits == self@,
            known(bits),
    {
        proof {
            use_type_invariant(self);
        }
        self.bits
    }

    /// True if every flag of `mask` is set.
    pub fn contains(&self, mask: u64) -> (b: bool)
        ensures
            b == (self@ & mask == mask),
    {
        self.bits & mask == mask
    }

    /// The flags in `register`, the value read from the register.
    pub fn load(register: u64) -> (flags: CR4)
        requires
            known(register),
        ensures
            flags@ == register,
    {
        CR4 { bits: register }
    }

    /// The value to write to the register.
    pub fn store(&self) -> (register: u64)
        ensures
            register == self@,
            known(register),
    {
        self.bits()
    }
}

} // verus!
