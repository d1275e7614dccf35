//! Control register 0.

use vstd::prelude::*;

verus! {

/// Protected mode is enabled.
pub const PROTECTED_MODE: u64 = 0x1;

/// The floating-point unit is monitored: WAIT raises an exception while
/// `FPU_STATE_SWITCHED` is set.
pub const MONITOR_COPROCESSOR: u64 = 0x2;

/// No floating-point unit is present.
pub const FPU_MISSING: u64 = 0x4;

/// A task switch has left the floating-point state of another task behind.
pub const FPU_STATE_SWITCHED: u64 = 0x8;

/// The instructions of the i387 coprocessor are supported.
pub const DX_MATH_COPROCESSOR: u64 = 0x10;

/// Floating-point errors are reported the native way.
pub const NATIVE_FPU_ERRORS: u64 = 0x20;

/// The supervisor cannot write to read-only pages.
pub const WRITE_PROTECT: u64 = 0x1_0000;

/// Alignment is checked in user mode, where the flags register asks for it.
pub const ALIGNMENT_CHECKING: u64 = 0x4_0000;

/// Write-back and write-through caching are off.
pub const NO_WRITE_BACK: u64 = 0x2000_0000;

/// Caching is off.
pub const CACHING_DISABLED: u64 = 0x4000_0000;

/// Paging is enabled.
pub const PAGING: u64 = 0x8000_0000;

/// Every bit that is a flag.
pub const ALL: u64 = 0xe005_003f;

/// True if `bits` has no bit outside the flags.
pub open spec fn known(bits: u64) -> bool {
    bits & !ALL == 0
}

/// The flags of the register.
#[derive(Debug, Clone, Copy, PartialEq, Eq, Structural)]
pub struct CR0 {
    bits: u64,
}

impl View for CR0 {
    type V = u64;

    closed spec fn view(&self) -> u64 {
        self.bits
    }
}

impl CR0 {
    #[verifier::type_invariant]
    spec fn well_formed(self) -> bool {
        known(self.bits)
    }

    /// The flags that `bits` stands for, unless `bits` has a bit that is no flag.
    pub fn from_bits(bits: u64) -> (flags: Option<CR0>)
        ensures
            flags is Some <==> known(bits),
            flags matches Some(f) ==> f@ == bits,
    {
        if bits & !ALL == 0 {
            Some(CR0 { bits })
        } else {
            None
        }
    }

    pub fn bits(&self) -> (bits: u64)
        ensures
            bits == self@,
            known(bits),
    {
        proof {
            use_type_invariant(self);
        }
        self.bits
    }

    /// True if every flag of `mask` is set.
    pub fn contains(&self, mask: u64) -> (b: bool)
        ensures
            b == (self@ & mask == mask),
    {
        self.bits & mask == mask
    }

    /// The flags in `register`, the value read from the register.
    pub fn load(register: u64) -> (flags: CR0)
        requires
            known(register),
        ensures
            flags@ == register,
    {
        CR0 { bits: register }
    }

    /// The value to write to the register.
    pub fn store(&self) -> (register: u64)
        ensures
            register == self@,
            known(register),
    {
        self.bits()
    }
}

} // verus!
