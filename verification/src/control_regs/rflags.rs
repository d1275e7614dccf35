//! The flags register.

use vstd::prelude::*;

verus! {

/// Carry: set by some instructions on overflow.
pub const CARRY: u64 = 0x1;

/// The low byte of the last result has an even number of set bits.
pub const PARITY: u64 = 0x4;

/// Carry between the two halves of a byte.
pub const AUXILLARY: u64 = 0x10;

/// The last result was zero.
pub const ZERO: u64 = 0x40;

/// The last result was negative.
pub const NEGATIVE: u64 = 0x80;

/// Every instruction raises a debug exception.
pub const SINGLE_STEP: u64 = 0x100;

/// Maskable hardware interrupts are enabled.
pub const HARDWARE_INTERRUPTS: u64 = 0x200;

/// I/O privilege level 0.
pub const IOPL_0: u64 = 0x0;

/// I/O privilege level 1.
pub const IOPL_1: u64 = 0x1000;

/// I/O privilege level 2.
pub const IOPL_2: u64 = 0x2000;

/// I/O privilege level 3.
pub const IOPL_3: u64 = 0x3000;

/// Instruction breakpoints are off for the next instruction.
pub const INSTRUCTION_BREAKPOINTS_DISABLED: u64 = 0x1_0000;

/// Alignment checking, or the supervisor's access to user pages.
pub const ACCESS_CONTROL_ALIGNMENT_CHECK: u64 = 0x4_0000;

/// Virtual interrupts are enabled.
pub const VIRTUAL_INTERRUPTS: u64 = 0x8_0000;

/// A virtual interrupt is pending.
pub const VIRTUAL_INTERRUPT_PENDING: u64 = 0x10_0000;

/// Can be changed where the CPUID instruction exists.
pub const CPUID: u64 = 0x20_0000;

/// Bit 1 of the register, which is always set and is no flag.
pub const ALWAYS_SET: u64 = 0x2;

/// Every bit that is a flag.
pub const ALL: u64 = 0x3d_33d5;

/// True if `bits` has no bit outside the flags.
pub open spec fn known(bits: u64) -> bool {
    bits & !ALL == 0
}

/// The flags of the register.
#[derive(Debug, Clone, Copy, PartialEq, Eq, Structural)]
pub struct RFlags {
    bits: u64,
}

impl View for RFlags {
    type V = u64;

    closed spec fn view(&self) -> u64 {
        self.bits
    }
}

impl RFlags {
    #[verifier::type_invariant]
    spec fn well_formed(self) -> bool {
        known(self.bits)
    }

    /// The flags that `bits` stands for, unless `bits` has a bit that is no flag.
    pub fn from_bits(bits: u64) -> (flags: Option<RFlags>)
        ensures
            flags is Some <==> known(bits),
            flags matches Some(f) ==> f@ == bits,
    {
        if bits & !ALL == 0 {
            Some(RFlags { bits })
        } else {
            None
        }
    }

    pub fn bits(&self) -> (bits: u64)
        ensures
            bits == self@,
            known(bits),
    {
        proof {
            use_type_invariant(self);
        }
        self.bits
    }

    /// True if every flag of `mask` is set.
    pub fn contains(&self, mask: u64) -> (b: bool)
        ensures
            b == (self@ & mask == mask),
    {
        self.bits & mask == mask
    }

    /// The flags in `register`, the value read from the register. The bit
    /// that is always set is left out.
    pub fn load(register: u64) -> (flags: RFlags)
        requires
            known(register & !ALWAYS_SET),
        ensures
            flags@ == register & !ALWAYS_SET,
    {
        RFlags { bits: register & !ALWAYS_SET }
    }

    /// The value to write to the register: the flags and the bit that is
    /// always set.
    pub fn store(&self) -> (register: u64)
        ensures
            register == self@ | ALWAYS_SET,
    {
        self.bits | ALWAYS_SET
    }

    /// The I/O privilege level, 0 to 3.
    pub fn get_io_privilege_level(&self) -> (level: u8)
        ensures
            level == (self@ / 0x1000) % 4,
    {
        let bits = self.bits;
        assert((bits & IOPL_3 == IOPL_3 <==> (bits / 0x1000) % 4 == 3) && ((bits & IOPL_3 != IOPL_3
            && bits & IOPL_2 == IOPL_2) <==> (bits / 0x1000) % 4 == 2) && ((bits & IOPL_2 != IOPL_2
            && bits & IOPL_1 == IOPL_1) <==> (bits / 0x1000) % 4 == 1)) by (bit_vector);
        if self.bits & IOPL_3 == IOPL_3 {
            3
        } else if self.bits & IOPL_2 == IOPL_2 {
            2
        } else if self.bits & IOPL_1 == IOPL_1 {
            1
        } else {
            0
        }
    }
}

} // verus!
