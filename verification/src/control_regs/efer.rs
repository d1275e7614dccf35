//! The Extended Feature Enable Register.

use vstd::prelude::*;

verus! {

/// The SYSCALL instruction is enabled.
pub const SYSCALL_ENABLED: u64 = 0x1;

/// Set to enable long mode.
pub const LONG_MODE_ENABLED: u64 = 0x100;

/// Long mode is enabled (read only).
pub const IS_LONG_MODE_ENABLED: u64 = 0x400;

/// The no-execute bit of page table entries is enabled.
pub const EXECUTE_DISABLE_BIT_ENABLED: u64 = 0x800;

/// Every bit that is a flag.
pub const ALL: u64 = 0xd01;

/// True if `bits` has no bit outside the flags.
pub open spec fn known(bits: u64) -> bool {
    bits & !ALL == 0
}

/// Number of the register among the model-specific registers.
pub const EFER_MSR: u32 = 0xc000_0080;

/// The value of the register, whose upper and lower half are read apart.
pub fn join_halves(high: u32, low: u32) -> (register: u64)
    ensures
        register == high * 0x1_0000_0000 + low,
{
    high as u64 * 0x1_0000_0000 + low as u64
}

/// The upper and the lower half of the value of the register, which are
/// written apart.
pub fn split_halves(register: u64) -> (halves: (u32, u32))
    ensures
        halves.0 == register / 0x1_0000_0000,
        halves.1 == register % 0x1_0000_0000,
{
    ((register / 0x1_0000_0000) as u32, (register % 0x1_0000_0000) as u32)
}

/// The flags of the register.
#[derive(Debug, Clone, Copy, PartialEq, Eq, Structural)]
pub struct Efer {
    bits: u64,
}

impl View for Efer {
    type V = u64;

    closed spec fn view(&self) -> u64 {
        self.bits
    }
}

impl Efer {
    #[verifier::type_invariant]
    spec fn well_formed(self) -> bool {
        known(self.bits)
    }

    /// The flags that `bits` stands for, unless `bits` has a bit that is no flag.
    pub fn from_bits(bits: u64) -> (flags: Option<Efer>)
        ensures
            flags is Some <==> known(bits),
            flags matches Some(f) ==> f@ == bits,
    {
        if bits & !ALL == 0 {
            Some(Efer { bits })
        } else {
            None
        }
    }

    pub fn bits(&self) -> (bits: u64)
        ensures
            bits == self@,
            known(bits),
    {
        proof {
            use_type_invariant(self);
        }
        self.bits
    }

    /// True if every flag of `mask` is set.
    pub fn contains(&self, mask: u64) -> (b: bool)
        ensures
            b == (self@ & mask == mask),
    {
        self.bits & mask == mask
    }

    /// The flags in `register`, the value read from the register.
    pub fn load(register: u64) -> (flags: Efer)
        requires
            known(register),
        ensures
            flags@ == register,
    {
        Efer { bits: register }
    }

    /// The value to write to the register.
    pub fn store(&self) -> (register: u64)
        ensures
            register == self@,
            known(register),
    {
        self.bits()
    }
}

} // verus!
