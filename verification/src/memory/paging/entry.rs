//! One slot of a page table: a frame address and the bits that govern access to it.

use vstd::prelude::*;
use crate::memory::{Frame, PAGE_SIZE};

verus! {

/// Bits 12 to 51 of an entry: the address of the frame it points to.
pub const ADDR_MASK: u64 = 0x000f_ffff_ffff_f000;

/// Number of frames whose address fits into the address bits of an entry.
pub const ENTRY_FRAME_COUNT: u64 = 0x100_0000_0000;

/// The entry points to a frame or to a table.
pub const PRESENT: u64 = 0x1;

/// The memory behind the entry may be written.
pub const WRITEABLE: u64 = 0x2;

/// The memory behind the entry may be reached from user mode.
pub const USER_ACCESSIBLE: u64 = 0x4;

/// Writes go to memory at once.
pub const WRITE_THROUGH: u64 = 0x8;

/// The memory behind the entry is not cached.
pub const NO_CACHE: u64 = 0x10;

/// Set by the processor when the entry is used.
pub const ACCESSED: u64 = 0x20;

/// Set by the processor when the memory behind the entry is written.
pub const DIRTY: u64 = 0x40;

/// The entry maps a large page instead of pointing to a table.
pub const HUGE_PAGE: u64 = 0x80;

/// The translation survives an address space switch.
pub const GLOBAL: u64 = 0x100;

/// No instruction is fetched from the memory behind the entry.
pub const NO_EXECUTE: u64 = 0x8000_0000_0000_0000;

/// Every bit that is a flag.
pub const ALL_FLAGS: u64 = 0x8000_0000_0000_01ff;

/// True if `bits` has no bit outside the flags.
pub open spec fn flag_bits(bits: u64) -> bool {
    bits & !ALL_FLAGS == 0
}

/// True if every bit of `mask` is set in `bits`.
pub open spec fn has_bits(bits: u64, mask: u64) -> bool {
    bits & mask == mask
}

/// Facts about flag bits that the operations below rest on.
pub proof fn lemma_flag_arithmetic(a: u64, b: u64)
    by (bit_vector)
    ensures
        flag_bits(0),
        flag_bits(ALL_FLAGS),
        flag_bits(a & ALL_FLAGS),
        flag_bits(a) && flag_bits(b) ==> flag_bits(a | b),
        PRESENT & ALL_FLAGS == PRESENT,
        HUGE_PAGE & ALL_FLAGS == HUGE_PAGE,
        (PRESENT | WRITEABLE) & ALL_FLAGS == PRESENT | WRITEABLE,
        (a & ADDR_MASK) / PAGE_SIZE < ENTRY_FRAME_COUNT,
        has_bits(a | (PRESENT | WRITEABLE), PRESENT),
        a | (PRESENT | WRITEABLE) != 0,
        has_bits(PRESENT | WRITEABLE, PRESENT),
        !has_bits(PRESENT | WRITEABLE, HUGE_PAGE),
        flag_bits(a) ==> a & ALL_FLAGS == a,
        has_bits(a, a),
        has_bits(a | b, a) && has_bits(a | b, b),
        has_bits(a, b) ==> has_bits(a & ALL_FLAGS, b & ALL_FLAGS),
        !has_bits(0, PRESENT),
        !has_bits(0, HUGE_PAGE),
        0u64 & ALL_FLAGS == 0,
        0u64 | (PRESENT | WRITEABLE) == PRESENT | WRITEABLE,
{
}

/// A set of entry flags.
#[derive(Debug, Clone, Copy, PartialEq, Eq, Structural)]
pub struct EntryFlags {
    bits: u64,
}

impl View for EntryFlags {
    type V = u64;

    closed spec fn view(&self) -> u64 {
        self.bits
    }
}

impl EntryFlags {
    #[verifier::type_invariant]
    spec fn well_formed(self) -> bool {
        flag_bits(self.bits)
    }

    /// The set without any flag.
    pub fn empty() -> (flags: EntryFlags)
        ensures
            flags@ == 0,
    {
        proof {
            lemma_flag_arithmetic(0, 0);
        }
        EntryFlags { bits: 0 }
    }

    /// The set with every flag.
    pub fn all() -> (flags: EntryFlags)
        ensures
            flags@ == ALL_FLAGS,
    {
        proof {
            lemma_flag_arithmetic(0, 0);
        }
        EntryFlags { bits: ALL_FLAGS }
    }

    /// The set that `bits` stands for, unless `bits` has a bit that is no flag.
    pub fn from_bits(bits: u64) -> (flags: Option<EntryFlags>)
        ensures
            flags is Some <==> flag_bits(bits),
            flags matches Some(f) ==> f@ == bits,
    {
        if bits & !ALL_FLAGS == 0 {
            Some(EntryFlags { bits })
        } else {
            None
        }
    }

    /// The flags among `bits`; its other bits are dropped.
    pub fn from_bits_truncate(bits: u64) -> (flags: EntryFlags)
        ensures
            flags@ == bits & ALL_FLAGS,
            flag_bits(bits) ==> flags@ == bits,
    {
        proof {
            lemma_flag_arithmetic(bits, 0);
        }
        EntryFlags { bits: bits & ALL_FLAGS }
    }

    /// The set as a number.
    pub fn bits(&self) -> (bits: u64)
        ensures
            bits == self@,
            flag_bits(bits),
    {
        proof {
            use_type_invariant(self);
        }
        self.bits
    }

    /// True if every flag of `other` is in this set.
    pub fn contains(&self, other: EntryFlags) -> (b: bool)
        ensures
            b == has_bits(self@, other@),
    {
        self.bits & other.bits == other.bits
    }

    /// True if the set holds no flag.
    pub fn is_empty(&self) -> (b: bool)
        ensures
            b == (self@ == 0),
    {
        self.bits == 0
    }

    /// The flags of this set and those of `other`.
    pub fn union(self, other: EntryFlags) -> (flags: EntryFlags)
        ensures
            flags@ == self@ | other@,
    {
        let a = self.bits;
        let b = other.bits;
        proof {
            use_type_invariant(self);
            use_type_invariant(other);
            lemma_flag_arithmetic(a, b);
        }
        EntryFlags { bits: a | b }
    }
}

/// One 64-bit slot of a page table.
#[derive(Debug, Clone, Copy)]
pub struct Entry(u64);

impl View for Entry {
    type V = u64;

    closed spec fn view(&self) -> u64 {
        self.0
    }
}

/// The value of an entry that points to `frame` with `flags`.
pub open spec fn entry_bits(frame: Frame, flags: u64) -> u64 {
    ((frame.number * PAGE_SIZE) as u64) | flags
}

/// What a stored entry gives back: the frame and the flags it was made of,
/// and zero only for frame 0 without flags.
pub proof fn lemma_entry_bits(number: u64, flags: u64)
    by (bit_vector)
    requires
        number < ENTRY_FRAME_COUNT,
        flag_bits(flags),
    ensures
        (((number * PAGE_SIZE) as u64 | flags) & ADDR_MASK) / PAGE_SIZE == number,
        ((number * PAGE_SIZE) as u64 | flags) & ALL_FLAGS == flags,
        ((number * PAGE_SIZE) as u64 | flags) == 0 <==> number == 0 && flags == 0,
{
}

impl Entry {
    /// True if the entry is the zero value, which marks a free slot.
    pub open spec fn spec_is_unused(&self) -> bool {
        self@ == 0
    }

    /// The flags of the entry.
    pub open spec fn spec_flags(&self) -> u64 {
        self@ & ALL_FLAGS
    }

    /// True if the entry points to a frame or to a table.
    pub open spec fn present(&self) -> bool {
        has_bits(self.spec_flags(), PRESENT)
    }

    /// True if the large-page flag of the entry is set.
    pub open spec fn huge(&self) -> bool {
        has_bits(self.spec_flags(), HUGE_PAGE)
    }

    /// The frame that the address bits name, whether the entry is present or not.
    pub open spec fn addressed_frame(&self) -> Frame {
        Frame { number: (self@ & ADDR_MASK) / PAGE_SIZE }
    }

    /// The frame of a present entry.
    pub open spec fn spec_target_frame(&self) -> Option<Frame> {
        if self.present() {
            Some(self.addressed_frame())
        } else {
            None
        }
    }

    /// A free slot.
    pub fn new() -> (entry: Entry)
        ensures
            entry.spec_is_unused(),
    {
        Entry(0)
    }

    /// The entry as the number that the processor reads.
    pub fn bits(&self) -> (bits: u64)
        ensures
            bits == self@,
    {
        self.0
    }

    /// True if the slot is free.
    pub fn is_unused(&self) -> (b: bool)
        ensures
            b == self.spec_is_unused(),
    {
        self.0 == 0
    }

    /// Frees the slot.
    pub fn set_unused(&mut self)
        ensures
            final(self).spec_is_unused(),
    {
        self.0 = 0;
    }

    /// The flags of the entry.
    pub fn flags(&self) -> (flags: EntryFlags)
        ensures
            flags@ == self.spec_flags(),
    {
        EntryFlags::from_bits_truncate(self.0)
    }

    /// The frame that the entry points to, if the entry is present.
    pub fn target_frame(&self) -> (frame: Option<Frame>)
        ensures
            frame == self.spec_target_frame(),
            frame matches Some(f) ==> f.number < ENTRY_FRAME_COUNT,
    {
        proof {
            lemma_flag_arithmetic(self@, 0);
        }
        if self.flags().contains(EntryFlags::from_bits_truncate(PRESENT)) {
            Some(Frame::for_address(self.0 & ADDR_MASK))
        } else {
            None
        }
    }

    /// Points the entry to `frame`, with `flags`.
    pub fn set(&mut self, frame: Frame, flags: EntryFlags)
        requires
            frame.number < ENTRY_FRAME_COUNT,
        ensures
            final(self)@ == entry_bits(frame, flags@),
            final(self).addressed_frame() == frame,
            final(self).spec_flags() == flags@,
            final(self).spec_is_unused() <==> frame.number == 0 && flags@ == 0,
    {
        let bits = flags.bits();
        proof {
            lemma_entry_bits(frame.number, bits);
        }
        self.0 = frame.first_addr() | bits;
    }
}

} // verus!
