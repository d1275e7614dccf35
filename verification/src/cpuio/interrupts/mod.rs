//! The interrupt descriptor table: 256 descriptors, each with the address of
//! a handler and with attributes.

use vstd::prelude::*;
use crate::bytes::{le16, le32, u16_bytes, u32_bytes};

pub mod exceptions;

verus! {

/// Descriptors in the table.
pub const NUM_ENTRIES: usize = 256;

/// The bits that every descriptor of a 64-bit system has.
pub const DEFAULT: u16 = 0xc00;

/// With `DEFAULT`, the type of an interrupt descriptor: interrupts are off
/// while its handler runs.
pub const INTERRUPT_GATE: u16 = 0x200;

/// With `DEFAULT`, the type of a trap descriptor: interrupts stay on while
/// its handler runs.
pub const TRAP_GATE: u16 = 0x300;

/// The descriptor is in use.
pub const PRESENT: u16 = 0x8000;

/// The code segment that every handler runs in.
pub const KERNEL_CODE_SELECTOR: u16 = 0x08;

/// Facts about the bits of a descriptor's attributes.
pub proof fn lemma_attribute_bits(bits: u16, level: u16, stack: u16)
    by (bit_vector)
    requires
        level <= 3,
        stack <= 7,
    ensures
        DEFAULT | PRESENT | INTERRUPT_GATE == 0x8e00,
        (bits | TRAP_GATE) / 0x100 % 4 == 3,
        (bits | TRAP_GATE) / 0x400 == bits / 0x400,
        (bits | TRAP_GATE) % 0x100 == bits % 0x100,
        ((bits & !TRAP_GATE) | INTERRUPT_GATE) / 0x100 % 4 == 2,
        ((bits & !TRAP_GATE) | INTERRUPT_GATE) / 0x400 == bits / 0x400,
        ((bits & !TRAP_GATE) | INTERRUPT_GATE) % 0x100 == bits % 0x100,
        (bits & !TRAP_GATE) / 0x100 % 4 == 0,
        (bits & !TRAP_GATE) / 0x400 == bits / 0x400,
        (bits & !TRAP_GATE) % 0x100 == bits % 0x100,
        (!0b11u16) << 13 == 0x8000,
        (bits & 0x8000) | (level << 13) == (bits / 0x8000) * 0x8000 + level * 0x2000,
        (bits & !0b111u16) | stack == bits - bits % 8 + stack,
{
}

/// The attributes of a descriptor: in bits 0 to 2 the stack to switch to, in
/// bits 8 and 9 its kind, in bits 13 and 14 the ring that may call it, and in
/// bit 15 whether it is in use.
#[derive(Debug, Clone, Copy, PartialEq, Eq, Structural)]
pub struct Attributes(pub u16);

impl Attributes {
    /// The kind of descriptor: 0 for calls, 2 for interrupts, 3 for traps.
    pub open spec fn kind(&self) -> int {
        self.0 as int / 0x100 % 4
    }

    /// The bits below the kind.
    pub open spec fn low(&self) -> int {
        self.0 as int % 0x100
    }

    /// The bits above the kind.
    pub open spec fn high(&self) -> int {
        self.0 as int / 0x400
    }

    /// The attributes of a descriptor that is not in use.
    pub fn clear() -> (attributes: Attributes)
        ensures
            attributes.0 == 0,
    {
        Attributes(0)
    }

    /// The attributes that every descriptor has, and no others.
    pub fn empty() -> (attributes: Attributes)
        ensures
            attributes.0 == DEFAULT,
    {
        Attributes(DEFAULT)
    }

    /// The attributes of an interrupt descriptor that is in use.
    pub fn new() -> (attributes: Attributes)
        ensures
            attributes.0 == 0x8e00,
    {
        proof {
            lemma_attribute_bits(0, 0, 0);
        }
        Attributes(DEFAULT | PRESENT | INTERRUPT_GATE)
    }

    /// Makes this a trap descriptor.
    pub fn trap_gate(&mut self) -> (this: &mut Self)
        ensures
            this.0 == old(self).0 | TRAP_GATE,
            this.kind() == 3,
            this.low() == old(self).low(),
            this.high() == old(self).high(),
            *final(self) == *final(this),
    {
        proof {
            lemma_attribute_bits(self.0, 0, 0);
        }
        self.0 = self.0 | TRAP_GATE;
        self
    }

    /// Makes this an interrupt descriptor.
    pub fn interrupt_gate(&mut self) -> (this: &mut Self)
        ensures
            this.0 == (old(self).0 & !TRAP_GATE) | INTERRUPT_GATE,
            this.kind() == 2,
            this.low() == old(self).low(),
            this.high() == old(self).high(),
            *final(self) == *final(this),
    {
        proof {
            lemma_attribute_bits(self.0, 0, 0);
        }
        self.0 = (self.0 & !TRAP_GATE) | INTERRUPT_GATE;
        self
    }

    /// Makes this a call descriptor.
    pub fn call_gate(&mut self) -> (this: &mut Self)
        ensures
            this.0 == old(self).0 & !TRAP_GATE,
            this.kind() == 0,
            this.low() == old(self).low(),
            this.high() == old(self).high(),
            *final(self) == *final(this),
    {
        proof {
            lemma_attribute_bits(self.0, 0, 0);
        }
        self.0 = self.0 & !TRAP_GATE;
        self
    }

    /// Sets the ring that may call the handler. Of the other attributes only
    /// the bit that says whether the descriptor is in use is kept.
    pub fn access_level(&mut self, access_level: u16) -> (this: &mut Self)
        requires
            access_level <= 3,
        ensures
            this.0 == (old(self).0 / 0x8000) * 0x8000 + access_level * 0x2000,
            *final(self) == *final(this),
    {
        proof {
            lemma_attribute_bits(self.0, access_level, 0);
        }
        self.0 = (self.0 & !0b11 << 13) | access_level << 13;
        self
    }

    /// Sets the stack that the processor switches to when it enters the handler.
    pub fn stack(&mut self, stack: u16) -> (this: &mut Self)
        requires
            stack <= 7,
        ensures
            this.0 == old(self).0 - old(self).0 % 8 + stack,
            *final(self) == *final(this),
    {
        proof {
            lemma_attribute_bits(self.0, 0, stack);
        }
        self.0 = (self.0 & !0b111) | stack;
        self
    }
}

/// The descriptor of a slot that is not in use: every bit is zero.
pub open spec fn unset() -> IdtEntry {
    IdtEntry {
        offset_low: 0,
        selector: 0,
        attributes: Attributes(0),
        offset_middle: 0,
        offset_high: 0,
        reserved: 0,
    }
}

/// One descriptor of the table.
#[derive(Debug, Clone, Copy, PartialEq, Eq, Structural)]
pub struct IdtEntry {
    pub offset_low: u16,
    pub selector: u16,
    pub attributes: Attributes,
    pub offset_middle: u16,
    pub offset_high: u32,
    pub reserved: u32,
}

impl IdtEntry {
    /// The address of the handler.
    pub open spec fn handler(&self) -> int {
        self.offset_low + self.offset_middle * 0x1_0000 + self.offset_high * 0x1_0000_0000
    }

    /// A descriptor that is not in use.
    pub fn not_set() -> (entry: IdtEntry)
        ensures
            entry == unset(),
    {
        IdtEntry {
            offset_low: 0,
            offset_middle: 0,
            offset_high: 0,
            selector: 0,
            attributes: Attributes::clear(),
            reserved: 0,
        }
    }

    /// A descriptor for the handler at `addr`, in the kernel's code segment.
    pub fn new(addr: u64, attributes: Attributes) -> (entry: IdtEntry)
        ensures
            entry.handler() == addr,
            entry.selector == KERNEL_CODE_SELECTOR,
            entry.attributes == attributes,
            entry.reserved == 0,
    {
        assert(addr & 0xffff < 0x1_0000 && (addr >> 16) & 0xffff < 0x1_0000 && (addr >> 32)
            < 0x1_0000_0000 && (addr & 0xffff) + ((addr >> 16) & 0xffff) * 0x1_0000 + (addr >> 32)
            * 0x1_0000_0000 == addr) by (bit_vector);
        IdtEntry {
            offset_low: (addr & 0xffff) as u16,
            offset_middle: ((addr >> 16) & 0xffff) as u16,
            offset_high: (addr >> 32) as u32,
            selector: KERNEL_CODE_SELECTOR,
            attributes,
            reserved: 0,
        }
    }
}

impl IdtEntry {
    /// True if `bytes` are the sixteen bytes that the processor reads for
    /// this descriptor.
    pub open spec fn laid_out(&self, bytes: Seq<u8>) -> bool {
        &&& bytes.len() == 16
        &&& le16(bytes, 0) == self.offset_low
        &&& le16(bytes, 2) == self.selector
        &&& le16(bytes, 4) == self.attributes.0
        &&& le16(bytes, 6) == self.offset_middle
        &&& le32(bytes, 8) == self.offset_high
        &&& le32(bytes, 12) == self.reserved
    }

    /// The sixteen bytes that the processor reads for this descriptor.
    pub fn to_bytes(&self) -> (bytes: [u8; 16])
        ensures
            self.laid_out(bytes@),
    {
        let low = u16_bytes(self.offset_low);
        let selector = u16_bytes(self.selector);
        let attributes = u16_bytes(self.attributes.0);
        let middle = u16_bytes(self.offset_middle);
        let high = u32_bytes(self.offset_high);
        let reserved = u32_bytes(self.reserved);
        [
            low[0],
            low[1],
            selector[0],
            selector[1],
            attributes[0],
            attributes[1],
            middle[0],
            middle[1],
            high[0],
            high[1],
            high[2],
            high[3],
            reserved[0],
            reserved[1],
            reserved[2],
            reserved[3],
        ]
    }
}

/// The interrupt descriptor table.
pub struct Idt(pub [IdtEntry; 256]);

impl Idt {
    /// A table in which no descriptor is in use.
    pub fn new() -> (idt: Idt)
        ensures
            forall|i: int| 0 <= i < NUM_ENTRIES ==> (#[trigger] idt.0[i]) == unset(),
    {
        Idt([IdtEntry::not_set(); 256])
    }

    /// Puts `handler` into slot `entry` and returns its attributes.
    pub fn set_entry(&mut self, entry: u8, handler: IdtEntry) -> (attributes: &mut Attributes)
        ensures
            *attributes == handler.attributes,
            final(self).0[entry as int] == (IdtEntry { attributes: *final(attributes), ..handler }),
            forall|i: int|
                0 <= i < NUM_ENTRIES && i != entry ==> #[trigger] final(self).0[i] == old(self).0[i],
    {
        self.0[entry as usize] = handler;
        &mut self.0[entry as usize].attributes
    }

    /// Makes slot `entry` an interrupt descriptor for the handler at
    /// `handler` and returns its attributes.
    pub fn set_handler(&mut self, entry: u8, handler: u64) -> (attributes: &mut Attributes)
        ensures
            attributes.0 == 0x8e00,
            final(self).0[entry as int].handler() == handler,
            final(self).0[entry as int].selector == KERNEL_CODE_SELECTOR,
            final(self).0[entry as int].attributes == *final(attributes),
            forall|i: int|
                0 <= i < NUM_ENTRIES && i != entry ==> #[trigger] final(self).0[i] == old(self).0[i],
    {
        self.0[entry as usize] = IdtEntry::new(handler, Attributes::new());
        &mut self.0[entry as usize].attributes
    }
}

} // verus!
