//! What the processor hands to an exception handler.

use vstd::prelude::*;
use vstd::string::StringSliceAdditionalSpecFns;
use crate::text::{hexadecimal, hexadecimal_digits, push_all};

verus! {

/// What the processor pushes before it enters a handler.
#[derive(Debug, Clone, Copy, PartialEq, Eq, Structural)]
pub struct ExceptionStackFrame {
    pub instruction_pointer: u64,
    pub code_segment: u64,
    pub flags: u64,
    pub stack_pointer: u64,
    pub stack_segment: u64,
}

/// A table of descriptors.
#[derive(Debug, Clone, Copy, PartialEq, Eq, Structural)]
pub enum DescriptorTable {
    GDT,
    IDT,
    LDT,
}

impl DescriptorTable {
    /// The name of the table.
    pub open spec fn spec_name(self) -> Seq<u8> {
        match self {
            DescriptorTable::GDT => "GDT".spec_bytes(),
            DescriptorTable::IDT => "IDT".spec_bytes(),
            DescriptorTable::LDT => "LDT".spec_bytes(),
        }
    }

    /// The name of the table.
    pub fn name(self) -> (name: &'static str)
        ensures
            name.spec_bytes() == self.spec_name(),
    {
        match self {
            DescriptorTable::GDT => "GDT",
            DescriptorTable::IDT => "IDT",
            DescriptorTable::LDT => "LDT",
        }
    }
}

/// The error code of an exception that has to do with a segment selector:
/// bit 0 says whether the cause lies outside the processor, bits 1 and 2 name
/// the table, and the bits from 3 on hold the index into that table.
#[derive(Debug, Clone, Copy, PartialEq, Eq, Structural)]
pub struct ErrorCode(pub u64);

impl ErrorCode {
    /// The number that names the table, 0 to 3.
    pub open spec fn table(&self) -> int {
        self.0 as int / 2 % 4
    }

    /// True if the code names a table: the number 3 names none.
    pub fn has_location(&self) -> (b: bool)
        ensures
            b == (self.table() != 3),
    {
        let code = self.0;
        assert((code >> 1) & 0b11 == code / 2 % 4) by (bit_vector);
        (self.0 >> 1) & 0b11 != 3
    }

    /// True if the cause of the exception lies outside the processor.
    pub fn external(&self) -> (b: bool)
        ensures
            b == (self.0 % 2 == 1),
    {
        let code = self.0;
        assert(code & 1 == code % 2) by (bit_vector);
        self.0 & 1 == 1
    }

    /// The table that the selector points into.
    pub fn location(&self) -> (table: DescriptorTable)
        requires
            self.table() != 3,
        ensures
            table == self.spec_location(),
    {
        let code = self.0;
        assert((code >> 1) & 0b11 == code / 2 % 4) by (bit_vector);
        let table = (self.0 >> 1) & 0b11;
        if table == 0 {
            DescriptorTable::GDT
        } else if table == 1 {
            DescriptorTable::IDT
        } else {
            DescriptorTable::LDT
        }
    }

    /// The table that the code names.
    pub open spec fn spec_location(&self) -> DescriptorTable {
        if self.table() == 0 {
            DescriptorTable::GDT
        } else if self.table() == 1 {
            DescriptorTable::IDT
        } else {
            DescriptorTable::LDT
        }
    }

    /// The error code in words: `n/a` for the code 0, and for every other
    /// code where the error lies, with the index in hexadecimal digits.
    pub open spec fn spec_text(&self) -> Seq<u8> {
        if self.0 == 0 {
            "n/a".spec_bytes()
        } else {
            (if self.0 % 2 == 1 {
                "External ".spec_bytes()
            } else {
                Seq::<u8>::empty()
            }) + "Error in ".spec_bytes() + self.spec_location().spec_name()
                + " (at index 0x".spec_bytes() + hexadecimal(self.0 as nat / 8) + ")".spec_bytes()
        }
    }

    /// The error code in words.
    pub fn text(&self) -> (text: Vec<u8>)
        requires
            self.0 == 0 || self.table() != 3,
        ensures
            text@ == self.spec_text(),
    {
        let mut text = Vec::new();
        if self.0 == 0 {
            push_all(&mut text, "n/a".as_bytes());
            return text;
        }
        if self.external() {
            push_all(&mut text, "External ".as_bytes());
        }
        push_all(&mut text, "Error in ".as_bytes());
        push_all(&mut text, self.location().name().as_bytes());
        push_all(&mut text, " (at index 0x".as_bytes());
        let index = hexadecimal_digits(self.selector_index());
        push_all(&mut text, index.as_slice());
        push_all(&mut text, ")".as_bytes());
        assert(text@ =~= self.spec_text());
        text
    }

    /// The index into the table.
    pub fn selector_index(&self) -> (index: u64)
        ensures
            index == self.0 / 8,
    {
        let code = self.0;
        assert(code >> 3 == code / 8) by (bit_vector);
        self.0 >> 3
    }
}

/// The page was present: the fault is a protection violation.
pub const PROTECTION_VIOLATION: u64 = 0x1;

/// The access was a write.
pub const CAUSED_BY_WRITE: u64 = 0x2;

/// The access came from user mode.
pub const USER_MODE: u64 = 0x4;

/// A reserved bit was set in a page table.
pub const MALFORMED_TABLE: u64 = 0x8;

/// The access was an instruction fetch.
pub const INSTRUCTION_FETCH: u64 = 0x10;

/// Every bit that is a flag of a page fault.
pub const ALL_PAGE_FAULT_FLAGS: u64 = 0x1f;

/// True if `bits` has no bit outside the flags of a page fault.
pub open spec fn known_page_fault(bits: u64) -> bool {
    bits & !ALL_PAGE_FAULT_FLAGS == 0
}

/// The error code of a page fault.
#[derive(Debug, Clone, Copy, PartialEq, Eq, Structural)]
pub struct PageFaultErrorCode {
    bits: u64,
}

impl View for PageFaultErrorCode {
    type V = u64;

    closed spec fn view(&self) -> u64 {
        self.bits
    }
}

impl PageFaultErrorCode {
    #[verifier::type_invariant]
    spec fn well_formed(self) -> bool {
        known_page_fault(self.bits)
    }

    /// The flags that `bits` stands for, unless `bits` has a bit that is no flag.
    pub fn from_bits(bits: u64) -> (code: Option<PageFaultErrorCode>)
        ensures
            code is Some <==> known_page_fault(bits),
            code matches Some(c) ==> c@ == bits,
    {
        if bits & !ALL_PAGE_FAULT_FLAGS == 0 {
            Some(PageFaultErrorCode { bits })
        } else {
            None
        }
    }

    pub fn bits(&self) -> (bits: u64)
        ensures
            bits == self@,
            known_page_fault(bits),
    {
        proof {
            use_type_invariant(self);
        }
        self.bits
    }

    /// True if every flag of `mask` is set.
    pub fn contains(&self, mask: u64) -> (b: bool)
        ensures
            b == (self@ & mask == mask),
    {
        self.bits & mask == mask
    }
}

} // verus!
