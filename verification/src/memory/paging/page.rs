//! Pages of virtual memory, and the four table indices that a page number holds.

use vstd::prelude::*;
use crate::memory::{FRAME_COUNT, PAGE_SIZE};

verus! {

pub type PhysicalAddress = u64;

pub type VirtualAddress = u64;

/// First address above the lower half of the address space.
pub const LOWER_HALF_END: u64 = 0x0000_8000_0000_0000;

/// First address of the upper half of the address space.
pub const UPPER_HALF_START: u64 = 0xffff_8000_0000_0000;

/// True if `addr` is a canonical address: bits 48 to 63 repeat bit 47.
pub open spec fn canonical(addr: u64) -> bool {
    addr < LOWER_HALF_END || addr >= UPPER_HALF_START
}

/// The table index that `number` holds at `level`, 0 for the last level and
/// 3 for the root.
pub open spec fn table_index(number: u64, level: nat) -> int {
    if level == 0 {
        number as int % 512
    } else if level == 1 {
        (number as int / 512) % 512
    } else if level == 2 {
        (number as int / 0x4_0000) % 512
    } else {
        (number as int / 0x800_0000) % 512
    }
}

/// The page number that four table indices make.
pub open spec fn page_number(p4: int, p3: int, p2: int, p1: int) -> int {
    p4 * 0x800_0000 + p3 * 0x4_0000 + p2 * 512 + p1
}

/// Shifts and masks on a page number, as division and remainder.
pub proof fn lemma_index_bits(number: u64)
    by (bit_vector)
    ensures
        (number >> 27) & 0o777 == (number / 0x800_0000) % 512,
        (number >> 18) & 0o777 == (number / 0x4_0000) % 512,
        (number >> 9) & 0o777 == (number / 512) % 512,
        number & 0o777 == number % 512,
{
}

/// Indices put side by side, as a sum.
pub proof fn lemma_pack_bits(p4: u64, p3: u64, p2: u64, p1: u64)
    by (bit_vector)
    requires
        p4 < 512,
        p3 < 512,
        p2 < 512,
        p1 < 512,
    ensures
        (p4 << 27) | (p3 << 18) | (p2 << 9) | p1 == p4 * 0x800_0000 + p3 * 0x4_0000 + p2 * 512 + p1,
        (((p4 << 27) | (p3 << 18) | (p2 << 9) | p1) / 0x800_0000) % 512 == p4,
        (((p4 << 27) | (p3 << 18) | (p2 << 9) | p1) / 0x4_0000) % 512 == p3,
        (((p4 << 27) | (p3 << 18) | (p2 << 9) | p1) / 512) % 512 == p2,
        ((p4 << 27) | (p3 << 18) | (p2 << 9) | p1) % 512 == p1,
{
}

/// A page of virtual memory, named by its index.
#[derive(Debug, Clone, Copy, PartialEq, Eq, Structural)]
pub struct Page {
    pub number: u64,
}

impl Page {
    /// The index into the root table.
    pub open spec fn spec_p4_index(&self) -> int {
        table_index(self.number, 3)
    }

    pub open spec fn spec_p3_index(&self) -> int {
        table_index(self.number, 2)
    }

    pub open spec fn spec_p2_index(&self) -> int {
        table_index(self.number, 1)
    }

    /// The index into the last table.
    pub open spec fn spec_p1_index(&self) -> int {
        table_index(self.number, 0)
    }

    /// Address of the page's first byte.
    pub open spec fn spec_first_addr(&self) -> int {
        self.number * PAGE_SIZE
    }

    /// True if `addr` is a canonical address.
    pub fn is_canonical(addr: VirtualAddress) -> (b: bool)
        ensures
            b == canonical(addr),
    {
        addr < LOWER_HALF_END || addr >= UPPER_HALF_START
    }

    /// The page that holds the byte at `addr`.
    pub fn for_address(addr: VirtualAddress) -> (page: Page)
        requires
            canonical(addr),
        ensures
            page.number == addr / PAGE_SIZE,
            page.number < FRAME_COUNT,
    {
        Page { number: addr / PAGE_SIZE }
    }

    /// The page that the four table indices lead to.
    pub fn for_table_indices(p4: usize, p3: usize, p2: usize, p1: usize) -> (page: Page)
        requires
            p4 < 512,
            p3 < 512,
            p2 < 512,
            p1 < 512,
        ensures
            page.number == page_number(p4 as int, p3 as int, p2 as int, p1 as int),
            page.spec_p4_index() == p4,
            page.spec_p3_index() == p3,
            page.spec_p2_index() == p2,
            page.spec_p1_index() == p1,
    {
        proof {
            lemma_pack_bits(p4 as u64, p3 as u64, p2 as u64, p1 as u64);
        }
        Page { number: ((p4 as u64) << 27) | ((p3 as u64) << 18) | ((p2 as u64) << 9) | (p1 as u64) }
    }

    /// Address of the page's first byte.
    pub fn first_addr(&self) -> (addr: VirtualAddress)
        requires
            self.number < FRAME_COUNT,
        ensures
            addr == self.spec_first_addr(),
    {
        self.number * PAGE_SIZE
    }

    /// The index into the root table: bits 27 to 35 of the page number.
    pub fn p4_index(&self) -> (index: usize)
        ensures
            index == self.spec_p4_index(),
            index < 512,
    {
        proof {
            lemma_index_bits(self.number);
        }
        ((self.number >> 27) & 0o777) as usize
    }

    /// The index into the table of level 3: bits 18 to 26 of the page number.
    pub fn p3_index(&self) -> (index: usize)
        ensures
            index == self.spec_p3_index(),
            index < 512,
    {
        proof {
            lemma_index_bits(self.number);
        }
        ((self.number >> 18) & 0o777) as usize
    }

    /// The index into the table of level 2: bits 9 to 17 of the page number.
    pub fn p2_index(&self) -> (index: usize)
        ensures
            index == self.spec_p2_index(),
            index < 512,
    {
        proof {
            lemma_index_bits(self.number);
        }
        ((self.number >> 9) & 0o777) as usize
    }

    /// The index into the last table: bits 0 to 8 of the page number.
    pub fn p1_index(&self) -> (index: usize)
        ensures
            index == self.spec_p1_index(),
            index < 512,
    {
        proof {
            lemma_index_bits(self.number);
        }
        (self.number & 0o777) as usize
    }
}

/// The indices of the page of a lower-half address lead back to that page.
pub proof fn lemma_indices_round_trip(addr: u64)
    requires
        addr < LOWER_HALF_END,
    ensures
        ({
            let page = Page { number: addr / PAGE_SIZE };
            let back = Page {
                number: page_number(
                    page.spec_p4_index(),
                    page.spec_p3_index(),
                    page.spec_p2_index(),
                    page.spec_p1_index(),
                ) as u64,
            };
            back.spec_first_addr() == addr - addr % PAGE_SIZE
        }),
{
}

/// True if the two pages have the same four table indices.
pub open spec fn same_indices(a: Page, b: Page) -> bool {
    &&& a.spec_p4_index() == b.spec_p4_index()
    &&& a.spec_p3_index() == b.spec_p3_index()
    &&& a.spec_p2_index() == b.spec_p2_index()
    &&& a.spec_p1_index() == b.spec_p1_index()
}

/// Two canonical addresses in different pages differ in a table index.
pub proof fn lemma_canonical_pages_differ(a: u64, b: u64)
    by (bit_vector)
    requires
        a < 0x0000_8000_0000_0000 || a >= 0xffff_8000_0000_0000,
        b < 0x0000_8000_0000_0000 || b >= 0xffff_8000_0000_0000,
        a / 4096 != b / 4096,
    ensures
        ((a / 4096) / 0x800_0000) % 512 != ((b / 4096) / 0x800_0000) % 512 || ((a / 4096)
            / 0x4_0000) % 512 != ((b / 4096) / 0x4_0000) % 512 || ((a / 4096) / 512) % 512 != ((b
            / 4096) / 512) % 512 || (a / 4096) % 512 != (b / 4096) % 512,
{
}

} // verus!
