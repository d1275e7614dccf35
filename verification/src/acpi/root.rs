//! The root table: the addresses of the other tables.

use vstd::prelude::*;
use crate::acpi::{AcpiSdtHeader, SDT_HEADER_SIZE};
use crate::bytes::{le32, read_u32};

verus! {

/// The root table: a header, and behind it the addresses of the other
/// tables, four bytes each.
#[derive(Debug, Clone, PartialEq, Eq)]
pub struct AcpiRootSdt {
    pub header: AcpiSdtHeader,
    /// The addresses of the other tables.
    pub entries: Vec<u32>,
}

impl AcpiRootSdt {
    /// How many addresses a root table of `length` bytes holds.
    pub open spec fn entries_in(length: int) -> int {
        (length - SDT_HEADER_SIZE) / 4
    }

    /// True if the table has as many addresses as its length says.
    pub open spec fn wf(&self) -> bool {
        &&& self.header.length >= SDT_HEADER_SIZE
        &&& self.entries@.len() == Self::entries_in(self.header.length as int)
    }

    /// True if `this` is the root table that `table` holds.
    pub open spec fn holds(table: Seq<u8>, this: AcpiRootSdt) -> bool {
        &&& AcpiSdtHeader::holds(table, this.header)
        &&& this.wf()
        &&& forall|k: int|
            0 <= k < this.entries@.len() ==> #[trigger] this.entries@[k] == le32(
                table,
                SDT_HEADER_SIZE + 4 * k,
            )
    }

    /// The root table that `table` holds, the bytes from the table's header on.
    pub fn read(table: &[u8]) -> (this: AcpiRootSdt)
        requires
            table@.len() >= SDT_HEADER_SIZE,
            SDT_HEADER_SIZE <= le32(table@, 4) <= table@.len(),
        ensures
            Self::holds(table@, this),
    {
        let header = AcpiSdtHeader::read(table);
        let count = (header.length as usize - SDT_HEADER_SIZE) / 4;
        let mut entries: Vec<u32> = Vec::new();
        let mut k: usize = 0;
        while k < count
            invariant
                k <= count,
                count == Self::entries_in(header.length as int),
                header.length <= table@.len(),
                header.length >= SDT_HEADER_SIZE,
                entries@.len() == k,
                forall|j: int|
                    0 <= j < k ==> #[trigger] entries@[j] == le32(table@, SDT_HEADER_SIZE + 4 * j),
            decreases count - k,
        {
            entries.push(read_u32(table, SDT_HEADER_SIZE + 4 * k));
            k += 1;
        }
        AcpiRootSdt { header, entries }
    }

    /// How many addresses the table holds.
    pub fn num_entries(&self) -> (count: u32)
        requires
            self.header.length >= SDT_HEADER_SIZE,
        ensures
            count == Self::entries_in(self.header.length as int),
    {
        (self.header.length - SDT_HEADER_SIZE as u32) / 4
    }

    /// Goes through the addresses of the table, from the first on.
    pub fn iter(&self) -> (iterator: AcpiRootSdtIterator<'_>)
        ensures
            iterator.current == 0,
            *iterator.table == *self,
    {
        AcpiRootSdtIterator { current: 0, table: self }
    }
}

/// A place in a root table.
pub struct AcpiRootSdtIterator<'a> {
    pub current: u32,
    pub table: &'a AcpiRootSdt,
}

impl<'a> AcpiRootSdtIterator<'a> {
    /// The address of the next table, if there is one more. The table at the
    /// address is read with `AcpiSdtHeader::to_full_table`.
    pub fn next(&mut self) -> (address: Option<u32>)
        requires
            old(self).table.wf(),
        ensures
            final(self).table == old(self).table,
            match address {
                Some(a) => {
                    &&& old(self).current < old(self).table.entries@.len()
                    &&& a == old(self).table.entries@[old(self).current as int]
                    &&& final(self).current == old(self).current + 1
                },
                None => {
                    &&& old(self).current >= old(self).table.entries@.len()
                    &&& final(self).current == old(self).current
                },
            },
    {
        if self.current >= self.table.num_entries() {
            return None;
        }
        let address = self.table.entries[self.current as usize];
        self.current += 1;
        Some(address)
    }
}

} // verus!
