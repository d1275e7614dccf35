//! The table of interrupt controllers: a header, the address of the local
//! controller, flags, and behind them one entry for each controller and for
//! each interrupt that is wired in a special way.

use vstd::prelude::*;
use vstd::slice::{slice_subrange, slice_to_vec};
use crate::acpi::{AcpiSdtHeader, SDT_HEADER_SIZE};
use crate::bytes::{le16, le32, read_u16, read_u32};

verus! {

/// Size of what stands before the entries, in bytes.
pub const APIC_SDT_SIZE: usize = 44;

/// The table of interrupt controllers.
#[derive(Debug, Clone, PartialEq, Eq)]
pub struct ApicSdt {
    pub header: AcpiSdtHeader,
    /// Bytes 36 to 39: the address of the local controller.
    pub local_controller_addr: u32,
    /// Bytes 40 to 43.
    pub flags: u32,
    /// The bytes of the table, header included.
    pub bytes: Vec<u8>,
}

/// A processor and its local controller: 6 bytes.
#[derive(Debug, Clone, Copy, PartialEq, Eq, Structural)]
pub struct ProcessorApicInfo {
    pub proc_id: u8,
    pub apic_id: u8,
    pub flags: u32,
}

/// An I/O controller: 10 bytes.
#[derive(Debug, Clone, Copy, PartialEq, Eq, Structural)]
pub struct IoApicInfo {
    pub apic_id: u8,
    pub reserved: u8,
    pub address: u32,
    pub global_irq_base: u32,
}

/// An interrupt that arrives under another number than the one it has on its
/// bus: 8 bytes.
#[derive(Debug, Clone, Copy, PartialEq, Eq, Structural)]
pub struct InterruptOverrideInfo {
    pub bus: u8,
    pub source_irq_base: u8,
    pub global_irq_base: u32,
    pub flags: u16,
}

/// An interrupt that cannot be masked: 6 bytes.
#[derive(Debug, Clone, Copy, PartialEq, Eq, Structural)]
pub struct NmiSourceInfo {
    pub flags: u16,
    pub global_irq_base: u32,
}

/// The input of a local controller that the interrupt that cannot be masked
/// is wired to: 4 bytes.
#[derive(Debug, Clone, Copy, PartialEq, Eq, Structural)]
pub struct ProcessorApicNmiInfo {
    pub proc_id: u8,
    pub flags: u16,
    pub lint: u8,
}

/// An entry of the table.
#[derive(Debug, Clone, Copy, PartialEq, Eq, Structural)]
pub enum EntryType {
    ProcessorApic(ProcessorApicInfo),
    IoApic(IoApicInfo),
    InterruptOverride(InterruptOverrideInfo),
    NonMaskableInterruptSource(NmiSourceInfo),
    ProcessorApicNmi(ProcessorApicNmiInfo),
    /// An entry of a kind that is not known, with the number of its kind.
    Unknown(u8),
}

/// How many bytes an entry of this kind has behind its two leading bytes, the
/// number of its kind and its length.
pub open spec fn body_size(kind: u8) -> int {
    if kind == 0 {
        6
    } else if kind == 1 {
        10
    } else if kind == 2 {
        8
    } else if kind == 3 {
        6
    } else if kind == 4 {
        4
    } else {
        0
    }
}

/// The entry of kind `kind` whose body starts at `at`.
pub open spec fn entry_of(bytes: Seq<u8>, kind: u8, at: int) -> EntryType {
    if kind == 0 {
        EntryType::ProcessorApic(
            ProcessorApicInfo {
                proc_id: bytes[at],
                apic_id: bytes[at + 1],
                flags: le32(bytes, at + 2) as u32,
            },
        )
    } else if kind == 1 {
        EntryType::IoApic(
            IoApicInfo {
                apic_id: bytes[at],
                reserved: bytes[at + 1],
                address: le32(bytes, at + 2) as u32,
                global_irq_base: le32(bytes, at + 6) as u32,
            },
        )
    } else if kind == 2 {
        EntryType::InterruptOverride(
            InterruptOverrideInfo {
                bus: bytes[at],
                source_irq_base: bytes[at + 1],
                global_irq_base: le32(bytes, at + 2) as u32,
                flags: le16(bytes, at + 6) as u16,
            },
        )
    } else if kind == 3 {
        EntryType::NonMaskableInterruptSource(
            NmiSourceInfo { flags: le16(bytes, at) as u16, global_irq_base: le32(bytes, at + 2) as u32 },
        )
    } else if kind == 4 {
        EntryType::ProcessorApicNmi(
            ProcessorApicNmiInfo {
                proc_id: bytes[at],
                flags: le16(bytes, at + 1) as u16,
                lint: bytes[at + 3],
            },
        )
    } else {
        EntryType::Unknown(kind)
    }
}

/// The entry that starts at `offset`, if the table holds all of it: its kind
/// in the first byte, its length in the second, its body behind them.
pub open spec fn entry_at(bytes: Seq<u8>, offset: int) -> Option<EntryType> {
    if offset + 2 <= bytes.len() && offset + 2 + body_size(bytes[offset]) <= bytes.len() {
        Some(entry_of(bytes, bytes[offset], offset + 2))
    } else {
        None
    }
}

impl ApicSdt {
    /// True if the table holds the bytes that its header counts.
    pub open spec fn wf(&self) -> bool {
        self.bytes@.len() == self.header.length
    }

    /// True if `this` is the table of interrupt controllers that `table` holds.
    pub open spec fn holds(table: Seq<u8>, this: ApicSdt) -> bool {
        &&& AcpiSdtHeader::holds(table, this.header)
        &&& this.local_controller_addr == le32(table, SDT_HEADER_SIZE as int)
        &&& this.flags == le32(table, SDT_HEADER_SIZE + 4)
        &&& this.bytes@ == table.subrange(0, this.header.length as int)
    }

    /// The table of interrupt controllers that `table` holds, the bytes from
    /// the table's header on.
    pub fn read(table: &[u8]) -> (this: ApicSdt)
        requires
            table@.len() >= APIC_SDT_SIZE,
            APIC_SDT_SIZE <= le32(table@, 4) <= table@.len(),
        ensures
            Self::holds(table@, this),
            this.wf(),
    {
        let header = AcpiSdtHeader::read(table);
        ApicSdt {
            header,
            local_controller_addr: read_u32(table, SDT_HEADER_SIZE),
            flags: read_u32(table, SDT_HEADER_SIZE + 4),
            bytes: slice_to_vec(slice_subrange(table, 0, header.length as usize)),
        }
    }

    /// Goes through the entries of the table, from the first on.
    pub fn iter(&self) -> (iterator: ApicSdtIterator<'_>)
        ensures
            iterator.offset == APIC_SDT_SIZE,
            *iterator.table == *self,
    {
        ApicSdtIterator::new(self)
    }
}

/// A place in a table of interrupt controllers.
pub struct ApicSdtIterator<'a> {
    pub table: &'a ApicSdt,
    pub offset: u32,
}

impl<'a> ApicSdtIterator<'a> {
    pub fn new(table: &'a ApicSdt) -> (iterator: ApicSdtIterator<'a>)
        ensures
            iterator.offset == APIC_SDT_SIZE,
            *iterator.table == *table,
    {
        ApicSdtIterator { table, offset: APIC_SDT_SIZE as u32 }
    }

    /// The entry at the place, if the table has one more entry and holds all
    /// of it; the place moves on by the length that the entry gives for itself.
    pub fn next(&mut self) -> (entry: Option<EntryType>)
        requires
            old(self).table.wf(),
        ensures
            final(self).table == old(self).table,
            entry == if old(self).offset >= old(self).table.header.length {
                None
            } else {
                entry_at(old(self).table.bytes@, old(self).offset as int)
            },
            final(self).offset == if entry is Some {
                if old(self).offset + old(self).table.bytes@[old(self).offset + 1] > u32::MAX {
                    u32::MAX as int
                } else {
                    old(self).offset + old(self).table.bytes@[old(self).offset + 1]
                }
            } else {
                old(self).offset as int
            },
    {
        if self.offset >= self.table.header.length {
            return None;
        }
        let bytes = self.table.bytes.as_slice();
        let at = self.offset as usize;
        if bytes.len() - at < 2 {
            return None;
        }
        let kind = bytes[at];
        let length = bytes[at + 1];
        let body = at + 2;
        let room = bytes.len() - body;
        let result = if kind == 0 {
            if room < 6 {
                return None;
            }
            EntryType::ProcessorApic(
                ProcessorApicInfo {
                    proc_id: bytes[body],
                    apic_id: bytes[body + 1],
                    flags: read_u32(bytes, body + 2),
                },
            )
        } else if kind == 1 {
            if room < 10 {
                return None;
            }
            EntryType::IoApic(
                IoApicInfo {
                    apic_id: bytes[body],
                    reserved: bytes[body + 1],
                    address: read_u32(bytes, body + 2),
                    global_irq_base: read_u32(bytes, body + 6),
                },
            )
        } else if kind == 2 {
            if room < 8 {
                return None;
            }
            EntryType::InterruptOverride(
                InterruptOverrideInfo {
                    bus: bytes[body],
                    source_irq_base: bytes[body + 1],
                    global_irq_base: read_u32(bytes, body + 2),
                    flags: read_u16(bytes, body + 6),
                },
            )
        } else if kind == 3 {
            if room < 6 {
                return None;
            }
            EntryType::NonMaskableInterruptSource(
                NmiSourceInfo {
                    flags: read_u16(bytes, body),
                    global_irq_base: read_u32(bytes, body + 2),
                },
            )
        } else if kind == 4 {
            if room < 4 {
                return None;
            }
            EntryType::ProcessorApicNmi(
                ProcessorApicNmiInfo {
                    proc_id: bytes[body],
                    flags: read_u16(bytes, body + 1),
                    lint: bytes[body + 3],
                },
            )
        } else {
            EntryType::Unknown(kind)
        };
        self.offset = self.offset.saturating_add(length as u32);
        Some(result)
    }
}

} // verus!
