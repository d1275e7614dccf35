//! A page table: 512 entries, tagged with its depth in the hierarchy, and the
//! tables one level down that its entries lead to.

use core::marker::PhantomData;
use vstd::prelude::*;
use crate::memory::{Frame, FrameAllocator};
use crate::memory::paging::entry::{
    entry_bits, lemma_flag_arithmetic, Entry, EntryFlags, ENTRY_FRAME_COUNT, HUGE_PAGE, PRESENT,
    WRITEABLE,
};

verus! {

/// Entries in a page table.
pub const ENTRY_COUNT: usize = 512;

/// The slot of the root table that is reserved: its entry points to the root
/// table itself. Whoever sets up the root table writes that entry, and nothing
/// must be mapped through it.
pub const RECURSIVE_SLOT: usize = 511;

/// Address of the root table. Because the reserved slot of the root table
/// leads back to the root table, every table has an address, which is made of
/// this one and of the indices that lead to the table.
pub const P4_TABLE_MASK: u64 = 0o177777_777_777_777_777_0000;

/// Address of the table of level 3 that slot 0 of the root table leads to;
/// the table of slot `i` lies `i` pages above it.
pub const P3_TABLE_MASK: u64 = 0o177777_777_777_777_000_0000;

/// Address of the table of level 2 that the slots 0 and 0 lead to.
pub const P2_TABLE_MASK: u64 = 0o177777_777_777_000_000_0000;

/// Address of the table of level 1 that the slots 0, 0 and 0 lead to.
pub const P1_TABLE_MASK: u64 = 0o177777_777_000_000_000_0000;

/// The addresses of the tables below the root: the indices that lead to a
/// table stand in its address, one after the other, above the 12 bits of the
/// offset, and the bits above them are set.
pub proof fn lemma_table_addresses(i4: u64, i3: u64, i2: u64)
    by (bit_vector)
    requires
        i4 < 512,
        i3 < 512,
        i2 < 512,
    ensures
        (P4_TABLE_MASK << 9) | (i4 << 12) == P3_TABLE_MASK + i4 * 0x1000,
        (((P4_TABLE_MASK << 9) | (i4 << 12)) << 9) | (i3 << 12) == P2_TABLE_MASK + i4 * 0x20_0000
            + i3 * 0x1000,
        (((((P4_TABLE_MASK << 9) | (i4 << 12)) << 9) | (i3 << 12)) << 9) | (i2 << 12)
            == P1_TABLE_MASK + i4 * 0x4000_0000 + i3 * 0x20_0000 + i2 * 0x1000,
{
}

/// Depth of a table in the hierarchy.
pub trait TableLevel {
    /// What a slot of a table of this level owns: the table one level down,
    /// or nothing at the last level.
    type Child;
}

/// A level whose entries lead to tables of the level below.
pub trait HierarchicalLevel: TableLevel<Child = PageTable<<Self as HierarchicalLevel>::Next>> {
    type Next: TableLevel;
}

/// The level of the root table.
pub struct Level4;

pub struct Level3;

pub struct Level2;

/// The level of the tables whose entries point to the frames of pages.
pub struct Level1;

impl TableLevel for Level4 {
    type Child = PageTable<Level3>;
}

impl TableLevel for Level3 {
    type Child = PageTable<Level2>;
}

impl TableLevel for Level2 {
    type Child = PageTable<Level1>;
}

impl TableLevel for Level1 {
    type Child = ();
}

impl HierarchicalLevel for Level4 {
    type Next = Level3;
}

impl HierarchicalLevel for Level3 {
    type Next = Level2;
}

impl HierarchicalLevel for Level2 {
    type Next = Level1;
}

/// Why a table could not be made.
#[derive(Debug, Clone, Copy, PartialEq, Eq, Structural)]
pub enum MapError {
    /// The allocator has no frame left.
    OutOfFrames,
    /// The allocator gave a frame whose address does not fit into an entry.
    FrameOutOfRange,
}

/// Address of the table that slot `index` of the table at `table` leads to.
pub open spec fn child_address(table: u64, index: int) -> u64 {
    (table << 9) | ((index as u64) << 12)
}

/// A table of level `L`.
pub struct PageTable<L: TableLevel> {
    address: u64,
    entries: [Entry; 512],
    children: Vec<Option<Box<L::Child>>>,
    level: PhantomData<L>,
}

impl<L: TableLevel> PageTable<L> {
    /// Address of the table.
    pub closed spec fn spec_address(&self) -> u64 {
        self.address
    }

    /// The entry in slot `index`.
    pub closed spec fn entry(&self, index: int) -> Entry {
        self.entries[index]
    }

    /// What the slots own, slot by slot.
    pub closed spec fn slots(&self) -> Seq<Option<Box<L::Child>>> {
        self.children@
    }

    /// True if the table has its 512 slots.
    pub open spec fn shaped(&self) -> bool {
        self.slots().len() == ENTRY_COUNT
    }

    /// True if this table and `other` have the same address, the same entries
    /// and the same tables below them.
    pub open spec fn same_as(&self, other: Self) -> bool {
        &&& self.spec_address() == other.spec_address()
        &&& self.slots() =~= other.slots()
        &&& forall|j: int| 0 <= j < ENTRY_COUNT ==> #[trigger] self.entry(j) == other.entry(j)
    }

    /// True if every slot is free and owns nothing.
    pub open spec fn zeroed(&self) -> bool {
        &&& self.shaped()
        &&& forall|i: int|
            0 <= i < ENTRY_COUNT ==> (#[trigger] self.entry(i)).spec_is_unused()
        &&& forall|i: int| 0 <= i < ENTRY_COUNT ==> (#[trigger] self.slots()[i]) is None
    }

    /// A table at `address` in which every slot is free.
    pub fn new(address: u64) -> (table: Self)
        ensures
            table.spec_address() == address,
            table.zeroed(),
    {
        let mut children: Vec<Option<Box<L::Child>>> = Vec::new();
        let mut i: usize = 0;
        while i < ENTRY_COUNT
            invariant
                i <= ENTRY_COUNT,
                children.len() == i,
                forall|j: int| 0 <= j < i ==> children[j] is None,
            decreases ENTRY_COUNT - i,
        {
            children.push(None);
            i += 1;
        }
        PageTable { address, entries: [Entry::new(); 512], children, level: PhantomData }
    }

    /// Address of the table.
    pub fn address(&self) -> (address: u64)
        ensures
            address == self.spec_address(),
    {
        self.address
    }

    /// The entry in slot `idx`.
    pub fn index(&self, idx: usize) -> (entry: &Entry)
        requires
            idx < ENTRY_COUNT,
        ensures
            *entry == self.entry(idx as int),
    {
        &self.entries[idx]
    }

    /// The entry in slot `idx`, to be changed.
    pub fn index_mut(&mut self, idx: usize) -> (entry: &mut Entry)
        requires
            idx < ENTRY_COUNT,
        ensures
            *entry == old(self).entry(idx as int),
            final(self).entry(idx as int) == *final(entry),
            forall|j: int|
                0 <= j < ENTRY_COUNT && j != idx ==> #[trigger] final(self).entry(j) == old(
                    self,
                ).entry(j),
            final(self).slots() == old(self).slots(),
            final(self).spec_address() == old(self).spec_address(),
    {
        &mut self.entries[idx]
    }

    /// Frees every slot.
    pub fn zero(&mut self)
        requires
            old(self).shaped(),
        ensures
            final(self).zeroed(),
            final(self).spec_address() == old(self).spec_address(),
    {
        let mut i: usize = 0;
        while i < ENTRY_COUNT
            invariant
                i <= ENTRY_COUNT,
                self.children.len() == ENTRY_COUNT,
                self.address == old(self).address,
                forall|j: int| 0 <= j < i ==> (#[trigger] self.entries[j]).spec_is_unused(),
                forall|j: int| 0 <= j < i ==> (#[trigger] self.children[j]) is None,
            decreases ENTRY_COUNT - i,
        {
            self.entries[i].set_unused();
            self.children[i] = None;
            i += 1;
        }
    }
}

impl<L: HierarchicalLevel> PageTable<L> {
    /// The table that slot `index` owns.
    pub open spec fn child(&self, index: int) -> Option<PageTable<L::Next>> {
        match self.slots()[index] {
            Some(table) => Some(*table),
            None => None,
        }
    }

    /// True if the entry in slot `index` leads to a table: it is present and
    /// maps no large page.
    pub open spec fn descends(&self, index: int) -> bool {
        self.entry(index).present() && !self.entry(index).huge()
    }

    /// Address of the table that the entry in slot `index` leads to.
    pub open spec fn spec_next_table_address(&self, index: int) -> Option<u64> {
        if self.descends(index) {
            Some(child_address(self.spec_address(), index))
        } else {
            None
        }
    }

    /// The table that the entry in slot `index` leads to.
    pub open spec fn spec_next_table(&self, index: int) -> Option<PageTable<L::Next>> {
        if self.descends(index) {
            self.child(index)
        } else {
            None
        }
    }

    /// True if every entry that leads to a table has that table in its slot,
    /// at the address that the entry's place gives it.
    pub open spec fn linked(&self) -> bool {
        &&& self.shaped()
        &&& forall|i: int|
            0 <= i < ENTRY_COUNT && (#[trigger] self.entry(i)).present() && !self.entry(i).huge()
                ==> {
                &&& self.child(i) matches Some(table)
                &&& table.shaped()
                &&& table.spec_address() == child_address(self.spec_address(), i)
            }
    }

    /// Address of the table that slot `idx` leads to.
    pub fn next_table_address(&self, idx: usize) -> (address: Option<u64>)
        requires
            idx < ENTRY_COUNT,
        ensures
            address == self.spec_next_table_address(idx as int),
    {
        let flags = self.entries[idx].flags();
        proof {
            lemma_flag_arithmetic(0, 0);
        }
        if flags.contains(EntryFlags::from_bits_truncate(PRESENT)) && !flags.contains(
            EntryFlags::from_bits_truncate(HUGE_PAGE),
        ) {
            Some(self.address << 9 | (idx as u64) << 12)
        } else {
            None
        }
    }

    /// The table that slot `idx` leads to.
    pub fn next_table(&self, idx: usize) -> (table: Option<&PageTable<L::Next>>)
        requires
            idx < ENTRY_COUNT,
            self.shaped(),
        ensures
            table matches Some(t) ==> self.spec_next_table(idx as int) == Some(*t),
            table is None ==> self.spec_next_table(idx as int) is None,
    {
        if self.next_table_address(idx).is_some() {
            match &self.children[idx] {
                Some(table) => Some(&**table),
                None => None,
            }
        } else {
            None
        }
    }

    /// The table that slot `idx` leads to, to be changed.
    pub fn next_table_mut(&mut self, idx: usize) -> (table: Option<&mut PageTable<L::Next>>)
        requires
            idx < ENTRY_COUNT,
            old(self).shaped(),
        ensures
            table is None ==> old(self).spec_next_table(idx as int) is None && final(self).same_as(
                *old(self),
            ),
            table matches Some(t) ==> {
                &&& old(self).spec_next_table(idx as int) == Some(*t)
                &&& final(self).changed_below(*old(self), idx as int, *final(t))
            },
    {
        if self.next_table_address(idx).is_some() {
            match &mut self.children[idx] {
                Some(table) => Some(&mut **table),
                None => None,
            }
        } else {
            None
        }
    }

    /// True if this table is `before` but for slot `index`, whose entry points
    /// to `frame` as a writeable table, and which owns `below`.
    pub open spec fn installed(
        &self,
        before: Self,
        index: int,
        frame: Frame,
        below: PageTable<L::Next>,
    ) -> bool {
        &&& self.shaped()
        &&& self.spec_address() == before.spec_address()
        &&& forall|j: int|
            0 <= j < ENTRY_COUNT && j != index ==> #[trigger] self.entry(j) == before.entry(j)
        &&& forall|j: int|
            0 <= j < ENTRY_COUNT && j != index ==> #[trigger] self.child(j) == before.child(j)
        &&& self.entry(index)@ == entry_bits(frame, PRESENT | WRITEABLE)
        &&& self.descends(index)
        &&& self.child(index) == Some(below)
    }

    /// Makes slot `idx` lead to a new table that lies in `frame`, the frame
    /// that an allocator gave. Every slot of the new table is free.
    pub fn install_table(&mut self, idx: usize, frame: Option<Frame>) -> (result: Result<
        &mut PageTable<L::Next>,
        MapError,
    >)
        requires
            idx < ENTRY_COUNT,
            old(self).shaped(),
        ensures
            match result {
                Ok(table) => {
                    &&& frame matches Some(f)
                    &&& f.number < ENTRY_FRAME_COUNT
                    &&& table.zeroed()
                    &&& table.spec_address() == child_address(old(self).spec_address(), idx as int)
                    &&& final(self).installed(*old(self), idx as int, f, *final(table))
                },
                Err(MapError::OutOfFrames) => frame is None && final(self).same_as(*old(self)),
                Err(MapError::FrameOutOfRange) => {
                    &&& frame matches Some(f)
                    &&& f.number >= ENTRY_FRAME_COUNT
                    &&& final(self).same_as(*old(self))
                },
            },
    {
        match frame {
            None => Err(MapError::OutOfFrames),
            Some(f) => {
                if f.number >= ENTRY_FRAME_COUNT {
                    Err(MapError::FrameOutOfRange)
                } else {
                    proof {
                        lemma_flag_arithmetic(0, 0);
                    }
                    let flags = EntryFlags::from_bits_truncate(PRESENT | WRITEABLE);
                    self.entries[idx].set(f, flags);
                    let address = self.address << 9 | (idx as u64) << 12;
                    let table = self.children[idx].insert(Box::new(PageTable::new(address)));
                    Ok(&mut **table)
                }
            },
        }
    }

    /// The table that slot `idx` leads to. Where the slot leads to none yet,
    /// a new one is made in a frame that `allocator` gives.
    pub fn next_table_create<A: FrameAllocator>(&mut self, idx: usize, allocator: &mut A) -> (result:
        Result<&mut PageTable<L::Next>, MapError>)
        requires
            idx < ENTRY_COUNT,
            old(self).linked(),
            !old(self).entry(idx as int).huge(),
        ensures
            old(self).spec_next_table(idx as int) matches Some(below) ==> {
                &&& result matches Ok(table)
                &&& *table == below
                &&& final(self).changed_below(*old(self), idx as int, *final(table))
            },
            old(self).spec_next_table(idx as int) is None ==> match result {
                Ok(table) => {
                    &&& table.zeroed()
                    &&& table.spec_address() == child_address(old(self).spec_address(), idx as int)
                    &&& exists|f: Frame|
                        f.number < ENTRY_FRAME_COUNT && #[trigger] final(self).installed(
                            *old(self),
                            idx as int,
                            f,
                            *final(table),
                        )
                },
                Err(_) => final(self).same_as(*old(self)),
            },
    {
        if self.next_table(idx).is_none() {
            let frame = allocator.allocate();
            self.install_table(idx, frame)
        } else {
            Ok(self.next_table_mut(idx).unwrap())
        }
    }

    /// True if this table is `before` but for the table in slot `index`, which
    /// is `below`.
    pub open spec fn changed_below(&self, before: Self, index: int, below: PageTable<L::Next>) -> bool {
        &&& self.shaped()
        &&& self.spec_address() == before.spec_address()
        &&& forall|j: int| 0 <= j < ENTRY_COUNT ==> #[trigger] self.entry(j) == before.entry(j)
        &&& forall|j: int|
            0 <= j < ENTRY_COUNT && j != index ==> #[trigger] self.child(j) == before.child(j)
        &&& self.child(index) == Some(below)
    }
}

} // verus!
