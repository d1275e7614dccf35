//! Virtual memory: the four-level table that maps pages to frames.

use vstd::prelude::*;
use crate::memory::paging::entry::{
    entry_bits, lemma_flag_arithmetic, Entry, EntryFlags, ENTRY_FRAME_COUNT, HUGE_PAGE, PRESENT,
    WRITEABLE,
};
use crate::memory::paging::page::{
    canonical, lemma_canonical_pages_differ, lemma_index_bits, page_number, same_indices,
};
use crate::memory::paging::table::{
    child_address, lemma_table_addresses, Level3, Level4, MapError, PageTable, ENTRY_COUNT,
    P1_TABLE_MASK, P4_TABLE_MASK,
};
use crate::memory::paging::walk::{
    aligned_p3, aligned_p4, find_free_in_p3, free_leaf_p4, free_p4, leaf_p4, lemma_free_unmapped,
    lookup_huge_p3, lookup_p4, map_in_p4, maps_huge, remapped_p4, slot, unmap_in_p4, walk_p4,
    wf_p3, wf_p4,
};
use crate::memory::{Frame, FrameAllocator, FRAME_COUNT, PAGE_SIZE};

pub use crate::memory::paging::page::{Page, PhysicalAddress, VirtualAddress};

pub mod entry;
pub mod page;
pub mod table;
pub mod walk;

verus! {

/// The root of the table hierarchy.
///
/// Whatever changes the tables takes the hierarchy by `&mut`: there is one
/// writer at a time, and no reader beside it. Sharing a hierarchy between
/// several owners takes a lock around it.
pub struct PageTableHead {
    p4: PageTable<Level4>,
}

impl PageTableHead {
    /// The root table.
    pub closed spec fn root(&self) -> PageTable<Level4> {
        self.p4
    }

    /// True if the root table is at its address and every other table of the
    /// hierarchy is where the entry that leads to it says.
    pub open spec fn wf(&self) -> bool {
        self.root().spec_address() == P4_TABLE_MASK && wf_p4(self.root())
    }

    /// The frame that `page` is mapped to.
    pub open spec fn spec_translate_page(&self, page: Page) -> Option<Frame> {
        lookup_p4(
            self.root(),
            page.spec_p4_index(),
            page.spec_p3_index(),
            page.spec_p2_index(),
            page.spec_p1_index(),
        )
    }

    /// The physical address that `addr` is mapped to.
    pub open spec fn spec_translate(&self, addr: u64) -> Option<int> {
        match self.spec_translate_page(Page { number: addr / PAGE_SIZE }) {
            Some(frame) => Some(frame.number * PAGE_SIZE + addr % PAGE_SIZE),
            None => None,
        }
    }

    /// True if no misplaced large page lies on the way to `page`.
    pub open spec fn huge_pages_aligned(&self, page: Page) -> bool {
        aligned_p4(self.root(), page.spec_p4_index(), page.spec_p3_index(), page.spec_p2_index())
    }

    /// The first frame of the 1 GiB page that holds `page`, where an entry of
    /// the second table on the way maps such a page.
    pub open spec fn gigabyte_page(&self, page: Page) -> Option<Frame> {
        match self.root().spec_next_table(page.spec_p4_index()) {
            Some(p3) => if maps_huge(p3.entry(page.spec_p3_index())) {
                Some(p3.entry(page.spec_p3_index()).addressed_frame())
            } else {
                None
            },
            None => None,
        }
    }

    /// A hierarchy that maps nothing.
    pub fn new() -> (head: PageTableHead)
        ensures
            head.wf(),
            head.root().zeroed(),
            head.root().spec_address() == P4_TABLE_MASK,
            forall|page: Page| head.spec_translate_page(page) is None,
            forall|page: Page| #[trigger] head.mappable(page),
            forall|page: Page| #[trigger] head.huge_pages_aligned(page),
    {
        proof {
            lemma_flag_arithmetic(0, 0);
        }
        PageTableHead { p4: PageTable::new(P4_TABLE_MASK) }
    }

    /// The root table.
    pub fn get_p4(&self) -> (p4: &PageTable<Level4>)
        ensures
            *p4 == self.root(),
    {
        &self.p4
    }

    /// The root table, to be changed.
    pub fn get_p4_mut(&mut self) -> (p4: &mut PageTable<Level4>)
        ensures
            *p4 == old(self).root(),
            final(self).root() == *final(p4),
    {
        &mut self.p4
    }

    /// The frame that a large page on the way to `page` gives.
    fn huge_page(p3: &PageTable<Level3>, page: Page) -> (frame: Option<Frame>)
        requires
            wf_p3(*p3),
            aligned_p3(*p3, page.spec_p3_index(), page.spec_p2_index()),
        ensures
            frame == lookup_huge_p3(
                *p3,
                page.spec_p3_index(),
                page.spec_p2_index(),
                page.spec_p1_index(),
            ),
            frame matches Some(f) ==> f.number < 2 * ENTRY_FRAME_COUNT,
    {
        proof {
            lemma_flag_arithmetic(0, 0);
        }
        let huge = EntryFlags::from_bits_truncate(HUGE_PAGE);
        let p3_entry = p3.index(page.p3_index());
        if let Some(frame) = p3_entry.target_frame() {
            if p3_entry.flags().contains(huge) {
                return Some(
                    Frame {
                        number: frame.number + (page.p2_index() * ENTRY_COUNT) as u64
                            + page.p1_index() as u64,
                    },
                );
            }
        }
        if let Some(p2) = p3.next_table(page.p3_index()) {
            let p2_entry = p2.index(page.p2_index());
            if let Some(frame) = p2_entry.target_frame() {
                if p2_entry.flags().contains(huge) {
                    return Some(Frame { number: frame.number + page.p1_index() as u64 });
                }
            }
        }
        None
    }

    /// The frame that `page` is mapped to: the frame in the last of four
    /// tables, or a frame inside a large page that an entry on the way maps.
    pub fn translate_page(&self, page: Page) -> (frame: Option<Frame>)
        requires
            self.wf(),
            self.huge_pages_aligned(page),
        ensures
            frame == self.spec_translate_page(page),
            frame matches Some(f) ==> f.number < 2 * ENTRY_FRAME_COUNT,
    {
        let p4 = self.get_p4();
        let p3 = p4.next_table(page.p4_index());
        let walked = match p3 {
            Some(p3) => match p3.next_table(page.p3_index()) {
                Some(p2) => match p2.next_table(page.p2_index()) {
                    Some(p1) => p1.index(page.p1_index()).target_frame(),
                    None => None,
                },
                None => None,
            },
            None => None,
        };
        match walked {
            Some(frame) => Some(frame),
            None => match p3 {
                Some(p3) => Self::huge_page(p3, page),
                None => None,
            },
        }
    }

    /// The entry in the last slot on the way to `page`, where the way exists.
    pub open spec fn leaf(&self, page: Page) -> Option<Entry> {
        leaf_p4(
            self.root(),
            page.spec_p4_index(),
            page.spec_p3_index(),
            page.spec_p2_index(),
            page.spec_p1_index(),
        )
    }

    /// True if the three tables on the way to `page` exist, so that a mapping
    /// for the page needs no frame for a table.
    pub open spec fn tables_exist(&self, page: Page) -> bool {
        walk_p4(self.root(), page.spec_p4_index(), page.spec_p3_index(), page.spec_p2_index())
            is Some
    }

    /// True if the last entry on the way to `page` points to `frame`, with
    /// `flags` and as present and writeable.
    pub open spec fn mapped_with(&self, page: Page, frame: Frame, flags: u64) -> bool {
        self.leaf(page) matches Some(e) && e@ == entry_bits(frame, flags | (PRESENT | WRITEABLE))
    }

    /// True if a mapping can be made for `page`: no entry on the way has the
    /// large-page flag, and the last slot, where the way exists, is free.
    pub open spec fn mappable(&self, page: Page) -> bool {
        free_p4(
            self.root(),
            page.spec_p4_index(),
            page.spec_p3_index(),
            page.spec_p2_index(),
            page.spec_p1_index(),
        )
    }

    /// True if `page` is mapped through all four levels.
    pub open spec fn unmappable(&self, page: Page) -> bool {
        walk_p4(self.root(), page.spec_p4_index(), page.spec_p3_index(), page.spec_p2_index())
            matches Some(p1) && p1.entry(page.spec_p1_index()).present()
    }

    /// True if this hierarchy maps `page` to `value` and every page with other
    /// indices as `before` does, and no large page has got out of place.
    pub open spec fn remapped(&self, before: PageTableHead, page: Page, value: Option<Frame>) -> bool {
        remapped_p4(
            self.root(),
            before.root(),
            page.spec_p4_index(),
            page.spec_p3_index(),
            page.spec_p2_index(),
            page.spec_p1_index(),
            value,
        )
    }

    /// True if a call of `translate_page` is in order for `page`.
    pub fn can_translate(&self, page: &Page) -> (b: bool)
        requires
            self.wf(),
        ensures
            b == self.huge_pages_aligned(*page),
    {
        proof {
            lemma_flag_arithmetic(0, 0);
        }
        let huge = EntryFlags::from_bits_truncate(HUGE_PAGE);
        match self.p4.next_table(page.p4_index()) {
            None => true,
            Some(p3) => {
                let p3_entry = p3.index(page.p3_index());
                match p3_entry.target_frame() {
                    Some(frame) if p3_entry.flags().contains(huge) => frame.number % (ENTRY_COUNT
                        * ENTRY_COUNT) as u64 == 0,
                    _ => match p3.next_table(page.p3_index()) {
                        None => true,
                        Some(p2) => {
                            let p2_entry = p2.index(page.p2_index());
                            match p2_entry.target_frame() {
                                Some(frame) if p2_entry.flags().contains(huge) => frame.number
                                    % ENTRY_COUNT as u64 == 0,
                                _ => true,
                            }
                        },
                    },
                }
            },
        }
    }

    /// True if a call of `map_to` is in order for `page`.
    pub fn can_map(&self, page: &Page) -> (b: bool)
        requires
            self.wf(),
        ensures
            b == self.mappable(*page),
    {
        proof {
            lemma_flag_arithmetic(0, 0);
        }
        let huge = EntryFlags::from_bits_truncate(HUGE_PAGE);
        let p4 = &self.p4;
        if p4.index(page.p4_index()).flags().contains(huge) {
            return false;
        }
        let p3 = match p4.next_table(page.p4_index()) {
            Some(table) => table,
            None => {
                return true;
            },
        };
        if p3.index(page.p3_index()).flags().contains(huge) {
            return false;
        }
        let p2 = match p3.next_table(page.p3_index()) {
            Some(table) => table,
            None => {
                return true;
            },
        };
        if p2.index(page.p2_index()).flags().contains(huge) {
            return false;
        }
        match p2.next_table(page.p2_index()) {
            Some(p1) => p1.index(page.p1_index()).is_unused(),
            None => true,
        }
    }

    /// True if a call of `unmap` is in order for `page`, as far as the tables go.
    pub fn can_unmap(&self, page: &Page) -> (b: bool)
        requires
            self.wf(),
        ensures
            b == self.unmappable(*page),
    {
        match self.p4.next_table(page.p4_index()) {
            Some(p3) => match p3.next_table(page.p3_index()) {
                Some(p2) => match p2.next_table(page.p2_index()) {
                    Some(p1) => p1.index(page.p1_index()).target_frame().is_some(),
                    None => false,
                },
                None => false,
            },
            None => false,
        }
    }

    /// The physical address that `addr` is mapped to, or `None` where it is
    /// not mapped.
    pub fn translate(&self, addr: VirtualAddress) -> (physical: Option<PhysicalAddress>)
        requires
            canonical(addr),
            self.wf(),
            self.huge_pages_aligned(Page { number: addr / PAGE_SIZE }),
        ensures
            physical matches Some(a) ==> self.spec_translate(addr) == Some(a as int),
            physical is None ==> self.spec_translate(addr) is None,
    {
        let offset = addr % PAGE_SIZE;
        match self.translate_page(Page::for_address(addr)) {
            Some(frame) => Some(frame.number * PAGE_SIZE + offset),
            None => None,
        }
    }

    /// Maps `page` to `frame`, with `flags` and as present and writeable.
    /// Tables that the way to the page still lacks are made in frames that
    /// `allocator` gives; where it fails to give one, nothing is mapped.
    pub fn map_to<A: FrameAllocator>(
        &mut self,
        page: &Page,
        frame: Frame,
        flags: EntryFlags,
        allocator: &mut A,
    ) -> (result: Result<(), MapError>)
        requires
            old(self).wf(),
            old(self).mappable(*page),
            frame.number < ENTRY_FRAME_COUNT,
        ensures
            final(self).wf(),
            final(self).remapped(*old(self), *page, if result is Ok {
                Some(frame)
            } else {
                None
            }),
            old(self).spec_translate_page(*page) is None,
            result is Ok ==> final(self).spec_translate_page(*page) == Some(frame),
            result is Ok ==> final(self).mapped_with(*page, frame, flags@),
            result is Err ==> final(self).spec_translate_page(*page) is None,
            result is Ok ==> !final(self).mappable(*page),
            old(self).tables_exist(*page) ==> result is Ok,
    {
        proof {
            lemma_flag_arithmetic(0, 0);
            lemma_index_bits(page.number);
        }
        map_in_p4(
            &mut self.p4,
            page.p4_index(),
            page.p3_index(),
            page.p2_index(),
            page.p1_index(),
            frame,
            flags,
            allocator,
        )
    }

    /// Maps `page` to `frame`, the frame that an allocator gave for it.
    pub fn map_frame<A: FrameAllocator>(
        &mut self,
        page: &Page,
        frame: Option<Frame>,
        flags: EntryFlags,
        allocator: &mut A,
    ) -> (result: Result<Frame, MapError>)
        requires
            old(self).wf(),
            old(self).mappable(*page),
        ensures
            final(self).wf(),
            final(self).remapped(*old(self), *page, match result {
                Ok(f) => Some(f),
                Err(_) => None,
            }),
            result matches Ok(f) ==> frame == Some(f) && !final(self).mappable(*page),
            result matches Ok(f) ==> final(self).mapped_with(*page, f, flags@),
            frame is None ==> result == Err::<Frame, MapError>(MapError::OutOfFrames),
            frame matches Some(f) && f.number >= ENTRY_FRAME_COUNT ==> result == Err::<Frame, MapError>(
                MapError::FrameOutOfRange,
            ),
            frame matches Some(f) && f.number < ENTRY_FRAME_COUNT && old(self).tables_exist(*page)
                ==> result is Ok,
    {
        proof {
            lemma_free_unmapped(
                self.p4,
                page.spec_p4_index(),
                page.spec_p3_index(),
                page.spec_p2_index(),
                page.spec_p1_index(),
            );
        }
        match frame {
            None => Err(MapError::OutOfFrames),
            Some(f) => {
                if f.number >= ENTRY_FRAME_COUNT {
                    Err(MapError::FrameOutOfRange)
                } else {
                    match self.map_to(page, f, flags, allocator) {
                        Ok(()) => Ok(f),
                        Err(e) => Err(e),
                    }
                }
            },
        }
    }

    /// Maps `page` to a frame that `allocator` gives, and returns the frame.
    pub fn map<A: FrameAllocator>(&mut self, page: &Page, flags: EntryFlags, allocator: &mut A) -> (result:
        Result<Frame, MapError>)
        requires
            old(self).wf(),
            old(self).mappable(*page),
        ensures
            final(self).wf(),
            final(self).remapped(*old(self), *page, match result {
                Ok(f) => Some(f),
                Err(_) => None,
            }),
            result is Ok ==> !final(self).mappable(*page),
            result matches Ok(f) ==> final(self).mapped_with(*page, f, flags@),
    {
        let frame = allocator.allocate();
        self.map_frame(page, frame, flags, allocator)
    }

    /// Maps the page with the number of `frame` to `frame`.
    pub fn identity_map<A: FrameAllocator>(&mut self, frame: Frame, flags: EntryFlags, allocator: &mut A) -> (result:
        Result<(), MapError>)
        requires
            old(self).wf(),
            frame.number < ENTRY_FRAME_COUNT,
            canonical((frame.number * PAGE_SIZE) as u64),
            old(self).mappable(Page { number: frame.number }),
        ensures
            final(self).wf(),
            final(self).remapped(*old(self), Page { number: frame.number }, if result is Ok {
                Some(frame)
            } else {
                None
            }),
            result is Ok ==> !final(self).mappable(Page { number: frame.number }),
            result is Ok ==> final(self).mapped_with(Page { number: frame.number }, frame, flags@),
            old(self).tables_exist(Page { number: frame.number }) ==> result is Ok,
    {
        let page = Page::for_address(frame.first_addr());
        self.map_to(&page, frame, flags, allocator)
    }

    /// Takes the mapping of `page` away, hands its frame back to `allocator`
    /// and returns the frame. The page's address must afterwards be dropped
    /// from the processor's translation cache; tables that have become empty
    /// stay.
    pub fn unmap<A: FrameAllocator>(&mut self, page: Page, allocator: &mut A) -> (frame: Frame)
        requires
            old(self).wf(),
            page.number < FRAME_COUNT,
            canonical((page.number * PAGE_SIZE) as u64),
            old(self).unmappable(page),
        ensures
            final(self).wf(),
            final(self).remapped(*old(self), page, None),
            old(self).spec_translate_page(page) == Some(frame),
            final(self).spec_translate_page(page) is None,
            final(self).mappable(page),
    {
        proof {
            lemma_index_bits(page.number);
        }
        let frame = unmap_in_p4(
            &mut self.p4,
            page.p4_index(),
            page.p3_index(),
            page.p2_index(),
            page.p1_index(),
        );
        allocator.dealloc(frame);
        frame
    }

    /// True if the way to the last slot for the indices exists and the slot is free.
    pub open spec fn free_leaf(&self, i4: int, i3: int, i2: int, i1: int) -> bool {
        slot(i4) && slot(i3) && slot(i2) && slot(i1) && free_leaf_p4(self.root(), i4, i3, i2, i1)
    }

    /// True if some last slot of the hierarchy as it stands is free.
    pub open spec fn has_free_leaf(&self) -> bool {
        exists|i4: int, i3: int, i2: int, i1: int| #[trigger] self.free_leaf(i4, i3, i2, i1)
    }

    /// True if `page` is the first page, by number, whose last slot exists
    /// and is free.
    pub open spec fn first_free_page(&self, page: Page) -> bool {
        &&& self.free_leaf(
            page.spec_p4_index(),
            page.spec_p3_index(),
            page.spec_p2_index(),
            page.spec_p1_index(),
        )
        &&& page.number == page_number(
            page.spec_p4_index(),
            page.spec_p3_index(),
            page.spec_p2_index(),
            page.spec_p1_index(),
        )
        &&& forall|j4: int, j3: int, j2: int, j1: int| #[trigger]
            self.free_leaf(j4, j3, j2, j1) ==> page.number <= page_number(j4, j3, j2, j1)
    }

    /// The first page, by number, that could be mapped without a new table.
    pub fn find_free_page(&self) -> (found: Option<Page>)
        requires
            self.wf(),
        ensures
            found matches Some(page) ==> self.first_free_page(page),
            found is None ==> !self.has_free_leaf(),
    {
        let mut i4: usize = 0;
        while i4 < ENTRY_COUNT
            invariant
                i4 <= ENTRY_COUNT,
                self.wf(),
                forall|j4: int, j3: int, j2: int, j1: int|
                    0 <= j4 < i4 ==> !#[trigger] self.free_leaf(j4, j3, j2, j1),
            decreases ENTRY_COUNT - i4,
        {
            if let Some(p3) = self.p4.next_table(i4) {
                if let Some((i3, i2, i1)) = find_free_in_p3(p3) {
                    return Some(Page::for_table_indices(i4, i3, i2, i1));
                }
            }
            i4 += 1;
        }
        None
    }
}

/// Maps the page with the number of `frame` to `frame`, without further flags.
pub fn simple_id_map<A: FrameAllocator>(table: &mut PageTableHead, frame: Frame, allocator: &mut A) -> (result:
    Result<(), MapError>)
    requires
        old(table).wf(),
        frame.number < ENTRY_FRAME_COUNT,
        canonical((frame.number * PAGE_SIZE) as u64),
        old(table).mappable(Page { number: frame.number }),
    ensures
        final(table).wf(),
        final(table).remapped(*old(table), Page { number: frame.number }, if result is Ok {
            Some(frame)
        } else {
            None
        }),
        result is Ok ==> !final(table).mappable(Page { number: frame.number }),
        result is Ok ==> (final(table).leaf(Page { number: frame.number }) matches Some(e) && e@
            == entry_bits(frame, PRESENT | WRITEABLE)),
        old(table).tables_exist(Page { number: frame.number }) ==> result is Ok,
{
    proof {
        lemma_flag_arithmetic(0, 0);
    }
    table.identity_map(frame, EntryFlags::empty(), allocator)
}

/// Maps the first page that needs no new table to a frame that `allocator`
/// gives, without further flags, and returns the page.
pub fn alloc_any<A: FrameAllocator>(table: &mut PageTableHead, allocator: &mut A) -> (result: Result<
    Page,
    MapError,
>)
    requires
        old(table).wf(),
        old(table).has_free_leaf(),
    ensures
        final(table).wf(),
        match result {
            Ok(page) => {
                &&& old(table).first_free_page(page)
                &&& final(table).spec_translate_page(page) matches Some(frame)
                &&& final(table).remapped(*old(table), page, Some(frame))
                &&& final(table).leaf(page) matches Some(e)
                &&& e@ == entry_bits(frame, PRESENT | WRITEABLE)
            },
            Err(_) => forall|page: Page|
                old(table).first_free_page(page) ==> final(table).remapped(*old(table), page, None),
        },
{
    let page = table.find_free_page().unwrap();
    proof {
        lemma_flag_arithmetic(0, 0);
    }
    match table.map(&page, EntryFlags::empty(), allocator) {
        Ok(_) => Ok(page),
        Err(e) => Err(e),
    }
}

/// What a changed hierarchy gives for pages and for addresses: the new
/// value for the page that changed and for every address inside it, the old
/// value for every page with other indices.
pub proof fn lemma_remapped_translate(
    after: PageTableHead,
    before: PageTableHead,
    page: Page,
    value: Option<Frame>,
)
    requires
        after.remapped(before, page, value),
    ensures
        before.wf() ==> after.wf(),
        after.spec_translate_page(page) == value,
        forall|addr: u64| #[trigger]
            (addr / PAGE_SIZE) == page.number ==> after.spec_translate(addr) == match value {
                Some(frame) => Some(frame.number * PAGE_SIZE + addr % PAGE_SIZE),
                None => None,
            },
        forall|other: Page|
            !same_indices(other, page) ==> #[trigger] after.spec_translate_page(other)
                == before.spec_translate_page(other),
        forall|other: Page|
            before.huge_pages_aligned(other) ==> #[trigger] after.huge_pages_aligned(other),
{
    assert forall|other: Page|
        !same_indices(other, page) implies #[trigger] after.spec_translate_page(other)
        == before.spec_translate_page(other) by {
        lemma_index_bits(other.number);
    }
    assert forall|other: Page| before.huge_pages_aligned(other) implies #[trigger] after.huge_pages_aligned(
        other,
    ) by {
        lemma_index_bits(other.number);
    }
    lemma_index_bits(page.number);
}

/// A change to the mapping of one page leaves every canonical address in
/// another page where it was, given that the page that changed holds
/// canonical addresses too.
pub proof fn lemma_remapped_elsewhere(
    after: PageTableHead,
    before: PageTableHead,
    page: Page,
    value: Option<Frame>,
    addr: u64,
)
    requires
        after.remapped(before, page, value),
        page.number < FRAME_COUNT,
        canonical((page.number * PAGE_SIZE) as u64),
        canonical(addr),
        addr / PAGE_SIZE != page.number,
    ensures
        after.spec_translate(addr) == before.spec_translate(addr),
{
    lemma_canonical_pages_differ((page.number * PAGE_SIZE) as u64, addr);
    lemma_remapped_translate(after, before, page, value);
    let other = Page { number: addr / PAGE_SIZE };
    assert(!same_indices(other, page));
}

/// Mapping a page and then translating an address inside it gives the
/// matching address inside the frame; after the page is unmapped, the same
/// address is not mapped.
pub proof fn lemma_map_translate_unmap(
    before: PageTableHead,
    mapped: PageTableHead,
    unmapped: PageTableHead,
    page: Page,
    frame: Frame,
    addr: u64,
)
    requires
        mapped.remapped(before, page, Some(frame)),
        unmapped.remapped(mapped, page, None),
        addr / PAGE_SIZE == page.number,
    ensures
        mapped.spec_translate(addr) == Some(frame.number * PAGE_SIZE + addr % PAGE_SIZE),
        unmapped.spec_translate(addr) is None,
{
    lemma_remapped_translate(mapped, before, page, Some(frame));
    lemma_remapped_translate(unmapped, mapped, page, None);
}

/// Unmapping a page that was mapped before leaves every page mapped as it was
/// before the page was mapped.
pub proof fn lemma_unmap_undoes_map(
    before: PageTableHead,
    mapped: PageTableHead,
    unmapped: PageTableHead,
    page: Page,
    frame: Frame,
)
    requires
        before.mappable(page),
        before.wf(),
        mapped.remapped(before, page, Some(frame)),
        unmapped.remapped(mapped, page, None),
    ensures
        forall|other: Page| #[trigger]
            unmapped.spec_translate_page(other) == before.spec_translate_page(other),
{
    lemma_free_unmapped(
        before.root(),
        page.spec_p4_index(),
        page.spec_p3_index(),
        page.spec_p2_index(),
        page.spec_p1_index(),
    );
    lemma_remapped_translate(mapped, before, page, Some(frame));
    lemma_remapped_translate(unmapped, mapped, page, None);
    assert forall|other: Page| #[trigger]
        unmapped.spec_translate_page(other) == before.spec_translate_page(other) by {
        lemma_index_bits(other.number);
        lemma_index_bits(page.number);
        if !same_indices(other, page) {
            assert(mapped.spec_translate_page(other) == before.spec_translate_page(other));
        }
    }
}

/// A page that is mapped is not open to a mapping: `map_to`, `map_frame` and
/// `map` take a page that is `mappable` only, so none of them is in order
/// for it, and the mapping that is there stays.
pub proof fn lemma_mapped_page_not_mappable(head: PageTableHead, page: Page)
    requires
        head.wf(),
        head.spec_translate_page(page) is Some,
    ensures
        !head.mappable(page),
{
    if head.mappable(page) {
        lemma_free_unmapped(
            head.root(),
            page.spec_p4_index(),
            page.spec_p3_index(),
            page.spec_p2_index(),
            page.spec_p1_index(),
        );
    }
}

/// A page that has just been mapped is not open to a second mapping,
/// whatever it was mapped to and whatever else the hierarchy holds.
pub proof fn lemma_no_second_mapping(
    before: PageTableHead,
    mapped: PageTableHead,
    page: Page,
    frame: Frame,
)
    requires
        before.wf(),
        mapped.remapped(before, page, Some(frame)),
    ensures
        mapped.wf(),
        mapped.spec_translate_page(page) == Some(frame),
        !mapped.mappable(page),
{
    lemma_remapped_translate(mapped, before, page, Some(frame));
    lemma_mapped_page_not_mappable(mapped, page);
}

/// A page inside a 1 GiB page is translated only where the 1 GiB page starts
/// at a frame whose number is a multiple of 512 * 512: `translate_page` and
/// `translate` are in order for no other. Where it does, the page's frame
/// lies as many frames behind that start as the page's last two indices say.
pub proof fn lemma_gigabyte_page(head: PageTableHead, page: Page)
    requires
        head.wf(),
        head.gigabyte_page(page) is Some,
    ensures
        head.huge_pages_aligned(page) <==> head.gigabyte_page(page)->0.number % 262144 == 0,
        head.spec_translate_page(page) == Some(
            Frame {
                number: (head.gigabyte_page(page)->0.number + page.spec_p2_index() * 512
                    + page.spec_p1_index()) as u64,
            },
        ),
        head.gigabyte_page(page)->0.number + page.spec_p2_index() * 512 + page.spec_p1_index()
            < 2 * ENTRY_FRAME_COUNT,
        !head.mappable(page),
        !head.unmappable(page),
{
    lemma_index_bits(page.number);
    let p3 = head.root().spec_next_table(page.spec_p4_index())->0;
    lemma_flag_arithmetic(p3.entry(page.spec_p3_index())@, 0);
}

/// A page that `find_free_page` gives can be mapped, and mapping it needs no
/// new table.
pub proof fn lemma_free_page_mappable(head: PageTableHead, page: Page)
    requires
        head.wf(),
        head.first_free_page(page),
    ensures
        head.mappable(page),
        head.tables_exist(page),
{
    lemma_flag_arithmetic(0, 0);
}

/// The last table on the way to a page lies at the address that is made of
/// the page's first three indices.
pub proof fn lemma_last_table_address(head: PageTableHead, page: Page)
    requires
        head.wf(),
    ensures
        walk_p4(head.root(), page.spec_p4_index(), page.spec_p3_index(), page.spec_p2_index())
            matches Some(p1) ==> p1.spec_address() == P1_TABLE_MASK + page.spec_p4_index()
            * 0x4000_0000 + page.spec_p3_index() * 0x20_0000 + page.spec_p2_index() * 0x1000,
{
    lemma_index_bits(page.number);
    let i4 = page.spec_p4_index();
    let i3 = page.spec_p3_index();
    let i2 = page.spec_p2_index();
    lemma_table_addresses(i4 as u64, i3 as u64, i2 as u64);
    if let Some(p3) = head.root().spec_next_table(i4) {
        assert(p3.spec_address() == child_address(P4_TABLE_MASK, i4));
        if let Some(p2) = p3.spec_next_table(i3) {
            assert(p2.spec_address() == child_address(p3.spec_address(), i3));
        }
    }
}

} // verus!
