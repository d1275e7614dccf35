//! The way through the four levels of tables: what the tables give for four
//! indices, and how a mapping is put in and taken out level by level.

use vstd::prelude::*;
use crate::memory::paging::entry::{
    entry_bits, lemma_flag_arithmetic, Entry, EntryFlags, ENTRY_FRAME_COUNT, PRESENT, WRITEABLE,
};
use crate::memory::paging::table::{
    Level1, Level2, Level3, Level4, MapError, PageTable, ENTRY_COUNT,
};
use crate::memory::{Frame, FrameAllocator};

verus! {

/// True if `index` is the index of a slot.
pub open spec fn slot(index: int) -> bool {
    0 <= index < ENTRY_COUNT
}

/// True if the entry maps a large page.
pub open spec fn maps_huge(entry: Entry) -> bool {
    entry.present() && entry.huge()
}

/// The frame that a last-level table gives for index `i1`.
pub open spec fn lookup_p1(p1: PageTable<Level1>, i1: int) -> Option<Frame> {
    p1.entry(i1).spec_target_frame()
}

/// The frame that a level-2 table gives: through a 2 MiB page, or through the
/// table below.
pub open spec fn lookup_p2(p2: PageTable<Level2>, i2: int, i1: int) -> Option<Frame> {
    let entry = p2.entry(i2);
    if maps_huge(entry) {
        Some(Frame { number: (entry.addressed_frame().number + i1) as u64 })
    } else {
        match p2.spec_next_table(i2) {
            Some(p1) => lookup_p1(p1, i1),
            None => None,
        }
    }
}

/// The frame that a level-3 table gives: through a 1 GiB page, or through the
/// table below.
pub open spec fn lookup_p3(p3: PageTable<Level3>, i3: int, i2: int, i1: int) -> Option<Frame> {
    let entry = p3.entry(i3);
    if maps_huge(entry) {
        Some(Frame { number: (entry.addressed_frame().number + i2 * ENTRY_COUNT + i1) as u64 })
    } else {
        match p3.spec_next_table(i3) {
            Some(p2) => lookup_p2(p2, i2, i1),
            None => None,
        }
    }
}

/// The frame that the root table gives for four indices.
pub open spec fn lookup_p4(p4: PageTable<Level4>, i4: int, i3: int, i2: int, i1: int) -> Option<
    Frame,
> {
    match p4.spec_next_table(i4) {
        Some(p3) => lookup_p3(p3, i3, i2, i1),
        None => None,
    }
}

/// True if the large page that the walk for the indices meets, if any, starts
/// at a frame whose number is a multiple of the page's size in frames.
pub open spec fn aligned_p3(p3: PageTable<Level3>, i3: int, i2: int) -> bool {
    let entry = p3.entry(i3);
    if maps_huge(entry) {
        entry.addressed_frame().number % (ENTRY_COUNT * ENTRY_COUNT) as u64 == 0
    } else {
        match p3.spec_next_table(i3) {
            Some(p2) => maps_huge(p2.entry(i2)) ==> p2.entry(i2).addressed_frame().number
                % ENTRY_COUNT as u64 == 0,
            None => true,
        }
    }
}

pub open spec fn aligned_p4(p4: PageTable<Level4>, i4: int, i3: int, i2: int) -> bool {
    match p4.spec_next_table(i4) {
        Some(p3) => aligned_p3(p3, i3, i2),
        None => true,
    }
}

/// True if the tables below `p3` are where its entries say.
pub open spec fn wf_p3(p3: PageTable<Level3>) -> bool {
    &&& p3.linked()
    &&& forall|i: int|
        slot(i) && (#[trigger] p3.entry(i)).present() && !p3.entry(i).huge() ==> p3.child(
            i,
        )->0.linked()
}

/// True if the tables of the hierarchy are where its entries say.
pub open spec fn wf_p4(p4: PageTable<Level4>) -> bool {
    &&& p4.linked()
    &&& forall|i: int|
        slot(i) && (#[trigger] p4.entry(i)).present() && !p4.entry(i).huge() ==> wf_p3(
            p4.child(i)->0,
        )
}

/// The frame that a large page gives at level 3 or at level 2.
pub open spec fn lookup_huge_p3(p3: PageTable<Level3>, i3: int, i2: int, i1: int) -> Option<Frame> {
    let entry = p3.entry(i3);
    if maps_huge(entry) {
        Some(Frame { number: (entry.addressed_frame().number + i2 * ENTRY_COUNT + i1) as u64 })
    } else {
        match p3.spec_next_table(i3) {
            Some(p2) => if maps_huge(p2.entry(i2)) {
                Some(Frame { number: (p2.entry(i2).addressed_frame().number + i1) as u64 })
            } else {
                None
            },
            None => None,
        }
    }
}

/// True if nothing stands in the way of a mapping at the indices: no entry
/// on the way has the large-page flag, and the last slot, where the way
/// exists, is free.
pub open spec fn free_p2(p2: PageTable<Level2>, i2: int, i1: int) -> bool {
    &&& !p2.entry(i2).huge()
    &&& p2.spec_next_table(i2) matches Some(p1) ==> p1.entry(i1).spec_is_unused()
}

pub open spec fn free_p3(p3: PageTable<Level3>, i3: int, i2: int, i1: int) -> bool {
    &&& !p3.entry(i3).huge()
    &&& p3.spec_next_table(i3) matches Some(p2) ==> free_p2(p2, i2, i1)
}

pub open spec fn free_p4(p4: PageTable<Level4>, i4: int, i3: int, i2: int, i1: int) -> bool {
    &&& !p4.entry(i4).huge()
    &&& p4.spec_next_table(i4) matches Some(p3) ==> free_p3(p3, i3, i2, i1)
}

/// The entry in the last slot for the indices, where the way to it exists.
pub open spec fn leaf_p2(p2: PageTable<Level2>, i2: int, i1: int) -> Option<Entry> {
    match p2.spec_next_table(i2) {
        Some(p1) => Some(p1.entry(i1)),
        None => None,
    }
}

pub open spec fn leaf_p3(p3: PageTable<Level3>, i3: int, i2: int, i1: int) -> Option<Entry> {
    match p3.spec_next_table(i3) {
        Some(p2) => leaf_p2(p2, i2, i1),
        None => None,
    }
}

pub open spec fn leaf_p4(p4: PageTable<Level4>, i4: int, i3: int, i2: int, i1: int) -> Option<
    Entry,
> {
    match p4.spec_next_table(i4) {
        Some(p3) => leaf_p3(p3, i3, i2, i1),
        None => None,
    }
}

/// True if the entry `after` is what a change elsewhere leaves of `before`,
/// the entry of the same last slot: the same entry, or a free slot where
/// there was no slot before.
pub open spec fn kept(after: Option<Entry>, before: Option<Entry>) -> bool {
    match before {
        Some(entry) => after == Some(entry),
        None => after matches Some(entry) ==> entry.spec_is_unused(),
    }
}

/// True if `after` gives `value` at the indices, and at all others what
/// `before` gives, and if every last slot for other indices is in `after` as
/// it is in `before`, or is free where it is new.
pub open spec fn remapped_p2(
    after: PageTable<Level2>,
    before: PageTable<Level2>,
    i2: int,
    i1: int,
    value: Option<Frame>,
) -> bool {
    &&& after.linked()
    &&& after.spec_address() == before.spec_address()
    &&& forall|j2: int, j1: int|
        slot(j2) && slot(j1) ==> #[trigger] lookup_p2(after, j2, j1) == if j2 == i2 && j1 == i1 {
            value
        } else {
            lookup_p2(before, j2, j1)
        }
    &&& forall|j2: int|
        slot(j2) ==> maps_huge(#[trigger] after.entry(j2)) == maps_huge(before.entry(j2)) && (
        maps_huge(before.entry(j2)) ==> after.entry(j2) == before.entry(j2))
    &&& forall|j2: int, j1: int|
        slot(j2) && slot(j1) && !(j2 == i2 && j1 == i1) ==> kept(
            #[trigger] leaf_p2(after, j2, j1),
            leaf_p2(before, j2, j1),
        )
}

pub open spec fn remapped_p3(
    after: PageTable<Level3>,
    before: PageTable<Level3>,
    i3: int,
    i2: int,
    i1: int,
    value: Option<Frame>,
) -> bool {
    &&& wf_p3(after)
    &&& after.spec_address() == before.spec_address()
    &&& forall|j3: int, j2: int, j1: int|
        slot(j3) && slot(j2) && slot(j1) ==> #[trigger] lookup_p3(after, j3, j2, j1) == if j3 == i3
            && j2 == i2 && j1 == i1 {
            value
        } else {
            lookup_p3(before, j3, j2, j1)
        }
    &&& forall|j3: int, j2: int|
        slot(j3) && slot(j2) && aligned_p3(before, j3, j2) ==> #[trigger] aligned_p3(after, j3, j2)
    &&& forall|j3: int, j2: int, j1: int|
        slot(j3) && slot(j2) && slot(j1) && !(j3 == i3 && j2 == i2 && j1 == i1) ==> kept(
            #[trigger] leaf_p3(after, j3, j2, j1),
            leaf_p3(before, j3, j2, j1),
        )
}

pub open spec fn remapped_p4(
    after: PageTable<Level4>,
    before: PageTable<Level4>,
    i4: int,
    i3: int,
    i2: int,
    i1: int,
    value: Option<Frame>,
) -> bool {
    &&& wf_p4(after)
    &&& after.spec_address() == before.spec_address()
    &&& forall|j4: int, j3: int, j2: int, j1: int|
        slot(j4) && slot(j3) && slot(j2) && slot(j1) ==> #[trigger] lookup_p4(after, j4, j3, j2, j1)
            == if j4 == i4 && j3 == i3 && j2 == i2 && j1 == i1 {
            value
        } else {
            lookup_p4(before, j4, j3, j2, j1)
        }
    &&& forall|j4: int, j3: int, j2: int|
        slot(j4) && slot(j3) && slot(j2) && aligned_p4(before, j4, j3, j2) ==> #[trigger] aligned_p4(
            after,
            j4,
            j3,
            j2,
        )
    &&& forall|j4: int, j3: int, j2: int, j1: int|
        slot(j4) && slot(j3) && slot(j2) && slot(j1) && !(j4 == i4 && j3 == i3 && j2 == i2 && j1
            == i1) ==> kept(#[trigger] leaf_p4(after, j4, j3, j2, j1), leaf_p4(before, j4, j3, j2, j1))
}

/// The last-level table that the indices lead to.
pub open spec fn walk_p3(p3: PageTable<Level3>, i3: int, i2: int) -> Option<PageTable<Level1>> {
    match p3.spec_next_table(i3) {
        Some(p2) => p2.spec_next_table(i2),
        None => None,
    }
}

pub open spec fn walk_p4(p4: PageTable<Level4>, i4: int, i3: int, i2: int) -> Option<
    PageTable<Level1>,
> {
    match p4.spec_next_table(i4) {
        Some(p3) => walk_p3(p3, i3, i2),
        None => None,
    }
}

pub(crate) fn map_in_p2<A: FrameAllocator>(
    p2: &mut PageTable<Level2>,
    i2: usize,
    i1: usize,
    frame: Frame,
    flags: EntryFlags,
    allocator: &mut A,
) -> (result: Result<(), MapError>)
    requires
        i2 < ENTRY_COUNT,
        i1 < ENTRY_COUNT,
        frame.number < ENTRY_FRAME_COUNT,
        old(p2).linked(),
        free_p2(*old(p2), i2 as int, i1 as int),
    ensures
        remapped_p2(*final(p2), *old(p2), i2 as int, i1 as int, if result is Ok {
            Some(frame)
        } else {
            None
        }),
        result is Ok ==> !free_p2(*final(p2), i2 as int, i1 as int),
        result is Ok ==> (leaf_p2(*final(p2), i2 as int, i1 as int) matches Some(e) && e@
            == entry_bits(frame, flags@ | (PRESENT | WRITEABLE))),
        old(p2).spec_next_table(i2 as int) is Some ==> result is Ok,
{
    proof {
        lemma_flag_arithmetic(flags@, 0);
    }
    let p1 = match p2.next_table_create(i2, allocator) {
        Ok(table) => table,
        Err(e) => {
            return Err(e);
        },
    };
    let leaf = flags.union(EntryFlags::from_bits_truncate(PRESENT | WRITEABLE));
    p1.index_mut(i1).set(frame, leaf);
    Ok(())
}

pub(crate) fn map_in_p3<A: FrameAllocator>(
    p3: &mut PageTable<Level3>,
    i3: usize,
    i2: usize,
    i1: usize,
    frame: Frame,
    flags: EntryFlags,
    allocator: &mut A,
) -> (result: Result<(), MapError>)
    requires
        i3 < ENTRY_COUNT,
        i2 < ENTRY_COUNT,
        i1 < ENTRY_COUNT,
        frame.number < ENTRY_FRAME_COUNT,
        wf_p3(*old(p3)),
        free_p3(*old(p3), i3 as int, i2 as int, i1 as int),
    ensures
        remapped_p3(*final(p3), *old(p3), i3 as int, i2 as int, i1 as int, if result is Ok {
            Some(frame)
        } else {
            None
        }),
        result is Ok ==> !free_p3(*final(p3), i3 as int, i2 as int, i1 as int),
        result is Ok ==> (leaf_p3(*final(p3), i3 as int, i2 as int, i1 as int) matches Some(e)
            && e@ == entry_bits(frame, flags@ | (PRESENT | WRITEABLE))),
        walk_p3(*old(p3), i3 as int, i2 as int) is Some ==> result is Ok,
{
    proof {
        lemma_flag_arithmetic(0, 0);
    }
    let p2 = match p3.next_table_create(i3, allocator) {
        Ok(table) => table,
        Err(e) => {
            return Err(e);
        },
    };
    map_in_p2(p2, i2, i1, frame, flags, allocator)
}

pub(crate) fn map_in_p4<A: FrameAllocator>(
    p4: &mut PageTable<Level4>,
    i4: usize,
    i3: usize,
    i2: usize,
    i1: usize,
    frame: Frame,
    flags: EntryFlags,
    allocator: &mut A,
) -> (result: Result<(), MapError>)
    requires
        i4 < ENTRY_COUNT,
        i3 < ENTRY_COUNT,
        i2 < ENTRY_COUNT,
        i1 < ENTRY_COUNT,
        frame.number < ENTRY_FRAME_COUNT,
        wf_p4(*old(p4)),
        free_p4(*old(p4), i4 as int, i3 as int, i2 as int, i1 as int),
    ensures
        remapped_p4(*final(p4), *old(p4), i4 as int, i3 as int, i2 as int, i1 as int, if result is Ok {
            Some(frame)
        } else {
            None
        }),
        result is Ok ==> !free_p4(*final(p4), i4 as int, i3 as int, i2 as int, i1 as int),
        result is Ok ==> (leaf_p4(*final(p4), i4 as int, i3 as int, i2 as int, i1 as int) matches Some(
            e,
        ) && e@ == entry_bits(frame, flags@ | (PRESENT | WRITEABLE))),
        walk_p4(*old(p4), i4 as int, i3 as int, i2 as int) is Some ==> result is Ok,
{
    proof {
        lemma_flag_arithmetic(0, 0);
    }
    let p3 = match p4.next_table_create(i4, allocator) {
        Ok(table) => table,
        Err(e) => {
            return Err(e);
        },
    };
    map_in_p3(p3, i3, i2, i1, frame, flags, allocator)
}

pub(crate) fn unmap_in_p2(p2: &mut PageTable<Level2>, i2: usize, i1: usize) -> (frame: Frame)
    requires
        i2 < ENTRY_COUNT,
        i1 < ENTRY_COUNT,
        old(p2).linked(),
        old(p2).spec_next_table(i2 as int) matches Some(p1) && p1.entry(i1 as int).present(),
    ensures
        remapped_p2(*final(p2), *old(p2), i2 as int, i1 as int, None),
        lookup_p2(*old(p2), i2 as int, i1 as int) == Some(frame),
        free_p2(*final(p2), i2 as int, i1 as int),
{
    proof {
        lemma_flag_arithmetic(0, 0);
    }
    let p1 = p2.next_table_mut(i2).unwrap();
    let entry = p1.index_mut(i1);
    let frame = entry.target_frame().unwrap();
    entry.set_unused();
    frame
}

pub(crate) fn unmap_in_p3(p3: &mut PageTable<Level3>, i3: usize, i2: usize, i1: usize) -> (frame: Frame)
    requires
        i3 < ENTRY_COUNT,
        i2 < ENTRY_COUNT,
        i1 < ENTRY_COUNT,
        wf_p3(*old(p3)),
        walk_p3(*old(p3), i3 as int, i2 as int) matches Some(p1) && p1.entry(i1 as int).present(),
    ensures
        remapped_p3(*final(p3), *old(p3), i3 as int, i2 as int, i1 as int, None),
        lookup_p3(*old(p3), i3 as int, i2 as int, i1 as int) == Some(frame),
        free_p3(*final(p3), i3 as int, i2 as int, i1 as int),
{
    let p2 = p3.next_table_mut(i3).unwrap();
    unmap_in_p2(p2, i2, i1)
}

pub(crate) fn unmap_in_p4(p4: &mut PageTable<Level4>, i4: usize, i3: usize, i2: usize, i1: usize) -> (frame:
    Frame)
    requires
        i4 < ENTRY_COUNT,
        i3 < ENTRY_COUNT,
        i2 < ENTRY_COUNT,
        i1 < ENTRY_COUNT,
        wf_p4(*old(p4)),
        walk_p4(*old(p4), i4 as int, i3 as int, i2 as int) matches Some(p1) && p1.entry(
            i1 as int,
        ).present(),
    ensures
        remapped_p4(*final(p4), *old(p4), i4 as int, i3 as int, i2 as int, i1 as int, None),
        lookup_p4(*old(p4), i4 as int, i3 as int, i2 as int, i1 as int) == Some(frame),
        free_p4(*final(p4), i4 as int, i3 as int, i2 as int, i1 as int),
{
    let p3 = p4.next_table_mut(i4).unwrap();
    unmap_in_p3(p3, i3, i2, i1)
}

/// A page for which a mapping can be made is not mapped, and a hierarchy is
/// itself with nothing mapped anew for that page.
pub proof fn lemma_free_unmapped(p4: PageTable<Level4>, i4: int, i3: int, i2: int, i1: int)
    requires
        wf_p4(p4),
        free_p4(p4, i4, i3, i2, i1),
    ensures
        lookup_p4(p4, i4, i3, i2, i1) is None,
        remapped_p4(p4, p4, i4, i3, i2, i1, None),
{
    lemma_flag_arithmetic(0, 0);
}

/// True if the way to the last slot for the indices exists and the slot is free.
pub open spec fn free_leaf_p2(p2: PageTable<Level2>, i2: int, i1: int) -> bool {
    p2.spec_next_table(i2) matches Some(p1) && p1.entry(i1).spec_is_unused()
}

pub open spec fn free_leaf_p3(p3: PageTable<Level3>, i3: int, i2: int, i1: int) -> bool {
    p3.spec_next_table(i3) matches Some(p2) && free_leaf_p2(p2, i2, i1)
}

pub open spec fn free_leaf_p4(p4: PageTable<Level4>, i4: int, i3: int, i2: int, i1: int) -> bool {
    p4.spec_next_table(i4) matches Some(p3) && free_leaf_p3(p3, i3, i2, i1)
}

/// The first free slot of a last-level table.
pub(crate) fn find_free_in_p1(p1: &PageTable<Level1>) -> (found: Option<usize>)
    ensures
        match found {
            Some(i1) => {
                &&& i1 < ENTRY_COUNT
                &&& p1.entry(i1 as int).spec_is_unused()
                &&& forall|j1: int| 0 <= j1 < i1 ==> !(#[trigger] p1.entry(j1)).spec_is_unused()
            },
            None => forall|j1: int| slot(j1) ==> !(#[trigger] p1.entry(j1)).spec_is_unused(),
        },
{
    let mut i1: usize = 0;
    while i1 < ENTRY_COUNT
        invariant
            i1 <= ENTRY_COUNT,
            forall|j1: int| 0 <= j1 < i1 ==> !(#[trigger] p1.entry(j1)).spec_is_unused(),
        decreases ENTRY_COUNT - i1,
    {
        if p1.index(i1).is_unused() {
            return Some(i1);
        }
        i1 += 1;
    }
    None
}

/// The first free last slot below a level-2 table, in the order of the indices.
pub(crate) fn find_free_in_p2(p2: &PageTable<Level2>) -> (found: Option<(usize, usize)>)
    requires
        p2.linked(),
    ensures
        match found {
            Some((i2, i1)) => {
                &&& i2 < ENTRY_COUNT
                &&& i1 < ENTRY_COUNT
                &&& free_leaf_p2(*p2, i2 as int, i1 as int)
                &&& forall|j2: int, j1: int|
                    slot(j2) && slot(j1) && (j2 < i2 || (j2 == i2 && j1 < i1)) ==> !#[trigger] free_leaf_p2(
                        *p2,
                        j2,
                        j1,
                    )
            },
            None => forall|j2: int, j1: int|
                slot(j2) && slot(j1) ==> !#[trigger] free_leaf_p2(*p2, j2, j1),
        },
{
    let mut i2: usize = 0;
    while i2 < ENTRY_COUNT
        invariant
            i2 <= ENTRY_COUNT,
            p2.linked(),
            forall|j2: int, j1: int|
                0 <= j2 < i2 && slot(j1) ==> !#[trigger] free_leaf_p2(*p2, j2, j1),
        decreases ENTRY_COUNT - i2,
    {
        if let Some(p1) = p2.next_table(i2) {
            if let Some(i1) = find_free_in_p1(p1) {
                return Some((i2, i1));
            }
        }
        i2 += 1;
    }
    None
}

pub(crate) fn find_free_in_p3(p3: &PageTable<Level3>) -> (found: Option<(usize, usize, usize)>)
    requires
        wf_p3(*p3),
    ensures
        match found {
            Some((i3, i2, i1)) => {
                &&& i3 < ENTRY_COUNT
                &&& i2 < ENTRY_COUNT
                &&& i1 < ENTRY_COUNT
                &&& free_leaf_p3(*p3, i3 as int, i2 as int, i1 as int)
                &&& forall|j3: int, j2: int, j1: int|
                    slot(j3) && slot(j2) && slot(j1) && (j3 < i3 || (j3 == i3 && (j2 < i2 || (j2
                        == i2 && j1 < i1)))) ==> !#[trigger] free_leaf_p3(*p3, j3, j2, j1)
            },
            None => forall|j3: int, j2: int, j1: int|
                slot(j3) && slot(j2) && slot(j1) ==> !#[trigger] free_leaf_p3(*p3, j3, j2, j1),
        },
{
    let mut i3: usize = 0;
    while i3 < ENTRY_COUNT
        invariant
            i3 <= ENTRY_COUNT,
            wf_p3(*p3),
            forall|j3: int, j2: int, j1: int|
                0 <= j3 < i3 && slot(j2) && slot(j1) ==> !#[trigger] free_leaf_p3(*p3, j3, j2, j1),
        decreases ENTRY_COUNT - i3,
    {
        if let Some(p2) = p3.next_table(i3) {
            if let Some((i2, i1)) = find_free_in_p2(p2) {
                return Some((i3, i2, i1));
            }
        }
        i3 += 1;
    }
    None
}

} // verus!
