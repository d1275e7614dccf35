use boros::memory::area_frame_allocator::{AreaFrameAllocator, MemoryArea};
use boros::memory::paging::entry::{
    Entry, EntryFlags, ACCESSED, ALL_FLAGS, DIRTY, GLOBAL, HUGE_PAGE, NO_CACHE, NO_EXECUTE, PRESENT,
    USER_ACCESSIBLE, WRITEABLE, WRITE_THROUGH,
};
use boros::memory::paging::page::Page;
use boros::memory::paging::table::{
    Level1, Level4, MapError, PageTable, P1_TABLE_MASK, P2_TABLE_MASK, P3_TABLE_MASK, P4_TABLE_MASK,
};
use boros::memory::paging::{alloc_any, simple_id_map, PageTableHead};
use boros::memory::{Frame, FrameAllocator, PAGE_SIZE};

/// An allocator with `frames` frames, from frame 0x1000 on.
fn allocator(frames: u64) -> AreaFrameAllocator {
    let far = 0xf000_0000_0000;
    AreaFrameAllocator::new(
        far,
        far,
        far,
        far,
        far,
        vec![MemoryArea { base_addr: 0x0100_0000, length: frames * PAGE_SIZE }],
    )
}

fn flags(bits: u64) -> EntryFlags {
    EntryFlags::from_bits(bits).unwrap()
}

#[test]
fn allocator_for_the_tests_starts_at_frame_0x1000() {
    let mut a = allocator(2);
    assert_eq!(a.allocate(), Some(Frame::new(0x1000)));
    assert_eq!(a.allocate(), Some(Frame::new(0x1001)));
    assert_eq!(a.allocate(), None);
    assert_eq!(allocator(0).allocate(), None);
}

#[test]
fn page_of_an_address() {
    assert_eq!(Page::for_address(0).number, 0);
    assert_eq!(Page::for_address(0x1fff).number, 1);
    assert_eq!(Page::for_address(0x0000_7fff_ffff_ffff).number, 0x7_ffff_ffff);
    assert_eq!(Page::for_address(0xffff_8000_0000_0000).number, 0xf_fff8_0000_0000);
    assert_eq!(Page::for_address(0xdead_b000).first_addr(), 0xdead_b000);
}

#[test]
fn canonical_addresses() {
    assert!(Page::is_canonical(0));
    assert!(Page::is_canonical(0x0000_7fff_ffff_ffff));
    assert!(!Page::is_canonical(0x0000_8000_0000_0000));
    assert!(!Page::is_canonical(0xffff_7fff_ffff_ffff));
    assert!(Page::is_canonical(0xffff_8000_0000_0000));
    assert!(Page::is_canonical(u64::MAX));
}

#[test]
fn table_indices_of_a_page() {
    let page = Page::for_address(0o123_456_701_234_5670);
    assert_eq!(page.p4_index(), 0o123);
    assert_eq!(page.p3_index(), 0o456);
    assert_eq!(page.p2_index(), 0o701);
    assert_eq!(page.p1_index(), 0o234);
    let high = Page::for_address(0xffff_ffff_ffff_f000);
    assert_eq!(
        (high.p4_index(), high.p3_index(), high.p2_index(), high.p1_index()),
        (511, 511, 511, 511)
    );
}

#[test]
fn page_of_table_indices() {
    assert_eq!(Page::for_table_indices(0, 0, 0, 0).number, 0);
    assert_eq!(Page::for_table_indices(0, 0, 0, 1).number, 1);
    assert_eq!(Page::for_table_indices(0, 0, 1, 0).number, 512);
    assert_eq!(Page::for_table_indices(0, 1, 0, 0).number, 512 * 512);
    assert_eq!(Page::for_table_indices(1, 0, 0, 0).number, 512 * 512 * 512);
    assert_eq!(Page::for_table_indices(1, 2, 3, 4).number, (1 << 27) | (2 << 18) | (3 << 9) | 4);
    assert_eq!(Page::for_table_indices(511, 511, 511, 511).number, (1 << 36) - 1);
}

#[test]
fn indices_of_a_lower_half_address_lead_back_to_its_page() {
    for addr in [0u64, 0xfff, 0x1000, 0x1234_5678_9abc, 0x0000_7fff_ffff_ffff] {
        let page = Page::for_address(addr);
        let back = Page::for_table_indices(
            page.p4_index(),
            page.p3_index(),
            page.p2_index(),
            page.p1_index(),
        );
        assert_eq!(back.first_addr(), addr - addr % PAGE_SIZE);
        assert_eq!(back, page);
    }
}

#[test]
fn indices_of_an_upper_half_address_lose_the_sign_extension() {
    let addr = 0xffff_8000_0000_0000u64;
    let page = Page::for_address(addr);
    let back = Page::for_table_indices(
        page.p4_index(),
        page.p3_index(),
        page.p2_index(),
        page.p1_index(),
    );
    assert_eq!(back.first_addr(), 0x0000_8000_0000_0000);
}

#[test]
fn entry_flags_from_bits() {
    assert_eq!(EntryFlags::empty().bits(), 0);
    assert!(EntryFlags::empty().is_empty());
    assert_eq!(EntryFlags::all().bits(), ALL_FLAGS);
    assert_eq!(
        ALL_FLAGS,
        PRESENT | WRITEABLE | USER_ACCESSIBLE | WRITE_THROUGH | NO_CACHE | ACCESSED | DIRTY
            | HUGE_PAGE | GLOBAL | NO_EXECUTE
    );
    assert_eq!(EntryFlags::from_bits(PRESENT | NO_EXECUTE).unwrap().bits(), PRESENT | NO_EXECUTE);
    assert_eq!(EntryFlags::from_bits(0x200), None);
    assert_eq!(EntryFlags::from_bits(0x1000), None);
    assert_eq!(EntryFlags::from_bits_truncate(0xffff_ffff_ffff_ffff).bits(), ALL_FLAGS);
    assert_eq!(EntryFlags::from_bits_truncate(0x1203).bits(), 0x3);
    assert_eq!(flags(PRESENT).union(flags(DIRTY)).bits(), PRESENT | DIRTY);
    assert!(flags(PRESENT | WRITEABLE).contains(flags(PRESENT)));
    assert!(!flags(PRESENT).contains(flags(PRESENT | WRITEABLE)));
    assert!(flags(PRESENT).contains(EntryFlags::empty()));
}

#[test]
fn entry_holds_frame_and_flags() {
    let mut entry = Entry::new();
    assert!(entry.is_unused());
    assert_eq!(entry.target_frame(), None);
    assert!(entry.flags().is_empty());

    entry.set(Frame::new(0x1234), flags(PRESENT | WRITEABLE | NO_EXECUTE));
    assert!(!entry.is_unused());
    assert_eq!(entry.target_frame(), Some(Frame::new(0x1234)));
    assert_eq!(entry.flags().bits(), PRESENT | WRITEABLE | NO_EXECUTE);

    entry.set(Frame::new(0xff_ffff_ffff), flags(PRESENT));
    assert_eq!(entry.target_frame(), Some(Frame::new(0xff_ffff_ffff)));
    assert_eq!(entry.flags().bits(), PRESENT);

    entry.set_unused();
    assert!(entry.is_unused());
    assert_eq!(entry.target_frame(), None);
}

#[test]
fn entry_that_is_not_present_has_no_frame() {
    let mut entry = Entry::new();
    entry.set(Frame::new(7), flags(WRITEABLE | GLOBAL));
    assert!(!entry.is_unused());
    assert_eq!(entry.target_frame(), None);
    assert_eq!(entry.flags().bits(), WRITEABLE | GLOBAL);
}

#[test]
fn entry_for_frame_zero_without_flags_is_unused() {
    let mut entry = Entry::new();
    entry.set(Frame::new(7), flags(PRESENT));
    entry.set(Frame::new(0), EntryFlags::empty());
    assert!(entry.is_unused());
}

#[test]
fn new_table_is_empty() {
    let table: PageTable<Level1> = PageTable::new(0x5000);
    assert_eq!(table.address(), 0x5000);
    for idx in 0..512 {
        assert!(table.index(idx).is_unused());
    }
}

#[test]
fn zero_frees_every_slot() {
    let mut table: PageTable<Level4> = PageTable::new(P4_TABLE_MASK);
    let mut a = allocator(4);
    table.index_mut(3).set(Frame::new(9), flags(GLOBAL));
    assert!(table.next_table_create(7, &mut a).is_ok());
    assert!(table.next_table(7).is_some());
    table.zero();
    for idx in 0..512 {
        assert!(table.index(idx).is_unused());
        assert!(table.next_table(idx).is_none());
    }
    assert_eq!(table.address(), P4_TABLE_MASK);
}

#[test]
fn address_of_the_next_table() {
    let mut table: PageTable<Level4> = PageTable::new(P4_TABLE_MASK);
    let mut a = allocator(4);
    assert_eq!(table.next_table_address(5), None);
    let child = table.next_table_create(5, &mut a).unwrap();
    assert_eq!(child.address(), 0o177777_777_777_777_005_0000);
    assert_eq!(table.next_table_address(5), Some(0o177777_777_777_777_005_0000));
    assert_eq!(table.next_table_address(0), None);
    let p3 = table.next_table_mut(5).unwrap();
    let p2 = p3.next_table_create(511, &mut a).unwrap();
    assert_eq!(p2.address(), 0o177777_777_777_005_777_0000);
    let p1 = p2.next_table_create(1, &mut a).unwrap();
    assert_eq!(p1.address(), 0o177777_777_005_777_001_0000);
}

#[test]
fn addresses_of_the_tables_hold_the_indices() {
    let mut head = PageTableHead::new();
    let mut a = allocator(16);
    for (i4, i3, i2) in [(0usize, 0usize, 0usize), (1, 2, 3), (510, 511, 509), (255, 0, 256)] {
        let page = Page::for_table_indices(i4, i3, i2, 7);
        head.map_to(&page, Frame::new(1), EntryFlags::empty(), &mut a).unwrap();
        let p3 = head.get_p4().next_table(i4).unwrap();
        let p2 = p3.next_table(i3).unwrap();
        let p1 = p2.next_table(i2).unwrap();
        let (i4, i3, i2) = (i4 as u64, i3 as u64, i2 as u64);
        assert_eq!(p3.address(), P3_TABLE_MASK + (i4 << 12));
        assert_eq!(p2.address(), P2_TABLE_MASK + (i4 << 21) + (i3 << 12));
        assert_eq!(p1.address(), P1_TABLE_MASK + (i4 << 30) + (i3 << 21) + (i2 << 12));
    }
    assert_eq!(P4_TABLE_MASK, 0xffff_ffff_ffff_f000);
    assert_eq!(P3_TABLE_MASK, 0xffff_ffff_ffe0_0000);
    assert_eq!(P2_TABLE_MASK, 0xffff_ffff_c000_0000);
    assert_eq!(P1_TABLE_MASK, 0xffff_ff80_0000_0000);
}

#[test]
fn huge_or_absent_entries_lead_to_no_table() {
    let mut table: PageTable<Level4> = PageTable::new(P4_TABLE_MASK);
    table.index_mut(1).set(Frame::new(512), flags(PRESENT | HUGE_PAGE));
    table.index_mut(2).set(Frame::new(512), flags(WRITEABLE));
    assert_eq!(table.next_table_address(1), None);
    assert_eq!(table.next_table_address(2), None);
    assert!(table.next_table(1).is_none());
    assert!(table.next_table(2).is_none());
    assert!(table.next_table_mut(1).is_none());
}

#[test]
fn next_table_create_makes_a_table_once() {
    let mut table: PageTable<Level4> = PageTable::new(P4_TABLE_MASK);
    let mut a = allocator(4);
    {
        let child = table.next_table_create(9, &mut a).unwrap();
        for idx in 0..512 {
            assert!(child.index(idx).is_unused());
        }
        child.index_mut(4).set(Frame::new(3), flags(PRESENT));
    }
    assert_eq!(table.index(9).target_frame(), Some(Frame::new(0x1000)));
    assert_eq!(table.index(9).flags().bits(), PRESENT | WRITEABLE);
    {
        let again = table.next_table_create(9, &mut a).unwrap();
        assert_eq!(again.index(4).target_frame(), Some(Frame::new(3)));
    }
    // No second frame was taken for the table.
    assert_eq!(a.allocate(), Some(Frame::new(0x1001)));
}

#[test]
fn install_table_reports_what_the_allocator_gave() {
    let mut table: PageTable<Level4> = PageTable::new(P4_TABLE_MASK);
    assert_eq!(table.install_table(3, None).err(), Some(MapError::OutOfFrames));
    assert!(table.index(3).is_unused());
    assert_eq!(
        table.install_table(3, Some(Frame::new(0x100_0000_0000))).err(),
        Some(MapError::FrameOutOfRange)
    );
    assert!(table.index(3).is_unused());
    assert!(table.install_table(3, Some(Frame::new(0xff_ffff_ffff))).is_ok());
    assert_eq!(table.index(3).target_frame(), Some(Frame::new(0xff_ffff_ffff)));
}

#[test]
fn empty_hierarchy_maps_nothing() {
    let head = PageTableHead::new();
    assert_eq!(head.get_p4().address(), P4_TABLE_MASK);
    for addr in [0u64, 0x1000, 0xdead_beef, 0xffff_ffff_ffff_f123] {
        assert!(head.can_translate(&Page::for_address(addr)));
        assert_eq!(head.translate(addr), None);
        assert_eq!(head.translate_page(Page::for_address(addr)), None);
        assert!(head.can_map(&Page::for_address(addr)));
        assert!(!head.can_unmap(&Page::for_address(addr)));
    }
    assert_eq!(head.find_free_page(), None);
}

#[test]
fn map_then_translate_then_unmap() {
    let mut head = PageTableHead::new();
    let mut a = allocator(16);
    let page = Page::for_address(0x4000_1234_5000);
    let frame = Frame::new(0xabcde);
    assert!(head.can_map(&page));
    assert_eq!(head.map_to(&page, frame, EntryFlags::empty(), &mut a), Ok(()));

    assert_eq!(head.translate_page(page), Some(frame));
    for offset in [0u64, 1, 0x123, 0xfff] {
        assert_eq!(head.translate(0x4000_1234_5000 + offset), Some(0xabcde000 + offset));
    }
    // The pages next to it are not mapped.
    assert_eq!(head.translate(0x4000_1234_4fff), None);
    assert_eq!(head.translate(0x4000_1234_6000), None);

    assert!(head.can_unmap(&page));
    assert_eq!(head.unmap(page, &mut a), frame);
    assert_eq!(head.translate_page(page), None);
    for offset in [0u64, 1, 0x123, 0xfff] {
        assert_eq!(head.translate(0x4000_1234_5000 + offset), None);
    }
    assert!(!head.can_unmap(&page));
    assert!(head.can_map(&page));
}

#[test]
fn mapped_page_is_present_and_writeable() {
    let mut head = PageTableHead::new();
    let mut a = allocator(16);
    let page = Page::for_table_indices(1, 2, 3, 4);
    head.map_to(&page, Frame::new(77), flags(NO_EXECUTE | USER_ACCESSIBLE), &mut a).unwrap();
    let p1 = head
        .get_p4()
        .next_table(1)
        .unwrap()
        .next_table(2)
        .unwrap()
        .next_table(3)
        .unwrap();
    assert_eq!(p1.index(4).target_frame(), Some(Frame::new(77)));
    assert_eq!(
        p1.index(4).flags().bits(),
        PRESENT | WRITEABLE | NO_EXECUTE | USER_ACCESSIBLE
    );
    assert_eq!(p1.address(), 0o177777_777_001_002_003_0000);
}

#[test]
fn mapping_takes_three_frames_for_new_tables_and_none_for_old_ones() {
    let mut head = PageTableHead::new();
    let mut a = allocator(16);
    head.map_to(&Page::for_table_indices(0, 0, 0, 0), Frame::new(1), EntryFlags::empty(), &mut a)
        .unwrap();
    assert_eq!(a.allocate(), Some(Frame::new(0x1003)));
    head.map_to(&Page::for_table_indices(0, 0, 0, 1), Frame::new(2), EntryFlags::empty(), &mut a)
        .unwrap();
    assert_eq!(a.allocate(), Some(Frame::new(0x1004)));
    head.map_to(&Page::for_table_indices(0, 0, 1, 0), Frame::new(3), EntryFlags::empty(), &mut a)
        .unwrap();
    assert_eq!(a.allocate(), Some(Frame::new(0x1006)));
    head.map_to(&Page::for_table_indices(0, 1, 0, 0), Frame::new(4), EntryFlags::empty(), &mut a)
        .unwrap();
    assert_eq!(a.allocate(), Some(Frame::new(0x1009)));
    head.map_to(&Page::for_table_indices(1, 0, 0, 0), Frame::new(5), EntryFlags::empty(), &mut a)
        .unwrap();
    assert_eq!(a.allocate(), Some(Frame::new(0x100d)));
    for (number, frame) in [(0u64, 1u64), (1, 2), (512, 3), (512 * 512, 4), (512 * 512 * 512, 5)] {
        assert_eq!(head.translate_page(Page { number }), Some(Frame::new(frame)));
    }
}

#[test]
fn mapped_page_cannot_be_mapped_again() {
    let mut head = PageTableHead::new();
    let mut a = allocator(16);
    let page = Page::for_address(0x7000);
    assert!(head.can_map(&page));
    head.map_to(&page, Frame::new(5), EntryFlags::empty(), &mut a).unwrap();
    assert!(!head.can_map(&page));
    assert_eq!(head.translate_page(page), Some(Frame::new(5)));
    // Its neighbour in the same table can.
    assert!(head.can_map(&Page::for_address(0x8000)));
}

#[test]
fn slot_that_is_in_use_but_not_present_cannot_be_mapped() {
    let mut head = PageTableHead::new();
    let mut a = allocator(16);
    let page = Page::for_table_indices(0, 0, 0, 9);
    head.map_to(&Page::for_table_indices(0, 0, 0, 8), Frame::new(5), EntryFlags::empty(), &mut a)
        .unwrap();
    let p1 = head
        .get_p4_mut()
        .next_table_mut(0)
        .unwrap()
        .next_table_mut(0)
        .unwrap()
        .next_table_mut(0)
        .unwrap();
    p1.index_mut(9).set(Frame::new(3), flags(GLOBAL));
    assert!(!head.can_map(&page));
    assert!(!head.can_unmap(&page));
    assert_eq!(head.translate_page(page), None);
}

#[test]
fn mapping_fails_without_frames_and_maps_nothing() {
    let mut head = PageTableHead::new();
    let mut none = AreaFrameAllocator::new(0, 0, 0, 0, 0, Vec::new());
    let page = Page::for_address(0x7000);
    assert_eq!(
        head.map_to(&page, Frame::new(5), EntryFlags::empty(), &mut none),
        Err(MapError::OutOfFrames)
    );
    assert_eq!(head.translate_page(page), None);
    assert!(head.can_map(&page));
    assert_eq!(head.map(&page, EntryFlags::empty(), &mut none), Err(MapError::OutOfFrames));
    assert_eq!(head.translate_page(page), None);

    // Two frames are enough for two of the three tables.
    let mut two = allocator(2);
    assert_eq!(
        head.map_to(&page, Frame::new(5), EntryFlags::empty(), &mut two),
        Err(MapError::OutOfFrames)
    );
    assert_eq!(head.translate_page(page), None);
    assert!(head.can_map(&page));
    // The two tables stay: one more frame is enough now.
    let mut one = allocator(1);
    assert_eq!(head.map_to(&page, Frame::new(5), EntryFlags::empty(), &mut one), Ok(()));
    assert_eq!(head.translate_page(page), Some(Frame::new(5)));
}

#[test]
fn mapping_fails_on_a_frame_beyond_the_entry() {
    let mut head = PageTableHead::new();
    let far = 0xf000_0000_0000;
    let mut high = AreaFrameAllocator::new(
        far,
        far,
        far,
        far,
        far,
        vec![MemoryArea { base_addr: 0x0100_0000_0000_0000, length: 0x10_0000 }],
    );
    let page = Page::for_address(0x7000);
    assert_eq!(
        head.map_to(&page, Frame::new(5), EntryFlags::empty(), &mut high),
        Err(MapError::FrameOutOfRange)
    );
    assert_eq!(head.map(&page, EntryFlags::empty(), &mut high), Err(MapError::FrameOutOfRange));
    assert_eq!(head.translate_page(page), None);
    let mut good = allocator(8);
    assert_eq!(
        head.map_frame(&page, Some(Frame::new(0x100_0000_0000)), EntryFlags::empty(), &mut good),
        Err(MapError::FrameOutOfRange)
    );
    assert_eq!(
        head.map_frame(&page, None, EntryFlags::empty(), &mut good),
        Err(MapError::OutOfFrames)
    );
    assert_eq!(
        head.map_frame(&page, Some(Frame::new(0x42)), EntryFlags::empty(), &mut good),
        Ok(Frame::new(0x42))
    );
    assert_eq!(head.translate_page(page), Some(Frame::new(0x42)));
}

#[test]
fn map_takes_the_frame_from_the_allocator() {
    let mut head = PageTableHead::new();
    let mut a = allocator(16);
    let page = Page::for_address(0x1_0000_0000);
    assert_eq!(head.map(&page, flags(GLOBAL), &mut a), Ok(Frame::new(0x1000)));
    assert_eq!(head.translate(0x1_0000_0042), Some(0x100_0042));
}

#[test]
fn identity_map_maps_a_frame_to_itself() {
    let mut head = PageTableHead::new();
    let mut a = allocator(16);
    let frame = Frame::for_address(0xfee0_0000);
    assert_eq!(head.identity_map(frame, EntryFlags::empty(), &mut a), Ok(()));
    assert_eq!(head.translate(0xfee0_0abc), Some(0xfee0_0abc));
    assert_eq!(simple_id_map(&mut head, Frame::new(0x80), &mut a), Ok(()));
    assert_eq!(head.translate(0x80123), Some(0x80123));
    assert_eq!(head.translate_page(Page { number: 0x80 }), Some(Frame::new(0x80)));
}

#[test]
fn unmap_leaves_other_pages_and_the_tables() {
    let mut head = PageTableHead::new();
    let mut a = allocator(16);
    let first = Page::for_table_indices(3, 3, 3, 3);
    let second = Page::for_table_indices(3, 3, 3, 4);
    head.map_to(&first, Frame::new(10), EntryFlags::empty(), &mut a).unwrap();
    head.map_to(&second, Frame::new(11), EntryFlags::empty(), &mut a).unwrap();
    assert_eq!(head.unmap(Page::for_address(first.first_addr()), &mut a), Frame::new(10));
    assert_eq!(head.translate_page(first), None);
    assert_eq!(head.translate_page(second), Some(Frame::new(11)));
    assert_eq!(head.unmap(Page::for_address(second.first_addr()), &mut a), Frame::new(11));
    assert_eq!(head.translate_page(second), None);
    // The tables on the way are still there.
    assert!(head
        .get_p4()
        .next_table(3)
        .unwrap()
        .next_table(3)
        .unwrap()
        .next_table(3)
        .is_some());
}

#[test]
fn mapping_one_page_leaves_the_others() {
    let mut head = PageTableHead::new();
    let mut a = allocator(32);
    let pages = [
        (Page::for_address(0x1000), Frame::new(100)),
        (Page::for_address(0x2000), Frame::new(101)),
        (Page::for_address(0x20_0000), Frame::new(102)),
        (Page::for_address(0x4000_0000), Frame::new(103)),
        (Page::for_address(0x80_0000_0000), Frame::new(104)),
        (Page::for_address(0xffff_ffff_8000_0000), Frame::new(105)),
    ];
    for (count, (page, frame)) in pages.iter().enumerate() {
        head.map_to(page, *frame, EntryFlags::empty(), &mut a).unwrap();
        for (index, (other, mapped)) in pages.iter().enumerate() {
            let expected = if index <= count { Some(*mapped) } else { None };
            assert_eq!(head.translate_page(*other), expected);
        }
    }
    head.unmap(pages[2].0, &mut a);
    for (index, (other, mapped)) in pages.iter().enumerate() {
        let expected = if index == 2 { None } else { Some(*mapped) };
        assert_eq!(head.translate_page(*other), expected);
    }
}

#[test]
fn one_gigabyte_page() {
    let mut head = PageTableHead::new();
    let mut a = allocator(16);
    let p3 = head.get_p4_mut().next_table_create(0, &mut a).unwrap();
    p3.index_mut(5).set(Frame::new(262144), flags(PRESENT | HUGE_PAGE));
    let page = Page::for_table_indices(0, 5, 1, 2);
    assert!(head.can_translate(&page));
    assert_eq!(head.translate_page(page), Some(Frame::new(262658)));
    assert_eq!(
        head.translate(page.first_addr() + 0x321),
        Some(262658 * PAGE_SIZE + 0x321)
    );
    assert_eq!(
        head.translate_page(Page::for_table_indices(0, 5, 0, 0)),
        Some(Frame::new(262144))
    );
    assert_eq!(
        head.translate_page(Page::for_table_indices(0, 5, 511, 511)),
        Some(Frame::new(262144 + 512 * 512 - 1))
    );
    assert_eq!(head.translate_page(Page::for_table_indices(0, 6, 1, 2)), None);
    // Nothing can be mapped or unmapped inside the large page.
    assert!(!head.can_map(&page));
    assert!(!head.can_unmap(&page));
}

#[test]
fn misplaced_one_gigabyte_page() {
    let mut head = PageTableHead::new();
    let mut a = allocator(16);
    let p3 = head.get_p4_mut().next_table_create(0, &mut a).unwrap();
    p3.index_mut(5).set(Frame::new(262144 + 1), flags(PRESENT | HUGE_PAGE));
    p3.index_mut(6).set(Frame::new(2 * 262144), flags(PRESENT | HUGE_PAGE));
    assert!(!head.can_translate(&Page::for_table_indices(0, 5, 1, 2)));
    assert!(!head.can_translate(&Page::for_table_indices(0, 5, 0, 0)));
    assert!(head.can_translate(&Page::for_table_indices(0, 6, 1, 2)));
    assert!(head.can_translate(&Page::for_table_indices(0, 7, 1, 2)));
    assert!(head.can_translate(&Page::for_table_indices(1, 5, 1, 2)));
}

#[test]
fn two_megabyte_page() {
    let mut head = PageTableHead::new();
    let mut a = allocator(16);
    let p3 = head.get_p4_mut().next_table_create(2, &mut a).unwrap();
    let p2 = p3.next_table_create(3, &mut a).unwrap();
    p2.index_mut(4).set(Frame::new(1024), flags(PRESENT | HUGE_PAGE | WRITEABLE));
    p2.index_mut(5).set(Frame::new(1025), flags(PRESENT | HUGE_PAGE));
    let page = Page::for_table_indices(2, 3, 4, 7);
    assert!(head.can_translate(&page));
    assert_eq!(head.translate_page(page), Some(Frame::new(1031)));
    assert!(!head.can_translate(&Page::for_table_indices(2, 3, 5, 7)));
    assert_eq!(head.translate_page(Page::for_table_indices(2, 3, 6, 7)), None);
}

#[test]
fn large_page_flag_without_present_maps_nothing_but_blocks_mapping() {
    let mut head = PageTableHead::new();
    let mut a = allocator(16);
    let p3 = head.get_p4_mut().next_table_create(0, &mut a).unwrap();
    p3.index_mut(5).set(Frame::new(3), flags(HUGE_PAGE));
    let page = Page::for_table_indices(0, 5, 1, 2);
    assert!(head.can_translate(&page));
    assert_eq!(head.translate_page(page), None);
    assert!(!head.can_map(&page));
}

#[test]
fn first_free_page_is_found_in_the_tables_that_exist() {
    let mut head = PageTableHead::new();
    let mut a = allocator(64);
    assert_eq!(head.find_free_page(), None);
    head.map_to(&Page::for_table_indices(2, 0, 1, 0), Frame::new(1), EntryFlags::empty(), &mut a)
        .unwrap();
    // The table that holds the mapped slot has 511 free slots.
    assert_eq!(head.find_free_page(), Some(Page::for_table_indices(2, 0, 1, 1)));
    head.map_to(&Page::for_table_indices(2, 0, 0, 511), Frame::new(2), EntryFlags::empty(), &mut a)
        .unwrap();
    assert_eq!(head.find_free_page(), Some(Page::for_table_indices(2, 0, 0, 0)));
    head.map_to(&Page::for_table_indices(1, 7, 7, 0), Frame::new(3), EntryFlags::empty(), &mut a)
        .unwrap();
    assert_eq!(head.find_free_page(), Some(Page::for_table_indices(1, 7, 7, 1)));
}

#[test]
fn alloc_any_maps_the_first_free_page() {
    let mut head = PageTableHead::new();
    let mut a = allocator(64);
    head.map_to(&Page::for_table_indices(0, 0, 0, 0), Frame::new(1), EntryFlags::empty(), &mut a)
        .unwrap();
    let first = alloc_any(&mut head, &mut a).unwrap();
    assert_eq!(first, Page::for_table_indices(0, 0, 0, 1));
    assert_eq!(head.translate_page(first), Some(Frame::new(0x1003)));
    let second = alloc_any(&mut head, &mut a).unwrap();
    assert_eq!(second, Page::for_table_indices(0, 0, 0, 2));
    assert_eq!(head.translate_page(second), Some(Frame::new(0x1004)));
    assert_eq!(head.find_free_page(), Some(Page::for_table_indices(0, 0, 0, 3)));
}

#[test]
fn alloc_any_fills_a_table_and_then_finds_nothing() {
    let mut head = PageTableHead::new();
    let mut a = allocator(1024);
    head.map_to(&Page::for_table_indices(0, 0, 0, 0), Frame::new(1), EntryFlags::empty(), &mut a)
        .unwrap();
    for index in 1..512 {
        assert_eq!(alloc_any(&mut head, &mut a), Ok(Page::for_table_indices(0, 0, 0, index)));
    }
    assert_eq!(head.find_free_page(), None);
}

#[test]
fn alloc_any_without_frames_maps_nothing() {
    let mut head = PageTableHead::new();
    let mut a = allocator(3);
    head.map_to(&Page::for_table_indices(0, 0, 0, 0), Frame::new(1), EntryFlags::empty(), &mut a)
        .unwrap();
    assert_eq!(alloc_any(&mut head, &mut a), Err(MapError::OutOfFrames));
    assert_eq!(head.find_free_page(), Some(Page::for_table_indices(0, 0, 0, 1)));
    assert_eq!(head.translate_page(Page::for_table_indices(0, 0, 0, 1)), None);
}

/// The level-1 entry of `page`, as the number that the processor reads.
fn leaf_bits(head: &PageTableHead, page: Page) -> u64 {
    head.get_p4()
        .next_table(page.p4_index())
        .unwrap()
        .next_table(page.p3_index())
        .unwrap()
        .next_table(page.p2_index())
        .unwrap()
        .index(page.p1_index())
        .bits()
}

#[test]
fn identity_map_into_tables_that_exist_needs_no_frame() {
    let mut head = PageTableHead::new();
    let mut a = allocator(3);
    assert_eq!(head.identity_map(Frame::new(0x80), EntryFlags::empty(), &mut a), Ok(()));
    assert_eq!(a.allocate(), None);
    assert_eq!(head.identity_map(Frame::new(0x81), flags(NO_CACHE), &mut a), Ok(()));
    assert_eq!(simple_id_map(&mut head, Frame::new(0x82), &mut a), Ok(()));
    assert_eq!(head.translate_page(Page { number: 0x81 }), Some(Frame::new(0x81)));
    assert_eq!(head.translate_page(Page { number: 0x82 }), Some(Frame::new(0x82)));
    assert_eq!(leaf_bits(&head, Page { number: 0x81 }), 0x81000 | NO_CACHE | PRESENT | WRITEABLE);
    // A frame whose page needs a new table is not mapped without frames.
    assert_eq!(
        head.identity_map(Frame::new(0x200), EntryFlags::empty(), &mut a),
        Err(MapError::OutOfFrames)
    );
    assert_eq!(head.translate_page(Page { number: 0x200 }), None);
}

#[test]
fn simple_id_map_stores_present_and_writeable_only() {
    let mut head = PageTableHead::new();
    let mut a = allocator(16);
    assert_eq!(simple_id_map(&mut head, Frame::new(0xfee00), &mut a), Ok(()));
    assert_eq!(leaf_bits(&head, Page { number: 0xfee00 }), 0xfee0_0000 | PRESENT | WRITEABLE);
}

#[test]
fn map_and_map_frame_store_the_flags_they_are_given() {
    let mut head = PageTableHead::new();
    let mut a = allocator(16);
    let page = Page::for_table_indices(3, 2, 1, 0);
    assert_eq!(head.map(&page, flags(USER_ACCESSIBLE), &mut a), Ok(Frame::new(0x1000)));
    assert_eq!(leaf_bits(&head, page), 0x100_0000 | USER_ACCESSIBLE | PRESENT | WRITEABLE);
    let next = Page::for_table_indices(3, 2, 1, 1);
    assert_eq!(
        head.map_frame(&next, Some(Frame::new(0x55)), flags(NO_EXECUTE | GLOBAL), &mut a),
        Ok(Frame::new(0x55))
    );
    assert_eq!(leaf_bits(&head, next), 0x55000 | NO_EXECUTE | GLOBAL | PRESENT | WRITEABLE);
}

#[test]
fn alloc_any_stores_present_and_writeable_only() {
    let mut head = PageTableHead::new();
    let mut a = allocator(16);
    head.map_to(&Page::for_table_indices(0, 0, 0, 0), Frame::new(1), flags(GLOBAL), &mut a)
        .unwrap();
    let page = alloc_any(&mut head, &mut a).unwrap();
    assert_eq!(page, Page::for_table_indices(0, 0, 0, 1));
    assert_eq!(leaf_bits(&head, page), 0x100_3000 | PRESENT | WRITEABLE);
}
