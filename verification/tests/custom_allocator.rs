use boros::memory::paging::entry::EntryFlags;
use boros::memory::paging::page::Page;
use boros::memory::paging::table::MapError;
use boros::memory::paging::PageTableHead;
use boros::memory::{Frame, FrameAllocator};

/// Hands out the frames of a list and remembers what was handed back.
struct ListAllocator {
    frames: Vec<u64>,
    returned: Vec<Frame>,
}

impl ListAllocator {
    fn new(frames: &[u64]) -> ListAllocator {
        ListAllocator { frames: frames.iter().rev().copied().collect(), returned: Vec::new() }
    }
}

impl FrameAllocator for ListAllocator {
    fn allocate(&mut self) -> Option<Frame> {
        self.frames.pop().map(Frame::new)
    }

    fn dealloc(&mut self, frame: Frame) {
        self.returned.push(frame);
    }
}

#[test]
fn tables_lie_in_the_frames_that_the_allocator_gives() {
    let mut head = PageTableHead::new();
    let mut allocator = ListAllocator::new(&[70, 50, 60, 99]);
    let page = Page::for_table_indices(1, 2, 3, 4);
    assert_eq!(head.map_to(&page, Frame::new(7), EntryFlags::empty(), &mut allocator), Ok(()));
    let p4 = head.get_p4();
    assert_eq!(p4.index(1).target_frame(), Some(Frame::new(70)));
    let p3 = p4.next_table(1).unwrap();
    assert_eq!(p3.index(2).target_frame(), Some(Frame::new(50)));
    let p2 = p3.next_table(2).unwrap();
    assert_eq!(p2.index(3).target_frame(), Some(Frame::new(60)));
    assert_eq!(allocator.allocate(), Some(Frame::new(99)));
}

#[test]
fn unmap_hands_the_frame_back() {
    let mut head = PageTableHead::new();
    let mut allocator = ListAllocator::new(&[1, 2, 3, 4]);
    let page = Page::for_address(0x5000);
    assert_eq!(head.map(&page, EntryFlags::empty(), &mut allocator), Ok(Frame::new(1)));
    assert!(allocator.returned.is_empty());
    assert_eq!(head.unmap(page, &mut allocator), Frame::new(1));
    assert_eq!(allocator.returned, vec![Frame::new(1)]);
    // The frames of the tables are not handed back.
    assert_eq!(allocator.frames, Vec::<u64>::new());
}

#[test]
fn frame_beyond_the_entry_for_the_second_table() {
    let mut head = PageTableHead::new();
    let mut allocator = ListAllocator::new(&[10, 0x100_0000_0000, 11, 12]);
    let page = Page::for_address(0x5000);
    assert_eq!(
        head.map_to(&page, Frame::new(7), EntryFlags::empty(), &mut allocator),
        Err(MapError::FrameOutOfRange)
    );
    assert_eq!(head.translate_page(page), None);
    // The first table was made; the frame that did not fit is lost.
    assert_eq!(head.get_p4().index(0).target_frame(), Some(Frame::new(10)));
    assert!(head.get_p4().next_table(0).unwrap().index(0).is_unused());
    assert_eq!(head.map_to(&page, Frame::new(7), EntryFlags::empty(), &mut allocator), Ok(()));
    assert_eq!(head.translate_page(page), Some(Frame::new(7)));
    assert_eq!(allocator.allocate(), None);
}
