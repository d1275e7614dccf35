//! Physical memory: frames, and what hands them out.

use vstd::prelude::*;

pub mod area_frame_allocator;
pub mod paging;

verus! {

/// Size of a frame and of a page, in bytes.
pub const PAGE_SIZE: u64 = 4096;

/// Number of frames in a 64-bit address space.
pub const FRAME_COUNT: u64 = 0x10_0000_0000_0000;

/// A frame of physical memory, named by its index: the frame of an address is
/// the address divided by the page size.
#[derive(Debug, Clone, Copy, PartialEq, Eq, PartialOrd, Ord, Structural)]
pub struct Frame {
    pub number: u64,
}

impl Frame {
    /// True if the frame lies in the 64-bit address space.
    pub open spec fn addressable(&self) -> bool {
        self.number < FRAME_COUNT
    }

    /// Address of the frame's first byte.
    pub open spec fn spec_first_addr(&self) -> int {
        self.number * PAGE_SIZE
    }

    /// Address of the frame's last byte.
    pub open spec fn spec_last_addr(&self) -> int {
        self.number * PAGE_SIZE + PAGE_SIZE - 1
    }

    /// True if `addr` is the address of a byte of the frame.
    pub open spec fn spec_contains_addr(&self, addr: int) -> bool {
        self.spec_first_addr() <= addr <= self.spec_last_addr()
    }

    /// The frame with this number.
    pub fn new(number: u64) -> (frame: Frame)
        ensures
            frame.number == number,
    {
        Frame { number }
    }

    /// The frame that holds the byte at `addr`.
    pub fn for_address(addr: u64) -> (frame: Frame)
        ensures
            frame.number == addr / PAGE_SIZE,
            frame.addressable(),
            frame.spec_contains_addr(addr as int),
    {
        Frame { number: addr / PAGE_SIZE }
    }

    /// Address of the frame's first byte.
    pub fn first_addr(&self) -> (addr: u64)
        requires
            self.addressable(),
        ensures
            addr == self.spec_first_addr(),
    {
        self.number * PAGE_SIZE
    }

    /// Address of the frame's last byte.
    pub fn last_addr(&self) -> (addr: u64)
        requires
            self.addressable(),
        ensures
            addr == self.spec_last_addr(),
    {
        self.number * PAGE_SIZE + (PAGE_SIZE - 1)
    }

    /// True if `addr` is the address of a byte of the frame.
    pub fn contains_addr(&self, addr: u64) -> (b: bool)
        ensures
            b == self.spec_contains_addr(addr as int),
    {
        addr / PAGE_SIZE == self.number
    }

    /// The frame that follows this one.
    pub fn next(&self) -> (frame: Frame)
        requires
            self.number < u64::MAX,
        ensures
            frame.number == self.number + 1,
    {
        Frame { number: self.number + 1 }
    }
}

/// The frame of an address holds that address: the address lies between the
/// frame's first and last address.
pub proof fn lemma_frame_for_address(addr: u64)
    ensures
        (Frame { number: addr / PAGE_SIZE }).spec_contains_addr(addr as int),
        (Frame { number: addr / PAGE_SIZE }).spec_first_addr() <= addr,
        addr <= (Frame { number: addr / PAGE_SIZE }).spec_last_addr(),
{
}

/// A frame ends where the next one starts.
pub proof fn lemma_frame_next_adjacent(frame: Frame)
    requires
        frame.number < u64::MAX,
    ensures
        (Frame { number: (frame.number + 1) as u64 }).spec_first_addr() == frame.spec_last_addr()
            + 1,
{
}

/// A supply of free frames.
pub trait FrameAllocator {
    /// A free frame, or `None` when the supply is used up.
    fn allocate(&mut self) -> Option<Frame>;

    /// Takes `frame` back.
    fn dealloc(&mut self, frame: Frame);
}

} // verus!
