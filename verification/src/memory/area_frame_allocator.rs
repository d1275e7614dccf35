//! An allocator that walks through the memory areas that the firmware
//! reported, lowest first, and steps over the frames that are in use from the
//! start: the kernel image, the boot information and one frame of device
//! registers. Every frame that it hands out lies in an area and outside the
//! reserved ranges, and no frame is handed out twice.

use vstd::prelude::*;
use crate::memory::{Frame, FrameAllocator, FRAME_COUNT, PAGE_SIZE};

verus! {

/// A range of usable memory: `length` bytes from `base_addr` on.
#[derive(Debug, Clone, Copy, PartialEq, Eq, Structural)]
pub struct MemoryArea {
    pub base_addr: u64,
    pub length: u64,
}

impl MemoryArea {
    /// True if the area does not reach beyond the address space.
    pub open spec fn fits(&self) -> bool {
        self.base_addr + self.length <= u64::MAX + 1
    }

    /// Number of the frame that holds the area's first byte.
    pub open spec fn first_frame(&self) -> int {
        self.base_addr as int / PAGE_SIZE as int
    }

    /// Number of the frame that holds the area's last byte.
    pub open spec fn last_frame(&self) -> int {
        (self.base_addr + self.length - 1) / PAGE_SIZE as int
    }

    /// True if the area holds a byte of the frame with this number.
    pub open spec fn touches(&self, frame: int) -> bool {
        self.length > 0 && self.first_frame() <= frame <= self.last_frame()
    }

    /// True if the area reaches a cursor at `cursor`: it is not empty and
    /// its last frame lies at the cursor or behind it.
    pub open spec fn reaches(&self, cursor: int) -> bool {
        self.length > 0 && self.last_frame() >= cursor
    }

    /// The frame that holds the area's first byte.
    pub fn get_first_frame(&self) -> (frame: Frame)
        ensures
            frame.number == self.first_frame(),
    {
        Frame::for_address(self.base_addr)
    }

    /// The frame that holds the area's last byte.
    pub fn get_last_frame(&self) -> (frame: Frame)
        requires
            self.length > 0,
            self.fits(),
        ensures
            frame.number == self.last_frame(),
    {
        Frame::for_address(self.base_addr + (self.length - 1))
    }
}

/// True if no area reaches beyond the address space.
pub open spec fn all_fit(areas: Seq<MemoryArea>) -> bool {
    forall|k: int| 0 <= k < areas.len() ==> (#[trigger] areas[k]).fits()
}

/// A range of frames that are never handed out, both ends included. A range
/// whose last frame lies before its first is empty.
pub struct Reserved {
    pub first: u64,
    pub last: u64,
}

/// The frames that hold a byte of the memory from `start` up to, but not
/// including, `end`.
pub open spec fn reserved_range(start: u64, end: u64) -> Reserved {
    if start < end {
        Reserved { first: start / PAGE_SIZE, last: ((end - 1) / PAGE_SIZE as int) as u64 }
    } else {
        Reserved { first: 1, last: 0 }
    }
}

/// The first and the last of the frames that hold a byte of the memory from
/// `start` up to, but not including, `end`.
fn reserved_frames(start: u64, end: u64) -> (frames: (Frame, Frame))
    ensures
        (Reserved { first: frames.0.number, last: frames.1.number }) == reserved_range(start, end),
        frames.1.number < FRAME_COUNT,
{
    if start < end {
        (Frame::for_address(start), Frame::for_address(end - 1))
    } else {
        (Frame::new(1), Frame::new(0))
    }
}

impl Reserved {
    /// True if the frame with this number lies in the range.
    pub open spec fn holds(&self, frame: int) -> bool {
        self.first <= frame <= self.last
    }
}

/// What an allocator is made of.
pub struct AllocatorState {
    /// The frame that the next call hands out.
    pub cursor: u64,
    /// The area that the cursor walks through; `None` when every area is used up.
    pub current: Option<MemoryArea>,
    pub areas: Seq<MemoryArea>,
    pub kernel: Reserved,
    pub multiboot: Reserved,
    pub apic: u64,
}

impl AllocatorState {
    /// True if the frame with this number is never handed out.
    pub open spec fn reserved(&self, frame: int) -> bool {
        self.kernel.holds(frame) || self.multiboot.holds(frame) || frame == self.apic
    }

    /// True if the frame with this number lies in one of the areas.
    pub open spec fn usable(&self, frame: int) -> bool {
        exists|k: int| 0 <= k < self.areas.len() && (#[trigger] self.areas[k]).touches(frame)
    }

    /// True if the frame with this number may be handed out: it lies in an
    /// area and is not reserved.
    pub open spec fn free(&self, frame: int) -> bool {
        self.usable(frame) && !self.reserved(frame)
    }

    /// True if no frame from `from` on may be handed out.
    pub open spec fn exhausted_from(&self, from: int) -> bool {
        forall|frame: int| from <= frame ==> !#[trigger] self.free(frame)
    }

    /// True if `to` is the first frame from `from` on that may be handed out.
    pub open spec fn first_free(&self, from: int, to: int) -> bool {
        &&& from <= to
        &&& self.free(to)
        &&& forall|frame: int| from <= frame < to ==> !#[trigger] self.free(frame)
    }

    /// True if the areas and the reserved ranges stay within what the
    /// arithmetic on frames can hold.
    pub open spec fn bounded(&self) -> bool {
        &&& all_fit(self.areas)
        &&& self.cursor <= FRAME_COUNT
        &&& self.kernel.last < FRAME_COUNT
        &&& self.multiboot.last < FRAME_COUNT
        &&& self.apic < FRAME_COUNT
    }

    /// True if area `k` is the one to walk through from `cursor`: of the
    /// areas that reach the cursor it has the lowest base address, and it is
    /// the first such area.
    pub open spec fn selects(&self, cursor: int, k: int) -> bool {
        &&& 0 <= k < self.areas.len()
        &&& self.areas[k].reaches(cursor)
        &&& forall|j: int|
            0 <= j < self.areas.len() && (#[trigger] self.areas[j]).reaches(cursor) ==> {
                &&& self.areas[k].base_addr <= self.areas[j].base_addr
                &&& self.areas[j].base_addr == self.areas[k].base_addr ==> k <= j
            }
    }

    /// True if the allocator is in order: while an area is current, it is the
    /// area that `selects` names for the cursor, and the cursor stands on a
    /// frame of it that is not reserved; once none is current, no frame from
    /// the cursor on may be handed out.
    pub open spec fn safe(&self) -> bool {
        &&& self.bounded()
        &&& match self.current {
            Some(area) => {
                &&& exists|k: int| #[trigger] self.selects(self.cursor as int, k) && self.areas[k] == area
                &&& area.touches(self.cursor as int)
                &&& !self.reserved(self.cursor as int)
            },
            None => self.exhausted_from(self.cursor as int),
        }
    }

    /// True if this state hands out the frame under its cursor and `after`
    /// is what it leaves: the same areas and reserved frames, with the cursor
    /// on the next frame that may be handed out.
    pub open spec fn hands_out(&self, after: AllocatorState) -> bool {
        &&& self.safe()
        &&& self.free(self.cursor as int)
        &&& self.same_ground(after)
        &&& after.settled_from(self.cursor + 1)
    }

    /// True if `other` has the areas and the reserved frames of this state.
    pub open spec fn same_ground(&self, other: AllocatorState) -> bool {
        &&& other.areas == self.areas
        &&& other.kernel == self.kernel
        &&& other.multiboot == self.multiboot
        &&& other.apic == self.apic
    }

    /// True if the allocator stands where a search from `from` on ends: on
    /// the first frame from `from` on that may be handed out, or, where there
    /// is no such frame, on `from` and without an area.
    pub open spec fn settled_from(&self, from: int) -> bool {
        &&& self.safe()
        &&& if self.exhausted_from(from) {
            self.current is None && self.cursor == from
        } else {
            self.current is Some && self.first_free(from, self.cursor as int)
        }
    }
}

/// The frames between a cursor and the first frame of the area that is
/// chosen for it lie in no area.
pub proof fn lemma_nothing_before_the_area(state: AllocatorState, cursor: int, k: int)
    requires
        all_fit(state.areas),
        0 <= cursor,
        state.selects(cursor, k),
    ensures
        forall|frame: int| cursor <= frame < state.areas[k].first_frame() ==> !#[trigger] state.usable(frame),
{
    assert forall|frame: int| cursor <= frame < state.areas[k].first_frame() implies !#[trigger] state.usable(
        frame,
    ) by {
        if state.usable(frame) {
            let j = choose|j: int| 0 <= j < state.areas.len() && (#[trigger] state.areas[j]).touches(frame);
            assert(state.areas[j].reaches(cursor));
        }
    }
}

/// The area that is chosen for a cursor is the one for every later cursor
/// that it reaches.
pub proof fn lemma_selection_lasts(state: AllocatorState, cursor: int, later: int, k: int)
    requires
        state.selects(cursor, k),
        cursor <= later,
        state.areas[k].reaches(later),
    ensures
        state.selects(later, k),
{
    assert forall|j: int| 0 <= j < state.areas.len() && (#[trigger] state.areas[j]).reaches(later) implies {
        &&& state.areas[k].base_addr <= state.areas[j].base_addr
        &&& state.areas[j].base_addr == state.areas[k].base_addr ==> k <= j
    } by {
        assert(state.areas[j].reaches(cursor));
    }
}

/// Once no area reaches a cursor, no frame from the cursor on lies in an area.
pub proof fn lemma_nothing_reaches(state: AllocatorState, cursor: int)
    requires
        forall|j: int| 0 <= j < state.areas.len() ==> !(#[trigger] state.areas[j]).reaches(cursor),
    ensures
        forall|frame: int| cursor <= frame ==> !#[trigger] state.usable(frame),
{
    assert forall|frame: int| cursor <= frame implies !#[trigger] state.usable(frame) by {
        if state.usable(frame) {
            let j = choose|j: int| 0 <= j < state.areas.len() && (#[trigger] state.areas[j]).touches(frame);
            assert(state.areas[j].reaches(cursor));
        }
    }
}

/// The frames that an allocator in order hands out go up: after a frame, the
/// cursor stands on a later one.
pub proof fn lemma_frames_go_up(before: AllocatorState, after: AllocatorState)
    requires
        before.same_ground(after),
        after.settled_from(before.cursor + 1),
    ensures
        before.cursor < after.cursor,
{
}

/// True if each state but the last hands out a frame and leaves the state
/// that follows it: the states that an allocator goes through while it is
/// called again and again.
pub open spec fn run(states: Seq<AllocatorState>) -> bool {
    forall|k: int| 0 <= k < states.len() - 1 ==> (#[trigger] states[k]).hands_out(states[k + 1])
}

/// Over any number of calls, every frame that is handed out lies in an area
/// and outside the reserved ranges of the allocator that was made, a later
/// call gives a frame with a greater number, and so no frame is given twice.
pub proof fn lemma_frames_of_a_run(states: Seq<AllocatorState>, i: int, j: int)
    requires
        run(states),
        0 <= i < j < states.len(),
    ensures
        states[0].same_ground(states[i]),
        states[0].same_ground(states[j]),
        states[0].usable(states[i].cursor as int),
        !states[0].reserved(states[i].cursor as int),
        states[i].cursor < states[j].cursor,
    decreases i + j,
{
    assert(states[j - 1].hands_out(states[j]));
    if i > 0 {
        lemma_frames_of_a_run(states, i - 1, i);
    }
    if i < j - 1 {
        lemma_frames_of_a_run(states, i, j - 1);
    }
    assert(states[i].hands_out(states[i + 1]));
    assert(states[0].areas == states[i].areas);
}

/// Where the cursor stands and which area is current.
struct Position {
    next_free_frame: Frame,
    current_area: Option<MemoryArea>,
}

/// An allocator that hands out the frames of memory areas one after the
/// other and never takes one back.
pub struct AreaFrameAllocator {
    position: Position,
    areas: Vec<MemoryArea>,
    kernel_start: Frame,
    kernel_end: Frame,
    multiboot_start: Frame,
    multiboot_end: Frame,
    apic_frame: Frame,
}

impl View for AreaFrameAllocator {
    type V = AllocatorState;

    closed spec fn view(&self) -> AllocatorState {
        self.at(self.position)
    }
}

impl AreaFrameAllocator {
    /// The state of this allocator with the cursor and the area of `position`.
    spec fn at(&self, position: Position) -> AllocatorState {
        AllocatorState {
            cursor: position.next_free_frame.number,
            current: position.current_area,
            areas: self.areas@,
            kernel: Reserved { first: self.kernel_start.number, last: self.kernel_end.number },
            multiboot: Reserved {
                first: self.multiboot_start.number,
                last: self.multiboot_end.number,
            },
            apic: self.apic_frame.number,
        }
    }

    #[verifier::type_invariant]
    spec fn in_order(self) -> bool {
        self@.safe()
    }

    /// An allocator for `memory_areas` that keeps off every frame that holds
    /// a byte of the kernel image, which lies from `kernel_start` up to, but
    /// not including, `kernel_end`, or of the boot information, which lies
    /// from `multiboot_start` up to `multiboot_end` in the same way, and off
    /// the frame of the device registers at `apic_loc`. The cursor stands on
    /// the first frame that may be handed out.
    pub fn new(
        kernel_start: u64,
        kernel_end: u64,
        multiboot_start: u64,
        multiboot_end: u64,
        apic_loc: u64,
        memory_areas: Vec<MemoryArea>,
    ) -> (allocator: AreaFrameAllocator)
        requires
            all_fit(memory_areas@),
        ensures
            allocator@.areas == memory_areas@,
            allocator@.kernel == reserved_range(kernel_start, kernel_end),
            allocator@.multiboot == reserved_range(multiboot_start, multiboot_end),
            allocator@.apic == apic_loc / PAGE_SIZE,
            allocator@.settled_from(0),
    {
        let kernel = reserved_frames(kernel_start, kernel_end);
        let multiboot = reserved_frames(multiboot_start, multiboot_end);
        let ghost areas = memory_areas@;
        let mut allocator = AreaFrameAllocator {
            position: Position { next_free_frame: Frame::new(FRAME_COUNT), current_area: None },
            areas: memory_areas,
            kernel_start: kernel.0,
            kernel_end: kernel.1,
            multiboot_start: multiboot.0,
            multiboot_end: multiboot.1,
            apic_frame: Frame::for_address(apic_loc),
        };
        proof {
            assert forall|j: int| 0 <= j < areas.len() implies !(#[trigger] areas[j]).reaches(
                FRAME_COUNT as int,
            ) by {
                assert(areas[j].fits());
            }
            lemma_nothing_reaches(allocator@, FRAME_COUNT as int);
        }
        let position = allocator.settle(0);
        allocator.position = position;
        allocator
    }

    /// The area with the lowest base address among those that reach
    /// `cursor`, and of several such areas the first.
    fn choose_next_area(&self, cursor: u64) -> (chosen: Option<usize>)
        ensures
            match chosen {
                Some(k) => self@.selects(cursor as int, k as int),
                None => forall|j: int|
                    0 <= j < self@.areas.len() ==> !(#[trigger] self@.areas[j]).reaches(cursor as int),
            },
    {
        proof {
            use_type_invariant(self);
        }
        let mut best: Option<usize> = None;
        let mut i: usize = 0;
        while i < self.areas.len()
            invariant
                i <= self.areas.len(),
                all_fit(self.areas@),
                match best {
                    Some(k) => {
                        &&& k < i
                        &&& self.areas[k as int].reaches(cursor as int)
                        &&& forall|j: int|
                            0 <= j < i && (#[trigger] self.areas[j]).reaches(cursor as int) ==> {
                                &&& self.areas[k as int].base_addr <= self.areas[j].base_addr
                                &&& self.areas[j].base_addr == self.areas[k as int].base_addr ==> k
                                    <= j
                            }
                    },
                    None => forall|j: int|
                        0 <= j < i ==> !(#[trigger] self.areas[j]).reaches(cursor as int),
                },
            decreases self.areas.len() - i,
        {
            let area = &self.areas[i];
            assert(area.fits());
            if area.length > 0 && area.get_last_frame().number >= cursor {
                match best {
                    Some(k) => {
                        if area.base_addr < self.areas[k].base_addr {
                            best = Some(i);
                        }
                    },
                    None => {
                        best = Some(i);
                    },
                }
            }
            i += 1;
        }
        best
    }

    /// True if the frame with this number is never handed out.
    fn is_reserved(&self, frame: u64) -> (reserved: bool)
        ensures
            reserved == self@.reserved(frame as int),
    {
        (frame >= self.kernel_start.number && frame <= self.kernel_end.number) || (frame
            >= self.multiboot_start.number && frame <= self.multiboot_end.number) || frame
            == self.apic_frame.number
    }

    /// The first frame from `cursor` on that is not reserved.
    fn skip_reserved(&self, cursor: u64) -> (next: u64)
        requires
            cursor <= FRAME_COUNT,
        ensures
            cursor <= next <= FRAME_COUNT,
            !self@.reserved(next as int),
            forall|frame: int| cursor <= frame < next ==> self@.reserved(frame),
    {
        proof {
            use_type_invariant(self);
        }
        let mut next = cursor;
        loop
            invariant
                self@.bounded(),
                cursor <= next <= FRAME_COUNT,
                forall|frame: int| cursor <= frame < next ==> self@.reserved(frame),
            ensures
                cursor <= next <= FRAME_COUNT,
                !self@.reserved(next as int),
                forall|frame: int| cursor <= frame < next ==> self@.reserved(frame),
            decreases FRAME_COUNT - next,
        {
            if next >= self.kernel_start.number && next <= self.kernel_end.number {
                next = self.kernel_end.next().number;
            } else if next >= self.multiboot_start.number && next <= self.multiboot_end.number {
                next = self.multiboot_end.next().number;
            } else if next == self.apic_frame.number {
                next = self.apic_frame.next().number;
            } else {
                break ;
            }
        }
        next
    }

    /// Where the allocator stands after a search from `start` on: the area
    /// for the cursor is chosen, the cursor is moved up to the area's first
    /// frame and over reserved frames, and where that leaves the area, the
    /// search goes on from there.
    fn settle(&self, start: u64) -> (position: Position)
        requires
            start <= FRAME_COUNT,
        ensures
            self.at(position).settled_from(start as int),
    {
        proof {
            use_type_invariant(self);
        }
        let mut cursor = start;
        loop
            invariant
                self@.bounded(),
                start <= cursor <= FRAME_COUNT,
                forall|frame: int| start <= frame < cursor ==> !#[trigger] self@.free(frame),
            decreases FRAME_COUNT - cursor,
        {
            match self.choose_next_area(cursor) {
                None => {
                    proof {
                        lemma_nothing_reaches(self@, cursor as int);
                        assert(self.at(Position { next_free_frame: Frame { number: start }, current_area: None }).exhausted_from(start as int)) by {
                            assert forall|frame: int| start <= frame implies !#[trigger] self@.free(frame) by {
                                if frame >= cursor {
                                    assert(!self@.usable(frame));
                                }
                            }
                            assert forall|frame: int| start <= frame implies !#[trigger] self.at(Position { next_free_frame: Frame { number: start }, current_area: None }).free(frame) by {
                                assert(!self@.free(frame));
                            }
                        }
                    }
                    return Position { next_free_frame: Frame::new(start), current_area: None };
                },
                Some(k) => {
                    let area = self.areas[k];
                    assert(area.fits());
                    let first = area.get_first_frame().number;
                    let last = area.get_last_frame().number;
                    let entered = if cursor < first {
                        first
                    } else {
                        cursor
                    };
                    let next = self.skip_reserved(entered);
                    proof {
                        lemma_nothing_before_the_area(self@, cursor as int, k as int);
                        assert forall|frame: int| start <= frame < next implies !#[trigger] self@.free(frame) by {
                            if frame >= cursor && frame < entered {
                                assert(!self@.usable(frame));
                            }
                        }
                    }
                    if next <= last {
                        let position = Position { next_free_frame: Frame::new(next), current_area: Some(area) };
                        proof {
                            let state = self.at(position);
                            lemma_selection_lasts(self@, cursor as int, next as int, k as int);
                            assert(state.selects(next as int, k as int));
                            assert(state.areas[k as int].touches(next as int));
                            assert(state.free(next as int));
                            assert forall|frame: int| start <= frame < next implies !#[trigger] state.free(frame) by {
                                assert(!self@.free(frame));
                            }
                        }
                        return position;
                    }
                    cursor = next;
                },
            }
        }
    }
}

impl FrameAllocator for AreaFrameAllocator {
    /// The frame under the cursor, unless every area is used up. The cursor
    /// goes on to the next frame that may be handed out: one frame on in the
    /// area, or on to where a search from there ends.
    fn allocate(&mut self) -> (frame: Option<Frame>)
        ensures
            old(self)@.safe(),
            frame is None <==> old(self)@.exhausted_from(old(self)@.cursor as int),
            frame is None ==> final(self)@ == old(self)@,
            frame matches Some(f) ==> {
                &&& f.number == old(self)@.cursor
                &&& old(self)@.usable(f.number as int)
                &&& !old(self)@.reserved(f.number as int)
                &&& old(self)@.hands_out(final(self)@)
            },
    {
        proof {
            use_type_invariant(&*self);
        }
        let area = match self.position.current_area {
            None => {
                return None;
            },
            Some(area) => area,
        };
        let frame = self.position.next_free_frame;
        proof {
            let k = choose|k: int| #[trigger] self@.selects(self@.cursor as int, k) && self@.areas[k] == area;
            assert(self@.areas[k].touches(frame.number as int));
            assert(self@.free(frame.number as int));
        }
        assert(area.fits()) by {
            let k = choose|k: int| #[trigger] self@.selects(self@.cursor as int, k) && self@.areas[k] == area;
            assert(self@.areas[k].fits());
        }
        let next = frame.next();
        let position = if next.number <= area.get_last_frame().number && !self.is_reserved(next.number) {
            let position = Position { next_free_frame: next, current_area: Some(area) };
            proof {
                let k = choose|k: int| #[trigger] self@.selects(self@.cursor as int, k) && self@.areas[k] == area;
                lemma_selection_lasts(self@, self@.cursor as int, next.number as int, k);
                let state = self.at(position);
                assert(state.selects(next.number as int, k));
                assert(state.areas[k].touches(next.number as int));
                assert(state.free(next.number as int));
            }
            position
        } else {
            self.settle(next.number)
        };
        self.position = position;
        Some(frame)
    }

    /// Frames are not taken back: the call changes nothing.
    fn dealloc(&mut self, frame: Frame)
        ensures
            final(self)@ == old(self)@,
    {
    }
}

} // verus!
